//! Pacing: how many instructions are due at a given moment, and how long to
//! sleep until the next one is.
//!
//! The scheduler runs at a fixed rate. It keeps an accumulator of time that has
//! passed and has not been paid for with an instruction yet, so that a late
//! wake-up is made up for at the next one and the rate does not drift.

use vstd::arithmetic::div_mod::lemma_fundamental_div_mod;
use vstd::prelude::*;

verus! {

/// Nanoseconds in a second.
pub const SECOND: u64 = 1_000_000_000;

/// What the loop is to do next: execute `steps` instructions, then sleep for
/// `sleep_ns` nanoseconds.
#[derive(Debug, Clone, Copy, PartialEq, Eq, Structural)]
pub struct Pace {
    pub steps: u64,
    pub sleep_ns: u64,
}

/// A fixed-rate scheduler.
#[derive(Debug, Clone, Copy)]
pub struct Pacer {
    /// Nanoseconds that one instruction may take. Never 0.
    budget: u64,
    /// Nanoseconds that have passed and are not paid for yet. Less than the
    /// budget.
    accumulator: u64,
    /// When the scheduler was last asked.
    previous: u64,
}

/// The time from `previous` to `now`, or 0 where the clock went backwards.
pub open spec fn elapsed(previous: u64, now: u64) -> int {
    if now >= previous {
        now - previous
    } else {
        0
    }
}

/// `clock_ticks::precise_time_ns`: the system clock, in nanoseconds since an
/// epoch of its own choosing. Nothing is claimed of the value: two calls may
/// give any two numbers. (The crate multiplies the clock's whole seconds by a
/// billion in a `u64`, which stays in range for every date before the year
/// 2554.)
#[verifier::external_body]
fn precise_time_ns() -> (now: u64) {
    clock_ticks::precise_time_ns()
}

impl Pacer {
    /// The budget is at least a nanosecond and at most a second, and less than
    /// a budget is left over.
    #[verifier::type_invariant]
    spec fn inv(self) -> bool {
        0 < self.budget <= SECOND && self.accumulator < self.budget
    }

    /// Nanoseconds per instruction.
    pub closed spec fn spec_budget(self) -> u64 {
        self.budget
    }

    /// Nanoseconds passed and not paid for.
    pub closed spec fn spec_accumulator(self) -> u64 {
        self.accumulator
    }

    /// The time of the last call.
    pub closed spec fn spec_previous(self) -> u64 {
        self.previous
    }

    /// The time that is to be paid for at `now`: what was left over, and what
    /// has passed since.
    pub open spec fn owed(self, now: u64) -> int {
        self.spec_accumulator() + elapsed(self.spec_previous(), now)
    }

    /// Whether `next` and `pace` are what a call at `now` leaves and returns:
    /// one instruction is due for every whole budget of the time owed, the
    /// rest stays in the accumulator, and the sleep lasts until the next
    /// instruction is due.
    pub open spec fn paced(self, now: u64, next: Pacer, pace: Pace) -> bool {
        &&& next.spec_budget() == self.spec_budget()
        &&& next.spec_previous() == now
        &&& pace.steps == self.owed(now) / self.spec_budget() as int
        &&& next.spec_accumulator() == self.owed(now) % self.spec_budget() as int
        &&& pace.sleep_ns == self.spec_budget() - next.spec_accumulator()
    }

    /// A scheduler for `rate` instructions per second, started at the time
    /// `now`. There is none for a rate of 0, nor for one above a billion,
    /// whose budget would be less than a nanosecond.
    pub fn new(rate: u64, now: u64) -> (pacer: Option<Pacer>)
        ensures
            pacer is Some <==> 0 < rate <= SECOND,
            pacer matches Some(p) ==> {
                &&& p.spec_budget() == SECOND / rate
                &&& p.spec_accumulator() == 0
                &&& p.spec_previous() == now
            },
    {
        if rate == 0 || rate > SECOND {
            None
        } else {
            let budget: u64 = SECOND / rate;
            assert(budget > 0 && budget <= SECOND) by (nonlinear_arith)
                requires
                    0 < rate <= SECOND,
                    budget == SECOND / rate,
            ;
            Some(Pacer { budget, accumulator: 0, previous: now })
        }
    }

    #[verifier::when_used_as_spec(spec_budget)]
    pub fn budget(self) -> (ns: u64)
        ensures
            ns == self.spec_budget(),
            0 < ns <= SECOND,
    {
        proof {
            use_type_invariant(&self);
        }
        self.budget
    }

    #[verifier::when_used_as_spec(spec_accumulator)]
    pub fn accumulator(self) -> (ns: u64)
        ensures
            ns == self.spec_accumulator(),
            ns < self.spec_budget(),
    {
        proof {
            use_type_invariant(&self);
        }
        self.accumulator
    }

    /// Tells the scheduler the time and asks what is due. No time is lost or
    /// made up: what is owed is what the due instructions take and what
    /// stays in the accumulator.
    pub fn advance(&mut self, now: u64) -> (pace: Pace)
        ensures
            old(self).paced(now, *final(self), pace),
            old(self).owed(now) == pace.steps * old(self).spec_budget()
                + final(self).spec_accumulator(),
            0 < pace.sleep_ns <= old(self).spec_budget(),
    {
        proof {
            use_type_invariant(&*self);
        }
        let passed: u64 = if now >= self.previous {
            now - self.previous
        } else {
            0
        };
        let owed: u128 = self.accumulator as u128 + passed as u128;
        let budget: u128 = self.budget as u128;
        let steps: u128 = owed / budget;
        let left: u128 = owed % budget;
        proof {
            lemma_fundamental_div_mod(owed as int, budget as int);
            assert(steps <= u64::MAX) by (nonlinear_arith)
                requires
                    owed == budget * steps + left,
                    0 <= left,
                    0 <= steps,
                    budget >= 1,
                    budget == 1 ==> owed <= u64::MAX,
                    owed <= u64::MAX + SECOND,
            ;
            assert(budget * steps == steps * budget) by (nonlinear_arith);
        }
        self.accumulator = left as u64;
        self.previous = now;
        Pace { steps: steps as u64, sleep_ns: self.budget - self.accumulator }
    }

    /// Reads the system clock and asks what is due at that time.
    pub fn poll(&mut self) -> (pace: Pace)
        ensures
            exists|now: u64| old(self).paced(now, *final(self), pace),
            0 < pace.sleep_ns <= old(self).spec_budget(),
    {
        let now: u64 = precise_time_ns();
        let pace = self.advance(now);
        assert(old(self).paced(now, *self, pace));
        pace
    }
}

} // verus!
