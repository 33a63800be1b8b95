//! The cartridge: an iNES image parsed into its header and its two ROMs.

use vstd::prelude::*;

verus! {

/// Length of the header that starts every image.
pub const HEADER_LEN: usize = 16;

/// Bytes in one bank of program ROM.
pub const PRG_BANK: usize = 16384;

/// Bytes in one bank of character ROM.
pub const CHR_BANK: usize = 8192;

/// The smallest program ROM that the bus maps: it fills 0x8000 to 0xFFFF.
pub const PRG_WINDOW: usize = 0x8000;

/// Why an image is not a cartridge. No partial cartridge is ever produced.
#[derive(Debug, Clone, Copy, PartialEq, Eq, Structural)]
pub enum FormatError {
    /// The image is shorter than a header.
    NoHeader,
    /// The header declares no program ROM.
    NoProgram,
    /// The image is shorter than the program and character ROM that its header
    /// declares.
    Truncated,
}

/// The 16-byte header of an iNES image, with the sizes and the mapper number
/// worked out.
#[derive(Debug, Clone)]
pub struct NESHeader {
    /// The four bytes of the identifying tag.
    pub nes: [u8; 4],
    /// Program ROM in bytes: the header's bank count times 16 KiB.
    pub prg_rom_sz: usize,
    /// Character ROM in bytes: the header's bank count times 8 KiB.
    pub chr_rom_sz: usize,
    pub flag_6: u8,
    pub flag_7: u8,
    /// Program RAM in bytes: the header's count times 8 KiB.
    pub prg_ram_sz: usize,
    pub flag_9: u8,
    pub flag_10: u8,
    pub mapper: u8,
}

/// A cartridge: the header and the two ROMs.
#[derive(Debug, Clone)]
pub struct NESCart {
    pub header: NESHeader,
    pub prg_rom: Vec<u8>,
    pub chr_rom: Vec<u8>,
}

/// What the bus and the picture unit see of a cartridge.
pub ghost struct CartModel {
    pub mapper: u8,
    pub prg: Seq<u8>,
    pub chr: Seq<u8>,
}

impl View for NESCart {
    type V = CartModel;

    open spec fn view(&self) -> CartModel {
        CartModel { mapper: self.header.mapper, prg: self.prg_rom@, chr: self.chr_rom@ }
    }
}

/// The mapper number: the high nibble of flags 6 is its low nibble, the high
/// nibble of flags 7 its high nibble.
pub open spec fn mapper_number(flag_6: u8, flag_7: u8) -> u8 {
    (flag_6 >> 4) | (flag_7 & 0xF0)
}

/// Bytes of program ROM that the header of `raw` declares.
pub open spec fn declared_prg(raw: Seq<u8>) -> int {
    raw[4] as int * PRG_BANK as int
}

/// Bytes of character ROM that the header of `raw` declares.
pub open spec fn declared_chr(raw: Seq<u8>) -> int {
    raw[5] as int * CHR_BANK as int
}

/// Why `raw` is refused, or `None` where it is a cartridge.
pub open spec fn format_error(raw: Seq<u8>) -> Option<FormatError> {
    if raw.len() < HEADER_LEN {
        Some(FormatError::NoHeader)
    } else if raw[4] == 0 {
        Some(FormatError::NoProgram)
    } else if raw.len() < HEADER_LEN + declared_prg(raw) + declared_chr(raw) {
        Some(FormatError::Truncated)
    } else {
        None
    }
}

/// The program ROM of the image `raw`: the bytes after the header, and once
/// more where they are fewer than the 32 KiB that the bus maps.
pub open spec fn prg_image(raw: Seq<u8>) -> Seq<u8> {
    let bank = raw.subrange(HEADER_LEN as int, HEADER_LEN + declared_prg(raw));
    if declared_prg(raw) < PRG_WINDOW {
        bank + bank
    } else {
        bank
    }
}

/// The character ROM of the image `raw`: the bytes after the program ROM.
pub open spec fn chr_image(raw: Seq<u8>) -> Seq<u8> {
    raw.subrange(
        HEADER_LEN + declared_prg(raw),
        HEADER_LEN + declared_prg(raw) + declared_chr(raw),
    )
}

impl CartModel {
    /// The program ROM is a whole number of 16 KiB banks and at least 32 KiB;
    /// the character ROM is a whole number of 8 KiB banks.
    pub open spec fn wf(self) -> bool {
        &&& self.prg.len() % PRG_BANK as nat == 0
        &&& self.prg.len() >= PRG_WINDOW
        &&& self.chr.len() % CHR_BANK as nat == 0
    }
}

impl NESHeader {
    /// Whether this is the header that the first 16 bytes of `raw` spell.
    pub open spec fn describes(self, raw: Seq<u8>) -> bool {
        &&& self.nes@ == raw.subrange(0, 4)
        &&& self.prg_rom_sz == declared_prg(raw)
        &&& self.chr_rom_sz == declared_chr(raw)
        &&& self.flag_6 == raw[6]
        &&& self.flag_7 == raw[7]
        &&& self.prg_ram_sz == raw[8] as int * 8192
        &&& self.flag_9 == raw[9]
        &&& self.flag_10 == raw[10]
        &&& self.mapper == mapper_number(raw[6], raw[7])
    }

    /// Reads the header off the front of an image. The one thing asked of the
    /// image is that it holds the header's 16 bytes.
    pub fn parse(raw: &[u8]) -> (r: Result<NESHeader, FormatError>)
        ensures
            raw@.len() < HEADER_LEN ==> r == Err::<NESHeader, _>(FormatError::NoHeader),
            raw@.len() >= HEADER_LEN ==> r is Ok && r->Ok_0.describes(raw@),
    {
        if raw.len() < HEADER_LEN {
            return Err(FormatError::NoHeader);
        }
        let nes: [u8; 4] = [raw[0], raw[1], raw[2], raw[3]];
        let flag_6: u8 = raw[6];
        let flag_7: u8 = raw[7];
        let header = NESHeader {
            nes,
            prg_rom_sz: raw[4] as usize * PRG_BANK,
            chr_rom_sz: raw[5] as usize * CHR_BANK,
            flag_6,
            flag_7,
            prg_ram_sz: raw[8] as usize * 8192,
            flag_9: raw[9],
            flag_10: raw[10],
            mapper: (flag_6 >> 4) | (flag_7 & 0xF0),
        };
        assert(header.nes@ =~= raw@.subrange(0, 4));
        Ok(header)
    }
}

/// Appends `raw[from..to]` to `into`.
fn append_range(into: &mut Vec<u8>, raw: &[u8], from: usize, to: usize)
    requires
        from <= to <= raw@.len(),
    ensures
        final(into)@ == old(into)@ + raw@.subrange(from as int, to as int),
{
    let mut i: usize = from;
    while i < to
        invariant
            from <= i <= to <= raw@.len(),
            into@ == old(into)@ + raw@.subrange(from as int, i as int),
        decreases to - i,
    {
        into.push(raw[i]);
        i += 1;
    }
}

impl NESCart {
    /// Parses an iNES image: the header, then the program ROM, then the
    /// character ROM. A program ROM of one bank is mirrored to fill the 32 KiB
    /// that the bus maps; one of no bank cannot fill them, and is refused.
    /// Bytes after the character ROM are ignored.
    pub fn parse(raw: &[u8]) -> (r: Result<NESCart, FormatError>)
        ensures
            match r {
                Ok(cart) => {
                    &&& format_error(raw@) is None
                    &&& cart.header.describes(raw@)
                    &&& cart.prg_rom@ == prg_image(raw@)
                    &&& cart.chr_rom@ == chr_image(raw@)
                    &&& cart@.wf()
                },
                Err(e) => format_error(raw@) == Some(e),
            },
    {
        let header = match NESHeader::parse(raw) {
            Ok(header) => header,
            Err(e) => {
                return Err(e);
            },
        };
        if header.prg_rom_sz == 0 {
            return Err(FormatError::NoProgram);
        }
        let prg_end: usize = HEADER_LEN + header.prg_rom_sz;
        let chr_end: usize = prg_end + header.chr_rom_sz;
        if raw.len() < chr_end {
            return Err(FormatError::Truncated);
        }
        let mut prg_rom: Vec<u8> = Vec::new();
        append_range(&mut prg_rom, raw, HEADER_LEN, prg_end);
        if header.prg_rom_sz < PRG_WINDOW {
            append_range(&mut prg_rom, raw, HEADER_LEN, prg_end);
        }
        let mut chr_rom: Vec<u8> = Vec::new();
        append_range(&mut chr_rom, raw, prg_end, chr_end);
        Ok(NESCart { header, prg_rom, chr_rom })
    }
}

} // verus!
