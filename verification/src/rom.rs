//! iNES cartridge image parsing.
use vstd::prelude::*;
use vstd::slice::slice_subrange;
use vstd::slice::slice_to_vec;
use vstd::string::StringExecFns;
use crate::text::{decimal, hex_byte, push_decimal, push_hex_byte};

verus! {

pub const HEADER_LEN: usize = 16;

pub const TRAINER_LEN: usize = 512;

pub const PRG_ROM_BANK_LEN: usize = 16384;

pub const CHR_ROM_BANK_LEN: usize = 8192;

/// Nametable mirroring declared by the cartridge header.
#[derive(Debug, Clone, Copy, PartialEq, Eq, Structural)]
pub enum Mirroring {
    Horizontal,
    Vertical,
    FourScreen,
}

/// A parsed iNES image.
#[derive(Debug, Clone, PartialEq, Eq)]
pub struct Rom {
    pub prg_rom: Vec<u8>,
    pub chr_rom: Vec<u8>,
    pub mapper: u8,
    pub prg_banks: u8,
    pub chr_banks: u8,
    pub mirroring: Mirroring,
    pub has_trainer: bool,
}

/// Why a byte image is not an acceptable iNES cartridge.
#[allow(inconsistent_fields)]
#[derive(Debug, Clone, PartialEq, Eq)]
pub enum RomError {
    /// The image could not be read; the text says why.
    Io(String),
    FileTooSmall { len: usize },
    InvalidMagic { actual: [u8; 4] },
    UnsupportedMapper(u8),
    Truncated { section: &'static str, expected_at_least: usize, actual: usize },
}

/// The four magic bytes `N`, `E`, `S`, 0x1A.
pub open spec fn magic_ok(bytes: Seq<u8>) -> bool {
    &&& bytes[0] == 0x4e
    &&& bytes[1] == 0x45
    &&& bytes[2] == 0x53
    &&& bytes[3] == 0x1a
}

/// Mapper number: high nibble from flags 7, low nibble from the high nibble of flags 6.
pub open spec fn header_mapper(bytes: Seq<u8>) -> u8 {
    (bytes[7] & 0xf0) | (bytes[6] >> 4)
}

pub open spec fn header_mirroring(flags6: u8) -> Mirroring {
    if flags6 & 0x08 != 0 {
        Mirroring::FourScreen
    } else if flags6 & 0x01 != 0 {
        Mirroring::Vertical
    } else {
        Mirroring::Horizontal
    }
}

pub open spec fn header_has_trainer(flags6: u8) -> bool {
    flags6 & 0x04 != 0
}

/// Offset of PRG ROM: the header, then the trainer when present.
pub open spec fn prg_start(bytes: Seq<u8>) -> int {
    HEADER_LEN + if header_has_trainer(bytes[6]) { TRAINER_LEN as int } else { 0 }
}

/// Offset of CHR ROM, right after the PRG banks.
pub open spec fn chr_start(bytes: Seq<u8>) -> int {
    prg_start(bytes) + bytes[4] * PRG_ROM_BANK_LEN
}

/// Length of a complete image.
pub open spec fn expected_len(bytes: Seq<u8>) -> int {
    chr_start(bytes) + bytes[5] * CHR_ROM_BANK_LEN
}

/// The error, if any, that parsing `bytes` reports; checks come in this order.
pub open spec fn parse_error(bytes: Seq<u8>) -> Option<RomError> {
    if bytes.len() < HEADER_LEN {
        Some(RomError::FileTooSmall { len: bytes.len() as usize })
    } else if !magic_ok(bytes) {
        Some(RomError::InvalidMagic { actual: [bytes[0], bytes[1], bytes[2], bytes[3]] })
    } else if header_mapper(bytes) != 0 {
        Some(RomError::UnsupportedMapper(header_mapper(bytes)))
    } else if bytes.len() < prg_start(bytes) {
        Some(
            RomError::Truncated {
                section: "trainer",
                expected_at_least: prg_start(bytes) as usize,
                actual: bytes.len() as usize,
            },
        )
    } else if bytes.len() < chr_start(bytes) {
        Some(
            RomError::Truncated {
                section: "PRG ROM",
                expected_at_least: chr_start(bytes) as usize,
                actual: bytes.len() as usize,
            },
        )
    } else if bytes.len() < expected_len(bytes) {
        Some(
            RomError::Truncated {
                section: "CHR ROM",
                expected_at_least: expected_len(bytes) as usize,
                actual: bytes.len() as usize,
            },
        )
    } else {
        None
    }
}

/// The cartridge that a well-formed image describes.
pub open spec fn parsed_rom_matches(rom: Rom, bytes: Seq<u8>) -> bool {
    &&& rom.prg_rom@ == bytes.subrange(prg_start(bytes), chr_start(bytes))
    &&& rom.chr_rom@ == bytes.subrange(chr_start(bytes), expected_len(bytes))
    &&& rom.mapper == header_mapper(bytes)
    &&& rom.prg_banks == bytes[4]
    &&& rom.chr_banks == bytes[5]
    &&& rom.mirroring == header_mirroring(bytes[6])
    &&& rom.has_trainer == header_has_trainer(bytes[6])
}

impl Rom {
    /// Parses an iNES image held in memory.
    pub fn from_bytes(bytes: &[u8]) -> (r: Result<Rom, RomError>)
        ensures
            r is Ok <==> parse_error(bytes@) is None,
            r matches Ok(rom) ==> parsed_rom_matches(rom, bytes@),
            r matches Err(e) ==> parse_error(bytes@) == Some(e),
    {
        if bytes.len() < HEADER_LEN {
            return Err(RomError::FileTooSmall { len: bytes.len() });
        }
        let actual_magic = [bytes[0], bytes[1], bytes[2], bytes[3]];
        if !(bytes[0] == 0x4e && bytes[1] == 0x45 && bytes[2] == 0x53 && bytes[3] == 0x1a) {
            return Err(RomError::InvalidMagic { actual: actual_magic });
        }
        let prg_banks = bytes[4];
        let chr_banks = bytes[5];
        let flags6 = bytes[6];
        let flags7 = bytes[7];
        let mapper = (flags7 & 0xf0) | (flags6 >> 4);
        if mapper != 0 {
            return Err(RomError::UnsupportedMapper(mapper));
        }
        let mirroring = if flags6 & 0x08 != 0 {
            Mirroring::FourScreen
        } else if flags6 & 0x01 != 0 {
            Mirroring::Vertical
        } else {
            Mirroring::Horizontal
        };
        let has_trainer = flags6 & 0x04 != 0;
        let trainer_len: usize = if has_trainer { TRAINER_LEN } else { 0 };
        let prg_start: usize = HEADER_LEN + trainer_len;
        let prg_len: usize = prg_banks as usize * PRG_ROM_BANK_LEN;
        let chr_start: usize = prg_start + prg_len;
        let chr_len: usize = chr_banks as usize * CHR_ROM_BANK_LEN;
        let expected_len: usize = chr_start + chr_len;
        if bytes.len() < prg_start {
            return Err(
                RomError::Truncated {
                    section: "trainer",
                    expected_at_least: prg_start,
                    actual: bytes.len(),
                },
            );
        }
        if bytes.len() < chr_start {
            return Err(
                RomError::Truncated {
                    section: "PRG ROM",
                    expected_at_least: chr_start,
                    actual: bytes.len(),
                },
            );
        }
        if bytes.len() < expected_len {
            return Err(
                RomError::Truncated {
                    section: "CHR ROM",
                    expected_at_least: expected_len,
                    actual: bytes.len(),
                },
            );
        }
        let prg_rom = slice_to_vec(slice_subrange(bytes, prg_start, chr_start));
        let chr_rom = slice_to_vec(slice_subrange(bytes, chr_start, expected_len));
        Ok(Rom { prg_rom, chr_rom, mapper, prg_banks, chr_banks, mirroring, has_trainer })
    }
}

/// The four magic bytes as `{:02X?}` shows them: `[4E, 45, 53, 1A]`.
pub open spec fn magic_text(actual: [u8; 4]) -> Seq<char> {
    "["@ + hex_byte(actual[0]) + ", "@ + hex_byte(actual[1]) + ", "@ + hex_byte(actual[2]) + ", "@
        + hex_byte(actual[3]) + "]"@
}

impl RomError {
    /// The error as a sentence for the user.
    pub fn message(&self) -> (r: String)
        ensures
            r@ == match self {
                RomError::Io(e) => "failed to read ROM: "@ + e@,
                RomError::FileTooSmall { len } => "ROM is too small to contain an iNES header: "@
                    + decimal(*len as nat) + " bytes"@,
                RomError::InvalidMagic { actual } => "invalid iNES magic: expected NES<EOF>, got "@
                    + magic_text(*actual),
                RomError::UnsupportedMapper(m) => "mapper "@ + decimal(*m as nat)
                    + " is not supported in the first stage"@,
                RomError::Truncated { section, expected_at_least, actual } =>
                    "ROM is truncated while reading "@ + section@ + ": expected at least "@
                    + decimal(*expected_at_least as nat) + " bytes, got "@ + decimal(*actual as nat),
            },
    {
        match self {
            RomError::Io(e) => {
                let mut s = String::from_str("failed to read ROM: ");
                s.append(e.as_str());
                s
            },
            RomError::FileTooSmall { len } => {
                let mut s = String::from_str("ROM is too small to contain an iNES header: ");
                push_decimal(&mut s, *len as u64);
                s.append(" bytes");
                s
            },
            RomError::InvalidMagic { actual } => {
                let mut s = String::from_str("invalid iNES magic: expected NES<EOF>, got [");
                push_hex_byte(&mut s, actual[0]);
                s.append(", ");
                push_hex_byte(&mut s, actual[1]);
                s.append(", ");
                push_hex_byte(&mut s, actual[2]);
                s.append(", ");
                push_hex_byte(&mut s, actual[3]);
                s.append("]");
                proof {
                    reveal_strlit("invalid iNES magic: expected NES<EOF>, got [");
                    reveal_strlit("invalid iNES magic: expected NES<EOF>, got ");
                    reveal_strlit("[");
                    assert("invalid iNES magic: expected NES<EOF>, got ["@ =~= "invalid iNES magic: expected NES<EOF>, got "@
                        + "["@);
                    assert(s@ =~= "invalid iNES magic: expected NES<EOF>, got "@ + magic_text(*actual));
                }
                s
            },
            RomError::UnsupportedMapper(m) => {
                let mut s = String::from_str("mapper ");
                push_decimal(&mut s, *m as u64);
                s.append(" is not supported in the first stage");
                s
            },
            RomError::Truncated { section, expected_at_least, actual } => {
                let mut s = String::from_str("ROM is truncated while reading ");
                s.append(section);
                s.append(": expected at least ");
                push_decimal(&mut s, *expected_at_least as u64);
                s.append(" bytes, got ");
                push_decimal(&mut s, *actual as u64);
                s
            },
        }
    }
}

} // verus!
