//! Save states: what one holds, the three slots, the checks made before one is
//! loaded, and where each slot lives on disk. Reading and writing the files is
//! done outside the library.
use crate::apu::ApuRegisters;
use crate::bus::BusState;
use crate::cpu::CpuState;
use crate::ppu::{PpuState, FRAMEBUFFER_SIZE};
use crate::text::{decimal, push_decimal};
use vstd::prelude::*;
use vstd::string::StringExecFns;

verus! {

/// The save-state format this library writes and accepts.
pub const SAVE_VERSION: u32 = 3;

/// The directory that holds the save-state files.
pub const SAVE_DIR: &'static str = "saves";

/// A whole machine at one moment, with the format version and the ROM it belongs to.
#[derive(Clone, Debug, PartialEq)]
pub struct SaveState {
    pub version: u32,
    pub rom_name: String,
    pub cpu: CpuState,
    pub bus: BusState,
    pub ppu: PpuState,
    pub apu: ApuRegisters,
}

#[derive(Debug, Clone, PartialEq, Eq)]
pub enum SaveStateError {
    InvalidSlot(u8),
    IncompatibleVersion { expected: u32, actual: u32 },
    RomMismatch { expected: String, actual: String },
    /// The save-state file at this path does not exist.
    MissingFile(String),
    Io(String),
    Codec(String),
}

/// A save state that a running machine can take: the nametable memory holds
/// 2 KiB, the frame is a whole frame, and the beam counters leave room to count on.
pub open spec fn restorable(state: SaveState) -> bool {
    &&& state.ppu.vram@.len() >= 0x800
    &&& state.ppu.framebuffer@.len() == FRAMEBUFFER_SIZE
    &&& state.ppu.dot < 0xffff
    &&& state.ppu.scanline < 0x7fff
}

impl SaveState {
    /// Whether a running machine can take this state.
    pub fn is_restorable(&self) -> (r: bool)
        ensures
            r == restorable(*self),
    {
        self.ppu.vram.len() >= 0x800 && self.ppu.framebuffer.len() == FRAMEBUFFER_SIZE
            && self.ppu.dot < 0xffff && self.ppu.scanline < 0x7fff
    }
}

/// The slots are 1, 2 and 3.
pub open spec fn valid_slot(slot: u8) -> bool {
    1 <= slot <= 3
}

pub fn validate_slot(slot: u8) -> (r: Result<(), SaveStateError>)
    ensures
        r is Ok <==> valid_slot(slot),
        r is Err ==> r == Err::<(), SaveStateError>(SaveStateError::InvalidSlot(slot)),
{
    if 1 <= slot && slot <= 3 {
        Ok(())
    } else {
        Err(SaveStateError::InvalidSlot(slot))
    }
}

/// Checks that a save state has this library's format and belongs to the ROM
/// named `rom_name`; the version is checked first.
pub fn validate_state(state: &SaveState, rom_name: &str) -> (r: Result<(), SaveStateError>)
    ensures
        r is Ok <==> state.version == SAVE_VERSION && state.rom_name@ == rom_name@,
        state.version != SAVE_VERSION ==> r == Err::<(), SaveStateError>(
            SaveStateError::IncompatibleVersion { expected: SAVE_VERSION, actual: state.version },
        ),
        state.version == SAVE_VERSION && state.rom_name@ != rom_name@ ==> (r matches Err(
            SaveStateError::RomMismatch { expected, actual },
        ) && expected@ == rom_name@ && actual@ == state.rom_name@),
{
    if state.version != SAVE_VERSION {
        return Err(
            SaveStateError::IncompatibleVersion { expected: SAVE_VERSION, actual: state.version },
        );
    }
    let expected = String::from_str(rom_name);
    if state.rom_name != expected {
        return Err(SaveStateError::RomMismatch { expected, actual: state.rom_name.clone() });
    }
    Ok(())
}

/// What `std::path::Path::file_stem` gives for the path `path`, as text: the
/// last component without its extension, or nothing when the path has no file name.
pub uninterp spec fn path_file_stem(path: Seq<char>) -> Option<Seq<char>>;

/// Calls `std::path::Path::file_stem` on `path`. Claimed: the result is the one
/// named `path_file_stem(path)`; a path given as text always has a stem that is text.
#[verifier::external_body]
fn file_stem(path: &str) -> (r: Option<String>)
    ensures
        match r {
            Some(s) => path_file_stem(path@) == Some(s@),
            None => path_file_stem(path@) is None,
        },
{
    std::path::Path::new(path).file_stem().and_then(|stem| stem.to_str()).map(|stem| stem.to_string())
}

/// The digit of a slot number.
pub open spec fn slot_digit(slot: u8) -> Seq<char> {
    decimal(slot as nat)
}

/// The file of slot `slot` for a ROM whose file stem is `stem`, under `SAVE_DIR`.
pub open spec fn save_file_text(stem: Seq<char>, slot: u8) -> Seq<char> {
    "saves/"@ + stem + ".slot"@ + slot_digit(slot) + ".state"@
}

/// The save file of slot `slot` for a ROM whose file stem is `stem`.
pub fn save_file_path(stem: &str, slot: u8) -> (r: Result<String, SaveStateError>)
    ensures
        r is Ok <==> valid_slot(slot),
        r matches Ok(p) ==> p@ == save_file_text(stem@, slot),
        r is Err ==> r == Err::<String, SaveStateError>(SaveStateError::InvalidSlot(slot)),
{
    match validate_slot(slot) {
        Err(e) => Err(e),
        Ok(()) => {
            let mut path = String::from_str(SAVE_DIR);
            path.append("/");
            path.append(stem);
            path.append(".slot");
            push_decimal(&mut path, slot as u64);
            path.append(".state");
            proof {
                reveal_strlit("saves");
                reveal_strlit("/");
                reveal_strlit("saves/");
                assert("saves"@ + "/"@ =~= "saves/"@);
                assert(path@ =~= save_file_text(stem@, slot));
            }
            Ok(path)
        },
    }
}

/// The stem a ROM path gives its save files: its file stem, or "rom" when it has none.
pub open spec fn rom_stem(rom_path: Seq<char>) -> Seq<char> {
    match path_file_stem(rom_path) {
        Some(stem) => stem,
        None => "rom"@,
    }
}

/// The save file of slot `slot` for the ROM at `rom_path`: `saves/<stem>.slot<n>.state`.
pub fn save_path_for_rom(rom_path: &str, slot: u8) -> (r: Result<String, SaveStateError>)
    ensures
        r is Ok <==> valid_slot(slot),
        r matches Ok(p) ==> p@ == save_file_text(rom_stem(rom_path@), slot),
        r is Err ==> r == Err::<String, SaveStateError>(SaveStateError::InvalidSlot(slot)),
{
    match validate_slot(slot) {
        Err(e) => Err(e),
        Ok(()) => match file_stem(rom_path) {
            Some(stem) => save_file_path(stem.as_str(), slot),
            None => save_file_path("rom", slot),
        },
    }
}

impl SaveStateError {
    /// The error as a sentence for the user.
    pub fn message(&self) -> (r: String)
        ensures
            r@ == match self {
                SaveStateError::InvalidSlot(slot) => "save slot "@ + decimal(*slot as nat)
                    + " is invalid; use slot 1, 2, or 3"@,
                SaveStateError::IncompatibleVersion { expected, actual } => "save state version "@
                    + decimal(*actual as nat) + " is not compatible with version "@ + decimal(
                    *expected as nat,
                ),
                SaveStateError::RomMismatch { expected, actual } => "save state belongs to ROM '"@
                    + actual@ + "', not '"@ + expected@ + "'"@,
                SaveStateError::MissingFile(path) => "save state file '"@ + path@
                    + "' does not exist"@,
                SaveStateError::Io(err) => "save state I/O failed: "@ + err@,
                SaveStateError::Codec(err) => "save state data is invalid: "@ + err@,
            },
    {
        match self {
            SaveStateError::InvalidSlot(slot) => {
                let mut s = String::from_str("save slot ");
                push_decimal(&mut s, *slot as u64);
                s.append(" is invalid; use slot 1, 2, or 3");
                s
            },
            SaveStateError::IncompatibleVersion { expected, actual } => {
                let mut s = String::from_str("save state version ");
                push_decimal(&mut s, *actual as u64);
                s.append(" is not compatible with version ");
                push_decimal(&mut s, *expected as u64);
                s
            },
            SaveStateError::RomMismatch { expected, actual } => {
                let mut s = String::from_str("save state belongs to ROM '");
                s.append(actual.as_str());
                s.append("', not '");
                s.append(expected.as_str());
                s.append("'");
                s
            },
            SaveStateError::MissingFile(path) => {
                let mut s = String::from_str("save state file '");
                s.append(path.as_str());
                s.append("' does not exist");
                s
            },
            SaveStateError::Io(err) => {
                let mut s = String::from_str("save state I/O failed: ");
                s.append(err.as_str());
                s
            },
            SaveStateError::Codec(err) => {
                let mut s = String::from_str("save state data is invalid: ");
                s.append(err.as_str());
                s
            },
        }
    }
}

} // verus!
