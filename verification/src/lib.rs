//! An FC/NES emulator core: cartridge parsing, the NROM mapper, the 6502 CPU,
//! the picture unit, the CPU bus, the audio registers, controller input, the
//! machine that runs them a frame at a time, save states, and the front end's
//! decisions and menu drawing.
pub mod apu;
pub mod bus;
pub mod control;
pub mod cpu;
pub mod emulator;
pub mod frame_dump;
pub mod input;
pub mod mapper;
pub mod ppu;
pub mod rom;
pub mod save_state;
pub mod text;
pub mod window;

use vstd::prelude::*;

verus! {

/// Where the target ROM is looked for when no path is given.
pub const DEFAULT_ROM_PATH: &'static str = "rom/Super Mario Bros. (Japan, USA).nes";

/// The ROM path from the command line: the first argument after the program
/// name, or `fallback` when there is none.
pub fn select_rom_path(args: Vec<String>, fallback: String) -> (r: String)
    ensures
        r@ == if args.len() > 1 {
            args[1]@
        } else {
            fallback@
        },
{
    if args.len() > 1 {
        args[1].clone()
    } else {
        fallback
    }
}

} // verus!
