# fc_emu

An FC/NES emulator aimed at Mapper 0 (NROM) cartridges such as *Super Mario
Bros.*, written as a verified library with a thin desktop program around it.

## Layout

- `src/` is the library, verified with Verus:
  - `rom.rs` parses iNES images; `mapper/` maps cartridge memory (NROM).
  - `cpu/` is the 6502: the instruction table, what each step does as a
    specification (`semantics.rs`), the executable core, and its laws.
  - `ppu/` is the picture unit: registers, timing, background and sprite
    rendering.
  - `apu.rs` holds the audio registers; `bus.rs` wires RAM, the devices and the
    cartridge into the CPU address space and records audio events.
  - `emulator.rs` runs the machine a frame at a time and takes and loads save
    states; `save_state.rs` checks them and names their files.
  - `control.rs` holds the front end's decisions (pause, slots, messages, title);
    `window.rs` the window size and the menu bar drawn over the picture;
    `input.rs` the controller and keyboard layout.
- `app/` is the program: ROM and save-state files, the winit window loop, and
  the floating-point audio synthesizer that replays the library's audio events.
- `tests/` exercises the library.

## Controls

Arrows move, X is A, Z is B, Enter is Start, Right Shift / S / Tab is Select,
Space or P pauses, F5 (or F) saves, F9 (or L) loads, 1-3 pick the save slot,
Escape quits. Save states live under `saves/`, one file per ROM and slot.
