//! Helpers for dumping frames from a scripted run: the button script that plays
//! the start of the target game, and the binary PPM image of a frame.
use crate::emulator::{Emulator, EmulatorModel};
use crate::bus::BusModel;
use crate::input::{with_button, Button, ControllerView};
use vstd::prelude::*;

verus! {

/// The PPM header for a 256x240 image with 8-bit channels: `P6\n256 240\n255\n`.
pub const PPM_HEADER: [u8; 15] = [
    0x50, 0x36, 0x0a, 0x32, 0x35, 0x36, 0x20, 0x32, 0x34, 0x30, 0x0a, 0x32, 0x35, 0x35, 0x0a,
];

/// The button changes the play script makes at frame `frame`, in order.
pub open spec fn script_presses(frame: int) -> Seq<(Button, bool)> {
    if frame == 90 {
        seq![(Button::Start, true)]
    } else if frame == 98 {
        seq![(Button::Start, false)]
    } else if frame == 170 {
        seq![(Button::Right, true), (Button::B, true)]
    } else if frame == 235 {
        seq![(Button::A, true)]
    } else if frame == 255 {
        seq![(Button::A, false)]
    } else if frame == 420 {
        seq![(Button::Right, false), (Button::B, false)]
    } else {
        seq![]
    }
}

/// Controller buttons after a sequence of presses and releases.
pub open spec fn buttons_after(buttons: u8, presses: Seq<(Button, bool)>) -> u8
    decreases presses.len(),
{
    if presses.len() == 0 {
        buttons
    } else {
        with_button(buttons_after(buttons, presses.drop_last()), presses.last().0, presses.last().1)
    }
}

/// Presses and releases the buttons the play script names for frame `frame`:
/// Start at 90 (released at 98), Right and B from 170 to 420, A from 235 to 255.
pub fn apply_play_script(emulator: &mut Emulator, frame: usize)
    requires
        old(emulator).wf(),
    ensures
        final(emulator).wf(),
        final(emulator)@ == (EmulatorModel {
            bus: BusModel {
                controller: ControllerView {
                    buttons: buttons_after(old(emulator)@.bus.controller.buttons, script_presses(frame as int)),
                    ..old(emulator)@.bus.controller
                },
                ..old(emulator)@.bus
            },
            ..old(emulator)@
        }),
{
    proof {
        reveal_with_fuel(buttons_after, 3);
    }
    if frame == 90 {
        emulator.set_button(Button::Start, true);
    }
    if frame == 98 {
        emulator.set_button(Button::Start, false);
    }
    if frame == 170 {
        emulator.set_button(Button::Right, true);
        emulator.set_button(Button::B, true);
    }
    if frame == 235 {
        emulator.set_button(Button::A, true);
    }
    if frame == 255 {
        emulator.set_button(Button::A, false);
    }
    if frame == 420 {
        emulator.set_button(Button::Right, false);
        emulator.set_button(Button::B, false);
    }
}

/// The red, green and blue bytes of each RGBA pixel, alpha dropped.
pub open spec fn rgb_bytes(rgba: Seq<u8>, pixels: int) -> Seq<u8> {
    Seq::new((pixels * 3) as nat, |j: int| rgba[(j / 3) * 4 + j % 3])
}

/// A binary PPM image of a 256x240 RGBA frame: the header, then the red, green
/// and blue bytes of every whole pixel.
pub fn ppm_image(rgba: &[u8]) -> (r: Vec<u8>)
    ensures
        r@ == PPM_HEADER@ + rgb_bytes(rgba@, rgba@.len() as int / 4),
{
    let mut out: Vec<u8> = Vec::new();
    let mut h: usize = 0;
    while h < 15
        invariant
            h <= 15,
            out@ == PPM_HEADER@.subrange(0, h as int),
        decreases 15 - h,
    {
        out.push(PPM_HEADER[h]);
        proof {
            assert(PPM_HEADER@.subrange(0, h + 1) =~= PPM_HEADER@.subrange(0, h as int).push(PPM_HEADER[h as int]));
        }
        h = h + 1;
    }
    assert(PPM_HEADER@.subrange(0, 15) =~= PPM_HEADER@);
    let len = rgba.len();
    let pixels = len / 4;
    let mut k: usize = 0;
    while k < pixels
        invariant
            len == rgba@.len(),
            pixels == len / 4,
            k <= pixels,
            out@ == PPM_HEADER@ + rgb_bytes(rgba@, k as int),
        decreases pixels - k,
    {
        let base = k * 4;
        out.push(rgba[base]);
        out.push(rgba[base + 1]);
        out.push(rgba[base + 2]);
        proof {
            assert(rgb_bytes(rgba@, k + 1) =~= rgb_bytes(rgba@, k as int).push(rgba@[4 * k]).push(
                rgba@[4 * k + 1],
            ).push(rgba@[4 * k + 2]));
            assert(out@ =~= PPM_HEADER@ + rgb_bytes(rgba@, k + 1));
        }
        k = k + 1;
    }
    out
}

} // verus!
