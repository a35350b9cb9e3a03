//! The window's size and the menu bar drawn over the top of the picture.
use crate::input::{AppControlAction, KeyboardKey, SaveSlot};
use vstd::prelude::*;
use vstd::string::StrSliceExecFns;

verus! {

pub const NES_WIDTH: u32 = 256;

pub const NES_HEIGHT: u32 = 240;

pub const DEFAULT_SCALE: u32 = 3;

#[derive(Clone, Debug, PartialEq, Eq, Structural)]
pub struct WindowConfig {
    pub width: u32,
    pub height: u32,
    pub scale: u32,
}

impl Default for WindowConfig {
    fn default() -> (r: Self)
        ensures
            r == (WindowConfig { width: NES_WIDTH, height: NES_HEIGHT, scale: DEFAULT_SCALE }),
    {
        WindowConfig { width: NES_WIDTH, height: NES_HEIGHT, scale: DEFAULT_SCALE }
    }
}

impl WindowConfig {
    /// The window's inner size: the picture scaled up.
    pub fn content_size(&self) -> (r: (u32, u32))
        requires
            self.width * self.scale <= u32::MAX,
            self.height * self.scale <= u32::MAX,
        ensures
            r == ((self.width * self.scale) as u32, (self.height * self.scale) as u32),
    {
        (self.width * self.scale, self.height * self.scale)
    }
}

/// What a click on the menu bar asks for.
#[derive(Clone, Copy, Debug, PartialEq, Eq, Structural)]
pub enum MenuCommand {
    Action(AppControlAction),
    Reset,
    Exit,
}

/// The command of each of the eight menu buttons, left to right.
pub open spec fn menu_button_command(button: u8) -> Option<MenuCommand> {
    match button {
        0 => Some(MenuCommand::Action(AppControlAction::SaveState)),
        1 => Some(MenuCommand::Action(AppControlAction::LoadState)),
        2 => Some(MenuCommand::Reset),
        3 => Some(MenuCommand::Action(AppControlAction::TogglePause)),
        4 => Some(MenuCommand::Action(AppControlAction::SelectSaveSlot(SaveSlot::Slot(1)))),
        5 => Some(MenuCommand::Action(AppControlAction::SelectSaveSlot(SaveSlot::Slot(2)))),
        6 => Some(MenuCommand::Action(AppControlAction::SelectSaveSlot(SaveSlot::Slot(3)))),
        7 => Some(MenuCommand::Exit),
        _ => None,
    }
}

/// The command of menu button `button` (0 is the leftmost).
pub fn menu_command_for_button(button: u8) -> (r: Option<MenuCommand>)
    ensures
        r == menu_button_command(button),
{
    match button {
        0 => Some(MenuCommand::Action(AppControlAction::SaveState)),
        1 => Some(MenuCommand::Action(AppControlAction::LoadState)),
        2 => Some(MenuCommand::Reset),
        3 => Some(MenuCommand::Action(AppControlAction::TogglePause)),
        4 => Some(MenuCommand::Action(AppControlAction::SelectSaveSlot(SaveSlot::Slot(1)))),
        5 => Some(MenuCommand::Action(AppControlAction::SelectSaveSlot(SaveSlot::Slot(2)))),
        6 => Some(MenuCommand::Action(AppControlAction::SelectSaveSlot(SaveSlot::Slot(3)))),
        7 => Some(MenuCommand::Exit),
        _ => None,
    }
}

/// The key that a one-character text names, upper or lower case.
pub open spec fn character_key(text: Seq<char>) -> Option<KeyboardKey> {
    if text.len() != 1 {
        None
    } else {
        let c = text[0];
        if c == 'x' || c == 'X' {
            Some(KeyboardKey::X)
        } else if c == 'z' || c == 'Z' {
            Some(KeyboardKey::Z)
        } else if c == 's' || c == 'S' {
            Some(KeyboardKey::S)
        } else if c == 'p' || c == 'P' {
            Some(KeyboardKey::P)
        } else if c == '1' {
            Some(KeyboardKey::Digit(1))
        } else if c == '2' {
            Some(KeyboardKey::Digit(2))
        } else if c == '3' {
            Some(KeyboardKey::Digit(3))
        } else {
            None
        }
    }
}

/// The key a typed character stands for, for keys the keyboard layout does not report.
pub fn map_character_key(text: &str) -> (r: Option<KeyboardKey>)
    ensures
        r == character_key(text@),
{
    if text.unicode_len() != 1 {
        return None;
    }
    let c = text.get_char(0);
    if c == 'x' || c == 'X' {
        Some(KeyboardKey::X)
    } else if c == 'z' || c == 'Z' {
        Some(KeyboardKey::Z)
    } else if c == 's' || c == 'S' {
        Some(KeyboardKey::S)
    } else if c == 'p' || c == 'P' {
        Some(KeyboardKey::P)
    } else if c == '1' {
        Some(KeyboardKey::Digit(1))
    } else if c == '2' {
        Some(KeyboardKey::Digit(2))
    } else if c == '3' {
        Some(KeyboardKey::Digit(3))
    } else {
        None
    }
}

// ---------------------------------------------------------------------------
// The menu bar: eight buttons across the top 24 rows of the 256-pixel-wide
// RGBA frame, each with a short label in a 3x5 pixel font drawn at double size.
// ---------------------------------------------------------------------------

pub const MENU_HEIGHT: usize = 24;

pub const BUTTON_WIDTH: usize = 32;

/// Bytes per frame row: 256 RGBA pixels.
pub const ROW_BYTES: usize = 1024;

pub const LABEL_SCALE: usize = 2;

pub const GLYPH_WIDTH: usize = 3;

pub const GLYPH_SPACING: usize = 1;

/// The row of the labels' top edge.
pub const LABEL_Y: usize = 7;

pub const MENU_BACKGROUND: [u8; 4] = [18, 22, 28, 255];

pub const LABEL_COLOR: [u8; 4] = [244, 244, 236, 255];

pub const SAVE_BUTTON_COLOR: [u8; 4] = [54, 96, 168, 255];

pub const LOAD_BUTTON_COLOR: [u8; 4] = [58, 128, 84, 255];

pub const RESET_BUTTON_COLOR: [u8; 4] = [150, 98, 44, 255];

pub const PAUSED_BUTTON_COLOR: [u8; 4] = [174, 58, 58, 255];

pub const RUNNING_BUTTON_COLOR: [u8; 4] = [92, 92, 112, 255];

pub const CURRENT_SLOT_COLOR: [u8; 4] = [200, 184, 64, 255];

pub const OTHER_SLOT_COLOR: [u8; 4] = [86, 92, 104, 255];

pub const EXIT_BUTTON_COLOR: [u8; 4] = [108, 62, 136, 255];

/// The column of the pixel that byte `i` of a frame belongs to.
pub open spec fn byte_x(i: int) -> int {
    (i % 1024) / 4
}

/// The row of the pixel that byte `i` of a frame belongs to.
pub open spec fn byte_y(i: int) -> int {
    i / 1024
}

/// Byte `i` belongs to a pixel of the rectangle [x0, x1) x [y0, y1).
pub open spec fn in_rect(i: int, x0: int, x1: int, y0: int, y1: int) -> bool {
    x0 <= byte_x(i) < x1 && y0 <= byte_y(i) < y1
}

/// The glyph rows of the menu font, top row first, bit 2 leftmost.
pub open spec fn glyph_spec(ch: char) -> Option<[u8; 5]> {
    if ch == '1' {
        Some([0b010, 0b110, 0b010, 0b010, 0b111])
    } else if ch == '2' {
        Some([0b111, 0b001, 0b111, 0b100, 0b111])
    } else if ch == '3' {
        Some([0b111, 0b001, 0b111, 0b001, 0b111])
    } else if ch == 'A' {
        Some([0b010, 0b101, 0b111, 0b101, 0b101])
    } else if ch == 'D' {
        Some([0b110, 0b101, 0b101, 0b101, 0b110])
    } else if ch == 'L' {
        Some([0b100, 0b100, 0b100, 0b100, 0b111])
    } else if ch == 'O' {
        Some([0b111, 0b101, 0b101, 0b101, 0b111])
    } else if ch == 'P' {
        Some([0b110, 0b101, 0b110, 0b100, 0b100])
    } else if ch == 'R' {
        Some([0b110, 0b101, 0b110, 0b101, 0b101])
    } else if ch == 'S' {
        Some([0b111, 0b100, 0b111, 0b001, 0b111])
    } else if ch == 'T' {
        Some([0b111, 0b010, 0b010, 0b010, 0b010])
    } else if ch == 'U' {
        Some([0b101, 0b101, 0b101, 0b101, 0b111])
    } else if ch == 'V' {
        Some([0b101, 0b101, 0b101, 0b101, 0b010])
    } else if ch == 'X' {
        Some([0b101, 0b101, 0b010, 0b101, 0b101])
    } else {
        None
    }
}

/// The 3x5 font rows of a character, or `None` for a character the font lacks.
pub fn glyph_rows(ch: char) -> (r: Option<[u8; 5]>)
    ensures
        r == glyph_spec(ch),
{
    match ch {
        '1' => Some([0b010, 0b110, 0b010, 0b010, 0b111]),
        '2' => Some([0b111, 0b001, 0b111, 0b100, 0b111]),
        '3' => Some([0b111, 0b001, 0b111, 0b001, 0b111]),
        'A' => Some([0b010, 0b101, 0b111, 0b101, 0b101]),
        'D' => Some([0b110, 0b101, 0b101, 0b101, 0b110]),
        'L' => Some([0b100, 0b100, 0b100, 0b100, 0b111]),
        'O' => Some([0b111, 0b101, 0b101, 0b101, 0b111]),
        'P' => Some([0b110, 0b101, 0b110, 0b100, 0b100]),
        'R' => Some([0b110, 0b101, 0b110, 0b101, 0b101]),
        'S' => Some([0b111, 0b100, 0b111, 0b001, 0b111]),
        'T' => Some([0b111, 0b010, 0b010, 0b010, 0b010]),
        'U' => Some([0b101, 0b101, 0b101, 0b101, 0b111]),
        'V' => Some([0b101, 0b101, 0b101, 0b101, 0b010]),
        'X' => Some([0b101, 0b101, 0b010, 0b101, 0b101]),
        _ => None,
    }
}

/// Whether column `col` (0 = left) of a font row is lit.
pub open spec fn glyph_bit(bits: u8, col: int) -> bool {
    bits & (1u8 << ((2 - col) as u8)) != 0
}

/// Pixel (px, py) is lit by `ch` drawn with its top-left corner at (x0, y0),
/// each font pixel a `scale` x `scale` square.
pub open spec fn glyph_covers(ch: char, x0: int, y0: int, scale: int, px: int, py: int) -> bool {
    &&& scale > 0
    &&& x0 <= px < x0 + 3 * scale
    &&& y0 <= py < y0 + 5 * scale
    &&& match glyph_spec(ch) {
        Some(rows) => glyph_bit(rows[(py - y0) / scale], (px - x0) / scale),
        None => false,
    }
}

/// The width of a label of `n` characters, at double size with one font pixel
/// between characters.
pub open spec fn label_width(n: int) -> int {
    if n == 0 {
        0
    } else {
        (n * 3 + (n - 1)) * 2
    }
}

/// The left edge of a label of `n` characters centred in a button.
pub open spec fn label_start(button_x: int, button_width: int, n: int) -> int {
    button_x + (if button_width >= label_width(n) { button_width - label_width(n) } else { 0 }) / 2
}

/// Pixel (px, py) is lit by one of the characters of `text` drawn from `start` on.
pub open spec fn label_covers(text: Seq<char>, start: int, px: int, py: int) -> bool {
    exists|k: int| 0 <= k < text.len() && #[trigger] glyph_covers(text[k], start + 8 * k, LABEL_Y as int, 2, px, py)
}

/// The label of each menu button.
pub open spec fn menu_label_spec(button: int, paused: bool) -> Seq<char> {
    if button == 0 {
        seq!['S', 'A', 'V']
    } else if button == 1 {
        seq!['L', 'O', 'D']
    } else if button == 2 {
        seq!['R', 'S', 'T']
    } else if button == 3 {
        if paused {
            seq!['R', 'U', 'N']
        } else {
            seq!['P', 'A', 'U']
        }
    } else if button == 4 {
        seq!['1']
    } else if button == 5 {
        seq!['2']
    } else if button == 6 {
        seq!['3']
    } else {
        seq!['X']
    }
}

/// The face colour of each menu button; the pause button shows the run state and
/// the current slot's button is lit.
pub open spec fn button_color_spec(button: int, current_slot: u8, paused: bool) -> [u8; 4] {
    if button == 0 {
        SAVE_BUTTON_COLOR
    } else if button == 1 {
        LOAD_BUTTON_COLOR
    } else if button == 2 {
        RESET_BUTTON_COLOR
    } else if button == 3 {
        if paused {
            PAUSED_BUTTON_COLOR
        } else {
            RUNNING_BUTTON_COLOR
        }
    } else if 4 <= button <= 6 {
        if current_slot == button - 3 {
            CURRENT_SLOT_COLOR
        } else {
            OTHER_SLOT_COLOR
        }
    } else {
        EXIT_BUTTON_COLOR
    }
}

/// Pixel (px, py) lies on the face of button `button`: two pixels in from its
/// sides, rows 3 to 20.
pub open spec fn on_button_face(button: int, px: int, py: int) -> bool {
    3 <= py < 21 && button * 32 + 2 <= px < button * 32 + 30
}

/// The colour of menu pixel (px, py): label, button face, or bar background.
pub open spec fn menu_color(px: int, py: int, current_slot: u8, paused: bool) -> [u8; 4] {
    let b = px / 32;
    let text = menu_label_spec(b, paused);
    if label_covers(text, label_start(b * 32, 32, text.len() as int), px, py) {
        LABEL_COLOR
    } else if on_button_face(b, px, py) {
        button_color_spec(b, current_slot, paused)
    } else {
        MENU_BACKGROUND
    }
}

/// The face colour of a slot button: lit for the current slot.
pub fn slot_color(current_slot: u8, slot: u8) -> (r: [u8; 4])
    ensures
        r == (if current_slot == slot { CURRENT_SLOT_COLOR } else { OTHER_SLOT_COLOR }),
{
    if current_slot == slot {
        CURRENT_SLOT_COLOR
    } else {
        OTHER_SLOT_COLOR
    }
}

/// The bytes of pixel (x, y) are the four at `(y * 256 + x) * 4`.
proof fn lemma_pixel_bytes(x: int, y: int, i: int)
    requires
        0 <= x < 256,
        0 <= y,
    ensures
        (y * 256 + x) * 4 <= i < (y * 256 + x) * 4 + 4 <==> (byte_x(i) == x && byte_y(i) == y && 0 <= i),
        (y * 256 + x) * 4 <= i < (y * 256 + x) * 4 + 4 ==> i % 4 == i - (y * 256 + x) * 4,
{
}

/// Paints the rectangle [x0, x1) x [y0, y1) with `color`.
fn fill_rect(frame: &mut [u8], x0: usize, x1: usize, y0: usize, y1: usize, color: [u8; 4])
    requires
        x0 <= x1 <= 256,
        y0 <= y1,
        y1 * ROW_BYTES <= old(frame)@.len(),
    ensures
        final(frame)@.len() == old(frame)@.len(),
        forall|i: int|
            0 <= i < old(frame)@.len() ==> #[trigger] final(frame)@[i] == if in_rect(i, x0 as int, x1 as int, y0 as int, y1 as int) {
                color[i % 4]
            } else {
                old(frame)@[i]
            },
{
    let ghost start = frame@;
    let len = frame.len();
    let mut y = y0;
    while y < y1
        invariant
            len == start.len(),
            x0 <= x1 <= 256,
            y0 <= y <= y1,
            y1 * ROW_BYTES <= start.len(),
            frame@.len() == start.len(),
            forall|i: int|
                0 <= i < start.len() ==> #[trigger] frame@[i] == if in_rect(i, x0 as int, x1 as int, y0 as int, y as int) {
                    color[i % 4]
                } else {
                    start[i]
                },
        decreases y1 - y,
    {
        let mut x = x0;
        while x < x1
            invariant
                len == start.len(),
                x0 <= x <= x1 <= 256,
                y0 <= y < y1,
                y1 * ROW_BYTES <= start.len(),
                frame@.len() == start.len(),
                forall|i: int|
                    0 <= i < start.len() ==> #[trigger] frame@[i] == if in_rect(i, x0 as int, x1 as int, y0 as int, y as int)
                        || in_rect(i, x0 as int, x as int, y as int, y + 1) {
                        color[i % 4]
                    } else {
                        start[i]
                    },
            decreases x1 - x,
        {
            assert((y * 256 + x) * 4 + 4 <= y1 * ROW_BYTES);
            let base = (y * 256 + x) * 4;
            frame[base] = color[0];
            frame[base + 1] = color[1];
            frame[base + 2] = color[2];
            frame[base + 3] = color[3];
            proof {
                assert forall|i: int| 0 <= i < start.len() implies #[trigger] frame@[i] == if in_rect(
                    i,
                    x0 as int,
                    x1 as int,
                    y0 as int,
                    y as int,
                ) || in_rect(i, x0 as int, x + 1, y as int, y + 1) {
                    color[i % 4]
                } else {
                    start[i]
                } by {
                    lemma_pixel_bytes(x as int, y as int, i);
                }
            }
            x = x + 1;
        }
        proof {
            assert forall|i: int| 0 <= i < start.len() implies #[trigger] frame@[i] == if in_rect(
                i,
                x0 as int,
                x1 as int,
                y0 as int,
                y + 1,
            ) {
                color[i % 4]
            } else {
                start[i]
            } by {}
        }
        y = y + 1;
    }
}

proof fn lemma_div_below(a: int, s: int, k: int)
    requires
        0 <= a < k * s,
        s > 0,
        k > 0,
    ensures
        0 <= a / s < k,
{
    assert(0 <= a / s < k) by (nonlinear_arith)
        requires
            0 <= a < k * s,
            s > 0,
            k > 0,
    ;
}

/// Draws `ch` in the label colour with its top-left corner at (x, y), each font
/// pixel a `scale` x `scale` square; a character the font lacks draws nothing.
/// The glyph must fit in its rows of the frame.
fn draw_glyph(frame: &mut [u8], x: usize, y: usize, scale: usize, ch: char)
    requires
        x + 3 * scale <= 256,
        (y + 5 * scale) * ROW_BYTES <= old(frame)@.len(),
    ensures
        final(frame)@.len() == old(frame)@.len(),
        forall|i: int|
            0 <= i < old(frame)@.len() ==> #[trigger] final(frame)@[i] == if glyph_covers(
                ch,
                x as int,
                y as int,
                scale as int,
                byte_x(i),
                byte_y(i),
            ) {
                LABEL_COLOR[i % 4]
            } else {
                old(frame)@[i]
            },
{
    let rows = match glyph_rows(ch) {
        Some(rows) => rows,
        None => {
            return ;
        },
    };
    let ghost start = frame@;
    let len = frame.len();
    let mut py = y;
    while py < y + 5 * scale
        invariant
            len == start.len(),
            frame@.len() == start.len(),
            x + 3 * scale <= 256,
            (y + 5 * scale) * ROW_BYTES <= start.len(),
            y <= py <= y + 5 * scale,
            glyph_spec(ch) == Some(rows),
            forall|i: int|
                0 <= i < start.len() ==> #[trigger] frame@[i] == if glyph_covers(
                    ch,
                    x as int,
                    y as int,
                    scale as int,
                    byte_x(i),
                    byte_y(i),
                ) && byte_y(i) < py {
                    LABEL_COLOR[i % 4]
                } else {
                    start[i]
                },
        decreases y + 5 * scale - py,
    {
        let mut px = x;
        while px < x + 3 * scale
            invariant
                len == start.len(),
                frame@.len() == start.len(),
                x + 3 * scale <= 256,
                (y + 5 * scale) * ROW_BYTES <= start.len(),
                y <= py < y + 5 * scale,
                x <= px <= x + 3 * scale,
                glyph_spec(ch) == Some(rows),
                forall|i: int|
                    0 <= i < start.len() ==> #[trigger] frame@[i] == if glyph_covers(
                        ch,
                        x as int,
                        y as int,
                        scale as int,
                        byte_x(i),
                        byte_y(i),
                    ) && (byte_y(i) < py || (byte_y(i) == py && byte_x(i) < px)) {
                        LABEL_COLOR[i % 4]
                    } else {
                        start[i]
                    },
            decreases x + 3 * scale - px,
        {
            proof {
                lemma_div_below(py - y, scale as int, 5);
                lemma_div_below(px - x, scale as int, 3);
            }
            let row = (py - y) / scale;
            let col = (px - x) / scale;
            let lit = rows[row] & (1u8 << ((2 - col) as u8)) != 0;
            if lit {
                assert((py * 256 + px) * 4 + 4 <= (y + 5 * scale) * ROW_BYTES);
                let base = (py * 256 + px) * 4;
                frame[base] = LABEL_COLOR[0];
                frame[base + 1] = LABEL_COLOR[1];
                frame[base + 2] = LABEL_COLOR[2];
                frame[base + 3] = LABEL_COLOR[3];
            }
            proof {
                assert forall|i: int| 0 <= i < start.len() implies #[trigger] frame@[i] == if glyph_covers(
                    ch,
                    x as int,
                    y as int,
                    scale as int,
                    byte_x(i),
                    byte_y(i),
                ) && (byte_y(i) < py || (byte_y(i) == py && byte_x(i) < px + 1)) {
                    LABEL_COLOR[i % 4]
                } else {
                    start[i]
                } by {
                    lemma_pixel_bytes(px as int, py as int, i);
                }
            }
            px = px + 1;
        }
        py = py + 1;
    }
}

/// A label's lit pixels lie in its text box, rows 7 to 16.
proof fn lemma_label_within(text: Seq<char>, start: int, px: int, py: int)
    requires
        label_covers(text, start, px, py),
    ensures
        start <= px < start + 8 * text.len() - 2,
        LABEL_Y <= py < LABEL_Y + 10,
{
    let k = choose|k: int| 0 <= k < text.len() && #[trigger] glyph_covers(text[k], start + 8 * k, LABEL_Y as int, 2, px, py);
    assert(glyph_covers(text[k], start + 8 * k, LABEL_Y as int, 2, px, py));
}

/// Draws `text` in the menu font at double size, centred in the button that
/// starts at `button_x` and is `button_width` wide, from row 7 down. The label
/// must fit in the row.
fn draw_menu_label(frame: &mut [u8], button_x: usize, button_width: usize, text: &str)
    requires
        button_x + button_width <= 256,
        text@.len() <= 32,
        text@.len() > 0 ==> label_start(button_x as int, button_width as int, text@.len() as int) + 8
            * text@.len() - 2 <= 256,
        (LABEL_Y + 10) * ROW_BYTES <= old(frame)@.len(),
    ensures
        final(frame)@.len() == old(frame)@.len(),
        forall|i: int|
            0 <= i < old(frame)@.len() ==> #[trigger] final(frame)@[i] == if label_covers(
                text@,
                label_start(button_x as int, button_width as int, text@.len() as int),
                byte_x(i),
                byte_y(i),
            ) {
                LABEL_COLOR[i % 4]
            } else {
                old(frame)@[i]
            },
{
    let ghost start = frame@;
    let glyphs = text.unicode_len();
    let text_width = if glyphs == 0 {
        0
    } else {
        (glyphs * GLYPH_WIDTH + (glyphs - 1) * GLYPH_SPACING) * LABEL_SCALE
    };
    let mut x = button_x + button_width.saturating_sub(text_width) / 2;
    let ghost left = x as int;
    assert(left == label_start(button_x as int, button_width as int, text@.len() as int));
    let mut k: usize = 0;
    while k < glyphs
        invariant
            glyphs == text@.len(),
            glyphs <= 32,
            k <= glyphs,
            x == left + 8 * k,
            glyphs > 0 ==> left + 8 * glyphs - 2 <= 256,
            (LABEL_Y + 10) * ROW_BYTES <= start.len(),
            frame@.len() == start.len(),
            forall|i: int|
                0 <= i < start.len() ==> #[trigger] frame@[i] == if exists|j: int|
                    0 <= j < k && #[trigger] glyph_covers(
                        text@[j],
                        left + 8 * j,
                        LABEL_Y as int,
                        2,
                        byte_x(i),
                        byte_y(i),
                    ) {
                    LABEL_COLOR[i % 4]
                } else {
                    start[i]
                },
        decreases glyphs - k,
    {
        let ch = text.get_char(k);
        let ghost before = frame@;
        draw_glyph(frame, x, LABEL_Y, LABEL_SCALE, ch);
        proof {
            assert forall|i: int| 0 <= i < start.len() implies #[trigger] frame@[i] == if exists|j: int|
                0 <= j < k + 1 && #[trigger] glyph_covers(
                    text@[j],
                    left + 8 * j,
                    LABEL_Y as int,
                    2,
                    byte_x(i),
                    byte_y(i),
                ) {
                LABEL_COLOR[i % 4]
            } else {
                start[i]
            } by {
                if glyph_covers(text@[k as int], left + 8 * k, LABEL_Y as int, 2, byte_x(i), byte_y(i)) {
                    assert(exists|j: int|
                        0 <= j < k + 1 && #[trigger] glyph_covers(
                            text@[j],
                            left + 8 * j,
                            LABEL_Y as int,
                            2,
                            byte_x(i),
                            byte_y(i),
                        ));
                } else {
                    if exists|j: int|
                        0 <= j < k + 1 && #[trigger] glyph_covers(
                            text@[j],
                            left + 8 * j,
                            LABEL_Y as int,
                            2,
                            byte_x(i),
                            byte_y(i),
                        ) {
                        let j = choose|j: int|
                            0 <= j < k + 1 && #[trigger] glyph_covers(
                                text@[j],
                                left + 8 * j,
                                LABEL_Y as int,
                                2,
                                byte_x(i),
                                byte_y(i),
                            );
                        assert(j < k);
                    }
                }
            }
        }
        x = x + (GLYPH_WIDTH + GLYPH_SPACING) * LABEL_SCALE;
        k = k + 1;
    }
    proof {
        assert forall|i: int| 0 <= i < start.len() implies #[trigger] frame@[i] == if label_covers(
            text@,
            left,
            byte_x(i),
            byte_y(i),
        ) {
            LABEL_COLOR[i % 4]
        } else {
            start[i]
        } by {
            if label_covers(text@, left, byte_x(i), byte_y(i)) {
                let j = choose|j: int|
                    0 <= j < text@.len() && #[trigger] glyph_covers(
                        text@[j],
                        left + 8 * j,
                        LABEL_Y as int,
                        2,
                        byte_x(i),
                        byte_y(i),
                    );
                assert(glyph_covers(text@[j], left + 8 * j, LABEL_Y as int, 2, byte_x(i), byte_y(i)));
            }
        }
    }
}

/// The label of menu button `button`.
fn menu_label(button: usize, paused: bool) -> (r: &'static str)
    requires
        button < 8,
    ensures
        r@ == menu_label_spec(button as int, paused),
{
    proof {
        reveal_strlit("SAV");
        reveal_strlit("LOD");
        reveal_strlit("RST");
        reveal_strlit("RUN");
        reveal_strlit("PAU");
        reveal_strlit("1");
        reveal_strlit("2");
        reveal_strlit("3");
        reveal_strlit("X");
        assert("SAV"@ =~= seq!['S', 'A', 'V']);
        assert("LOD"@ =~= seq!['L', 'O', 'D']);
        assert("RST"@ =~= seq!['R', 'S', 'T']);
        assert("RUN"@ =~= seq!['R', 'U', 'N']);
        assert("PAU"@ =~= seq!['P', 'A', 'U']);
        assert("1"@ =~= seq!['1']);
        assert("2"@ =~= seq!['2']);
        assert("3"@ =~= seq!['3']);
        assert("X"@ =~= seq!['X']);
    }
    if button == 0 {
        "SAV"
    } else if button == 1 {
        "LOD"
    } else if button == 2 {
        "RST"
    } else if button == 3 {
        if paused {
            "RUN"
        } else {
            "PAU"
        }
    } else if button == 4 {
        "1"
    } else if button == 5 {
        "2"
    } else if button == 6 {
        "3"
    } else {
        "X"
    }
}

/// The face colour of menu button `button`.
fn button_color(button: usize, current_slot: u8, paused: bool) -> (r: [u8; 4])
    requires
        button < 8,
    ensures
        r == button_color_spec(button as int, current_slot, paused),
{
    if button == 0 {
        SAVE_BUTTON_COLOR
    } else if button == 1 {
        LOAD_BUTTON_COLOR
    } else if button == 2 {
        RESET_BUTTON_COLOR
    } else if button == 3 {
        if paused {
            PAUSED_BUTTON_COLOR
        } else {
            RUNNING_BUTTON_COLOR
        }
    } else if button <= 6 {
        slot_color(current_slot, (button - 3) as u8)
    } else {
        EXIT_BUTTON_COLOR
    }
}

/// The face colour of a menu pixel before the labels are drawn.
pub open spec fn face_color(px: int, py: int, current_slot: u8, paused: bool) -> [u8; 4] {
    if on_button_face(px / 32, px, py) {
        button_color_spec(px / 32, current_slot, paused)
    } else {
        MENU_BACKGROUND
    }
}

/// Draws the menu bar over the top 24 rows of `frame`: the background, the eight
/// button faces (the pause button showing the run state, the current slot lit)
/// and their labels. The rest of the frame is left as it was.
pub fn draw_menu_overlay(frame: &mut [u8], current_slot: u8, paused: bool)
    requires
        MENU_HEIGHT * ROW_BYTES <= old(frame)@.len(),
    ensures
        final(frame)@.len() == old(frame)@.len(),
        forall|i: int|
            0 <= i < old(frame)@.len() ==> #[trigger] final(frame)@[i] == if i < MENU_HEIGHT * ROW_BYTES {
                menu_color(byte_x(i), byte_y(i), current_slot, paused)[i % 4]
            } else {
                old(frame)@[i]
            },
{
    let ghost start = frame@;
    fill_rect(frame, 0, 256, 0, MENU_HEIGHT, MENU_BACKGROUND);
    let mut button: usize = 0;
    while button < 8
        invariant
            button <= 8,
            frame@.len() == start.len(),
            MENU_HEIGHT * ROW_BYTES <= start.len(),
            forall|i: int|
                0 <= i < start.len() ==> #[trigger] frame@[i] == if i < MENU_HEIGHT * ROW_BYTES {
                    if byte_x(i) / 32 < button {
                        face_color(byte_x(i), byte_y(i), current_slot, paused)[i % 4]
                    } else {
                        MENU_BACKGROUND[i % 4]
                    }
                } else {
                    start[i]
                },
        decreases 8 - button,
    {
        let color = button_color(button, current_slot, paused);
        let x0 = button * BUTTON_WIDTH;
        let x1 = (button + 1) * BUTTON_WIDTH;
        fill_rect(frame, x0 + 2, x1 - 2, 3, MENU_HEIGHT - 3, color);
        proof {
            assert forall|i: int| 0 <= i < start.len() implies #[trigger] frame@[i] == if i < MENU_HEIGHT
                * ROW_BYTES {
                if byte_x(i) / 32 < button + 1 {
                    face_color(byte_x(i), byte_y(i), current_slot, paused)[i % 4]
                } else {
                    MENU_BACKGROUND[i % 4]
                }
            } else {
                start[i]
            } by {}
        }
        button = button + 1;
    }
    let ghost faces = frame@;
    let mut button: usize = 0;
    while button < 8
        invariant
            button <= 8,
            frame@.len() == start.len(),
            MENU_HEIGHT * ROW_BYTES <= start.len(),
            forall|i: int|
                0 <= i < start.len() ==> #[trigger] frame@[i] == if i < MENU_HEIGHT * ROW_BYTES && byte_x(i)
                    / 32 < button && label_covers(
                    menu_label_spec(byte_x(i) / 32, paused),
                    label_start(
                        byte_x(i) / 32 * 32,
                        32,
                        menu_label_spec(byte_x(i) / 32, paused).len() as int,
                    ),
                    byte_x(i),
                    byte_y(i),
                ) {
                    LABEL_COLOR[i % 4]
                } else {
                    faces[i]
                },
            forall|i: int|
                0 <= i < start.len() ==> #[trigger] faces[i] == if i < MENU_HEIGHT * ROW_BYTES {
                    face_color(byte_x(i), byte_y(i), current_slot, paused)[i % 4]
                } else {
                    start[i]
                },
        decreases 8 - button,
    {
        let label = menu_label(button, paused);
        let ghost text = menu_label_spec(button as int, paused);
        let ghost left = label_start(button * 32, 32, text.len() as int);
        draw_menu_label(frame, button * BUTTON_WIDTH, BUTTON_WIDTH, label);
        proof {
            assert forall|i: int| 0 <= i < start.len() implies #[trigger] frame@[i] == if i < MENU_HEIGHT
                * ROW_BYTES && byte_x(i) / 32 < button + 1 && label_covers(
                menu_label_spec(byte_x(i) / 32, paused),
                label_start(
                    byte_x(i) / 32 * 32,
                    32,
                    menu_label_spec(byte_x(i) / 32, paused).len() as int,
                ),
                byte_x(i),
                byte_y(i),
            ) {
                LABEL_COLOR[i % 4]
            } else {
                faces[i]
            } by {
                if label_covers(text, left, byte_x(i), byte_y(i)) {
                    lemma_label_within(text, left, byte_x(i), byte_y(i));
                }
            }
        }
        button = button + 1;
    }
}

} // verus!
