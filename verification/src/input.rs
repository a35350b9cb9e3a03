//! Controller port 1, and how keyboard keys map to buttons and emulator controls.
use vstd::prelude::*;

verus! {

/// A standard controller button.
#[derive(Clone, Copy, Debug, Eq, PartialEq, Structural)]
pub enum Button {
    A,
    B,
    Select,
    Start,
    Up,
    Down,
    Left,
    Right,
}

/// Position of a button in the controller's serial report, which is also its bit.
pub open spec fn button_index(button: Button) -> u8 {
    match button {
        Button::A => 0,
        Button::B => 1,
        Button::Select => 2,
        Button::Start => 3,
        Button::Up => 4,
        Button::Down => 5,
        Button::Left => 6,
        Button::Right => 7,
    }
}

/// Whether bit `index` of a button byte is set.
pub open spec fn bit_set(buttons: u8, index: u8) -> bool {
    (buttons >> index) & 1 == 1
}

impl Button {
    /// Every button, in the order in which the controller reports them.
    pub const ALL: [Button; 8] = [
        Button::A,
        Button::B,
        Button::Select,
        Button::Start,
        Button::Up,
        Button::Down,
        Button::Left,
        Button::Right,
    ];

    pub fn index(self) -> (r: u8)
        ensures
            r == button_index(self),
    {
        match self {
            Button::A => 0,
            Button::B => 1,
            Button::Select => 2,
            Button::Start => 3,
            Button::Up => 4,
            Button::Down => 5,
            Button::Left => 6,
            Button::Right => 7,
        }
    }

    fn mask(self) -> (r: u8)
        ensures
            r == (1u8 << button_index(self)),
    {
        1u8 << self.index()
    }

    /// The button reported at position `index` of the serial report.
    pub fn from_index(index: u8) -> (r: Button)
        requires
            index < 8,
        ensures
            button_index(r) == index,
            r == Button::ALL[index as int],
    {
        match index {
            0 => Button::A,
            1 => Button::B,
            2 => Button::Select,
            3 => Button::Start,
            4 => Button::Up,
            5 => Button::Down,
            6 => Button::Left,
            _ => Button::Right,
        }
    }
}

#[derive(Clone, Copy, Debug, Eq, PartialEq, Structural)]
pub enum SaveSlot {
    Slot(u8),
}

/// A request to the emulator front end rather than to the game.
#[derive(Clone, Copy, Debug, Eq, PartialEq, Structural)]
pub enum AppControlAction {
    Pause,
    Resume,
    TogglePause,
    SaveState,
    LoadState,
    SelectSaveSlot(SaveSlot),
}

#[derive(Clone, Copy, Debug, Eq, PartialEq, Structural)]
pub enum KeyboardKey {
    ArrowUp,
    ArrowDown,
    ArrowLeft,
    ArrowRight,
    X,
    Z,
    Enter,
    RightShift,
    S,
    Tab,
    Space,
    P,
    F,
    L,
    F5,
    F9,
    Digit(u8),
}

#[derive(Clone, Copy, Debug, Eq, PartialEq, Structural)]
pub enum KeyMapping {
    Controller(Button),
    App(AppControlAction),
}

/// The default keyboard layout.
pub open spec fn key_mapping(key: KeyboardKey) -> Option<KeyMapping> {
    match key {
        KeyboardKey::ArrowUp => Some(KeyMapping::Controller(Button::Up)),
        KeyboardKey::ArrowDown => Some(KeyMapping::Controller(Button::Down)),
        KeyboardKey::ArrowLeft => Some(KeyMapping::Controller(Button::Left)),
        KeyboardKey::ArrowRight => Some(KeyMapping::Controller(Button::Right)),
        KeyboardKey::X => Some(KeyMapping::Controller(Button::A)),
        KeyboardKey::Z => Some(KeyMapping::Controller(Button::B)),
        KeyboardKey::Enter => Some(KeyMapping::Controller(Button::Start)),
        KeyboardKey::RightShift | KeyboardKey::S | KeyboardKey::Tab => Some(
            KeyMapping::Controller(Button::Select),
        ),
        KeyboardKey::Space | KeyboardKey::P => Some(KeyMapping::App(AppControlAction::TogglePause)),
        KeyboardKey::F | KeyboardKey::F5 => Some(KeyMapping::App(AppControlAction::SaveState)),
        KeyboardKey::L | KeyboardKey::F9 => Some(KeyMapping::App(AppControlAction::LoadState)),
        KeyboardKey::Digit(slot) => if slot <= 9 {
            Some(KeyMapping::App(AppControlAction::SelectSaveSlot(SaveSlot::Slot(slot))))
        } else {
            None
        },
    }
}

pub fn default_key_mapping(key: KeyboardKey) -> (r: Option<KeyMapping>)
    ensures
        r == key_mapping(key),
{
    let mapping = match key {
        KeyboardKey::ArrowUp => KeyMapping::Controller(Button::Up),
        KeyboardKey::ArrowDown => KeyMapping::Controller(Button::Down),
        KeyboardKey::ArrowLeft => KeyMapping::Controller(Button::Left),
        KeyboardKey::ArrowRight => KeyMapping::Controller(Button::Right),
        KeyboardKey::X => KeyMapping::Controller(Button::A),
        KeyboardKey::Z => KeyMapping::Controller(Button::B),
        KeyboardKey::Enter => KeyMapping::Controller(Button::Start),
        KeyboardKey::RightShift | KeyboardKey::S | KeyboardKey::Tab => KeyMapping::Controller(
            Button::Select,
        ),
        KeyboardKey::Space | KeyboardKey::P => KeyMapping::App(AppControlAction::TogglePause),
        KeyboardKey::F => KeyMapping::App(AppControlAction::SaveState),
        KeyboardKey::L => KeyMapping::App(AppControlAction::LoadState),
        KeyboardKey::F5 => KeyMapping::App(AppControlAction::SaveState),
        KeyboardKey::F9 => KeyMapping::App(AppControlAction::LoadState),
        KeyboardKey::Digit(slot) => {
            if slot <= 9 {
                KeyMapping::App(AppControlAction::SelectSaveSlot(SaveSlot::Slot(slot)))
            } else {
                return None;
            }
        },
    };
    Some(mapping)
}

/// Controller 1: the held buttons and the serial read-out state of register $4016.
#[derive(Clone, Debug, Default, Eq, PartialEq)]
pub struct Controller {
    buttons: u8,
    strobe: bool,
    read_index: u8,
}

pub struct ControllerView {
    /// Bit `button_index(b)` is set while button `b` is held.
    pub buttons: u8,
    pub strobe: bool,
    pub read_index: u8,
}

impl View for Controller {
    type V = ControllerView;

    closed spec fn view(&self) -> ControllerView {
        ControllerView { buttons: self.buttons, strobe: self.strobe, read_index: self.read_index }
    }
}

/// The button byte after pressing or releasing one button.
pub open spec fn with_button(buttons: u8, button: Button, pressed: bool) -> u8 {
    if pressed {
        buttons | (1u8 << button_index(button))
    } else {
        buttons & !(1u8 << button_index(button))
    }
}

/// The bit that a read of $4016 returns: the button at the read position, then 1 after all eight.
pub open spec fn serial_bit(buttons: u8, read_index: u8) -> u8 {
    if read_index < 8 {
        if bit_set(buttons, read_index) {
            1
        } else {
            0
        }
    } else {
        1
    }
}

/// The read position after a read of $4016.
pub open spec fn next_read_index(strobe: bool, read_index: u8) -> u8 {
    if strobe {
        0
    } else if read_index < 8 {
        (read_index + 1) as u8
    } else {
        read_index
    }
}

proof fn lemma_mask_bit(buttons: u8, i: u8, j: u8)
    requires
        i < 8,
        j < 8,
    ensures
        bit_set(buttons | (1u8 << i), j) == (i == j || bit_set(buttons, j)),
        bit_set(buttons & !(1u8 << i), j) == (i != j && bit_set(buttons, j)),
        ((buttons & (1u8 << i)) != 0) == bit_set(buttons, i),
{
    assert(bit_set(buttons | (1u8 << i), j) == (i == j || bit_set(buttons, j))) by (bit_vector)
        requires
            i < 8,
            j < 8,
    ;
    assert(bit_set(buttons & !(1u8 << i), j) == (i != j && bit_set(buttons, j))) by (bit_vector)
        requires
            i < 8,
            j < 8,
    ;
    assert(((buttons & (1u8 << i)) != 0) == bit_set(buttons, i)) by (bit_vector)
        requires
            i < 8,
    ;
}


/// The bits that `n` consecutive reads of $4016 return, starting from the given serial state.
pub open spec fn read_sequence(buttons: u8, strobe: bool, read_index: u8, n: nat) -> Seq<u8>
    decreases n,
{
    if n == 0 {
        Seq::empty()
    } else {
        seq![serial_bit(buttons, read_index)] + read_sequence(
            buttons,
            strobe,
            next_read_index(strobe, read_index),
            (n - 1) as nat,
        )
    }
}

proof fn lemma_read_sequence_len(buttons: u8, strobe: bool, read_index: u8, n: nat)
    ensures
        read_sequence(buttons, strobe, read_index, n).len() == n,
    decreases n,
{
    if n > 0 {
        lemma_read_sequence_len(buttons, strobe, next_read_index(strobe, read_index), (n - 1) as nat);
    }
}

/// Pressing or releasing a button changes that button alone.
pub proof fn law_set_button_affects_only_that_button(
    buttons: u8,
    button: Button,
    pressed: bool,
    other: Button,
)
    ensures
        bit_set(with_button(buttons, button, pressed), button_index(other)) == if button == other {
            pressed
        } else {
            bit_set(buttons, button_index(other))
        },
{
    lemma_mask_bit(buttons, button_index(button), button_index(other));
}

/// With the strobe low, reads report the buttons in serial order (A, B, Select, Start,
/// Up, Down, Left, Right) from the current position, and 1 once all eight are out.
pub proof fn law_serial_report_order(buttons: u8, read_index: u8, n: nat, k: int)
    requires
        read_index <= 8,
        0 <= k < n,
    ensures
        read_sequence(buttons, false, read_index, n)[k] == serial_bit(
            buttons,
            if read_index + k < 8 {
                (read_index + k) as u8
            } else {
                8u8
            },
        ),
    decreases n,
{
    let rest = read_sequence(buttons, false, next_read_index(false, read_index), (n - 1) as nat);
    lemma_read_sequence_len(buttons, false, next_read_index(false, read_index), (n - 1) as nat);
    assert(read_sequence(buttons, false, read_index, n) == seq![serial_bit(buttons, read_index)]
        + rest);
    if k > 0 {
        law_serial_report_order(buttons, next_read_index(false, read_index), (n - 1) as nat, k - 1);
        assert(read_sequence(buttons, false, read_index, n)[k] == rest[k - 1]);
    }
}

/// The controller reports its buttons in the NES order A, B, Select, Start, Up,
/// Down, Left, Right: the button listed k-th in `Button::ALL` sits at position k.
pub proof fn law_buttons_in_nes_order(k: int)
    requires
        0 <= k < 8,
    ensures
        Button::ALL@ == seq![
            Button::A,
            Button::B,
            Button::Select,
            Button::Start,
            Button::Up,
            Button::Down,
            Button::Left,
            Button::Right,
        ],
        button_index(Button::ALL[k]) == k,
        forall|b: Button| button_index(b) == k ==> b == Button::ALL[k],
{
    assert(Button::ALL@ =~= seq![
        Button::A,
        Button::B,
        Button::Select,
        Button::Start,
        Button::Up,
        Button::Down,
        Button::Left,
        Button::Right,
    ]);
}

/// After the strobe is released, the k-th of the first eight reads of $4016
/// reports whether the k-th button of the NES order (`Button::ALL[k]`) is held.
pub proof fn law_serial_reads_follow_nes_order(buttons: u8, k: int)
    requires
        0 <= k < 8,
    ensures
        read_sequence(buttons, false, 0, 8)[k] == if bit_set(buttons, button_index(Button::ALL[k])) {
            1u8
        } else {
            0u8
        },
{
    law_serial_report_order(buttons, 0, 8, k);
    law_buttons_in_nes_order(k);
}

/// With the strobe high, every read reports button A.
pub proof fn law_strobe_holds_button_a(buttons: u8, n: nat, k: int)
    requires
        0 <= k < n,
    ensures
        read_sequence(buttons, true, 0, n)[k] == serial_bit(buttons, 0),
    decreases n,
{
    let rest = read_sequence(buttons, true, 0, (n - 1) as nat);
    lemma_read_sequence_len(buttons, true, 0, (n - 1) as nat);
    assert(read_sequence(buttons, true, 0, n) == seq![serial_bit(buttons, 0)] + rest);
    if k > 0 {
        law_strobe_holds_button_a(buttons, (n - 1) as nat, k - 1);
        assert(read_sequence(buttons, true, 0, n)[k] == rest[k - 1]);
    }
}

impl Controller {
    pub fn new() -> (c: Self)
        ensures
            c@.buttons == 0,
            !c@.strobe,
            c@.read_index == 0,
    {
        Controller { buttons: 0, strobe: false, read_index: 0 }
    }

    /// Rebuilds a controller from the three values that a save state records.
    pub fn from_parts(buttons: u8, strobe: bool, read_index: u8) -> (c: Self)
        ensures
            c@.buttons == buttons,
            c@.strobe == strobe,
            c@.read_index == read_index,
    {
        Controller { buttons, strobe, read_index }
    }

    pub fn buttons(&self) -> (r: u8)
        ensures
            r == self@.buttons,
    {
        self.buttons
    }

    pub fn is_pressed(&self, button: Button) -> (r: bool)
        ensures
            r == bit_set(self@.buttons, button_index(button)),
    {
        proof {
            lemma_mask_bit(self.buttons, button_index(button), 0);
        }
        self.buttons & button.mask() != 0
    }

    pub fn set_button(&mut self, button: Button, pressed: bool)
        ensures
            final(self)@.buttons == with_button(old(self)@.buttons, button, pressed),
            final(self)@.strobe == old(self)@.strobe,
            final(self)@.read_index == old(self)@.read_index,
    {
        if pressed {
            self.buttons = self.buttons | button.mask();
        } else {
            self.buttons = self.buttons & !button.mask();
        }
    }

    /// Applies a key event: a mapped button follows the key, an emulator control
    /// is handed back on press, anything else is ignored.
    pub fn apply_key(&mut self, key: KeyboardKey, pressed: bool) -> (r: Option<AppControlAction>)
        ensures
            match key_mapping(key) {
                Some(KeyMapping::Controller(button)) => {
                    &&& r is None
                    &&& final(self)@.buttons == with_button(old(self)@.buttons, button, pressed)
                    &&& final(self)@.strobe == old(self)@.strobe
                    &&& final(self)@.read_index == old(self)@.read_index
                },
                Some(KeyMapping::App(action)) => {
                    &&& r == (if pressed { Some(action) } else { None })
                    &&& final(self)@ == old(self)@
                },
                None => r is None && final(self)@ == old(self)@,
            },
    {
        match default_key_mapping(key) {
            Some(KeyMapping::Controller(button)) => {
                self.set_button(button, pressed);
                None
            },
            Some(KeyMapping::App(action)) => if pressed {
                Some(action)
            } else {
                None
            },
            None => None,
        }
    }

    /// A write to $4016: bit 0 is the strobe; while it is high the read position stays at A.
    pub fn write_strobe(&mut self, value: u8)
        ensures
            final(self)@.buttons == old(self)@.buttons,
            final(self)@.strobe == (value & 1 != 0),
            final(self)@.read_index == (if value & 1 != 0 {
                0
            } else {
                old(self)@.read_index
            }),
    {
        self.strobe = value & 0x01 != 0;
        if self.strobe {
            self.read_index = 0;
        }
    }

    /// A read of $4016: the next button bit of the serial report.
    pub fn read_4016(&mut self) -> (r: u8)
        ensures
            r == serial_bit(old(self)@.buttons, old(self)@.read_index),
            final(self)@.buttons == old(self)@.buttons,
            final(self)@.strobe == old(self)@.strobe,
            final(self)@.read_index == next_read_index(old(self)@.strobe, old(self)@.read_index),
    {
        let bit = if self.read_index < 8 {
            let pressed = self.is_pressed(Button::from_index(self.read_index));
            if pressed {
                1
            } else {
                0
            }
        } else {
            1
        };
        if self.strobe {
            self.read_index = 0;
        } else if self.read_index < 8 {
            self.read_index = self.read_index + 1;
        }
        bit
    }

    pub fn strobe(&self) -> (r: bool)
        ensures
            r == self@.strobe,
    {
        self.strobe
    }

    pub fn read_index(&self) -> (r: u8)
        ensures
            r == self@.read_index,
    {
        self.read_index
    }
}

} // verus!
