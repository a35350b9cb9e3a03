//! The front end's decisions: pausing, the current save slot, the status
//! message, the window title and the audio-reset request. Saving and loading
//! touch the disk, so a decision to save or load is handed back as a `Command`
//! for the caller to carry out, and its outcome is reported back.
use crate::input::{key_mapping, AppControlAction, Button, KeyMapping, KeyboardKey, SaveSlot};
use crate::input::default_key_mapping;
use crate::save_state::{valid_slot, validate_slot, SaveStateError};
use crate::text::{decimal, push_decimal};
use vstd::prelude::*;
use vstd::string::StringExecFns;

verus! {

/// What the caller is to do after a decision.
#[derive(Clone, Copy, Debug, PartialEq, Eq, Structural)]
pub enum Command {
    Nothing,
    /// Press or release a button on controller 1.
    SetButton(Button, bool),
    /// Write a save state of the machine to this slot.
    SaveToSlot(u8),
    /// Read the save state in this slot and load it.
    LoadFromSlot(u8),
}

/// The front end's state.
pub struct FrontEnd {
    paused: bool,
    current_slot: u8,
    status_message: Option<String>,
    should_exit: bool,
    audio_reset_requested: bool,
}

pub struct FrontEndModel {
    pub paused: bool,
    pub current_slot: u8,
    pub status_message: Option<Seq<char>>,
    pub should_exit: bool,
    pub audio_reset_requested: bool,
}

impl View for FrontEnd {
    type V = FrontEndModel;

    closed spec fn view(&self) -> FrontEndModel {
        FrontEndModel {
            paused: self.paused,
            current_slot: self.current_slot,
            status_message: match self.status_message {
                Some(s) => Some(s@),
                None => None,
            },
            should_exit: self.should_exit,
            audio_reset_requested: self.audio_reset_requested,
        }
    }
}

/// The state after an action, and the command it gives; `None` when the action
/// is refused (an invalid slot), which changes nothing.
pub open spec fn action_outcome(s: FrontEndModel, action: AppControlAction) -> Option<(FrontEndModel, Command)> {
    match action {
        AppControlAction::Pause => Some((FrontEndModel { paused: true, ..s }, Command::Nothing)),
        AppControlAction::Resume => Some((FrontEndModel { paused: false, ..s }, Command::Nothing)),
        AppControlAction::TogglePause => Some((FrontEndModel { paused: !s.paused, ..s }, Command::Nothing)),
        AppControlAction::SaveState => Some((s, Command::SaveToSlot(s.current_slot))),
        AppControlAction::LoadState => Some((s, Command::LoadFromSlot(s.current_slot))),
        AppControlAction::SelectSaveSlot(SaveSlot::Slot(slot)) => if valid_slot(slot) {
            Some(
                (
                    FrontEndModel {
                        current_slot: slot,
                        status_message: Some("Slot "@ + decimal(slot as nat)),
                        ..s
                    },
                    Command::Nothing,
                ),
            )
        } else {
            None
        },
    }
}

/// The title: the ROM's file name, " - Paused" while paused, and the status message.
pub open spec fn title_text(s: FrontEndModel, name: Seq<char>) -> Seq<char> {
    let base = if s.paused {
        name + " - Paused"@
    } else {
        name
    };
    match s.status_message {
        Some(m) => base + " - "@ + m,
        None => base,
    }
}

/// Once slot 1, 2 or 3 is selected, saving and loading go to that slot, and
/// selecting any other number changes nothing.
pub proof fn law_selected_slot_is_used(s: FrontEndModel, slot: u8)
    ensures
        valid_slot(slot) ==> ({
            let selected = match action_outcome(s, AppControlAction::SelectSaveSlot(SaveSlot::Slot(slot))) {
                Some((t, _)) => t,
                None => s,
            };
            &&& action_outcome(selected, AppControlAction::SaveState) == Some((selected, Command::SaveToSlot(slot)))
            &&& action_outcome(selected, AppControlAction::LoadState) == Some((selected, Command::LoadFromSlot(slot)))
        }),
        !valid_slot(slot) ==> action_outcome(s, AppControlAction::SelectSaveSlot(SaveSlot::Slot(slot))) is None,
{
}

/// The current slot is always 1, 2 or 3: it starts at 1 and actions keep it valid.
pub proof fn law_current_slot_stays_valid(s: FrontEndModel, action: AppControlAction)
    requires
        valid_slot(s.current_slot),
    ensures
        action_outcome(s, action) matches Some((t, _)) ==> valid_slot(t.current_slot),
{
}

impl FrontEnd {
    /// Running, slot 1, no message.
    pub fn new() -> (r: Self)
        ensures
            r@ == (FrontEndModel {
                paused: false,
                current_slot: 1,
                status_message: None,
                should_exit: false,
                audio_reset_requested: false,
            }),
    {
        FrontEnd {
            paused: false,
            current_slot: 1,
            status_message: None,
            should_exit: false,
            audio_reset_requested: false,
        }
    }

    /// Carries out a front-end action. Selecting a slot other than 1, 2 or 3 is
    /// refused with `InvalidSlot`.
    pub fn handle_action(&mut self, action: AppControlAction) -> (r: Result<Command, SaveStateError>)
        ensures
            match action_outcome(old(self)@, action) {
                Some((s, c)) => r == Ok::<Command, SaveStateError>(c) && final(self)@ == s,
                None => final(self)@ == old(self)@ && (action matches AppControlAction::SelectSaveSlot(
                    SaveSlot::Slot(slot),
                ) && r == Err::<Command, SaveStateError>(SaveStateError::InvalidSlot(slot))),
            },
    {
        match action {
            AppControlAction::Pause => {
                self.paused = true;
                Ok(Command::Nothing)
            },
            AppControlAction::Resume => {
                self.paused = false;
                Ok(Command::Nothing)
            },
            AppControlAction::TogglePause => {
                self.paused = !self.paused;
                Ok(Command::Nothing)
            },
            AppControlAction::SaveState => Ok(Command::SaveToSlot(self.current_slot)),
            AppControlAction::LoadState => Ok(Command::LoadFromSlot(self.current_slot)),
            AppControlAction::SelectSaveSlot(SaveSlot::Slot(slot)) => {
                match validate_slot(slot) {
                    Err(e) => Err(e),
                    Ok(()) => {
                        self.current_slot = slot;
                        let mut message = String::from_str("Slot ");
                        push_decimal(&mut message, slot as u64);
                        self.status_message = Some(message);
                        Ok(Command::Nothing)
                    },
                }
            },
        }
    }

    /// A key press or release: controller keys become button commands, front-end
    /// keys act on press only, other keys do nothing.
    pub fn handle_key(&mut self, key: KeyboardKey, pressed: bool) -> (r: Result<Command, SaveStateError>)
        ensures
            match key_mapping(key) {
                Some(KeyMapping::Controller(button)) => r == Ok::<Command, SaveStateError>(
                    Command::SetButton(button, pressed),
                ) && final(self)@ == old(self)@,
                Some(KeyMapping::App(action)) => if pressed {
                    match action_outcome(old(self)@, action) {
                        Some((s, c)) => r == Ok::<Command, SaveStateError>(c) && final(self)@ == s,
                        None => final(self)@ == old(self)@ && (action matches AppControlAction::SelectSaveSlot(
                            SaveSlot::Slot(slot),
                        ) && r == Err::<Command, SaveStateError>(SaveStateError::InvalidSlot(slot))),
                    }
                } else {
                    r == Ok::<Command, SaveStateError>(Command::Nothing) && final(self)@ == old(self)@
                },
                None => r == Ok::<Command, SaveStateError>(Command::Nothing) && final(self)@ == old(self)@,
            },
    {
        match default_key_mapping(key) {
            Some(KeyMapping::Controller(button)) => Ok(Command::SetButton(button, pressed)),
            Some(KeyMapping::App(action)) => {
                if pressed {
                    self.handle_action(action)
                } else {
                    Ok(Command::Nothing)
                }
            },
            None => Ok(Command::Nothing),
        }
    }

    /// Whether a tick runs the machine: only while not paused.
    pub fn runs_on_tick(&self) -> (r: bool)
        ensures
            r == !self@.paused,
    {
        !self.paused
    }

    /// Notes a machine reset: the audio queue is to be cleared.
    pub fn note_reset(&mut self)
        ensures
            final(self)@ == (FrontEndModel { audio_reset_requested: true, ..old(self)@ }),
    {
        self.audio_reset_requested = true;
    }

    /// Notes a successful save to the current slot.
    pub fn note_saved(&mut self)
        ensures
            final(self)@ == (FrontEndModel {
                status_message: Some("Saved slot "@ + decimal(old(self)@.current_slot as nat)),
                ..old(self)@
            }),
    {
        let mut message = String::from_str("Saved slot ");
        push_decimal(&mut message, self.current_slot as u64);
        self.status_message = Some(message);
    }

    /// Notes a successful load from the current slot: the audio queue is to be cleared.
    pub fn note_loaded(&mut self)
        ensures
            final(self)@ == (FrontEndModel {
                status_message: Some("Loaded slot "@ + decimal(old(self)@.current_slot as nat)),
                audio_reset_requested: true,
                ..old(self)@
            }),
    {
        let mut message = String::from_str("Loaded slot ");
        push_decimal(&mut message, self.current_slot as u64);
        self.status_message = Some(message);
        self.audio_reset_requested = true;
    }

    /// Notes a failed save, with the error's text.
    pub fn note_save_failed(&mut self, error: &str)
        ensures
            final(self)@ == (FrontEndModel { status_message: Some("Save failed: "@ + error@), ..old(self)@ }),
    {
        let mut message = String::from_str("Save failed: ");
        message.append(error);
        self.status_message = Some(message);
    }

    /// Notes a failed load, with the error's text.
    pub fn note_load_failed(&mut self, error: &str)
        ensures
            final(self)@ == (FrontEndModel { status_message: Some("Load failed: "@ + error@), ..old(self)@ }),
    {
        let mut message = String::from_str("Load failed: ");
        message.append(error);
        self.status_message = Some(message);
    }

    /// The window title for the ROM file `name`.
    pub fn window_title(&self, name: &str) -> (r: String)
        ensures
            r@ == title_text(self@, name@),
    {
        let mut title = String::from_str(name);
        if self.paused {
            title.append(" - Paused");
        }
        match &self.status_message {
            Some(message) => {
                title.append(" - ");
                title.append(message.as_str());
            },
            None => {},
        }
        title
    }

    pub fn paused(&self) -> (r: bool)
        ensures
            r == self@.paused,
    {
        self.paused
    }

    pub fn current_slot(&self) -> (r: u8)
        ensures
            r == self@.current_slot,
    {
        self.current_slot
    }

    pub fn status_message(&self) -> (r: Option<&str>)
        ensures
            match r {
                Some(m) => self@.status_message == Some(m@),
                None => self@.status_message is None,
            },
    {
        match &self.status_message {
            Some(message) => Some(message.as_str()),
            None => None,
        }
    }

    pub fn should_exit(&self) -> (r: bool)
        ensures
            r == self@.should_exit,
    {
        self.should_exit
    }

    pub fn request_exit(&mut self)
        ensures
            final(self)@ == (FrontEndModel { should_exit: true, ..old(self)@ }),
    {
        self.should_exit = true;
    }

    /// Reports whether an audio reset was asked for, and clears the request.
    pub fn take_audio_reset_requested(&mut self) -> (r: bool)
        ensures
            r == old(self)@.audio_reset_requested,
            final(self)@ == (FrontEndModel { audio_reset_requested: false, ..old(self)@ }),
    {
        let requested = self.audio_reset_requested;
        self.audio_reset_requested = false;
        requested
    }
}

} // verus!
