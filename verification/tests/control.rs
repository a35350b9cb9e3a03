use fc_emu::control::{Command, FrontEnd};
use fc_emu::input::{AppControlAction, Button, KeyboardKey, SaveSlot};
use fc_emu::save_state::SaveStateError;

#[test]
fn toggles_pause_state() {
    let mut app = FrontEnd::new();
    assert!(!app.paused());
    app.handle_action(AppControlAction::TogglePause).unwrap();
    assert!(app.paused());
}

#[test]
fn changes_save_slot_only_for_valid_slots() {
    let mut app = FrontEnd::new();
    app.handle_action(AppControlAction::SelectSaveSlot(SaveSlot::Slot(3)))
        .unwrap();
    assert_eq!(app.current_slot(), 3);
    assert!(
        app.handle_action(AppControlAction::SelectSaveSlot(SaveSlot::Slot(4)))
            .is_err()
    );
}

#[test]
fn reset_requests_audio_queue_clear_once() {
    let mut app = FrontEnd::new();

    app.note_reset();

    assert!(app.take_audio_reset_requested());
    assert!(!app.take_audio_reset_requested());
}

#[test]
fn save_and_load_keys_ask_for_the_current_slot() {
    let mut app = FrontEnd::new();
    assert_eq!(app.handle_key(KeyboardKey::Digit(2), true), Ok(Command::Nothing));
    assert_eq!(app.status_message(), Some("Slot 2"));
    assert_eq!(app.handle_key(KeyboardKey::F5, true), Ok(Command::SaveToSlot(2)));
    assert_eq!(app.handle_key(KeyboardKey::L, true), Ok(Command::LoadFromSlot(2)));
    assert_eq!(app.handle_key(KeyboardKey::F5, false), Ok(Command::Nothing));
    assert_eq!(
        app.handle_key(KeyboardKey::X, true),
        Ok(Command::SetButton(Button::A, true))
    );
    assert_eq!(
        app.handle_key(KeyboardKey::Digit(7), true),
        Err(SaveStateError::InvalidSlot(7))
    );
    assert_eq!(app.current_slot(), 2);
}

#[test]
fn outcomes_of_saves_and_loads_show_in_the_title() {
    let mut app = FrontEnd::new();
    assert_eq!(app.window_title("game.nes"), "game.nes");
    app.note_saved();
    assert_eq!(app.status_message(), Some("Saved slot 1"));
    assert_eq!(app.window_title("game.nes"), "game.nes - Saved slot 1");
    app.handle_action(AppControlAction::Pause).unwrap();
    assert_eq!(app.window_title("game.nes"), "game.nes - Paused - Saved slot 1");
    app.note_load_failed("save state file 'x' does not exist");
    assert!(app.status_message().unwrap().starts_with("Load failed:"));
    assert!(!app.take_audio_reset_requested());
    app.note_loaded();
    assert_eq!(app.status_message(), Some("Loaded slot 1"));
    assert!(app.take_audio_reset_requested());
    app.note_save_failed("disk full");
    assert_eq!(app.status_message(), Some("Save failed: disk full"));
    app.handle_action(AppControlAction::Resume).unwrap();
    assert!(app.runs_on_tick());
}

#[test]
fn exit_is_remembered() {
    let mut app = FrontEnd::new();
    assert!(!app.should_exit());
    app.request_exit();
    assert!(app.should_exit());
}
