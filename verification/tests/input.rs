use fc_emu::input::{AppControlAction, Button, Controller, KeyboardKey, SaveSlot};

#[test]
fn updates_button_state() {
    let mut controller = Controller::new();

    controller.set_button(Button::A, true);
    controller.set_button(Button::Right, true);
    assert!(controller.is_pressed(Button::A));
    assert!(controller.is_pressed(Button::Right));
    assert!(!controller.is_pressed(Button::B));

    controller.set_button(Button::A, false);
    assert!(!controller.is_pressed(Button::A));
    assert!(controller.is_pressed(Button::Right));
}

#[test]
fn maps_default_keyboard_buttons_and_app_controls() {
    let mut controller = Controller::new();

    assert_eq!(controller.apply_key(KeyboardKey::X, true), None);
    assert!(controller.is_pressed(Button::A));

    assert_eq!(
        controller.apply_key(KeyboardKey::Space, true),
        Some(AppControlAction::TogglePause)
    );
    assert_eq!(
        controller.apply_key(KeyboardKey::F, true),
        Some(AppControlAction::SaveState)
    );
    assert_eq!(
        controller.apply_key(KeyboardKey::L, true),
        Some(AppControlAction::LoadState)
    );
    assert_eq!(
        controller.apply_key(KeyboardKey::F5, true),
        Some(AppControlAction::SaveState)
    );
    assert_eq!(
        controller.apply_key(KeyboardKey::F9, true),
        Some(AppControlAction::LoadState)
    );
    assert_eq!(
        controller.apply_key(KeyboardKey::Digit(3), true),
        Some(AppControlAction::SelectSaveSlot(SaveSlot::Slot(3)))
    );

    assert!(controller.is_pressed(Button::A));
    assert!(!controller.is_pressed(Button::Start));

    assert_eq!(controller.apply_key(KeyboardKey::S, true), None);
    assert!(controller.is_pressed(Button::Select));
    controller.set_button(Button::Select, false);
    assert_eq!(controller.apply_key(KeyboardKey::Tab, true), None);
    assert!(controller.is_pressed(Button::Select));
}

#[test]
fn strobe_keeps_reading_a_button() {
    let mut controller = Controller::new();
    controller.set_button(Button::A, true);
    controller.set_button(Button::B, false);

    controller.write_strobe(1);

    assert!(controller.strobe());
    assert_eq!(controller.read_4016(), 1);
    assert_eq!(controller.read_4016(), 1);
    assert_eq!(controller.read_index(), 0);
}

#[test]
fn reads_buttons_in_nes_serial_order() {
    let mut controller = Controller::new();
    controller.set_button(Button::A, true);
    controller.set_button(Button::Select, true);
    controller.set_button(Button::Up, true);
    controller.set_button(Button::Right, true);

    controller.write_strobe(1);
    controller.write_strobe(0);

    let bits: Vec<u8> = (0..8).map(|_| controller.read_4016()).collect();
    assert_eq!(bits, vec![1, 0, 1, 0, 1, 0, 0, 1]);
}

#[test]
fn reads_one_after_eight_buttons() {
    let mut controller = Controller::new();
    controller.write_strobe(0);

    for _ in 0..8 {
        controller.read_4016();
    }

    assert_eq!(controller.read_4016(), 1);
    assert_eq!(controller.read_4016(), 1);
}

#[test]
fn app_controls_do_not_mutate_controller_buttons_on_release_or_press() {
    let mut controller = Controller::new();

    assert_eq!(
        controller.apply_key(KeyboardKey::P, true),
        Some(AppControlAction::TogglePause)
    );
    assert_eq!(controller.apply_key(KeyboardKey::P, false), None);

    for button in Button::ALL {
        assert!(!controller.is_pressed(button));
    }
}

#[test]
fn setting_one_button_leaves_the_others() {
    let mut controller = Controller::new();
    controller.set_button(Button::Start, true);
    controller.set_button(Button::Left, true);
    controller.set_button(Button::Start, false);
    for button in Button::ALL {
        assert_eq!(controller.is_pressed(button), button == Button::Left);
    }
}

#[test]
fn digits_above_nine_map_to_nothing() {
    let mut controller = Controller::new();
    assert_eq!(controller.apply_key(KeyboardKey::Digit(10), true), None);
    assert_eq!(
        controller.apply_key(KeyboardKey::Digit(9), true),
        Some(AppControlAction::SelectSaveSlot(SaveSlot::Slot(9)))
    );
}
