use fc_emu::input::{AppControlAction, KeyboardKey, SaveSlot};
use fc_emu::window::{
    draw_menu_overlay, glyph_rows, map_character_key, menu_command_for_button, slot_color,
    MenuCommand, WindowConfig, CURRENT_SLOT_COLOR, EXIT_BUTTON_COLOR, LABEL_COLOR,
    MENU_BACKGROUND, OTHER_SLOT_COLOR, PAUSED_BUTTON_COLOR, RUNNING_BUTTON_COLOR,
    SAVE_BUTTON_COLOR,
};

#[test]
fn default_window_size_is_three_x_nes_resolution() {
    assert_eq!(WindowConfig::default().content_size(), (768, 720));
}

#[test]
fn menu_buttons_map_to_commands_left_to_right() {
    assert_eq!(
        menu_command_for_button(0),
        Some(MenuCommand::Action(AppControlAction::SaveState))
    );
    assert_eq!(
        menu_command_for_button(1),
        Some(MenuCommand::Action(AppControlAction::LoadState))
    );
    assert_eq!(menu_command_for_button(2), Some(MenuCommand::Reset));
    assert_eq!(
        menu_command_for_button(3),
        Some(MenuCommand::Action(AppControlAction::TogglePause))
    );
    assert_eq!(
        menu_command_for_button(4),
        Some(MenuCommand::Action(AppControlAction::SelectSaveSlot(SaveSlot::Slot(1))))
    );
    assert_eq!(
        menu_command_for_button(6),
        Some(MenuCommand::Action(AppControlAction::SelectSaveSlot(SaveSlot::Slot(3))))
    );
    assert_eq!(menu_command_for_button(7), Some(MenuCommand::Exit));
    assert_eq!(menu_command_for_button(8), None);
}

#[test]
fn typed_characters_map_to_keys() {
    assert_eq!(map_character_key("x"), Some(KeyboardKey::X));
    assert_eq!(map_character_key("X"), Some(KeyboardKey::X));
    assert_eq!(map_character_key("z"), Some(KeyboardKey::Z));
    assert_eq!(map_character_key("S"), Some(KeyboardKey::S));
    assert_eq!(map_character_key("p"), Some(KeyboardKey::P));
    assert_eq!(map_character_key("2"), Some(KeyboardKey::Digit(2)));
    assert_eq!(map_character_key("4"), None);
    assert_eq!(map_character_key("xx"), None);
    assert_eq!(map_character_key(""), None);
}

#[test]
fn content_size_scales_both_sides() {
    let config = WindowConfig { width: 256, height: 240, scale: 2 };
    assert_eq!(config.content_size(), (512, 480));
}

fn pixel(frame: &[u8], x: usize, y: usize) -> [u8; 4] {
    let i = (y * 256 + x) * 4;
    [frame[i], frame[i + 1], frame[i + 2], frame[i + 3]]
}

#[test]
fn menu_overlay_draws_buttons_labels_and_leaves_the_picture() {
    let mut frame = vec![7u8; 256 * 240 * 4];
    draw_menu_overlay(&mut frame, 2, false);

    assert_eq!(pixel(&frame, 0, 0), MENU_BACKGROUND);
    assert_eq!(pixel(&frame, 1, 3), MENU_BACKGROUND);
    assert_eq!(pixel(&frame, 2, 3), SAVE_BUTTON_COLOR);
    assert_eq!(pixel(&frame, 29, 20), SAVE_BUTTON_COLOR);
    assert_eq!(pixel(&frame, 30, 20), MENU_BACKGROUND);
    assert_eq!(pixel(&frame, 2, 21), MENU_BACKGROUND);
    // "SAV" starts at x = 5: the top row of 'S' is lit, its second row only on the left.
    assert_eq!(pixel(&frame, 5, 7), LABEL_COLOR);
    assert_eq!(pixel(&frame, 10, 8), LABEL_COLOR);
    assert_eq!(pixel(&frame, 10, 9), SAVE_BUTTON_COLOR);
    assert_eq!(pixel(&frame, 3 * 32 + 2, 3), RUNNING_BUTTON_COLOR);
    assert_eq!(pixel(&frame, 4 * 32 + 2, 3), OTHER_SLOT_COLOR);
    assert_eq!(pixel(&frame, 5 * 32 + 2, 3), CURRENT_SLOT_COLOR);
    assert_eq!(pixel(&frame, 6 * 32 + 2, 3), OTHER_SLOT_COLOR);
    assert_eq!(pixel(&frame, 7 * 32 + 2, 3), EXIT_BUTTON_COLOR);
    assert_eq!(pixel(&frame, 0, 24), [7, 7, 7, 7]);
    assert_eq!(pixel(&frame, 255, 239), [7, 7, 7, 7]);

    draw_menu_overlay(&mut frame, 1, true);
    assert_eq!(pixel(&frame, 3 * 32 + 2, 3), PAUSED_BUTTON_COLOR);
    assert_eq!(pixel(&frame, 4 * 32 + 2, 3), CURRENT_SLOT_COLOR);
    // "RUN" on the pause button: the top row of 'R' is lit at its left two columns.
    assert_eq!(pixel(&frame, 3 * 32 + 5, 7), LABEL_COLOR);
    assert_eq!(pixel(&frame, 3 * 32 + 9, 7), PAUSED_BUTTON_COLOR);
}

#[test]
fn glyphs_and_slot_colours() {
    assert_eq!(glyph_rows('X'), Some([0b101, 0b101, 0b010, 0b101, 0b101]));
    assert_eq!(glyph_rows('1'), Some([0b010, 0b110, 0b010, 0b010, 0b111]));
    assert_eq!(glyph_rows('Q'), None);
    assert_eq!(slot_color(3, 3), CURRENT_SLOT_COLOR);
    assert_eq!(slot_color(3, 1), OTHER_SLOT_COLOR);
}
