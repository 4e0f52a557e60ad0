use practice_tool::ui_mode::UiState;

#[test]
fn display_hotkey_cycles_between_bar_and_menu() {
    let mut mode = UiState::Closed;
    mode = mode.after_frame(true, false, false);
    assert_eq!(mode, UiState::MenuOpen);
    mode = mode.after_frame(true, false, false);
    assert_eq!(mode, UiState::Closed);
}

#[test]
fn shift_hides_the_open_menu() {
    assert_eq!(UiState::MenuOpen.after_frame(true, false, true), UiState::Hidden);
    assert_eq!(UiState::MenuOpen.after_frame(true, false, false), UiState::Closed);
}

#[test]
fn transition_table_has_six_rows() {
    assert_eq!(UiState::Hidden.toggled(false), UiState::Closed);
    assert_eq!(UiState::Hidden.toggled(true), UiState::Closed);
    assert_eq!(UiState::MenuOpen.toggled(true), UiState::Hidden);
    assert_eq!(UiState::Closed.toggled(true), UiState::Hidden);
    assert_eq!(UiState::MenuOpen.toggled(false), UiState::Closed);
    assert_eq!(UiState::Closed.toggled(false), UiState::MenuOpen);
}

#[test]
fn no_transition_without_key_or_with_captured_keyboard() {
    for mode in [UiState::MenuOpen, UiState::Closed, UiState::Hidden] {
        for shift in [false, true] {
            assert_eq!(mode.after_frame(false, false, shift), mode);
            assert_eq!(mode.after_frame(false, true, shift), mode);
            assert_eq!(mode.after_frame(true, true, shift), mode);
        }
    }
}

#[test]
fn only_the_open_menu_blocks_messages_and_shows_the_cursor() {
    assert!(UiState::MenuOpen.should_block_messages());
    assert!(!UiState::Closed.should_block_messages());
    assert!(!UiState::Hidden.should_block_messages());
    assert!(UiState::MenuOpen.cursor_visible());
    assert!(!UiState::Closed.cursor_visible());
    assert!(!UiState::Hidden.cursor_visible());
}

#[test]
fn input_messages_are_kept_from_the_host_while_the_menu_is_open() {
    for message in [0x0100u32, 0x0101, 0x0109, 0x0200, 0x0201, 0x020E] {
        assert!(UiState::MenuOpen.handles_message(message));
        assert!(!UiState::Closed.handles_message(message));
        assert!(!UiState::Hidden.handles_message(message));
    }
    for message in [0u32, 0x000F, 0x00FF, 0x010A, 0x01FF, 0x020F, u32::MAX] {
        assert!(!UiState::MenuOpen.handles_message(message));
    }
}
