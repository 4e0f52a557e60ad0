use practice_tool::config::Config;
use practice_tool::flags::FlagSpec;
use practice_tool::hotkey::{Hotkey, Modifier};
use practice_tool::indicators::{Indicator, IndicatorType};
use practice_tool::practice_tool::{Button, ButtonEffect, FrameInput, FramePlan, Pass, PracticeTool};
use practice_tool::radial::KeyEvent;
use practice_tool::ui_mode::UiState;
use practice_tool::widgets::{collect_hotkeys, Widget};

const TEXT: &str = r#"
radial_menu = [ { key = "g", label = "gravity" }, { key = "ctrl+f1", label = "save" } ]

[settings]
log_level = "DEBUG"
display = "0"

[[commands]]
flag = "gravity"
hotkey = "g"

[[commands]]
item_spawner = "i"

[[commands]]
group = "Stats"
commands = [ { character_stats = "8" }, { savefile_manager = "f1" } ]
"#;

fn tool() -> PracticeTool {
    PracticeTool::new(
        Config::parse(TEXT).unwrap(),
        vec![Indicator { indicator: IndicatorType::Igt, enabled: true }],
    )
}

fn frame(display_keyup: bool, want_capture_keyboard: bool, rshift_down: bool) -> FrameInput {
    FrameInput { display_keyup, want_capture_keyboard, rshift_down }
}

#[test]
fn widgets_follow_the_commands() {
    let tool = tool();
    let menu: Vec<(Hotkey, &str)> = tool.radial_menu.iter().map(|e| (e.key, e.label.as_str())).collect();
    assert_eq!(
        menu,
        vec![
            (Hotkey { key: 0x47, modifier: None }, "gravity"),
            (Hotkey { key: 0x70, modifier: Some(Modifier::Ctrl) }, "save"),
        ]
    );
    let zero = Hotkey { key: 0x30, modifier: None };
    assert_eq!(tool.widgets.len(), 3);
    assert!(matches!(&tool.widgets[0], Widget::Flag { flag: FlagSpec::Gravity, hotkey: Some(h) } if h.key == 0x47));
    assert!(matches!(&tool.widgets[1], Widget::ItemSpawner { hotkey_load, hotkey_close } if hotkey_load.key == 0x49 && *hotkey_close == zero));
    match &tool.widgets[2] {
        Widget::Group { label, hotkey_close, widgets } => {
            assert_eq!(label, "Stats");
            assert_eq!(*hotkey_close, zero);
            assert!(matches!(&widgets[0], Widget::CharacterStats { hotkey_open, hotkey_close } if hotkey_open.key == 0x38 && *hotkey_close == zero));
            assert!(matches!(&widgets[1], Widget::SavefileManager { hotkey_open: None, hotkey_close, .. } if *hotkey_close == zero));
        },
        other => panic!("unexpected {:?}", other),
    }
}

#[test]
fn frames_count_and_toggle() {
    let mut tool = tool();
    assert_eq!((tool.ui_state, tool.is_hidden, tool.framecount), (UiState::Closed, false, 0));
    assert_eq!(tool.render(frame(false, false, false)), FramePlan { mode: UiState::Closed, cursor: None });
    assert_eq!(tool.render(frame(true, false, false)), FramePlan { mode: UiState::MenuOpen, cursor: Some(true) });
    assert!(tool.should_block_messages());
    assert_eq!(tool.render(frame(false, false, false)), FramePlan { mode: UiState::MenuOpen, cursor: Some(true) });
    assert_eq!(tool.render(frame(true, true, false)), FramePlan { mode: UiState::MenuOpen, cursor: Some(true) });
    assert_eq!(tool.render(frame(true, false, true)), FramePlan { mode: UiState::Hidden, cursor: Some(false) });
    assert!(!tool.should_block_messages());
    assert_eq!(tool.render(frame(true, false, true)), FramePlan { mode: UiState::Closed, cursor: Some(false) });
    assert_eq!(tool.framecount, 6);
    tool.framecount = u32::MAX;
    tool.render(frame(false, false, false));
    assert_eq!(tool.framecount, 0);
}

#[test]
fn passes_put_hotkeys_before_drawing() {
    let mut tool = tool();
    assert_eq!(tool.passes(true, true), vec![Pass::Interact, Pass::RenderPassive]);
    tool.press(Button::Open);
    assert_eq!(tool.passes(false, false), vec![Pass::Interact, Pass::RenderActive]);
    assert_eq!(tool.passes(true, false), vec![Pass::Interact, Pass::RenderActive]);
    assert_eq!(tool.passes(false, true), vec![Pass::Interact, Pass::RenderActive]);
    assert_eq!(tool.passes(true, true), vec![Pass::RenderActive]);
    tool.ui_state = UiState::Hidden;
    assert_eq!(tool.passes(true, true), vec![Pass::Interact]);
}

#[test]
fn buttons_move_between_the_modes() {
    let none = ButtonEffect { cursor: None, eject: false };
    let hide_cursor = ButtonEffect { cursor: Some(false), eject: false };
    let mut tool = tool();
    assert_eq!(tool.press(Button::Close), none);
    assert_eq!(tool.press(Button::Eject), none);
    assert_eq!(tool.press(Button::Open), none);
    assert_eq!(tool.ui_state, UiState::MenuOpen);
    assert_eq!(tool.press(Button::Unhide), none);
    assert_eq!(tool.press(Button::Hide), none);
    assert_eq!(tool.press(Button::Close), hide_cursor);
    assert_eq!(tool.ui_state, UiState::Closed);
    assert_eq!(tool.press(Button::Hide), hide_cursor);
    assert_eq!((tool.ui_state, tool.is_hidden), (UiState::Hidden, true));
    assert_eq!(tool.press(Button::Open), none);
    tool.render(frame(true, false, false));
    tool.render(frame(true, false, false));
    assert_eq!(tool.ui_state, UiState::MenuOpen);
    assert_eq!(tool.press(Button::Eject), none);
    assert_eq!(tool.press(Button::Close), hide_cursor);
    assert_eq!((tool.ui_state, tool.is_hidden), (UiState::Hidden, true));
    tool.ui_state = UiState::MenuOpen;
    assert_eq!(tool.press(Button::Unhide), hide_cursor);
    assert_eq!((tool.ui_state, tool.is_hidden), (UiState::Closed, false));
    tool.press(Button::Open);
    assert_eq!(tool.press(Button::Eject), ButtonEffect { cursor: Some(false), eject: true });
    assert_eq!(tool.ui_state, UiState::Closed);
    assert_eq!(tool.press(Button::ClosePopup), hide_cursor);
    tool.framecount = 9;
    assert_eq!(tool.press(Button::ResetFrameCount), none);
    assert_eq!(tool.framecount, 0);
}

#[test]
fn logs_are_kept_five_seconds_and_every_line_is_drawn() {
    let mut tool = tool();
    let lines = |list: &[&str]| list.iter().map(|s| s.to_string()).collect::<Vec<String>>();
    tool.drain_logs(0, &lines(&["a", "b"]));
    tool.drain_logs(3000, &lines(&["c", "d"]));
    assert_eq!(tool.render_logs(), lines(&["a", "b", "c", "d"]));
    tool.drain_logs(4999, &lines(&[]));
    assert_eq!(tool.render_logs(), lines(&["a", "b", "c", "d"]));
    tool.drain_logs(5000, &lines(&[]));
    assert_eq!(tool.render_logs(), lines(&["c", "d"]));
    tool.drain_logs(8000, &lines(&["e"]));
    assert_eq!(tool.render_logs(), lines(&["e"]));
}

#[test]
fn a_radial_commit_presses_and_then_releases_the_hotkey() {
    let mut tool = tool();
    assert!(!tool.render_radial(0x1000, Some(1)).block_gamepad);
    assert!(tool.render_radial(0x1300, Some(1)).block_gamepad);
    assert_eq!(tool.render_radial(0x1300, Some(1)).commit, None);
    assert_eq!(tool.render_radial(0x0300, Some(1)).commit, Some(1));
    assert_eq!(tool.render_radial(0x0300, Some(1)).commit, None);
    assert_eq!(
        tool.before_render(),
        vec![KeyEvent { key: 0x11, down: true }, KeyEvent { key: 0x70, down: true }]
    );
    assert_eq!(
        tool.before_render(),
        vec![KeyEvent { key: 0x11, down: false }, KeyEvent { key: 0x70, down: false }]
    );
    assert!(tool.before_render().is_empty());
    assert_eq!(tool.render_radial(0x1300, Some(7)).commit, None);
    assert_eq!(tool.render_radial(0x0300, Some(7)).commit, None);
    assert!(tool.before_render().is_empty());
}

#[test]
fn hotkeys_are_collected_in_widget_order() {
    let tool = tool();
    let codes: Vec<(u8, Option<Modifier>)> =
        collect_hotkeys(&tool.widgets).iter().map(|h| (h.key, h.modifier)).collect();
    assert_eq!(
        codes,
        vec![
            (0x47, None),
            (0x49, None),
            (0x30, None),
            (0x30, None),
            (0x38, None),
            (0x30, None),
            (0x70, None),
            (0x30, None),
        ]
    );
    assert!(collect_hotkeys(&Vec::new()).is_empty());
}
