use practice_tool::hotkey::{Hotkey, Modifier};
use practice_tool::radial::{
    radial_step, shoulders_held, stick_engaged, KeyEvent, KeyQueue, RadialAction, GAMEPAD_A, GAMEPAD_LEFT_SHOULDER,
    GAMEPAD_RIGHT_SHOULDER,
};

const CHORD: u16 = GAMEPAD_LEFT_SHOULDER | GAMEPAD_RIGHT_SHOULDER;

#[test]
fn menu_is_open_only_while_both_shoulders_are_held() {
    assert_eq!((GAMEPAD_A, GAMEPAD_LEFT_SHOULDER, GAMEPAD_RIGHT_SHOULDER), (0x1000, 0x0100, 0x0200));
    for buttons in [0, GAMEPAD_LEFT_SHOULDER, GAMEPAD_RIGHT_SHOULDER, GAMEPAD_A] {
        assert_eq!(
            radial_step(GAMEPAD_A | CHORD, buttons, Some(0), 4),
            RadialAction { block_gamepad: false, commit: None }
        );
    }
    assert!(radial_step(0, CHORD, None, 4).block_gamepad);
    assert!(shoulders_held(CHORD) && shoulders_held(CHORD | GAMEPAD_A));
    assert!(!shoulders_held(GAMEPAD_LEFT_SHOULDER) && !shoulders_held(GAMEPAD_RIGHT_SHOULDER | GAMEPAD_A));
    assert!(radial_step(0, CHORD | 0x8000, None, 4).block_gamepad);
}

#[test]
fn one_activation_per_cycle() {
    for hold in 1..5 {
        for after in 1..5 {
            let mut frames = vec![CHORD; 2];
            frames.extend(std::iter::repeat(CHORD | GAMEPAD_A).take(hold));
            frames.extend(std::iter::repeat(CHORD).take(after));
            frames.push(0);
            let mut previous = 0;
            let mut commits = Vec::new();
            for buttons in frames {
                if let Some(i) = radial_step(previous, buttons, Some(2), 4).commit {
                    commits.push(i);
                }
                previous = buttons;
            }
            assert_eq!(commits, vec![2]);
        }
    }
}

#[test]
fn nothing_is_committed_without_a_sector_or_outside_the_menu() {
    assert_eq!(radial_step(CHORD | GAMEPAD_A, CHORD, None, 4).commit, None);
    assert_eq!(radial_step(CHORD | GAMEPAD_A, CHORD, Some(4), 4).commit, None);
    assert_eq!(radial_step(CHORD | GAMEPAD_A, CHORD, Some(3), 4).commit, Some(3));
    assert_eq!(radial_step(CHORD, CHORD, Some(3), 4).commit, None);
    assert_eq!(radial_step(CHORD | GAMEPAD_A, CHORD | GAMEPAD_A, Some(3), 4).commit, None);
    assert_eq!(radial_step(GAMEPAD_A, CHORD, Some(1), 4).commit, Some(1));
    assert_eq!(radial_step(CHORD | GAMEPAD_A, GAMEPAD_LEFT_SHOULDER, Some(1), 4).commit, None);
}

#[test]
fn stick_dead_zone() {
    assert!(!stick_engaged(0, 0));
    assert!(!stick_engaged(10000, 0));
    assert!(stick_engaged(10001, 0));
    assert!(stick_engaged(0, -10001));
    assert!(!stick_engaged(6000, 8000));
    assert!(stick_engaged(6001, 8000));
    assert!(stick_engaged(i16::MIN, i16::MIN));
    assert!(stick_engaged(i16::MAX, i16::MAX));
}

#[test]
fn every_press_is_released_on_the_next_frame() {
    let mut keys = KeyQueue::new();
    assert!(keys.before_render().is_empty());
    keys.commit(Hotkey { key: 0x72, modifier: Some(Modifier::Ctrl) });
    keys.commit(Hotkey { key: 0x41, modifier: None });
    assert_eq!(
        keys.before_render(),
        vec![
            KeyEvent { key: 0x11, down: true },
            KeyEvent { key: 0x72, down: true },
            KeyEvent { key: 0x41, down: true },
        ]
    );
    keys.commit(Hotkey { key: 0x42, modifier: Some(Modifier::Shift) });
    assert_eq!(
        keys.before_render(),
        vec![
            KeyEvent { key: 0x11, down: false },
            KeyEvent { key: 0x72, down: false },
            KeyEvent { key: 0x41, down: false },
            KeyEvent { key: 0x10, down: true },
            KeyEvent { key: 0x42, down: true },
        ]
    );
    assert_eq!(
        keys.before_render(),
        vec![KeyEvent { key: 0x10, down: false }, KeyEvent { key: 0x42, down: false }]
    );
    assert!(keys.before_render().is_empty());
    keys.commit(Hotkey { key: 0x43, modifier: Some(Modifier::Alt) });
    assert_eq!(keys.press_queue, vec![0x12, 0x43]);
}
