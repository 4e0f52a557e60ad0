use practice_tool::hotkey::{Hotkey, KeyEdge, KeyTracker, Modifier};

#[test]
fn parses_keys_of_the_catalogue() {
    assert_eq!(Hotkey::parse("0"), Some(Hotkey { key: 0x30, modifier: None }));
    assert_eq!(Hotkey::parse("9"), Some(Hotkey { key: 0x39, modifier: None }));
    assert_eq!(Hotkey::parse("g"), Some(Hotkey { key: 0x47, modifier: None }));
    assert_eq!(Hotkey::parse("G"), Some(Hotkey { key: 0x47, modifier: None }));
    assert_eq!(Hotkey::parse("z"), Some(Hotkey { key: 0x5A, modifier: None }));
    assert_eq!(Hotkey::parse("f1"), Some(Hotkey { key: 0x70, modifier: None }));
    assert_eq!(Hotkey::parse("F9"), Some(Hotkey { key: 0x78, modifier: None }));
    assert_eq!(Hotkey::parse("f10"), Some(Hotkey { key: 0x79, modifier: None }));
    assert_eq!(Hotkey::parse("f12"), Some(Hotkey { key: 0x7B, modifier: None }));
    assert_eq!(Hotkey::parse("ctrl+f3"), Some(Hotkey { key: 0x72, modifier: Some(Modifier::Ctrl) }));
    assert_eq!(Hotkey::parse("Shift+a"), Some(Hotkey { key: 0x41, modifier: Some(Modifier::Shift) }));
    assert_eq!(Hotkey::parse("ALT+7"), Some(Hotkey { key: 0x37, modifier: Some(Modifier::Alt) }));
}

#[test]
fn rejects_what_names_no_key() {
    for text in ["", "+", "f0", "f13", "f123", "ab", "ctrl", "ctrl+", "+a", "meta+a", "ctrl+shift+a", "é", "-"] {
        assert_eq!(Hotkey::parse(text), None, "{text}");
    }
}

#[test]
fn labels_are_stable() {
    assert_eq!(Hotkey { key: 0x72, modifier: Some(Modifier::Ctrl) }.label(), "Ctrl+F3");
    assert_eq!(Hotkey { key: 0x30, modifier: None }.label(), "0");
    assert_eq!(Hotkey { key: 0x47, modifier: Some(Modifier::Shift) }.label(), "Shift+G");
    assert_eq!(Hotkey { key: 0x7B, modifier: Some(Modifier::Alt) }.label(), "Alt+F12");
    assert_eq!(Hotkey::new(0x41, None).label(), "A");
}

#[test]
fn label_parses_back_to_the_hotkey() {
    for text in ["0", "g", "f1", "f12", "ctrl+f3", "shift+z", "alt+5"] {
        let hotkey = Hotkey::parse(text).unwrap();
        assert_eq!(Hotkey::parse(&hotkey.label()), Some(hotkey));
    }
}

#[test]
fn a_held_key_gives_one_edge_each_way() {
    for held in 1..6 {
        let mut tracker = KeyTracker::new();
        let mut presses = 0;
        let mut releases = 0;
        let mut samples = vec![false];
        samples.extend(std::iter::repeat(true).take(held));
        samples.push(false);
        samples.push(false);
        for down in samples {
            match tracker.update(down) {
                KeyEdge::Pressed => presses += 1,
                KeyEdge::Released => releases += 1,
                KeyEdge::Steady => {},
            }
        }
        assert_eq!((presses, releases), (1, 1));
    }
}

#[test]
fn chord_fires_on_release_with_modifier_and_without_text_focus() {
    let plain = Hotkey { key: 0x47, modifier: None };
    let chord = Hotkey { key: 0x47, modifier: Some(Modifier::Ctrl) };
    assert!(plain.fires(KeyEdge::Released, false, false));
    assert!(!plain.fires(KeyEdge::Pressed, false, false));
    assert!(!plain.fires(KeyEdge::Steady, true, false));
    assert!(!plain.fires(KeyEdge::Released, false, true));
    assert!(chord.fires(KeyEdge::Released, true, false));
    assert!(!chord.fires(KeyEdge::Released, false, false));
    assert!(!chord.fires(KeyEdge::Released, true, true));
}
