use practice_tool::indicators::{
    format_frame_count, format_igt, format_version, set_indicator, shown_indicators, Indicator,
    IndicatorType,
};
use practice_tool::text::{chars_of, decimal_string, same_text, string_of};

#[test]
fn igt_is_shown_in_hours_minutes_seconds_and_hundredths() {
    assert_eq!(format_igt(3725123), "IGT 01:02:05.12");
}

#[test]
fn igt_edge_values() {
    assert_eq!(format_igt(0), "IGT 00:00:00.00");
    assert_eq!(format_igt(9), "IGT 00:00:00.00");
    assert_eq!(format_igt(999), "IGT 00:00:00.99");
    assert_eq!(format_igt(59_999), "IGT 00:00:59.99");
    assert_eq!(format_igt(3_599_999), "IGT 00:59:59.99");
    assert_eq!(format_igt(360_000_000), "IGT 100:00:00.00");
    assert_eq!(format_igt(u32::MAX as u64), "IGT 1193:02:47.29");
}

#[test]
fn frame_count_and_version_texts() {
    assert_eq!(format_frame_count(0), "帧数 0");
    assert_eq!(format_frame_count(4_294_967_295), "帧数 4294967295");
    assert_eq!(format_version(1, 15, 0), "游戏版本 1.15.0");
    assert_eq!(format_version(1, 4, 2), "游戏版本 1.04.2");
}

#[test]
fn indicator_labels() {
    assert_eq!(IndicatorType::GameVersion.label(), "游戏版本");
    assert_eq!(IndicatorType::Position.label(), "玩家位置");
    assert_eq!(IndicatorType::PositionChange.label(), "玩家速度");
    assert_eq!(IndicatorType::Igt.label(), "游戏内时间(IGT)");
    assert_eq!(IndicatorType::Fps.label(), "FPS");
    assert_eq!(IndicatorType::FrameCount.label(), "帧数计数器");
    assert_eq!(IndicatorType::ImguiDebug.label(), "ImGui调试信息");
    assert_eq!(IndicatorType::Animation.label(), "动画");
    assert!(IndicatorType::FrameCount.has_reset_button());
    assert!(!IndicatorType::Igt.has_reset_button());
}

#[test]
fn enabled_indicators_keep_their_order() {
    let mut list = vec![
        Indicator { indicator: IndicatorType::Fps, enabled: true },
        Indicator { indicator: IndicatorType::Igt, enabled: false },
        Indicator { indicator: IndicatorType::GameVersion, enabled: true },
    ];
    assert_eq!(shown_indicators(&list), vec![IndicatorType::Fps, IndicatorType::GameVersion]);
    set_indicator(&mut list, 1, true);
    set_indicator(&mut list, 0, false);
    assert_eq!(shown_indicators(&list), vec![IndicatorType::Igt, IndicatorType::GameVersion]);
    assert_eq!(shown_indicators(&Vec::new()), Vec::<IndicatorType>::new());
}

#[test]
fn text_helpers_round_trip() {
    assert_eq!(chars_of("aé漢"), vec!['a', 'é', '漢']);
    assert_eq!(string_of(&vec!['x', '漢']), "x漢");
    assert!(same_text("abc", "abc"));
    assert!(!same_text("abc", "abd"));
    assert_eq!(decimal_string(0), "0");
    assert_eq!(decimal_string(10), "10");
    assert_eq!(decimal_string(u64::MAX), "18446744073709551615");
}
