//! The on-screen indicators of the closed bar: which ones exist, how they
//! are labelled in the indicator popup, and the text each one shows.

use vstd::prelude::*;
use vstd::string::*;
use crate::text::{decimal, decimal2, push_decimal, push_decimal2};

verus! {

/// The kinds of indicator the bar can show.
#[derive(Clone, Copy, Debug, PartialEq, Eq, Structural)]
pub enum IndicatorType {
    GameVersion,
    Position,
    PositionChange,
    Igt,
    Fps,
    FrameCount,
    ImguiDebug,
    Animation,
}

/// One entry of the user-ordered indicator list.
#[derive(Clone, Copy, Debug, PartialEq, Eq, Structural)]
pub struct Indicator {
    pub indicator: IndicatorType,
    pub enabled: bool,
}

/// The checkbox label of each indicator kind.
pub open spec fn label_of(kind: IndicatorType) -> Seq<char> {
    match kind {
        IndicatorType::GameVersion => "游戏版本"@,
        IndicatorType::Position => "玩家位置"@,
        IndicatorType::PositionChange => "玩家速度"@,
        IndicatorType::Igt => "游戏内时间(IGT)"@,
        IndicatorType::Fps => "FPS"@,
        IndicatorType::FrameCount => "帧数计数器"@,
        IndicatorType::ImguiDebug => "ImGui调试信息"@,
        IndicatorType::Animation => "动画"@,
    }
}

impl IndicatorType {
    /// The checkbox label shown for this kind in the indicator popup.
    pub fn label(&self) -> (text: &'static str)
        ensures
            text@ == label_of(*self),
    {
        match self {
            IndicatorType::GameVersion => "游戏版本",
            IndicatorType::Position => "玩家位置",
            IndicatorType::PositionChange => "玩家速度",
            IndicatorType::Igt => "游戏内时间(IGT)",
            IndicatorType::Fps => "FPS",
            IndicatorType::FrameCount => "帧数计数器",
            IndicatorType::ImguiDebug => "ImGui调试信息",
            IndicatorType::Animation => "动画",
        }
    }

    /// Only the frame counter carries a reset button beside its checkbox.
    pub fn has_reset_button(&self) -> (has: bool)
        ensures
            has == (*self == IndicatorType::FrameCount),
    {
        match self {
            IndicatorType::FrameCount => true,
            _ => false,
        }
    }
}

/// Hours of an in-game time given in milliseconds; not wrapped at a day.
pub open spec fn igt_hours(igt: nat) -> nat {
    igt / 1000 / 3600
}

/// Minutes within the hour.
pub open spec fn igt_minutes(igt: nat) -> nat {
    igt / 1000 / 60 % 60
}

/// Seconds within the minute.
pub open spec fn igt_seconds(igt: nat) -> nat {
    igt / 1000 % 60
}

/// Hundredths of a second within the second, truncated.
pub open spec fn igt_centis(igt: nat) -> nat {
    igt % 1000 / 10
}

/// The overlay text for an in-game time: `IGT hh:mm:ss.cc`, each field
/// padded to two digits.
pub open spec fn igt_text(igt: nat) -> Seq<char> {
    "IGT "@ + decimal2(igt_hours(igt)) + ":"@ + decimal2(igt_minutes(igt)) + ":"@ + decimal2(
        igt_seconds(igt),
    ) + "."@ + decimal2(igt_centis(igt))
}

/// Renders the in-game time indicator.
pub fn format_igt(igt: u64) -> (text: String)
    ensures
        text@ == igt_text(igt as nat),
{
    let millis = (igt % 1000) / 10;
    let total_seconds = igt / 1000;
    let seconds = total_seconds % 60;
    let minutes = total_seconds / 60 % 60;
    let hours = total_seconds / 3600;
    let mut text = String::new();
    text.append("IGT ");
    push_decimal2(&mut text, hours);
    text.append(":");
    push_decimal2(&mut text, minutes);
    text.append(":");
    push_decimal2(&mut text, seconds);
    text.append(".");
    push_decimal2(&mut text, millis);
    assert(text@ =~= igt_text(igt as nat));
    text
}

/// The text of the frame counter indicator.
pub open spec fn frame_count_text(frames: nat) -> Seq<char> {
    "帧数 "@ + decimal(frames)
}

/// Renders the frame counter indicator.
pub fn format_frame_count(frames: u32) -> (text: String)
    ensures
        text@ == frame_count_text(frames as nat),
{
    let mut text = String::new();
    text.append("帧数 ");
    push_decimal(&mut text, frames as u64);
    assert(text@ =~= frame_count_text(frames as nat));
    text
}

/// The text of the game version indicator: the minor number is padded to
/// two digits, the others are not padded.
pub open spec fn version_text(major: nat, minor: nat, patch: nat) -> Seq<char> {
    "游戏版本 "@ + decimal(major) + "."@ + decimal2(minor) + "."@ + decimal(patch)
}

/// Renders the game version indicator.
pub fn format_version(major: u32, minor: u32, patch: u32) -> (text: String)
    ensures
        text@ == version_text(major as nat, minor as nat, patch as nat),
{
    let mut text = String::new();
    text.append("游戏版本 ");
    push_decimal(&mut text, major as u64);
    text.append(".");
    push_decimal2(&mut text, minor as u64);
    text.append(".");
    push_decimal(&mut text, patch as u64);
    assert(text@ =~= version_text(major as nat, minor as nat, patch as nat));
    text
}

/// The indicators that are drawn, in list order: those that are enabled.
pub open spec fn enabled_kinds(list: Seq<Indicator>) -> Seq<IndicatorType>
    decreases list.len(),
{
    if list.len() == 0 {
        Seq::empty()
    } else {
        let before = enabled_kinds(list.drop_last());
        if list.last().enabled {
            before.push(list.last().indicator)
        } else {
            before
        }
    }
}

/// Picks the indicators to draw this frame, keeping the user's order.
pub fn shown_indicators(list: &Vec<Indicator>) -> (shown: Vec<IndicatorType>)
    ensures
        shown@ == enabled_kinds(list@),
{
    let mut shown: Vec<IndicatorType> = Vec::new();
    let mut i: usize = 0;
    assert(list@.subrange(0, 0) =~= Seq::<Indicator>::empty());
    while i < list.len()
        invariant
            i <= list.len(),
            shown@ == enabled_kinds(list@.subrange(0, i as int)),
        decreases list.len() - i,
    {
        let item = list[i];
        assert(list@.subrange(0, i + 1).drop_last() =~= list@.subrange(0, i as int));
        if item.enabled {
            shown.push(item.indicator);
        }
        i = i + 1;
        assert(shown@ =~= enabled_kinds(list@.subrange(0, i as int)));
    }
    assert(list@.subrange(0, list.len() as int) =~= list@);
    shown
}

/// Sets the `enabled` mark of entry `index`, as a click on its checkbox
/// does; other entries and the order stay.
pub fn set_indicator(list: &mut Vec<Indicator>, index: usize, enabled: bool)
    requires
        index < old(list).len(),
    ensures
        final(list)@ == old(list)@.update(
            index as int,
            (Indicator { indicator: old(list)@[index as int].indicator, enabled }),
        ),
{
    let kind = list[index].indicator;
    list.set(index, Indicator { indicator: kind, enabled });
}

} // verus!
