//! The widgets of the menu as a closed sum, and how the command list of a
//! configuration is turned into them.

use vstd::prelude::*;
use vstd::string::*;
use crate::config::{
    command_view, command_views, CfgCommand, CommandView, Config, Number, OpenMenuKind, Settings,
};
use crate::flags::FlagSpec;
use crate::hotkey::Hotkey;

verus! {

/// One widget of the menu. Widgets that open a popup of their own carry
/// the display hotkey, which closes it.
#[derive(Debug)]
#[allow(inconsistent_fields)]
pub enum Widget {
    Flag { flag: FlagSpec, hotkey: Option<Hotkey> },
    SavefileManager { hotkey_load: Hotkey, hotkey_open: Option<Hotkey>, hotkey_close: Hotkey },
    ItemSpawner { hotkey_load: Hotkey, hotkey_close: Hotkey },
    SavePosition { hotkey: Hotkey, modifier: Hotkey },
    NudgePosition { nudge: Number, nudge_up: Hotkey, nudge_down: Hotkey },
    CharacterStats { hotkey_open: Hotkey, hotkey_close: Hotkey },
    CycleSpeed { cycle_speed: Vec<Number>, hotkey: Hotkey },
    Souls { amount: u32, hotkey: Hotkey },
    Quitout { hotkey: Hotkey },
    OpenMenu { kind: OpenMenuKind, hotkey: Option<Hotkey> },
    Target { hotkey: Hotkey },
    Group { label: String, hotkey_close: Hotkey, widgets: Vec<Widget> },
}

/// The mathematical form of a [`Widget`].
#[allow(inconsistent_fields)]
pub ghost enum WidgetView {
    Flag { flag: FlagSpec, hotkey: Option<Hotkey> },
    SavefileManager { hotkey_load: Hotkey, hotkey_open: Option<Hotkey>, hotkey_close: Hotkey },
    ItemSpawner { hotkey_load: Hotkey, hotkey_close: Hotkey },
    SavePosition { hotkey: Hotkey, modifier: Hotkey },
    NudgePosition { nudge: Number, nudge_up: Hotkey, nudge_down: Hotkey },
    CharacterStats { hotkey_open: Hotkey, hotkey_close: Hotkey },
    CycleSpeed { cycle_speed: Seq<Number>, hotkey: Hotkey },
    Souls { amount: u32, hotkey: Hotkey },
    Quitout { hotkey: Hotkey },
    OpenMenu { kind: OpenMenuKind, hotkey: Option<Hotkey> },
    Target { hotkey: Hotkey },
    Group { label: Seq<char>, hotkey_close: Hotkey, widgets: Seq<WidgetView> },
}

/// The mathematical form of a widget.
pub open spec fn widget_view(w: Widget) -> WidgetView
    decreases w,
{
    match w {
        Widget::Flag { flag, hotkey } => WidgetView::Flag { flag, hotkey },
        Widget::SavefileManager { hotkey_load, hotkey_open, hotkey_close } => WidgetView::SavefileManager {
            hotkey_load,
            hotkey_open,
            hotkey_close,
        },
        Widget::ItemSpawner { hotkey_load, hotkey_close } => WidgetView::ItemSpawner {
            hotkey_load,
            hotkey_close,
        },
        Widget::SavePosition { hotkey, modifier } => WidgetView::SavePosition { hotkey, modifier },
        Widget::NudgePosition { nudge, nudge_up, nudge_down } => WidgetView::NudgePosition {
            nudge,
            nudge_up,
            nudge_down,
        },
        Widget::CharacterStats { hotkey_open, hotkey_close } => WidgetView::CharacterStats {
            hotkey_open,
            hotkey_close,
        },
        Widget::CycleSpeed { cycle_speed, hotkey } => WidgetView::CycleSpeed {
            cycle_speed: cycle_speed@,
            hotkey,
        },
        Widget::Souls { amount, hotkey } => WidgetView::Souls { amount, hotkey },
        Widget::Quitout { hotkey } => WidgetView::Quitout { hotkey },
        Widget::OpenMenu { kind, hotkey } => WidgetView::OpenMenu { kind, hotkey },
        Widget::Target { hotkey } => WidgetView::Target { hotkey },
        Widget::Group { label, hotkey_close, widgets } => WidgetView::Group {
            label: label@,
            hotkey_close,
            widgets: widget_views(widgets@),
        },
    }
}

/// The mathematical form of a list of widgets.
pub open spec fn widget_views(ws: Seq<Widget>) -> Seq<WidgetView>
    decreases ws,
{
    if ws.len() == 0 {
        Seq::empty()
    } else {
        widget_views(ws.drop_last()).push(widget_view(ws.last()))
    }
}

impl View for Widget {
    type V = WidgetView;

    open spec fn view(&self) -> WidgetView {
        widget_view(*self)
    }
}

/// The widget that a command becomes, with `display` as the hotkey that
/// closes the popups.
pub open spec fn widget_of(c: CommandView, display: Hotkey) -> WidgetView
    decreases c, 1nat,
{
    match c {
        CommandView::Flag { flag, hotkey } => WidgetView::Flag { flag, hotkey },
        CommandView::SavefileManager { hotkey_load, hotkey_open } => WidgetView::SavefileManager {
            hotkey_load,
            hotkey_open,
            hotkey_close: display,
        },
        CommandView::ItemSpawner { hotkey_load } => WidgetView::ItemSpawner {
            hotkey_load,
            hotkey_close: display,
        },
        CommandView::Position { hotkey, modifier } => WidgetView::SavePosition { hotkey, modifier },
        CommandView::NudgePosition { nudge, nudge_up, nudge_down } => WidgetView::NudgePosition {
            nudge,
            nudge_up,
            nudge_down,
        },
        CommandView::CharacterStats { hotkey_open } => WidgetView::CharacterStats {
            hotkey_open,
            hotkey_close: display,
        },
        CommandView::CycleSpeed { cycle_speed, hotkey } => WidgetView::CycleSpeed {
            cycle_speed,
            hotkey,
        },
        CommandView::Souls { amount, hotkey } => WidgetView::Souls { amount, hotkey },
        CommandView::Quitout { hotkey } => WidgetView::Quitout { hotkey },
        CommandView::OpenMenu { kind, hotkey } => WidgetView::OpenMenu { kind, hotkey },
        CommandView::Target { hotkey } => WidgetView::Target { hotkey },
        CommandView::Group { label, commands } => WidgetView::Group {
            label,
            hotkey_close: display,
            widgets: widgets_of(commands, display),
        },
    }
}

/// The widgets that a command list becomes: one per command, in the order
/// of the list.
pub open spec fn widgets_of(cs: Seq<CommandView>, display: Hotkey) -> Seq<WidgetView>
    decreases cs, 0nat,
{
    if cs.len() == 0 {
        Seq::empty()
    } else {
        widgets_of(cs.drop_last(), display).push(widget_of(cs.last(), display))
    }
}

/// The widget list has one widget per command.
pub proof fn lemma_one_widget_per_command(cs: Seq<CommandView>, display: Hotkey)
    ensures
        widgets_of(cs, display).len() == cs.len(),
    decreases cs.len(),
{
    if cs.len() > 0 {
        lemma_one_widget_per_command(cs.drop_last(), display);
    }
}

fn copy_numbers(numbers: &Vec<Number>) -> (out: Vec<Number>)
    ensures
        out@ == numbers@,
{
    let mut out: Vec<Number> = Vec::new();
    let mut i: usize = 0;
    while i < numbers.len()
        invariant
            i <= numbers.len(),
            out@ == numbers@.subrange(0, i as int),
        decreases numbers.len() - i,
    {
        out.push(numbers[i]);
        i = i + 1;
        assert(out@ =~= numbers@.subrange(0, i as int));
    }
    assert(numbers@.subrange(0, numbers.len() as int) =~= numbers@);
    out
}

fn make_widget(command: &CfgCommand, settings: &Settings) -> (w: Widget)
    ensures
        w@ == widget_of(command@, settings.display),
    decreases command, 1nat,
{
    match command {
        CfgCommand::Flag { flag, hotkey } => Widget::Flag { flag: *flag, hotkey: *hotkey },
        CfgCommand::SavefileManager { hotkey_load, hotkey_open } => Widget::SavefileManager {
            hotkey_load: *hotkey_load,
            hotkey_open: *hotkey_open,
            hotkey_close: settings.display,
        },
        CfgCommand::ItemSpawner { hotkey_load } => Widget::ItemSpawner {
            hotkey_load: *hotkey_load,
            hotkey_close: settings.display,
        },
        CfgCommand::Position { hotkey, modifier } => Widget::SavePosition {
            hotkey: *hotkey,
            modifier: *modifier,
        },
        CfgCommand::NudgePosition { nudge, nudge_up, nudge_down } => Widget::NudgePosition {
            nudge: *nudge,
            nudge_up: *nudge_up,
            nudge_down: *nudge_down,
        },
        CfgCommand::CharacterStats { hotkey_open } => Widget::CharacterStats {
            hotkey_open: *hotkey_open,
            hotkey_close: settings.display,
        },
        CfgCommand::CycleSpeed { cycle_speed, hotkey } => Widget::CycleSpeed {
            cycle_speed: copy_numbers(cycle_speed),
            hotkey: *hotkey,
        },
        CfgCommand::Souls { amount, hotkey } => Widget::Souls { amount: *amount, hotkey: *hotkey },
        CfgCommand::Quitout { hotkey } => Widget::Quitout { hotkey: *hotkey },
        CfgCommand::OpenMenu { kind, hotkey } => Widget::OpenMenu { kind: *kind, hotkey: *hotkey },
        CfgCommand::Target { hotkey } => Widget::Target { hotkey: *hotkey },
        CfgCommand::Group { label, commands } => Widget::Group {
            label: label.clone(),
            hotkey_close: settings.display,
            widgets: make_commands_inner(commands, settings),
        },
    }
}

/// Turns a command list into widgets, recursively through the groups.
pub fn make_commands_inner(commands: &Vec<CfgCommand>, settings: &Settings) -> (widgets: Vec<Widget>)
    ensures
        widget_views(widgets@) == widgets_of(command_views(commands@), settings.display),
        widgets@.len() == commands@.len(),
    decreases commands, 0nat,
{
    let mut widgets: Vec<Widget> = Vec::new();
    let mut i: usize = 0;
    assert(commands@.subrange(0, 0) =~= Seq::<CfgCommand>::empty());
    while i < commands.len()
        invariant
            i <= commands.len(),
            widgets@.len() == i,
            widget_views(widgets@) == widgets_of(
                command_views(commands@.subrange(0, i as int)),
                settings.display,
            ),
        decreases commands.len() - i,
    {
        let w = make_widget(&commands[i], settings);
        proof {
            let upto = commands@.subrange(0, i + 1);
            assert(upto.drop_last() =~= commands@.subrange(0, i as int));
            assert(command_views(upto).drop_last() =~= command_views(upto.drop_last()));
            assert(widgets@.push(w).drop_last() =~= widgets@);
        }
        widgets.push(w);
        i = i + 1;
    }
    assert(commands@.subrange(0, commands.len() as int) =~= commands@);
    widgets
}

/// The hotkeys a widget listens to, in the order of its fields; those of
/// a group are the hotkey that closes it and then those of its widgets.
pub open spec fn widget_hotkeys(w: WidgetView) -> Seq<Hotkey>
    decreases w, 1nat,
{
    match w {
        WidgetView::Flag { hotkey, .. } => optional_key(hotkey),
        WidgetView::SavefileManager { hotkey_load, hotkey_open, hotkey_close } => seq![hotkey_load]
            + optional_key(hotkey_open) + seq![hotkey_close],
        WidgetView::ItemSpawner { hotkey_load, hotkey_close } => seq![hotkey_load, hotkey_close],
        WidgetView::SavePosition { hotkey, modifier } => seq![hotkey, modifier],
        WidgetView::NudgePosition { nudge_up, nudge_down, .. } => seq![nudge_up, nudge_down],
        WidgetView::CharacterStats { hotkey_open, hotkey_close } => seq![hotkey_open, hotkey_close],
        WidgetView::CycleSpeed { hotkey, .. } => seq![hotkey],
        WidgetView::Souls { hotkey, .. } => seq![hotkey],
        WidgetView::Quitout { hotkey } => seq![hotkey],
        WidgetView::OpenMenu { hotkey, .. } => optional_key(hotkey),
        WidgetView::Target { hotkey } => seq![hotkey],
        WidgetView::Group { hotkey_close, widgets, .. } => seq![hotkey_close] + all_hotkeys(widgets),
    }
}

/// The hotkey of an optional binding, if there is one.
pub open spec fn optional_key(hotkey: Option<Hotkey>) -> Seq<Hotkey> {
    match hotkey {
        Some(h) => seq![h],
        None => Seq::empty(),
    }
}

/// The hotkeys a list of widgets listens to, widget by widget.
pub open spec fn all_hotkeys(ws: Seq<WidgetView>) -> Seq<Hotkey>
    decreases ws, 0nat,
{
    if ws.len() == 0 {
        Seq::empty()
    } else {
        all_hotkeys(ws.drop_last()) + widget_hotkeys(ws.last())
    }
}

fn push_optional(out: &mut Vec<Hotkey>, hotkey: &Option<Hotkey>)
    ensures
        final(out)@ == old(out)@ + optional_key(*hotkey),
{
    match hotkey {
        Some(h) => {
            out.push(*h);
            assert(out@ =~= old(out)@ + optional_key(*hotkey));
        },
        None => {
            assert(out@ =~= old(out)@ + optional_key(*hotkey));
        },
    }
}

fn push_widget_hotkeys(out: &mut Vec<Hotkey>, w: &Widget)
    ensures
        final(out)@ == old(out)@ + widget_hotkeys(w@),
    decreases w, 1nat,
{
    match w {
        Widget::Flag { hotkey, .. } => push_optional(out, hotkey),
        Widget::SavefileManager { hotkey_load, hotkey_open, hotkey_close } => {
            out.push(*hotkey_load);
            push_optional(out, hotkey_open);
            out.push(*hotkey_close);
        },
        Widget::ItemSpawner { hotkey_load, hotkey_close } => {
            out.push(*hotkey_load);
            out.push(*hotkey_close);
        },
        Widget::SavePosition { hotkey, modifier } => {
            out.push(*hotkey);
            out.push(*modifier);
        },
        Widget::NudgePosition { nudge_up, nudge_down, .. } => {
            out.push(*nudge_up);
            out.push(*nudge_down);
        },
        Widget::CharacterStats { hotkey_open, hotkey_close } => {
            out.push(*hotkey_open);
            out.push(*hotkey_close);
        },
        Widget::CycleSpeed { hotkey, .. } => out.push(*hotkey),
        Widget::Souls { hotkey, .. } => out.push(*hotkey),
        Widget::Quitout { hotkey } => out.push(*hotkey),
        Widget::OpenMenu { hotkey, .. } => push_optional(out, hotkey),
        Widget::Target { hotkey } => out.push(*hotkey),
        Widget::Group { hotkey_close, widgets, .. } => {
            out.push(*hotkey_close);
            push_all_hotkeys(out, widgets);
        },
    }
    assert(out@ =~= old(out)@ + widget_hotkeys(w@));
}

fn push_all_hotkeys(out: &mut Vec<Hotkey>, ws: &Vec<Widget>)
    ensures
        final(out)@ == old(out)@ + all_hotkeys(widget_views(ws@)),
    decreases ws, 0nat,
{
    let mut i: usize = 0;
    assert(ws@.subrange(0, 0) =~= Seq::<Widget>::empty());
    assert(out@ =~= old(out)@ + all_hotkeys(widget_views(ws@.subrange(0, 0))));
    while i < ws.len()
        invariant
            i <= ws.len(),
            out@ == old(out)@ + all_hotkeys(widget_views(ws@.subrange(0, i as int))),
        decreases ws.len() - i,
    {
        proof {
            let upto = ws@.subrange(0, i + 1);
            assert(upto.drop_last() =~= ws@.subrange(0, i as int));
            assert(widget_views(upto).drop_last() =~= widget_views(upto.drop_last()));
        }
        let ghost before = out@;
        push_widget_hotkeys(out, &ws[i]);
        i = i + 1;
        assert(out@ =~= old(out)@ + all_hotkeys(widget_views(ws@.subrange(0, i as int))));
    }
    assert(ws@.subrange(0, ws.len() as int) =~= ws@);
}

/// Every hotkey the widgets listen to, in widget order, for the input
/// router to sample once per frame.
pub fn collect_hotkeys(widgets: &Vec<Widget>) -> (keys: Vec<Hotkey>)
    ensures
        keys@ == all_hotkeys(widget_views(widgets@)),
{
    let mut keys: Vec<Hotkey> = Vec::new();
    push_all_hotkeys(&mut keys, widgets);
    assert(keys@ =~= all_hotkeys(widget_views(widgets@)));
    keys
}

impl Config {
    /// The widgets of this configuration, in the order of its commands.
    pub fn make_commands(&self) -> (widgets: Vec<Widget>)
        ensures
            widget_views(widgets@) == widgets_of(self@.commands, self.settings.display),
            widgets@.len() == self.commands@.len(),
    {
        make_commands_inner(&self.commands, &self.settings)
    }
}

} // verus!
