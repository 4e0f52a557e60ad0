//! The frame loop: the state the overlay carries from frame to frame and
//! what each frame, each button and each gamepad sample does to it.

use vstd::prelude::*;
use vstd::string::*;
use crate::bitflag::{flag_state, switched, toggled};
use crate::chains::{bound_flag, PointerChains};
use crate::config::{Config, Settings};
use crate::flags::FlagSpec;
use crate::indicators::{format_igt, igt_text};
use crate::memory::HostMemory;
use crate::pointer_chain::{le32, read_outcome};
use crate::frame_log::{alive, kept, message_texts, messages_of, stamped, FrameLog};
use crate::hotkey::Hotkey;
use crate::indicators::Indicator;
use crate::radial::{
    frame_events, hotkey_keys, radial_decision, radial_step, KeyEvent, KeyQueue, RadialAction,
    RadialMenu,
};
use crate::ui_mode::{mode_after_frame, UiState};
use crate::widgets::{widget_views, widgets_of, Widget};

verus! {

/// What the frame loop is told about a frame before it decides anything.
#[derive(Clone, Copy, Debug, PartialEq, Eq, Structural)]
pub struct FrameInput {
    /// The display hotkey went up this frame.
    pub display_keyup: bool,
    /// The interface has captured the keyboard.
    pub want_capture_keyboard: bool,
    /// Right-shift is physically down.
    pub rshift_down: bool,
}

/// What a frame does besides drawing.
#[derive(Clone, Copy, Debug, PartialEq, Eq, Structural)]
pub struct FramePlan {
    /// The mode to draw this frame in.
    pub mode: UiState,
    /// What to write to the host's cursor flag, if anything.
    pub cursor: Option<bool>,
}

/// One pass over the widgets, made in configuration order.
#[derive(Clone, Copy, Debug, PartialEq, Eq, Structural)]
pub enum Pass {
    /// Every widget handles its hotkeys.
    Interact,
    /// Every widget draws itself in the open menu.
    RenderActive,
    /// Every widget draws its compact form in the bar.
    RenderPassive,
}

/// A button of the overlay's own windows.
#[derive(Clone, Copy, Debug, PartialEq, Eq, Structural)]
pub enum Button {
    /// "Close" in the menu.
    Close,
    /// "Unhide" in the menu; shown while the overlay is marked hidden.
    Unhide,
    /// "Eject" in the menu; shown while the overlay is not marked hidden.
    Eject,
    /// "Open" in the bar.
    Open,
    /// "Hide" in the bar.
    Hide,
    /// "Reset" beside the frame counter in the indicator popup.
    ResetFrameCount,
    /// "Close" in the indicator or help popup.
    ClosePopup,
}

/// What a button press asks of the embedding program.
#[derive(Clone, Copy, Debug, PartialEq, Eq, Structural)]
pub struct ButtonEffect {
    /// What to write to the host's cursor flag, if anything.
    pub cursor: Option<bool>,
    /// Whether to restore the adjusted game parameter and eject.
    pub eject: bool,
}

/// The state of the overlay between frames.
#[derive(Debug)]
pub struct PracticeTool {
    pub settings: Settings,
    pub indicators: Vec<Indicator>,
    pub widgets: Vec<Widget>,
    pub radial_menu: Vec<RadialMenu>,
    pub log: FrameLog,
    pub is_hidden: bool,
    pub ui_state: UiState,
    pub framecount: u32,
    pub gamepad_buttons: u16,
    pub keys: KeyQueue,
}

/// The cursor write of a frame: the cursor is forced visible on every
/// frame the menu is open; it is forced invisible on the frame the display
/// hotkey leaves the menu; otherwise it is left alone.
pub open spec fn cursor_of_frame(before: UiState, input: FrameInput) -> Option<bool> {
    let after = mode_after_frame(
        before,
        input.display_keyup,
        input.want_capture_keyboard,
        input.rshift_down,
    );
    if after == UiState::MenuOpen {
        Some(true)
    } else if input.display_keyup && !input.want_capture_keyboard {
        Some(false)
    } else {
        None
    }
}

/// The passes of a frame, in order: hotkeys are handled before anything is
/// drawn, so that a change shows on the frame it is made. While the menu is
/// open and one of its fields is being typed into, hotkeys are not handled.
pub open spec fn passes_of(mode: UiState, typing: bool) -> Seq<Pass> {
    match mode {
        UiState::MenuOpen => if typing {
            seq![Pass::RenderActive]
        } else {
            seq![Pass::Interact, Pass::RenderActive]
        },
        UiState::Closed => seq![Pass::Interact, Pass::RenderPassive],
        UiState::Hidden => seq![Pass::Interact],
    }
}

/// The mode and the hidden mark after a button press. A button that is
/// not shown in the current state does nothing.
pub open spec fn after_button(mode: UiState, hidden: bool, button: Button) -> (UiState, bool) {
    match button {
        Button::Close => if mode == UiState::MenuOpen {
            (
                if hidden {
                    UiState::Hidden
                } else {
                    UiState::Closed
                },
                hidden,
            )
        } else {
            (mode, hidden)
        },
        Button::Unhide => if mode == UiState::MenuOpen && hidden {
            (UiState::Closed, false)
        } else {
            (mode, hidden)
        },
        Button::Eject => if mode == UiState::MenuOpen && !hidden {
            (UiState::Closed, hidden)
        } else {
            (mode, hidden)
        },
        Button::Open => if mode == UiState::Closed {
            (UiState::MenuOpen, hidden)
        } else {
            (mode, hidden)
        },
        Button::Hide => if mode == UiState::Closed {
            (UiState::Hidden, true)
        } else {
            (mode, hidden)
        },
        Button::ResetFrameCount => (mode, hidden),
        Button::ClosePopup => (mode, hidden),
    }
}

/// Whether a button is shown, and so can be pressed, in a state.
pub open spec fn button_shown(mode: UiState, hidden: bool, button: Button) -> bool {
    match button {
        Button::Close => mode == UiState::MenuOpen,
        Button::Unhide => mode == UiState::MenuOpen && hidden,
        Button::Eject => mode == UiState::MenuOpen && !hidden,
        Button::Open => mode == UiState::Closed,
        Button::Hide => mode == UiState::Closed,
        Button::ResetFrameCount => mode == UiState::Closed,
        Button::ClosePopup => mode == UiState::Closed,
    }
}

/// What a button press asks of the embedding program.
pub open spec fn effect_of(mode: UiState, hidden: bool, button: Button) -> ButtonEffect {
    if !button_shown(mode, hidden, button) {
        ButtonEffect { cursor: None, eject: false }
    } else {
        match button {
            Button::Open => ButtonEffect { cursor: None, eject: false },
            Button::ResetFrameCount => ButtonEffect { cursor: None, eject: false },
            Button::Eject => ButtonEffect { cursor: Some(false), eject: true },
            _ => ButtonEffect { cursor: Some(false), eject: false },
        }
    }
}

impl PracticeTool {
    /// The overlay as it starts: the bar shown, nothing logged, no frame
    /// counted, one widget per command of the configuration, and the
    /// configuration's radial menu.
    pub fn new(config: Config, indicators: Vec<Indicator>) -> (tool: PracticeTool)
        ensures
            tool.settings == config.settings,
            tool.indicators@ == indicators@,
            tool.radial_menu@ == config.radial_menu@,
            widget_views(tool.widgets@) == widgets_of(config@.commands, config.settings.display),
            tool.widgets@.len() == config.commands@.len(),
            tool.ui_state == UiState::Closed,
            !tool.is_hidden,
            tool.framecount == 0,
            tool.log@.len() == 0,
            tool.gamepad_buttons == 0,
            tool.keys.press_queue@.len() == 0,
            tool.keys.release_queue@.len() == 0,
    {
        let widgets = config.make_commands();
        PracticeTool {
            settings: config.settings,
            indicators,
            widgets,
            radial_menu: config.radial_menu,
            log: FrameLog::new(),
            is_hidden: false,
            ui_state: UiState::Closed,
            framecount: 0,
            gamepad_buttons: 0,
            keys: KeyQueue::new(),
        }
    }

    /// Whether everything but the mode, the hidden mark and the frame count
    /// is as in `other`.
    pub open spec fn same_rest(&self, other: PracticeTool) -> bool {
        &&& self.settings == other.settings
        &&& self.indicators == other.indicators
        &&& self.widgets == other.widgets
        &&& self.radial_menu == other.radial_menu
        &&& self.log == other.log
        &&& self.gamepad_buttons == other.gamepad_buttons
        &&& self.keys == other.keys
    }

    /// Whether everything but the log is as in `other`.
    pub open spec fn same_but_log(&self, other: PracticeTool) -> bool {
        &&& self.settings == other.settings
        &&& self.indicators == other.indicators
        &&& self.widgets == other.widgets
        &&& self.radial_menu == other.radial_menu
        &&& self.gamepad_buttons == other.gamepad_buttons
        &&& self.keys == other.keys
        &&& self.ui_state == other.ui_state
        &&& self.is_hidden == other.is_hidden
        &&& self.framecount == other.framecount
    }

    /// Whether everything but the gamepad sample and the key queues is as
    /// in `other`.
    pub open spec fn same_but_input(&self, other: PracticeTool) -> bool {
        &&& self.settings == other.settings
        &&& self.indicators == other.indicators
        &&& self.widgets == other.widgets
        &&& self.radial_menu == other.radial_menu
        &&& self.log == other.log
        &&& self.ui_state == other.ui_state
        &&& self.is_hidden == other.is_hidden
        &&& self.framecount == other.framecount
    }

    /// Starts a frame: counts it, applies the display hotkey to the mode,
    /// and says in which mode to draw and what to do with the cursor.
    pub fn render(&mut self, input: FrameInput) -> (plan: FramePlan)
        ensures
            final(self).ui_state == mode_after_frame(
                old(self).ui_state,
                input.display_keyup,
                input.want_capture_keyboard,
                input.rshift_down,
            ),
            plan.mode == final(self).ui_state,
            plan.cursor == cursor_of_frame(old(self).ui_state, input),
            final(self).framecount == (old(self).framecount + 1) % 0x1_0000_0000,
            final(self).is_hidden == old(self).is_hidden,
            final(self).same_rest(*old(self)),
    {
        self.framecount = self.framecount.wrapping_add(1);
        let toggled = input.display_keyup && !input.want_capture_keyboard;
        self.ui_state = self.ui_state.after_frame(
            input.display_keyup,
            input.want_capture_keyboard,
            input.rshift_down,
        );
        let cursor = if self.ui_state.cursor_visible() {
            Some(true)
        } else if toggled {
            Some(false)
        } else {
            None
        };
        FramePlan { mode: self.ui_state, cursor }
    }

    /// The passes over the widgets this frame, given whether a field of
    /// the open menu is being typed into (the interface wants the keyboard
    /// and one of its items is active).
    pub fn passes(&self, want_capture_keyboard: bool, any_item_active: bool) -> (list: Vec<Pass>)
        ensures
            list@ == passes_of(self.ui_state, want_capture_keyboard && any_item_active),
    {
        let mut list: Vec<Pass> = Vec::new();
        match self.ui_state {
            UiState::MenuOpen => {
                if !(want_capture_keyboard && any_item_active) {
                    list.push(Pass::Interact);
                }
                list.push(Pass::RenderActive);
            },
            UiState::Closed => {
                list.push(Pass::Interact);
                list.push(Pass::RenderPassive);
            },
            UiState::Hidden => {
                list.push(Pass::Interact);
            },
        }
        assert(list@ =~= passes_of(self.ui_state, want_capture_keyboard && any_item_active));
        list
    }

    /// Handles a press of one of the overlay's own buttons.
    pub fn press(&mut self, button: Button) -> (effect: ButtonEffect)
        ensures
            (final(self).ui_state, final(self).is_hidden) == after_button(
                old(self).ui_state,
                old(self).is_hidden,
                button,
            ),
            effect == effect_of(old(self).ui_state, old(self).is_hidden, button),
            final(self).framecount == (if button == Button::ResetFrameCount && old(self).ui_state
                == UiState::Closed {
                0u32
            } else {
                old(self).framecount
            }),
            final(self).same_rest(*old(self)),
    {
        let none = ButtonEffect { cursor: None, eject: false };
        let hide_cursor = ButtonEffect { cursor: Some(false), eject: false };
        match (button, self.ui_state) {
            (Button::Close, UiState::MenuOpen) => {
                self.ui_state = if self.is_hidden {
                    UiState::Hidden
                } else {
                    UiState::Closed
                };
                hide_cursor
            },
            (Button::Unhide, UiState::MenuOpen) => {
                if self.is_hidden {
                    self.is_hidden = false;
                    self.ui_state = UiState::Closed;
                    hide_cursor
                } else {
                    none
                }
            },
            (Button::Eject, UiState::MenuOpen) => {
                if !self.is_hidden {
                    self.ui_state = UiState::Closed;
                    ButtonEffect { cursor: Some(false), eject: true }
                } else {
                    none
                }
            },
            (Button::Open, UiState::Closed) => {
                self.ui_state = UiState::MenuOpen;
                none
            },
            (Button::Hide, UiState::Closed) => {
                self.is_hidden = true;
                self.ui_state = UiState::Hidden;
                hide_cursor
            },
            (Button::ResetFrameCount, UiState::Closed) => {
                self.framecount = 0;
                none
            },
            (Button::ClosePopup, UiState::Closed) => hide_cursor,
            _ => none,
        }
    }

    /// Ends a frame's bookkeeping: takes the messages the widgets handed
    /// over this frame and evicts what has been in the log for five seconds.
    pub fn drain_logs(&mut self, now_ms: u64, messages: &Vec<String>)
        ensures
            final(self).log@ == kept(
                old(self).log@ + stamped(message_texts(messages@), now_ms),
                now_ms,
            ),
            forall|i: int|
                0 <= i < final(self).log@.len() ==> alive(#[trigger] final(self).log@[i], now_ms),
            final(self).same_but_log(*old(self)),
    {
        self.log.tick(now_ms, messages);
    }

    /// The log lines to draw this frame: the message of every entry of
    /// the log, oldest first.
    pub fn render_logs(&self) -> (lines: Vec<String>)
        ensures
            message_texts(lines@) == messages_of(self.log@),
            lines@.len() == self.log@.len(),
            forall|i: int| 0 <= i < lines@.len() ==> (#[trigger] lines@[i])@ == self.log@[i].message,
    {
        self.log.visible()
    }

    /// Takes this frame's gamepad sample and the sector the stick points
    /// at, and decides the radial menu: whether it is open, and whether an
    /// entry is committed, in which case the entry's hotkey is queued for
    /// pressing.
    pub fn render_radial(&mut self, buttons: u16, selection: Option<usize>) -> (action:
        RadialAction)
        ensures
            action == radial_decision(
                old(self).gamepad_buttons,
                buttons,
                selection,
                old(self).radial_menu@.len() as int,
            ),
            final(self).gamepad_buttons == buttons,
            final(self).keys.release_queue@ == old(self).keys.release_queue@,
            final(self).keys.press_queue@ == match action.commit {
                Some(i) => old(self).keys.press_queue@ + hotkey_keys(old(self).radial_menu@[i as int].key),
                None => old(self).keys.press_queue@,
            },
            final(self).same_but_input(*old(self)),
    {
        let action = radial_step(self.gamepad_buttons, buttons, selection, self.radial_menu.len());
        self.gamepad_buttons = buttons;
        match action.commit {
            Some(i) => {
                let key = self.radial_menu[i].key;
                self.keys.commit(key);
            },
            None => {},
        }
        action
    }

    /// The synthetic key events to feed the interface before it renders.
    pub fn before_render(&mut self) -> (events: Vec<KeyEvent>)
        ensures
            events@ == frame_events(old(self).keys.press_queue@, old(self).keys.release_queue@),
            final(self).keys.release_queue@ == old(self).keys.press_queue@,
            final(self).keys.press_queue@.len() == 0,
            final(self).gamepad_buttons == old(self).gamepad_buttons,
            final(self).same_but_input(*old(self)),
    {
        self.keys.before_render()
    }

    /// Mouse and keyboard messages are withheld from the host exactly while
    /// the menu is open.
    pub fn should_block_messages(&self) -> (block: bool)
        ensures
            block == (self.ui_state == UiState::MenuOpen),
    {
        self.ui_state.should_block_messages()
    }
}

/// Carries out the cursor write of a frame on the host's cursor flag.
pub fn apply_cursor<M: HostMemory>(chains: &PointerChains, cursor: Option<bool>, mem: &mut M)
    ensures
        final(mem).cells() == match cursor {
            Some(visible) => switched(old(mem).cells(), chains.cursor_show@, visible),
            None => old(mem).cells(),
        },
{
    match cursor {
        Some(visible) => chains.cursor_show.set(mem, visible),
        None => {},
    }
}

/// The hotkey handling of a flag widget: a fired hotkey flips the flag's
/// cell; otherwise the host is left alone.
pub fn flag_interact<M: HostMemory>(chains: &PointerChains, flag: FlagSpec, fired: bool, mem: &mut M)
    ensures
        final(mem).cells() == (if fired {
            toggled(old(mem).cells(), bound_flag(*chains, flag)@)
        } else {
            old(mem).cells()
        }),
{
    if fired {
        chains.flag(flag).toggle(mem);
    }
}

/// What a flag widget shows: whether the flag is on, or nothing where its
/// cell cannot be read, in which case a placeholder is drawn.
pub fn flag_shown<M: HostMemory>(chains: &PointerChains, flag: FlagSpec, mem: &M) -> (state: Option<
    bool,
>)
    ensures
        state == flag_state(mem.cells(), bound_flag(*chains, flag)@),
{
    chains.flag(flag).get(mem)
}

/// The text of the in-game time indicator, read as a 32-bit count of
/// milliseconds; nothing where the cell cannot be read.
pub fn igt_indicator<M: HostMemory>(chains: &PointerChains, mem: &M) -> (text: Option<String>)
    ensures
        match (text, read_outcome(mem.cells(), chains.igt@, 4)) {
            (Some(t), Some(bytes)) => t@ == igt_text(le32(bytes) as nat),
            (None, None) => true,
            _ => false,
        },
{
    match chains.igt.read_u32(mem) {
        Some(igt) => Some(format_igt(igt as u64)),
        None => None,
    }
}

/// The cursor is visible after a frame if and only if the frame is drawn
/// with the menu open: entering the menu forces it visible, and leaving it
/// by the display hotkey forces it invisible on that very frame.
pub proof fn lemma_cursor_follows_menu(before: UiState, input: FrameInput)
    ensures
        cursor_of_frame(before, input) == Some(true) <==> mode_after_frame(
            before,
            input.display_keyup,
            input.want_capture_keyboard,
            input.rshift_down,
        ) == UiState::MenuOpen,
        before == UiState::MenuOpen && mode_after_frame(
            before,
            input.display_keyup,
            input.want_capture_keyboard,
            input.rshift_down,
        ) != UiState::MenuOpen ==> cursor_of_frame(before, input) == Some(false),
{
}

} // verus!
