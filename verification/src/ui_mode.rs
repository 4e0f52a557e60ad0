//! The three display modes of the overlay and the transitions between them.

use vstd::prelude::*;

verus! {

/// What the overlay currently shows.
#[derive(Clone, Copy, Debug, PartialEq, Eq, Structural)]
pub enum UiState {
    /// The full menu panel is open and owns keyboard and mouse.
    MenuOpen,
    /// Only the compact indicator bar is drawn.
    Closed,
    /// Nothing is drawn; hotkeys still work.
    Hidden,
}

/// The mode that follows `current` when the display hotkey is released,
/// with `shift` telling whether right-shift is physically down.
pub open spec fn next_mode(current: UiState, shift: bool) -> UiState {
    match (current, shift) {
        (UiState::Hidden, _) => UiState::Closed,
        (_, true) => UiState::Hidden,
        (UiState::MenuOpen, false) => UiState::Closed,
        (UiState::Closed, false) => UiState::MenuOpen,
    }
}

/// The mode after one frame: the transition applies only on a frame where
/// the display hotkey went up and the interface has not captured the keyboard.
pub open spec fn mode_after_frame(
    current: UiState,
    display_keyup: bool,
    keyboard_captured: bool,
    shift: bool,
) -> UiState {
    if display_keyup && !keyboard_captured {
        next_mode(current, shift)
    } else {
        current
    }
}

/// The first and the last keyboard message of the window system.
pub const WM_KEYFIRST: u32 = 0x0100;

pub const WM_KEYLAST: u32 = 0x0109;

/// The first and the last mouse message of the window system.
pub const WM_MOUSEFIRST: u32 = 0x0200;

pub const WM_MOUSELAST: u32 = 0x020E;

/// Whether a window message comes from the keyboard or the mouse.
pub open spec fn is_input_message(message: u32) -> bool {
    WM_KEYFIRST <= message <= WM_KEYLAST || WM_MOUSEFIRST <= message <= WM_MOUSELAST
}

/// Whether the host's cursor is forced visible in `mode`.
pub open spec fn cursor_shown_in(mode: UiState) -> bool {
    mode == UiState::MenuOpen
}

impl UiState {
    /// Applies the display-hotkey transition.
    pub fn toggled(self, shift: bool) -> (next: UiState)
        ensures
            next == next_mode(self, shift),
    {
        match self {
            UiState::Hidden => UiState::Closed,
            UiState::MenuOpen => if shift {
                UiState::Hidden
            } else {
                UiState::Closed
            },
            UiState::Closed => if shift {
                UiState::Hidden
            } else {
                UiState::MenuOpen
            },
        }
    }

    /// Advances the mode by one frame of input.
    pub fn after_frame(self, display_keyup: bool, keyboard_captured: bool, shift: bool) -> (next:
        UiState)
        ensures
            next == mode_after_frame(self, display_keyup, keyboard_captured, shift),
    {
        if display_keyup && !keyboard_captured {
            self.toggled(shift)
        } else {
            self
        }
    }

    /// Mouse and keyboard messages are withheld from the host exactly while
    /// the menu is open.
    pub fn should_block_messages(&self) -> (block: bool)
        ensures
            block == (*self == UiState::MenuOpen),
    {
        match self {
            UiState::MenuOpen => true,
            UiState::Closed => false,
            UiState::Hidden => false,
        }
    }

    /// Whether a window message is kept from the host: keyboard and mouse
    /// messages while the menu is open. The interface sees every message
    /// either way.
    pub fn handles_message(&self, message: u32) -> (handled: bool)
        ensures
            handled == (*self == UiState::MenuOpen && is_input_message(message)),
    {
        let input = (WM_KEYFIRST <= message && message <= WM_KEYLAST) || (WM_MOUSEFIRST <= message
            && message <= WM_MOUSELAST);
        self.should_block_messages() && input
    }

    /// Whether the host's cursor must be visible in this mode.
    pub fn cursor_visible(&self) -> (shown: bool)
        ensures
            shown == cursor_shown_in(*self),
    {
        match self {
            UiState::MenuOpen => true,
            UiState::Closed => false,
            UiState::Hidden => false,
        }
    }
}

/// The transition relation is a total function of mode and shift, and its
/// six rows are: a hidden overlay always returns to the bar; shift hides
/// whatever else is shown; without shift the menu and the bar swap.
pub proof fn lemma_transition_table(current: UiState, shift: bool)
    ensures
        current == UiState::Hidden ==> next_mode(current, shift) == UiState::Closed,
        current != UiState::Hidden && shift ==> next_mode(current, shift) == UiState::Hidden,
        current == UiState::MenuOpen && !shift ==> next_mode(current, shift) == UiState::Closed,
        current == UiState::Closed && !shift ==> next_mode(current, shift) == UiState::MenuOpen,
        next_mode(current, shift) == UiState::MenuOpen || next_mode(current, shift)
            == UiState::Closed || next_mode(current, shift) == UiState::Hidden,
{
}

/// Without shift, two releases of the display hotkey bring an open menu or
/// a closed bar back to where it started.
pub proof fn lemma_toggle_twice(current: UiState)
    requires
        current != UiState::Hidden,
    ensures
        next_mode(next_mode(current, false), false) == current,
{
}

} // verus!
