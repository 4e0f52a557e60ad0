//! The radial gamepad menu and the synthetic key presses it commits: which
//! frame opens the menu, which frame commits a sector, and how a committed
//! hotkey reaches the interface as a press followed by a release.

use vstd::prelude::*;
use crate::hotkey::{Hotkey, Modifier};

verus! {

/// The button bit of the A button.
pub const GAMEPAD_A: u16 = 0x1000;

/// The button bit of the left shoulder.
pub const GAMEPAD_LEFT_SHOULDER: u16 = 0x0100;

/// The button bit of the right shoulder.
pub const GAMEPAD_RIGHT_SHOULDER: u16 = 0x0200;

/// The square of the stick deflection beyond which the stick points at a
/// sector.
pub const STICK_DEADZONE_SQUARED: u64 = 100_000_000;

/// One entry of the radial menu: its label and the hotkey it stands for.
#[derive(Debug)]
pub struct RadialMenu {
    pub key: Hotkey,
    pub label: String,
}

/// The mathematical form of a [`RadialMenu`].
pub ghost struct RadialMenuView {
    pub key: Hotkey,
    pub label: Seq<char>,
}

impl View for RadialMenu {
    type V = RadialMenuView;

    open spec fn view(&self) -> RadialMenuView {
        RadialMenuView { key: self.key, label: self.label@ }
    }
}

/// The mathematical form of a list of entries.
pub open spec fn radial_views(entries: Seq<RadialMenu>) -> Seq<RadialMenuView> {
    Seq::new(entries.len(), |i: int| entries[i]@)
}

/// Whether button `bit` is down in `buttons`.
pub open spec fn button_down(buttons: u16, bit: u16) -> bool {
    buttons & bit == bit
}

/// Whether both shoulders are held, which opens the menu.
pub open spec fn chord_held(buttons: u16) -> bool {
    button_down(buttons, GAMEPAD_LEFT_SHOULDER) && button_down(buttons, GAMEPAD_RIGHT_SHOULDER)
}

/// What one frame of the radial menu decides.
#[derive(Clone, Copy, Debug, PartialEq, Eq, Structural)]
pub struct RadialAction {
    /// Whether the menu is open, and the host must see a zeroed gamepad.
    pub block_gamepad: bool,
    /// The menu entry committed this frame, if any.
    pub commit: Option<usize>,
}

/// The decision of a frame: the menu is open while both shoulders are
/// held; it commits the selected sector on the frame on which A, down in
/// the previous sample, is up again.
pub open spec fn radial_decision(
    previous: u16,
    current: u16,
    selection: Option<usize>,
    entries: int,
) -> RadialAction {
    if chord_held(current) {
        RadialAction {
            block_gamepad: true,
            commit: if button_down(previous, GAMEPAD_A) && !button_down(current, GAMEPAD_A) {
                match selection {
                    Some(i) => if i < entries {
                        Some(i)
                    } else {
                        None
                    },
                    None => None,
                }
            } else {
                None
            },
        }
    } else {
        RadialAction { block_gamepad: false, commit: None }
    }
}

fn is_down(buttons: u16, bit: u16) -> (down: bool)
    ensures
        down == button_down(buttons, bit),
{
    buttons & bit == bit
}

/// Whether both shoulders are held in a button sample, which is when the
/// stick steers the menu.
pub fn shoulders_held(buttons: u16) -> (held: bool)
    ensures
        held == chord_held(buttons),
{
    is_down(buttons, GAMEPAD_LEFT_SHOULDER) && is_down(buttons, GAMEPAD_RIGHT_SHOULDER)
}

/// Decides one frame of the radial menu from the previous and the current
/// button sample and the sector the stick points at.
pub fn radial_step(previous: u16, current: u16, selection: Option<usize>, entries: usize) -> (action:
    RadialAction)
    ensures
        action == radial_decision(previous, current, selection, entries as int),
{
    if is_down(current, GAMEPAD_LEFT_SHOULDER) && is_down(current, GAMEPAD_RIGHT_SHOULDER) {
        let released = is_down(previous, GAMEPAD_A) && !is_down(current, GAMEPAD_A);
        let commit = if released {
            match selection {
                Some(i) => if i < entries {
                    Some(i)
                } else {
                    None
                },
                None => None,
            }
        } else {
            None
        };
        RadialAction { block_gamepad: true, commit }
    } else {
        RadialAction { block_gamepad: false, commit: None }
    }
}

/// Whether the stick is deflected far enough to point at a sector.
pub open spec fn stick_points(x: i16, y: i16) -> bool {
    x * x + y * y > STICK_DEADZONE_SQUARED
}

/// Tests the stick deflection against the dead zone.
pub fn stick_engaged(x: i16, y: i16) -> (engaged: bool)
    ensures
        engaged == stick_points(x, y),
{
    let a = x as i64;
    let b = y as i64;
    assert(a * a <= 0x4000_0000 && a * a >= 0) by (nonlinear_arith)
        requires
            -0x8000 <= a <= 0x7fff,
    ;
    assert(b * b <= 0x4000_0000 && b * b >= 0) by (nonlinear_arith)
        requires
            -0x8000 <= b <= 0x7fff,
    ;
    let norm = (a * a + b * b) as u64;
    norm > STICK_DEADZONE_SQUARED
}

/// One sample of a gamepad cycle: the buttons, and the sector the stick
/// points at.
pub ghost struct PadFrame {
    pub buttons: u16,
    pub selection: Option<usize>,
}

/// The buttons of the sample before the last of `frames`, or `previous`
/// where there is none.
pub open spec fn buttons_before_last(previous: u16, frames: Seq<PadFrame>) -> u16 {
    if frames.len() <= 1 {
        previous
    } else {
        frames[frames.len() - 2].buttons
    }
}

/// How many commits the samples `frames` produce, starting after a sample
/// with the buttons `previous`.
pub open spec fn commit_count(previous: u16, frames: Seq<PadFrame>, entries: int) -> nat
    decreases frames.len(),
{
    if frames.len() == 0 {
        0
    } else {
        let here: nat = if radial_decision(
            buttons_before_last(previous, frames),
            frames.last().buttons,
            frames.last().selection,
            entries,
        ).commit is Some {
            1
        } else {
            0
        };
        commit_count(previous, frames.drop_last(), entries) + here
    }
}

/// A cycle: both shoulders and A held for `hold` samples, then A let go
/// with the shoulders still held for `after` samples, the stick pointing at
/// `sector` all the while.
pub open spec fn commit_cycle(hold: nat, after: nat, sector: usize) -> Seq<PadFrame> {
    Seq::new(
        hold + after,
        |i: int|
            PadFrame {
                buttons: if i < hold {
                    0x1300u16
                } else {
                    0x0300u16
                },
                selection: Some(sector),
            },
    )
}

proof fn lemma_button_bits()
    ensures
        chord_held(0x1300u16),
        chord_held(0x0300u16),
        button_down(0x1300u16, GAMEPAD_A),
        !button_down(0x0300u16, GAMEPAD_A),
{
    assert(0x1300u16 & 0x0100u16 == 0x0100u16) by (bit_vector);
    assert(0x1300u16 & 0x0200u16 == 0x0200u16) by (bit_vector);
    assert(0x0300u16 & 0x0100u16 == 0x0100u16) by (bit_vector);
    assert(0x0300u16 & 0x0200u16 == 0x0200u16) by (bit_vector);
    assert(0x1300u16 & 0x1000u16 == 0x1000u16) by (bit_vector);
    assert(0x0300u16 & 0x1000u16 == 0u16) by (bit_vector);
}

proof fn lemma_cycle_commits(previous: u16, hold: nat, after: nat, sector: usize, entries: int)
    requires
        hold >= 1,
        sector < entries,
    ensures
        commit_count(previous, commit_cycle(hold, after, sector), entries) == (if after >= 1 {
            1nat
        } else {
            0nat
        }),
    decreases after,
{
    lemma_button_bits();
    let frames = commit_cycle(hold, after, sector);
    if after == 0 {
        lemma_hold_commits_nothing(previous, hold, sector, entries);
    } else {
        let shorter = commit_cycle(hold, (after - 1) as nat, sector);
        assert(frames.drop_last() =~= shorter);
        lemma_cycle_commits(previous, hold, (after - 1) as nat, sector, entries);
        assert(frames[frames.len() - 2].buttons == (if after == 1 {
            0x1300u16
        } else {
            0x0300u16
        }));
    }
}

proof fn lemma_hold_commits_nothing(previous: u16, hold: nat, sector: usize, entries: int)
    ensures
        commit_count(previous, commit_cycle(hold, 0, sector), entries) == 0,
    decreases hold,
{
    lemma_button_bits();
    let frames = commit_cycle(hold, 0, sector);
    if hold > 0 {
        assert(frames.drop_last() =~= commit_cycle((hold - 1) as nat, 0, sector));
        lemma_hold_commits_nothing(previous, (hold - 1) as nat, sector, entries);
    }
}

/// One cycle of holding both shoulders, pointing the stick at a sector and
/// letting A go activates exactly one menu entry, however long A was held
/// and however long the shoulders stay held afterwards.
pub proof fn lemma_one_commit_per_cycle(
    previous: u16,
    hold: nat,
    after: nat,
    sector: usize,
    entries: int,
)
    requires
        hold >= 1,
        after >= 1,
        sector < entries,
    ensures
        commit_count(previous, commit_cycle(hold, after, sector), entries) == 1,
{
    lemma_cycle_commits(previous, hold, after, sector, entries);
}

/// The virtual-key code of a modifier.
pub open spec fn modifier_code(m: Modifier) -> u8 {
    match m {
        Modifier::Ctrl => 0x11,
        Modifier::Shift => 0x10,
        Modifier::Alt => 0x12,
    }
}

/// The keys a hotkey is made of: the modifier, if any, then the key.
pub open spec fn hotkey_keys(h: Hotkey) -> Seq<u8> {
    match h.modifier {
        Some(m) => seq![modifier_code(m), h.key],
        None => seq![h.key],
    }
}

/// A key event for the interface: which key, and whether it goes down.
#[derive(Clone, Copy, Debug, PartialEq, Eq, Structural)]
pub struct KeyEvent {
    pub key: u8,
    pub down: bool,
}

/// The events for the keys `keys`, all going down or all going up.
pub open spec fn events_for(keys: Seq<u8>, down: bool) -> Seq<KeyEvent> {
    Seq::new(keys.len(), |i: int| KeyEvent { key: keys[i], down })
}

/// The events of one frame: the releases of `release`, then the presses of
/// `press`.
pub open spec fn frame_events(press: Seq<u8>, release: Seq<u8>) -> Seq<KeyEvent> {
    events_for(release, false) + events_for(press, true)
}

/// The synthetic keys on their way to the interface: those to press on the
/// next frame, and those pressed on the last frame and still to release.
#[derive(Debug)]
pub struct KeyQueue {
    pub press_queue: Vec<u8>,
    pub release_queue: Vec<u8>,
}

impl KeyQueue {
    /// Nothing to press, nothing to release.
    pub fn new() -> (q: KeyQueue)
        ensures
            q.press_queue@.len() == 0,
            q.release_queue@.len() == 0,
    {
        KeyQueue { press_queue: Vec::new(), release_queue: Vec::new() }
    }

    /// Enqueues the keys of a committed hotkey for pressing.
    pub fn commit(&mut self, hotkey: Hotkey)
        ensures
            final(self).press_queue@ == old(self).press_queue@ + hotkey_keys(hotkey),
            final(self).release_queue@ == old(self).release_queue@,
    {
        match hotkey.modifier {
            Some(Modifier::Ctrl) => self.press_queue.push(0x11),
            Some(Modifier::Shift) => self.press_queue.push(0x10),
            Some(Modifier::Alt) => self.press_queue.push(0x12),
            None => {},
        }
        self.press_queue.push(hotkey.key);
        assert(self.press_queue@ =~= old(self).press_queue@ + hotkey_keys(hotkey));
    }

    /// The events to feed the interface before it renders a frame: first
    /// the releases of what was pressed on the frame before, then the new
    /// presses, which move on to be released on the next frame.
    pub fn before_render(&mut self) -> (events: Vec<KeyEvent>)
        ensures
            events@ == frame_events(old(self).press_queue@, old(self).release_queue@),
            final(self).release_queue@ == old(self).press_queue@,
            final(self).press_queue@.len() == 0,
    {
        let mut events: Vec<KeyEvent> = Vec::new();
        let mut i: usize = 0;
        while i < self.release_queue.len()
            invariant
                i <= self.release_queue.len(),
                self.release_queue@ == old(self).release_queue@,
                self.press_queue@ == old(self).press_queue@,
                events@ == events_for(self.release_queue@, false).subrange(0, i as int),
            decreases self.release_queue.len() - i,
        {
            events.push(KeyEvent { key: self.release_queue[i], down: false });
            i = i + 1;
            assert(events@ =~= events_for(self.release_queue@, false).subrange(0, i as int));
        }
        assert(events@ =~= events_for(self.release_queue@, false));
        let ghost releases = events@;
        let mut pressed: Vec<u8> = Vec::new();
        let mut j: usize = 0;
        while j < self.press_queue.len()
            invariant
                j <= self.press_queue.len(),
                self.press_queue@ == old(self).press_queue@,
                pressed@ == self.press_queue@.subrange(0, j as int),
                events@ == releases + events_for(self.press_queue@, true).subrange(0, j as int),
            decreases self.press_queue.len() - j,
        {
            events.push(KeyEvent { key: self.press_queue[j], down: true });
            pressed.push(self.press_queue[j]);
            j = j + 1;
            assert(pressed@ =~= self.press_queue@.subrange(0, j as int));
            assert(events@ =~= releases + events_for(self.press_queue@, true).subrange(0, j as int));
        }
        assert(pressed@ =~= self.press_queue@);
        assert(events@ =~= releases + events_for(self.press_queue@, true));
        self.release_queue = pressed;
        self.press_queue = Vec::new();
        events
    }
}

/// Every synthetic press is followed by exactly its release on the next
/// frame: with nothing committed in between, the frame after one that
/// pressed `pressed` releases those keys, in order, and presses nothing; the
/// frame after that sends nothing at all.
pub proof fn lemma_press_then_release(pressed: Seq<u8>)
    ensures
        frame_events(Seq::empty(), pressed) == events_for(pressed, false),
        frame_events(Seq::empty(), Seq::empty()).len() == 0,
        forall|i: int|
            0 <= i < pressed.len() ==> #[trigger] frame_events(Seq::empty(), pressed)[i] == (KeyEvent {
                key: pressed[i],
                down: false,
            }),
{
    assert(frame_events(Seq::empty(), pressed) =~= events_for(pressed, false));
}

} // verus!
