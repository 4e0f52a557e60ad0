//! The frame log: messages of the widgets with the time they arrived,
//! kept for five seconds and shown in the corner of the screen.

use vstd::prelude::*;
use vstd::string::*;

verus! {

/// How long a message stays, in milliseconds.
pub const LOG_LIFETIME_MS: u64 = 5000;

/// A message and the time it arrived, in milliseconds of a monotonic clock.
#[derive(Debug)]
pub struct LogEntry {
    pub arrival_ms: u64,
    pub message: String,
}

/// The mathematical form of a [`LogEntry`].
pub ghost struct LogEntryView {
    pub arrival_ms: u64,
    pub message: Seq<char>,
}

impl View for LogEntry {
    type V = LogEntryView;

    open spec fn view(&self) -> LogEntryView {
        LogEntryView { arrival_ms: self.arrival_ms, message: self.message@ }
    }
}

/// The ordered log of the overlay.
#[derive(Debug)]
pub struct FrameLog {
    pub entries: Vec<LogEntry>,
}

impl View for FrameLog {
    type V = Seq<LogEntryView>;

    open spec fn view(&self) -> Seq<LogEntryView> {
        Seq::new(self.entries@.len(), |i: int| self.entries@[i]@)
    }
}

/// The age of a message at time `now`; a clock that has not advanced gives
/// age zero.
pub open spec fn age_ms(arrival_ms: u64, now_ms: u64) -> int {
    if now_ms >= arrival_ms {
        now_ms - arrival_ms
    } else {
        0
    }
}

/// Whether a message is still young enough to stay.
pub open spec fn alive(entry: LogEntryView, now_ms: u64) -> bool {
    age_ms(entry.arrival_ms, now_ms) < LOG_LIFETIME_MS
}

/// The entries that stay at time `now`, in their order.
pub open spec fn kept(entries: Seq<LogEntryView>, now_ms: u64) -> Seq<LogEntryView>
    decreases entries.len(),
{
    if entries.len() == 0 {
        Seq::empty()
    } else {
        let before = kept(entries.drop_last(), now_ms);
        if alive(entries.last(), now_ms) {
            before.push(entries.last())
        } else {
            before
        }
    }
}

/// The messages `messages`, each stamped with the arrival time `now`.
pub open spec fn stamped(messages: Seq<Seq<char>>, now_ms: u64) -> Seq<LogEntryView> {
    Seq::new(messages.len(), |i: int| LogEntryView { arrival_ms: now_ms, message: messages[i] })
}

/// The characters of each message of a list.
pub open spec fn message_texts(list: Seq<String>) -> Seq<Seq<char>> {
    Seq::new(list.len(), |i: int| list[i]@)
}

/// The messages of the log, oldest first.
pub open spec fn messages_of(entries: Seq<LogEntryView>) -> Seq<Seq<char>> {
    Seq::new(entries.len(), |i: int| entries[i].message)
}

/// Every entry that stays is younger than the lifetime, and every entry
/// that stays was there before.
pub proof fn lemma_kept_are_alive(entries: Seq<LogEntryView>, now_ms: u64)
    ensures
        forall|i: int|
            0 <= i < kept(entries, now_ms).len() ==> alive(#[trigger] kept(entries, now_ms)[i], now_ms),
        forall|i: int|
            0 <= i < kept(entries, now_ms).len() ==> entries.contains(
                #[trigger] kept(entries, now_ms)[i],
            ),
        kept(entries, now_ms).len() <= entries.len(),
    decreases entries.len(),
{
    if entries.len() > 0 {
        let front = entries.drop_last();
        lemma_kept_are_alive(front, now_ms);
        assert forall|i: int| 0 <= i < kept(entries, now_ms).len() implies entries.contains(
            #[trigger] kept(entries, now_ms)[i],
        ) by {
            let e = kept(entries, now_ms)[i];
            if i < kept(front, now_ms).len() {
                assert(front.contains(e));
                let j = choose|j: int| 0 <= j < front.len() && front[j] == e;
                assert(entries[j] == e);
            } else {
                assert(entries[entries.len() - 1] == e);
            }
        }
    }
}

/// An entry that is alive stays.
pub proof fn lemma_alive_are_kept(entries: Seq<LogEntryView>, now_ms: u64, i: int)
    requires
        0 <= i < entries.len(),
        alive(entries[i], now_ms),
    ensures
        kept(entries, now_ms).contains(entries[i]),
    decreases entries.len(),
{
    let front = entries.drop_last();
    let all = kept(entries, now_ms);
    if i == entries.len() - 1 {
        assert(all[all.len() - 1] == entries[i]);
    } else {
        lemma_alive_are_kept(front, now_ms, i);
        let j = choose|j: int| 0 <= j < kept(front, now_ms).len() && kept(front, now_ms)[j] == front[i];
        assert(all[j] == entries[i]);
    }
}

impl FrameLog {
    /// An empty log.
    pub fn new() -> (log: FrameLog)
        ensures
            log@.len() == 0,
    {
        FrameLog { entries: Vec::new() }
    }

    /// Appends the messages drained from the widgets, stamped with `now`.
    pub fn extend(&mut self, now_ms: u64, messages: &Vec<String>)
        ensures
            final(self)@ == old(self)@ + stamped(message_texts(messages@), now_ms),
    {
        let mut i: usize = 0;
        while i < messages.len()
            invariant
                i <= messages.len(),
                self@ == old(self)@ + stamped(message_texts(messages@), now_ms).subrange(0, i as int),
            decreases messages.len() - i,
        {
            let ghost before = self@;
            self.entries.push(LogEntry { arrival_ms: now_ms, message: messages[i].clone() });
            i = i + 1;
            assert(self@ =~= before.push(
                LogEntryView { arrival_ms: now_ms, message: messages@[i - 1]@ },
            ));
            assert(self@ =~= old(self)@ + stamped(message_texts(messages@), now_ms).subrange(
                0,
                i as int,
            ));
        }
        assert(stamped(message_texts(messages@), now_ms).subrange(0, messages.len() as int)
            =~= stamped(message_texts(messages@), now_ms));
    }

    /// Evicts the entries that have reached the lifetime. What stays is
    /// younger than the lifetime and keeps its order.
    pub fn retain(&mut self, now_ms: u64)
        ensures
            final(self)@ == kept(old(self)@, now_ms),
            forall|i: int| 0 <= i < final(self)@.len() ==> alive(#[trigger] final(self)@[i], now_ms),
    {
        let mut stay: Vec<LogEntry> = Vec::new();
        let mut i: usize = 0;
        let ghost all = self@;
        assert(all.subrange(0, 0) =~= Seq::<LogEntryView>::empty());
        while i < self.entries.len()
            invariant
                i <= self.entries.len(),
                self@ == all,
                all == old(self)@,
                Seq::new(stay@.len(), |k: int| stay@[k]@) == kept(all.subrange(0, i as int), now_ms),
            decreases self.entries.len() - i,
        {
            let arrival = self.entries[i].arrival_ms;
            let age = if now_ms >= arrival {
                now_ms - arrival
            } else {
                0
            };
            let ghost before = Seq::new(stay@.len(), |k: int| stay@[k]@);
            proof {
                assert(all.subrange(0, i + 1).drop_last() =~= all.subrange(0, i as int));
                assert(all.subrange(0, i + 1).last() == self.entries@[i as int]@);
            }
            if age < LOG_LIFETIME_MS {
                stay.push(LogEntry { arrival_ms: arrival, message: self.entries[i].message.clone() });
                assert(Seq::new(stay@.len(), |k: int| stay@[k]@) =~= before.push(
                    self.entries@[i as int]@,
                ));
            }
            i = i + 1;
        }
        assert(all.subrange(0, self.entries.len() as int) =~= all);
        self.entries = stay;
        assert(self@ =~= kept(all, now_ms));
        proof {
            lemma_kept_are_alive(all, now_ms);
        }
    }

    /// One frame of the log: takes the messages drained this frame, then
    /// evicts what is too old. After it, no entry is five seconds old.
    pub fn tick(&mut self, now_ms: u64, messages: &Vec<String>)
        ensures
            final(self)@ == kept(old(self)@ + stamped(message_texts(messages@), now_ms), now_ms),
            forall|i: int| 0 <= i < final(self)@.len() ==> alive(#[trigger] final(self)@[i], now_ms),
    {
        self.extend(now_ms, messages);
        self.retain(now_ms);
    }

    /// The messages to draw: every message of the log, oldest first. A
    /// message is therefore drawn on every frame from its arrival until it is
    /// evicted, however many others arrive meanwhile.
    pub fn visible(&self) -> (lines: Vec<String>)
        ensures
            message_texts(lines@) == messages_of(self@),
            lines@.len() == self@.len(),
            forall|i: int| 0 <= i < lines@.len() ==> (#[trigger] lines@[i])@ == self@[i].message,
    {
        let n = self.entries.len();
        let mut lines: Vec<String> = Vec::new();
        let mut i: usize = 0;
        while i < n
            invariant
                i <= n,
                n == self.entries@.len(),
                lines@.len() == i,
                forall|k: int| 0 <= k < i ==> (#[trigger] lines@[k])@ == self.entries@[k].message@,
            decreases n - i,
        {
            lines.push(self.entries[i].message.clone());
            i = i + 1;
        }
        assert(message_texts(lines@) =~= messages_of(self@));
        lines
    }
}

/// Every message that is in the log after a frame is among the lines drawn
/// on that frame, at the place it has in the log.
pub proof fn lemma_kept_are_drawn(entries: Seq<LogEntryView>, now_ms: u64, i: int)
    requires
        0 <= i < kept(entries, now_ms).len(),
    ensures
        messages_of(kept(entries, now_ms)).len() == kept(entries, now_ms).len(),
        messages_of(kept(entries, now_ms))[i] == kept(entries, now_ms)[i].message,
{
}

} // verus!
