//! Hotkeys: a virtual key with an optional modifier, the text form they are
//! written in, and edge detection over the per-frame key samples.

use vstd::prelude::*;
use vstd::string::*;
use crate::text::{chars_of, decimal, digit_char, push_decimal, same_text, string_of, string_push};

verus! {

/// The modifier a chord may ask for.
#[derive(Clone, Copy, Debug, PartialEq, Eq, Structural)]
pub enum Modifier {
    Ctrl,
    Shift,
    Alt,
}

/// A key chord: the virtual-key code of the primary key and the modifier
/// that must be held with it, if any. Two hotkeys are the same when both
/// parts are.
#[derive(Clone, Copy, Debug, PartialEq, Eq, Structural)]
pub struct Hotkey {
    pub key: u8,
    pub modifier: Option<Modifier>,
}

/// The codes the catalogue knows: digits, letters and F1 to F12.
pub open spec fn is_key_code(code: u8) -> bool {
    ||| 0x30 <= code <= 0x39
    ||| 0x41 <= code <= 0x5A
    ||| 0x70 <= code <= 0x7B
}

/// A letter in lower case; every other character unchanged.
pub open spec fn ascii_lower(c: char) -> char {
    if 0x41 <= c as u32 <= 0x5A {
        ((c as u32 + 32) as u8) as char
    } else {
        c
    }
}

/// `text` with its ASCII letters in lower case.
pub open spec fn ascii_lower_text(text: Seq<char>) -> Seq<char> {
    text.map_values(|c: char| ascii_lower(c))
}

/// The code a key name stands for, letters in either case.
pub open spec fn key_code_of(name: Seq<char>) -> Option<u8> {
    let n = ascii_lower_text(name);
    if n.len() == 1 {
        let c = n[0] as u32;
        if 0x30 <= c <= 0x39 {
            Some(c as u8)
        } else if 0x61 <= c <= 0x7A {
            Some((c - 32) as u8)
        } else {
            None
        }
    } else if n.len() == 2 && n[0] == 'f' && 0x31 <= n[1] as u32 <= 0x39 {
        Some((0x6F + (n[1] as u32 - 0x30)) as u8)
    } else if n.len() == 3 && n[0] == 'f' && n[1] == '1' && 0x30 <= n[2] as u32 <= 0x32 {
        Some((0x79 + (n[2] as u32 - 0x30)) as u8)
    } else {
        None
    }
}

/// The modifier a name stands for, letters in either case.
pub open spec fn modifier_of(name: Seq<char>) -> Option<Modifier> {
    let n = ascii_lower_text(name);
    if n == "ctrl"@ {
        Some(Modifier::Ctrl)
    } else if n == "shift"@ {
        Some(Modifier::Shift)
    } else if n == "alt"@ {
        Some(Modifier::Alt)
    } else {
        None
    }
}

/// The index of the first `+` at or after `from`, or the length of `text`
/// where there is none.
pub open spec fn first_plus(text: Seq<char>, from: int) -> int
    decreases text.len() - from,
{
    if from < 0 || from >= text.len() {
        text.len() as int
    } else if text[from] == '+' {
        from
    } else {
        first_plus(text, from + 1)
    }
}

/// The hotkey that `text` denotes: a key name, or a modifier name, a `+`
/// and a key name. Anything else denotes none.
pub open spec fn hotkey_of(text: Seq<char>) -> Option<Hotkey> {
    let at = first_plus(text, 0);
    if at == text.len() {
        match key_code_of(text) {
            Some(key) => Some(Hotkey { key, modifier: None }),
            None => None,
        }
    } else {
        match (modifier_of(text.subrange(0, at)), key_code_of(text.subrange(at + 1, text.len() as int))) {
            (Some(m), Some(key)) => Some(Hotkey { key, modifier: Some(m) }),
            _ => None,
        }
    }
}

/// The display name of a key code.
pub open spec fn key_name(code: u8) -> Seq<char> {
    if 0x70 <= code <= 0x7B {
        seq!['F'] + decimal((code - 0x6F) as nat)
    } else {
        seq![code as char]
    }
}

/// The display name of a modifier.
pub open spec fn modifier_name(m: Modifier) -> Seq<char> {
    match m {
        Modifier::Ctrl => "Ctrl"@,
        Modifier::Shift => "Shift"@,
        Modifier::Alt => "Alt"@,
    }
}

/// The stable display form of a hotkey, such as `Ctrl+F3`.
pub open spec fn hotkey_text(h: Hotkey) -> Seq<char> {
    match h.modifier {
        Some(m) => modifier_name(m) + seq!['+'] + key_name(h.key),
        None => key_name(h.key),
    }
}

fn lower_chars(name: &Vec<char>) -> (out: Vec<char>)
    ensures
        out@ == ascii_lower_text(name@),
{
    let mut out: Vec<char> = Vec::new();
    let mut i: usize = 0;
    while i < name.len()
        invariant
            i <= name.len(),
            out@.len() == i,
            forall|j: int| 0 <= j < i ==> out@[j] == ascii_lower(name@[j]),
        decreases name.len() - i,
    {
        let c = name[i];
        let code = c as u32;
        if 0x41 <= code && code <= 0x5A {
            let b: u8 = (code + 32) as u8;
            out.push(b as char);
        } else {
            out.push(c);
        }
        i = i + 1;
    }
    assert(out@ =~= ascii_lower_text(name@));
    out
}

fn parse_key_code(name: &Vec<char>) -> (code: Option<u8>)
    ensures
        code == key_code_of(name@),
        code matches Some(k) ==> is_key_code(k),
{
    let n = lower_chars(name);
    if n.len() == 1 {
        let c = n[0] as u32;
        if 0x30 <= c && c <= 0x39 {
            Some(c as u8)
        } else if 0x61 <= c && c <= 0x7A {
            Some((c - 32) as u8)
        } else {
            None
        }
    } else if n.len() == 2 && n[0] == 'f' && 0x31 <= n[1] as u32 && n[1] as u32 <= 0x39 {
        Some((0x6F + (n[1] as u32 - 0x30)) as u8)
    } else if n.len() == 3 && n[0] == 'f' && n[1] == '1' && 0x30 <= n[2] as u32 && n[2] as u32
        <= 0x32 {
        Some((0x79 + (n[2] as u32 - 0x30)) as u8)
    } else {
        None
    }
}

fn parse_modifier(name: &Vec<char>) -> (m: Option<Modifier>)
    ensures
        m == modifier_of(name@),
{
    let n = string_of(&lower_chars(name));
    if same_text(n.as_str(), "ctrl") {
        Some(Modifier::Ctrl)
    } else if same_text(n.as_str(), "shift") {
        Some(Modifier::Shift)
    } else if same_text(n.as_str(), "alt") {
        Some(Modifier::Alt)
    } else {
        None
    }
}

fn find_plus(text: &Vec<char>) -> (at: usize)
    ensures
        at == first_plus(text@, 0),
        at <= text.len(),
{
    let mut i: usize = 0;
    while i < text.len()
        invariant
            i <= text.len(),
            first_plus(text@, 0) == first_plus(text@, i as int),
        decreases text.len() - i,
    {
        if text[i] == '+' {
            return i;
        }
        i = i + 1;
    }
    i
}

fn slice_chars(text: &Vec<char>, from: usize, to: usize) -> (out: Vec<char>)
    requires
        from <= to <= text.len(),
    ensures
        out@ == text@.subrange(from as int, to as int),
{
    let mut out: Vec<char> = Vec::new();
    let mut i: usize = from;
    while i < to
        invariant
            from <= i <= to <= text.len(),
            out@ == text@.subrange(from as int, i as int),
        decreases to - i,
    {
        out.push(text[i]);
        i = i + 1;
        assert(out@ =~= text@.subrange(from as int, i as int));
    }
    out
}

impl Hotkey {
    /// A hotkey from its parts.
    pub fn new(key: u8, modifier: Option<Modifier>) -> (h: Hotkey)
        ensures
            h == (Hotkey { key, modifier }),
    {
        Hotkey { key, modifier }
    }

    /// Reads a hotkey from its text form; `None` where the text names no
    /// key of the catalogue.
    pub fn parse(text: &str) -> (h: Option<Hotkey>)
        ensures
            h == hotkey_of(text@),
            h matches Some(k) ==> is_key_code(k.key),
    {
        let chars = chars_of(text);
        let at = find_plus(&chars);
        if at == chars.len() {
            assert(chars@ == text@);
            match parse_key_code(&chars) {
                Some(key) => Some(Hotkey { key, modifier: None }),
                None => None,
            }
        } else {
            let left = slice_chars(&chars, 0, at);
            let right = slice_chars(&chars, at + 1, chars.len());
            match (parse_modifier(&left), parse_key_code(&right)) {
                (Some(m), Some(key)) => Some(Hotkey { key, modifier: Some(m) }),
                _ => None,
            }
        }
    }

    /// The display form used in labels.
    pub fn label(&self) -> (text: String)
        ensures
            text@ == hotkey_text(*self),
    {
        let mut text = String::new();
        match self.modifier {
            Some(Modifier::Ctrl) => {
                text.append("Ctrl");
                string_push(&mut text, '+');
            },
            Some(Modifier::Shift) => {
                text.append("Shift");
                string_push(&mut text, '+');
            },
            Some(Modifier::Alt) => {
                text.append("Alt");
                string_push(&mut text, '+');
            },
            None => {},
        }
        if 0x70 <= self.key && self.key <= 0x7B {
            string_push(&mut text, 'F');
            push_decimal(&mut text, (self.key - 0x6F) as u64);
        } else {
            string_push(&mut text, self.key as char);
        }
        assert(text@ =~= hotkey_text(*self));
        text
    }

    /// Whether the chord fires this frame: the primary key went up, the
    /// modifier (if one is asked for) is held, and no text field has focus.
    pub fn fires(&self, edge: KeyEdge, modifier_held: bool, text_focused: bool) -> (fired: bool)
        ensures
            fired == chord_fires(*self, edge, modifier_held, text_focused),
    {
        let released = match edge {
            KeyEdge::Released => true,
            _ => false,
        };
        let held = match self.modifier {
            Some(_) => modifier_held,
            None => true,
        };
        released && held && !text_focused
    }
}

proof fn lemma_key_name_parses(code: u8)
    requires
        is_key_code(code),
    ensures
        key_code_of(key_name(code)) == Some(code),
        first_plus(key_name(code), 0) == key_name(code).len(),
{
    let name = key_name(code);
    let lower = ascii_lower_text(name);
    if 0x70 <= code <= 0x7B {
        let n = (code - 0x6F) as nat;
        reveal_with_fuel(decimal, 2);
        reveal_with_fuel(first_plus, 4);
        if n < 10 {
            assert(name =~= seq!['F', digit_char(n as int)]);
            assert(lower[0] == 'f');
            assert(lower[1] == digit_char(n as int));
        } else {
            assert(decimal(n) =~= seq!['1', digit_char(n as int - 10)]);
            assert(name =~= seq!['F', '1', digit_char(n as int - 10)]);
            assert(lower[0] == 'f');
            assert(lower[1] == '1');
            assert(lower[2] == digit_char(n as int - 10));
        }
    } else {
        reveal_with_fuel(first_plus, 2);
        assert(name =~= seq![code as char]);
        assert(lower[0] == ascii_lower(code as char));
    }
}

proof fn lemma_modifier_name_parses(m: Modifier)
    ensures
        modifier_of(modifier_name(m)) == Some(m),
        first_plus(modifier_name(m), 0) == modifier_name(m).len(),
        modifier_name(m).len() >= 3,
{
    reveal_strlit("Ctrl");
    reveal_strlit("Shift");
    reveal_strlit("Alt");
    reveal_strlit("ctrl");
    reveal_strlit("shift");
    reveal_strlit("alt");
    reveal_with_fuel(first_plus, 6);
    let name = modifier_name(m);
    let lower = ascii_lower_text(name);
    match m {
        Modifier::Ctrl => {
            assert(lower =~= "ctrl"@);
        },
        Modifier::Shift => {
            assert(lower =~= "shift"@);
            assert(lower.len() != "ctrl"@.len());
        },
        Modifier::Alt => {
            assert(lower =~= "alt"@);
            assert(lower.len() != "ctrl"@.len());
            assert(lower.len() != "shift"@.len());
        },
    }
}

proof fn lemma_first_plus_after(head: Seq<char>, tail: Seq<char>, from: int)
    requires
        0 <= from <= head.len(),
        first_plus(head, from) == head.len(),
    ensures
        first_plus(head + seq!['+'] + tail, from) == head.len(),
    decreases head.len() - from,
{
    let text = head + seq!['+'] + tail;
    if from < head.len() {
        assert(text[from] == head[from]);
        lemma_first_plus_after(head, tail, from + 1);
    } else {
        assert(text[from] == '+');
    }
}

/// The display form of a hotkey of the catalogue reads back as that
/// hotkey.
pub proof fn lemma_label_parses_back(h: Hotkey)
    requires
        is_key_code(h.key),
    ensures
        hotkey_of(hotkey_text(h)) == Some(h),
{
    lemma_key_name_parses(h.key);
    match h.modifier {
        None => {},
        Some(m) => {
            lemma_modifier_name_parses(m);
            let head = modifier_name(m);
            let tail = key_name(h.key);
            let text = hotkey_text(h);
            lemma_first_plus_after(head, tail, 0);
            assert(text.subrange(0, head.len() as int) =~= head);
            assert(text.subrange(head.len() as int + 1, text.len() as int) =~= tail);
        },
    }
}

/// What a key did between two consecutive frames.
#[derive(Clone, Copy, Debug, PartialEq, Eq, Structural)]
pub enum KeyEdge {
    /// The key kept its state.
    Steady,
    /// The key went down this frame.
    Pressed,
    /// The key went up this frame.
    Released,
}

/// The edge between the state of the previous frame and this one.
pub open spec fn edge_of(was_down: bool, is_down: bool) -> KeyEdge {
    if !was_down && is_down {
        KeyEdge::Pressed
    } else if was_down && !is_down {
        KeyEdge::Released
    } else {
        KeyEdge::Steady
    }
}

/// The firing predicate of a chord.
pub open spec fn chord_fires(h: Hotkey, edge: KeyEdge, modifier_held: bool, text_focused: bool) -> bool {
    edge == KeyEdge::Released && (h.modifier is Some ==> modifier_held) && !text_focused
}

/// The key state after the samples `samples`, starting from `was_down`.
pub open spec fn state_after(was_down: bool, samples: Seq<bool>) -> bool {
    if samples.len() == 0 {
        was_down
    } else {
        samples.last()
    }
}

/// How many edges of kind `kind` the samples produce, starting from
/// `was_down`.
pub open spec fn edge_count(was_down: bool, samples: Seq<bool>, kind: KeyEdge) -> nat
    decreases samples.len(),
{
    if samples.len() == 0 {
        0
    } else {
        let before = samples.drop_last();
        let here: nat = if edge_of(state_after(was_down, before), samples.last()) == kind {
            1
        } else {
            0
        };
        edge_count(was_down, before, kind) + here
    }
}

/// `n` frames with the key held down.
pub open spec fn held_for(n: nat) -> Seq<bool> {
    Seq::new(n, |i: int| true)
}

/// Remembers one key's state of the previous frame.
#[derive(Clone, Copy, Debug, PartialEq, Eq, Structural)]
pub struct KeyTracker {
    pub was_down: bool,
}

impl KeyTracker {
    /// A tracker for a key that starts out up.
    pub fn new() -> (t: KeyTracker)
        ensures
            !t.was_down,
    {
        KeyTracker { was_down: false }
    }

    /// Takes this frame's sample and reports the edge it completes.
    pub fn update(&mut self, is_down: bool) -> (edge: KeyEdge)
        ensures
            edge == edge_of(old(self).was_down, is_down),
            final(self).was_down == is_down,
    {
        let was = self.was_down;
        self.was_down = is_down;
        if !was && is_down {
            KeyEdge::Pressed
        } else if was && !is_down {
            KeyEdge::Released
        } else {
            KeyEdge::Steady
        }
    }
}

proof fn lemma_held_run(n: nat, kind: KeyEdge)
    requires
        kind != KeyEdge::Steady,
    ensures
        edge_count(false, held_for(n), kind) == (if n > 0 && kind == KeyEdge::Pressed {
            1nat
        } else {
            0nat
        }),
    decreases n,
{
    if n > 0 {
        let before = held_for((n - 1) as nat);
        lemma_held_run((n - 1) as nat, kind);
        assert(held_for(n).drop_last() =~= before);
        assert(held_for(n).last());
        assert(state_after(false, before) == (n > 1)) by {
            if n > 1 {
                assert(before.last());
            }
        }
    } else {
        assert(held_for(n).len() == 0);
    }
}

/// A key that is up, then held down for `n >= 1` frames, then let go produces
/// exactly one press edge and exactly one release edge.
pub proof fn lemma_one_edge_each_way(n: nat)
    requires
        n >= 1,
    ensures
        edge_count(false, held_for(n).push(false), KeyEdge::Pressed) == 1,
        edge_count(false, held_for(n).push(false), KeyEdge::Released) == 1,
{
    let run = held_for(n).push(false);
    assert(run.drop_last() =~= held_for(n));
    lemma_held_run(n, KeyEdge::Pressed);
    lemma_held_run(n, KeyEdge::Released);
}

} // verus!
