//! The character statistics editor: the snapshot it edits, the range each
//! field is held to, and when the snapshot is read, written back and
//! dropped.

use vstd::prelude::*;
use crate::memory::{mapped, HostMemory};
use crate::pointer_chain::{
    le32, le32_bytes, lemma_le32_round_trip, lemma_read_after_write, read_outcome, resolved,
    write_outcome, ChainView, PointerChain,
};

verus! {

/// A snapshot of the character's statistics.
#[derive(Clone, Copy, Debug, PartialEq, Eq, Structural)]
pub struct CharacterStats {
    pub level: i32,
    pub vigor: i32,
    pub attunement: i32,
    pub endurance: i32,
    pub vitality: i32,
    pub strength: i32,
    pub dexterity: i32,
    pub intelligence: i32,
    pub faith: i32,
    pub luck: i32,
    pub souls: i32,
}

/// The fields of the editor, in the order they are shown.
#[derive(Clone, Copy, Debug, PartialEq, Eq, Structural)]
pub enum StatField {
    Level,
    Vigor,
    Attunement,
    Endurance,
    Vitality,
    Strength,
    Dexterity,
    Intelligence,
    Faith,
    Luck,
    Souls,
}

/// The smallest value a field may take: 1 for the level and the
/// attributes, 0 for the souls.
pub open spec fn field_min(f: StatField) -> i32 {
    match f {
        StatField::Souls => 0,
        _ => 1,
    }
}

/// The largest value a field may take: 99 for the attributes, the largest
/// 32-bit number for the level and the souls.
pub open spec fn field_max(f: StatField) -> i32 {
    match f {
        StatField::Level => i32::MAX,
        StatField::Souls => i32::MAX,
        _ => 99,
    }
}

/// The label of a field.
pub open spec fn field_label(f: StatField) -> Seq<char> {
    match f {
        StatField::Level => "等级"@,
        StatField::Vigor => "生命力"@,
        StatField::Attunement => "集中力"@,
        StatField::Endurance => "持久力"@,
        StatField::Vitality => "体力"@,
        StatField::Strength => "力气"@,
        StatField::Dexterity => "敏捷"@,
        StatField::Intelligence => "智力"@,
        StatField::Faith => "信仰"@,
        StatField::Luck => "运气"@,
        StatField::Souls => "灵魂"@,
    }
}

/// The field shown at position `i`.
pub open spec fn field_at(i: int) -> StatField {
    if i == 0 {
        StatField::Level
    } else if i == 1 {
        StatField::Vigor
    } else if i == 2 {
        StatField::Attunement
    } else if i == 3 {
        StatField::Endurance
    } else if i == 4 {
        StatField::Vitality
    } else if i == 5 {
        StatField::Strength
    } else if i == 6 {
        StatField::Dexterity
    } else if i == 7 {
        StatField::Intelligence
    } else if i == 8 {
        StatField::Faith
    } else if i == 9 {
        StatField::Luck
    } else {
        StatField::Souls
    }
}

/// The value of a field in a snapshot.
pub open spec fn field_value(s: CharacterStats, f: StatField) -> i32 {
    match f {
        StatField::Level => s.level,
        StatField::Vigor => s.vigor,
        StatField::Attunement => s.attunement,
        StatField::Endurance => s.endurance,
        StatField::Vitality => s.vitality,
        StatField::Strength => s.strength,
        StatField::Dexterity => s.dexterity,
        StatField::Intelligence => s.intelligence,
        StatField::Faith => s.faith,
        StatField::Luck => s.luck,
        StatField::Souls => s.souls,
    }
}

/// A snapshot with one field replaced.
pub open spec fn with_field(s: CharacterStats, f: StatField, v: i32) -> CharacterStats {
    match f {
        StatField::Level => CharacterStats { level: v, ..s },
        StatField::Vigor => CharacterStats { vigor: v, ..s },
        StatField::Attunement => CharacterStats { attunement: v, ..s },
        StatField::Endurance => CharacterStats { endurance: v, ..s },
        StatField::Vitality => CharacterStats { vitality: v, ..s },
        StatField::Strength => CharacterStats { strength: v, ..s },
        StatField::Dexterity => CharacterStats { dexterity: v, ..s },
        StatField::Intelligence => CharacterStats { intelligence: v, ..s },
        StatField::Faith => CharacterStats { faith: v, ..s },
        StatField::Luck => CharacterStats { luck: v, ..s },
        StatField::Souls => CharacterStats { souls: v, ..s },
    }
}

/// `v` held to the range of field `f`.
pub open spec fn clamped(f: StatField, v: i32) -> i32 {
    if v < field_min(f) {
        field_min(f)
    } else if v > field_max(f) {
        field_max(f)
    } else {
        v
    }
}

/// One integer input of the editor.
#[derive(Clone, Copy, Debug, PartialEq, Eq)]
pub struct Datum {
    pub label: &'static str,
    pub field: StatField,
    pub value: i32,
    pub min: i32,
    pub max: i32,
}

impl StatField {
    /// The smallest value this field may take.
    pub fn min(&self) -> (v: i32)
        ensures
            v == field_min(*self),
    {
        match self {
            StatField::Souls => 0,
            _ => 1,
        }
    }

    /// The largest value this field may take.
    pub fn max(&self) -> (v: i32)
        ensures
            v == field_max(*self),
    {
        match self {
            StatField::Level => i32::MAX,
            StatField::Souls => i32::MAX,
            _ => 99,
        }
    }

    /// The label of this field.
    pub fn label(&self) -> (text: &'static str)
        ensures
            text@ == field_label(*self),
    {
        match self {
            StatField::Level => "等级",
            StatField::Vigor => "生命力",
            StatField::Attunement => "集中力",
            StatField::Endurance => "持久力",
            StatField::Vitality => "体力",
            StatField::Strength => "力气",
            StatField::Dexterity => "敏捷",
            StatField::Intelligence => "智力",
            StatField::Faith => "信仰",
            StatField::Luck => "运气",
            StatField::Souls => "灵魂",
        }
    }

    /// Holds a value to the range of this field.
    pub fn clamp(&self, v: i32) -> (held: i32)
        ensures
            held == clamped(*self, v),
            field_min(*self) <= held <= field_max(*self),
    {
        let lo = self.min();
        let hi = self.max();
        if v < lo {
            lo
        } else if v > hi {
            hi
        } else {
            v
        }
    }
}

impl CharacterStats {
    /// The value of a field.
    pub fn get(&self, f: StatField) -> (v: i32)
        ensures
            v == field_value(*self, f),
    {
        match f {
            StatField::Level => self.level,
            StatField::Vigor => self.vigor,
            StatField::Attunement => self.attunement,
            StatField::Endurance => self.endurance,
            StatField::Vitality => self.vitality,
            StatField::Strength => self.strength,
            StatField::Dexterity => self.dexterity,
            StatField::Intelligence => self.intelligence,
            StatField::Faith => self.faith,
            StatField::Luck => self.luck,
            StatField::Souls => self.souls,
        }
    }

    /// Replaces the value of a field.
    pub fn set(&mut self, f: StatField, v: i32)
        ensures
            *final(self) == with_field(*old(self), f, v),
    {
        match f {
            StatField::Level => self.level = v,
            StatField::Vigor => self.vigor = v,
            StatField::Attunement => self.attunement = v,
            StatField::Endurance => self.endurance = v,
            StatField::Vitality => self.vitality = v,
            StatField::Strength => self.strength = v,
            StatField::Dexterity => self.dexterity = v,
            StatField::Intelligence => self.intelligence = v,
            StatField::Faith => self.faith = v,
            StatField::Luck => self.luck = v,
            StatField::Souls => self.souls = v,
        }
    }
}

/// The fields in the order they are shown.
pub fn stat_fields() -> (fields: Vec<StatField>)
    ensures
        fields@.len() == 11,
        forall|i: int| 0 <= i < 11 ==> fields@[i] == field_at(i),
{
    let mut fields: Vec<StatField> = Vec::new();
    fields.push(StatField::Level);
    fields.push(StatField::Vigor);
    fields.push(StatField::Attunement);
    fields.push(StatField::Endurance);
    fields.push(StatField::Vitality);
    fields.push(StatField::Strength);
    fields.push(StatField::Dexterity);
    fields.push(StatField::Intelligence);
    fields.push(StatField::Faith);
    fields.push(StatField::Luck);
    fields.push(StatField::Souls);
    fields
}

/// The state of the editor: the snapshot being edited while the popup is
/// open, nothing otherwise.
#[derive(Clone, Copy, Debug, PartialEq, Eq, Structural)]
pub struct CharacterStatsEdit {
    pub stats: Option<CharacterStats>,
}

impl CharacterStatsEdit {
    /// An editor with its popup closed.
    pub fn new() -> (e: CharacterStatsEdit)
        ensures
            e.stats is None,
    {
        CharacterStatsEdit { stats: None }
    }

    /// The inputs to show: one per field, in order, each with its range;
    /// `None` while there is no snapshot.
    pub fn data(&self) -> (inputs: Option<Vec<Datum>>)
        ensures
            inputs is Some == self.stats is Some,
            inputs matches Some(list) ==> list@.len() == 11 && forall|i: int|
                0 <= i < 11 ==> {
                    let d = #[trigger] list@[i];
                    &&& d.field == field_at(i)
                    &&& d.label@ == field_label(field_at(i))
                    &&& d.min == field_min(field_at(i))
                    &&& d.max == field_max(field_at(i))
                    &&& d.value == field_value(self.stats->Some_0, field_at(i))
                },
    {
        match self.stats {
            None => None,
            Some(stats) => {
                let fields = stat_fields();
                let mut list: Vec<Datum> = Vec::new();
                let mut i: usize = 0;
                while i < 11
                    invariant
                        i <= 11,
                        fields@.len() == 11,
                        forall|k: int| 0 <= k < 11 ==> fields@[k] == field_at(k),
                        self.stats == Some(stats),
                        list@.len() == i,
                        forall|k: int|
                            0 <= k < i ==> {
                                let d = #[trigger] list@[k];
                                &&& d.field == field_at(k)
                                &&& d.label@ == field_label(field_at(k))
                                &&& d.min == field_min(field_at(k))
                                &&& d.max == field_max(field_at(k))
                                &&& d.value == field_value(stats, field_at(k))
                            },
                    decreases 11 - i,
                {
                    let f = fields[i];
                    list.push(
                        Datum {
                            label: f.label(),
                            field: f,
                            value: stats.get(f),
                            min: f.min(),
                            max: f.max(),
                        },
                    );
                    i = i + 1;
                }
                Some(list)
            },
        }
    }

    /// Takes the snapshot read from the host when the popup opens; a cell
    /// that could not be read leaves the editor without one.
    pub fn read(&mut self, snapshot: Option<CharacterStats>)
        ensures
            final(self).stats == snapshot,
    {
        self.stats = snapshot;
    }

    /// Edits one field, holding the value to the field's range. Without a
    /// snapshot nothing happens.
    pub fn edit(&mut self, f: StatField, v: i32)
        ensures
            final(self).stats == match old(self).stats {
                Some(s) => Some(with_field(s, f, clamped(f, v))),
                None => None,
            },
    {
        match self.stats {
            Some(mut s) => {
                s.set(f, f.clamp(v));
                self.stats = Some(s);
            },
            None => {},
        }
    }

    /// What "Apply" writes back to the host: the whole snapshot at once, or
    /// nothing while there is none.
    pub fn write(&self) -> (out: Option<CharacterStats>)
        ensures
            out == self.stats,
    {
        self.stats
    }

    /// Drops the snapshot when the popup closes.
    pub fn clear(&mut self)
        ensures
            final(self).stats is None,
    {
        self.stats = None;
    }
}

/// An edit leaves the edited field in its range and every other field as
/// it was.
pub proof fn lemma_edit_holds_range(s: CharacterStats, f: StatField, v: i32, other: StatField)
    ensures
        field_min(f) <= field_value(with_field(s, f, clamped(f, v)), f) <= field_max(f),
        other != f ==> field_value(with_field(s, f, clamped(f, v)), other) == field_value(s, other),
{
}

/// The size in bytes of the record of statistics in the host.
pub const STATS_BYTES: usize = 44;

/// The 32 bits of a signed number, in two's complement.
pub open spec fn bits_of(v: i32) -> u32 {
    if v >= 0 {
        v as u32
    } else {
        (v + 0x1_0000_0000) as u32
    }
}

/// The signed number that 32 bits stand for, in two's complement.
pub open spec fn signed_of(bits: u32) -> i32 {
    if bits < 0x8000_0000 {
        bits as i32
    } else {
        (bits - 0x1_0000_0000) as i32
    }
}

/// The record of a snapshot as it lies in the host: the eleven fields in
/// the order they are shown, four bytes each, least significant byte first.
#[verifier::opaque]
pub open spec fn stats_bytes(s: CharacterStats) -> Seq<u8> {
    Seq::new(44, |i: int| le32_bytes(bits_of(field_value(s, field_at(i / 4))))[i % 4])
}

/// The signed number in the `k`-th four bytes of a record.
#[verifier::opaque]
pub open spec fn word_of(bytes: Seq<u8>, k: int) -> i32 {
    signed_of(le32(bytes.subrange(4 * k, 4 * k + 4)) as u32)
}

/// The snapshot that a record of 44 bytes holds.
pub open spec fn stats_of_bytes(bytes: Seq<u8>) -> CharacterStats {
    CharacterStats {
        level: word_of(bytes, 0),
        vigor: word_of(bytes, 1),
        attunement: word_of(bytes, 2),
        endurance: word_of(bytes, 3),
        vitality: word_of(bytes, 4),
        strength: word_of(bytes, 5),
        dexterity: word_of(bytes, 6),
        intelligence: word_of(bytes, 7),
        faith: word_of(bytes, 8),
        luck: word_of(bytes, 9),
        souls: word_of(bytes, 10),
    }
}

/// What reading the record through a chain gives: the snapshot it holds,
/// or nothing where the record cannot be read.
pub open spec fn stats_read(cells: Map<u64, u8>, chain: ChainView) -> Option<CharacterStats> {
    match read_outcome(cells, chain, 44) {
        Some(bytes) => Some(stats_of_bytes(bytes)),
        None => None,
    }
}

fn word_at(bytes: &Vec<u8>, k: usize) -> (v: i32)
    requires
        k < 11,
        bytes@.len() == 44,
    ensures
        v == word_of(bytes@, k as int),
{
    reveal(word_of);
    let at = 4 * k;
    let b0 = bytes[at] as u32;
    let b1 = bytes[at + 1] as u32;
    let b2 = bytes[at + 2] as u32;
    let b3 = bytes[at + 3] as u32;
    let bits: u32 = b0 + 0x100 * b1 + 0x1_0000 * b2 + 0x100_0000 * b3;
    proof {
        let word = bytes@.subrange(4 * k, 4 * k + 4);
        assert(word[0] == bytes@[4 * k]);
        assert(word[1] == bytes@[4 * k + 1]);
        assert(word[2] == bytes@[4 * k + 2]);
        assert(word[3] == bytes@[4 * k + 3]);
    }
    if bits < 0x8000_0000 {
        bits as i32
    } else {
        (bits as i64 - 0x1_0000_0000) as i32
    }
}

fn decode_stats(bytes: &Vec<u8>) -> (s: CharacterStats)
    requires
        bytes@.len() == 44,
    ensures
        s == stats_of_bytes(bytes@),
{
    CharacterStats {
        level: word_at(bytes, 0),
        vigor: word_at(bytes, 1),
        attunement: word_at(bytes, 2),
        endurance: word_at(bytes, 3),
        vitality: word_at(bytes, 4),
        strength: word_at(bytes, 5),
        dexterity: word_at(bytes, 6),
        intelligence: word_at(bytes, 7),
        faith: word_at(bytes, 8),
        luck: word_at(bytes, 9),
        souls: word_at(bytes, 10),
    }
}

fn encode_stats(s: &CharacterStats) -> (bytes: Vec<u8>)
    ensures
        bytes@ == stats_bytes(*s),
{
    reveal(stats_bytes);
    let fields = stat_fields();
    let mut bytes: Vec<u8> = Vec::new();
    let mut k: usize = 0;
    while k < 11
        invariant
            k <= 11,
            fields@.len() == 11,
            forall|i: int| 0 <= i < 11 ==> fields@[i] == field_at(i),
            bytes@.len() == 4 * k,
            forall|i: int| 0 <= i < 4 * k ==> bytes@[i] == stats_bytes(*s)[i],
        decreases 11 - k,
    {
        reveal(stats_bytes);
        let v = s.get(fields[k]);
        let bits: u32 = if v >= 0 {
            v as u32
        } else {
            (v as i64 + 0x1_0000_0000) as u32
        };
        assert(bits == bits_of(field_value(*s, field_at(k as int))));
        bytes.push((bits % 0x100) as u8);
        bytes.push((bits / 0x100 % 0x100) as u8);
        bytes.push((bits / 0x1_0000 % 0x100) as u8);
        bytes.push((bits / 0x100_0000 % 0x100) as u8);
        k = k + 1;
    }
    assert(bytes@ =~= stats_bytes(*s));
    bytes
}

impl CharacterStatsEdit {
    /// Takes the snapshot from the host when the popup opens: the record
    /// that the chain leads to, or nothing where it cannot be read.
    pub fn read_from<M: HostMemory>(&mut self, chain: &PointerChain, mem: &M)
        ensures
            final(self).stats == stats_read(mem.cells(), chain@),
    {
        self.stats = match chain.read_bytes(mem, STATS_BYTES) {
            Some(bytes) => Some(decode_stats(&bytes)),
            None => None,
        };
    }

    /// "Apply": writes the whole snapshot back to the host in one copy.
    /// Without a snapshot, or where the chain does not lead to a mapped
    /// record, the host is left as it is.
    pub fn write_to<M: HostMemory>(&self, chain: &PointerChain, mem: &mut M)
        ensures
            final(mem).cells() == match self.stats {
                Some(s) => write_outcome(old(mem).cells(), chain@, stats_bytes(s)),
                None => old(mem).cells(),
            },
    {
        match self.stats {
            Some(s) => {
                let bytes = encode_stats(&s);
                chain.write_bytes(mem, bytes.as_slice());
            },
            None => {},
        }
    }
}

proof fn lemma_word_round_trip(s: CharacterStats, k: int)
    requires
        0 <= k < 11,
    ensures
        word_of(stats_bytes(s), k) == field_value(s, field_at(k)),
        stats_bytes(s).len() == 44,
{
    reveal(word_of);
    reveal(stats_bytes);
    let bits = bits_of(field_value(s, field_at(k)));
    let word = stats_bytes(s).subrange(4 * k, 4 * k + 4);
    assert(word =~= le32_bytes(bits)) by {
        assert forall|j: int| 0 <= j < 4 implies word[j] == le32_bytes(bits)[j] by {
            assert((4 * k + j) / 4 == k);
            assert((4 * k + j) % 4 == j);
        }
    }
    lemma_le32_round_trip(bits);
}

/// Decoding the record of a snapshot gives the snapshot back.
pub proof fn lemma_stats_round_trip(s: CharacterStats)
    ensures
        stats_bytes(s).len() == 44,
        stats_of_bytes(stats_bytes(s)) == s,
{
    let b = stats_bytes(s);
    assert(b.len() == 44) by {
        lemma_word_round_trip(s, 0);
    }
    assert(word_of(b, 0) == s.level) by {
        lemma_word_round_trip(s, 0);
    }
    assert(word_of(b, 1) == s.vigor) by {
        lemma_word_round_trip(s, 1);
    }
    assert(word_of(b, 2) == s.attunement) by {
        lemma_word_round_trip(s, 2);
    }
    assert(word_of(b, 3) == s.endurance) by {
        lemma_word_round_trip(s, 3);
    }
    assert(word_of(b, 4) == s.vitality) by {
        lemma_word_round_trip(s, 4);
    }
    assert(word_of(b, 5) == s.strength) by {
        lemma_word_round_trip(s, 5);
    }
    assert(word_of(b, 6) == s.dexterity) by {
        lemma_word_round_trip(s, 6);
    }
    assert(word_of(b, 7) == s.intelligence) by {
        lemma_word_round_trip(s, 7);
    }
    assert(word_of(b, 8) == s.faith) by {
        lemma_word_round_trip(s, 8);
    }
    assert(word_of(b, 9) == s.luck) by {
        lemma_word_round_trip(s, 9);
    }
    assert(word_of(b, 10) == s.souls) by {
        lemma_word_round_trip(s, 10);
    }
}

/// A snapshot written back is the snapshot read again, provided the chain
/// resolves to a mapped record and the write has not redirected the chain
/// itself.
pub proof fn lemma_stats_read_after_write(cells: Map<u64, u8>, chain: ChainView, s: CharacterStats)
    requires
        resolved(cells, chain) matches Some(a) && mapped(cells, a as int, 44),
        resolved(write_outcome(cells, chain, stats_bytes(s)), chain) == resolved(cells, chain),
    ensures
        stats_read(write_outcome(cells, chain, stats_bytes(s)), chain) == Some(s),
{
    lemma_stats_round_trip(s);
    lemma_read_after_write(cells, chain, stats_bytes(s));
}

} // verus!
