use practice_tool::memory::MemoryImage;
use practice_tool::pointer_chain::PointerChain;
use practice_tool::stats::{stat_fields, CharacterStats, CharacterStatsEdit, StatField, STATS_BYTES};

fn sample() -> CharacterStats {
    CharacterStats {
        level: 10,
        vigor: 11,
        attunement: 12,
        endurance: 13,
        vitality: 14,
        strength: 15,
        dexterity: 16,
        intelligence: 17,
        faith: 18,
        luck: 19,
        souls: 20,
    }
}

#[test]
fn inputs_come_in_order_with_their_ranges() {
    let mut editor = CharacterStatsEdit::new();
    assert_eq!(editor.data(), None);
    editor.read(Some(sample()));
    let inputs = editor.data().unwrap();
    let rows: Vec<(&str, i32, i32, i32)> = inputs.iter().map(|d| (d.label, d.value, d.min, d.max)).collect();
    assert_eq!(
        rows,
        vec![
            ("等级", 10, 1, i32::MAX),
            ("生命力", 11, 1, 99),
            ("集中力", 12, 1, 99),
            ("持久力", 13, 1, 99),
            ("体力", 14, 1, 99),
            ("力气", 15, 1, 99),
            ("敏捷", 16, 1, 99),
            ("智力", 17, 1, 99),
            ("信仰", 18, 1, 99),
            ("运气", 19, 1, 99),
            ("灵魂", 20, 0, i32::MAX),
        ]
    );
    let fields: Vec<StatField> = inputs.iter().map(|d| d.field).collect();
    assert_eq!(fields, stat_fields());
}

#[test]
fn edits_are_held_to_the_range() {
    let mut editor = CharacterStatsEdit::new();
    editor.edit(StatField::Vigor, 50);
    assert_eq!(editor.write(), None);
    editor.read(Some(sample()));
    editor.edit(StatField::Vigor, 100);
    editor.edit(StatField::Luck, 0);
    editor.edit(StatField::Faith, 45);
    editor.edit(StatField::Level, 0);
    editor.edit(StatField::Souls, -5);
    let out = editor.write().unwrap();
    assert_eq!((out.vigor, out.luck, out.faith, out.level, out.souls), (99, 1, 45, 1, 0));
    assert_eq!(out.strength, 15);
    editor.edit(StatField::Level, i32::MAX);
    editor.edit(StatField::Souls, i32::MAX);
    let out = editor.write().unwrap();
    assert_eq!((out.level, out.souls), (i32::MAX, i32::MAX));
    assert_eq!(StatField::Strength.clamp(-3), 1);
    assert_eq!(StatField::Strength.clamp(99), 99);
}

#[test]
fn snapshot_is_dropped_on_close_and_missing_when_unreadable() {
    let mut editor = CharacterStatsEdit::new();
    editor.read(Some(sample()));
    assert_eq!(editor.write(), Some(sample()));
    editor.clear();
    assert_eq!(editor.write(), None);
    editor.read(None);
    assert_eq!(editor.data(), None);
    let mut stats = sample();
    stats.set(StatField::Dexterity, 7);
    assert_eq!(stats.get(StatField::Dexterity), 7);
    assert_eq!(stats.get(StatField::Intelligence), 17);
}

#[test]
fn the_snapshot_is_read_from_and_written_back_to_the_host() {
    assert_eq!(STATS_BYTES, 44);
    let mut data = vec![0xEEu8; 0x40];
    for (i, value) in [10i32, 11, 12, 13, 14, 15, 16, 17, 18, 19, 20].iter().enumerate() {
        data[4 + 4 * i..8 + 4 * i].copy_from_slice(&value.to_le_bytes());
    }
    let mut mem = MemoryImage::new(0x1000, data);
    let chain = PointerChain::new(0x1000, vec![4]);
    let mut editor = CharacterStatsEdit::new();
    editor.read_from(&chain, &mem);
    assert_eq!(editor.write(), Some(sample()));

    editor.edit(StatField::Level, 300);
    editor.edit(StatField::Souls, 1_000_000);
    editor.edit(StatField::Luck, 99);
    let before = mem.data.clone();
    editor.write_to(&chain, &mut mem);
    assert_eq!(mem.data[..4], before[..4]);
    assert_eq!(mem.data[48..], before[48..]);
    assert_eq!(mem.data[4..8], 300i32.to_le_bytes());
    assert_eq!(mem.data[8..40], before[8..40]);
    assert_eq!(mem.data[40..44], 99i32.to_le_bytes());
    assert_eq!(mem.data[44..48], 1_000_000i32.to_le_bytes());

    let mut again = CharacterStatsEdit::new();
    again.read_from(&chain, &mem);
    assert_eq!(again.write(), editor.write());
}

#[test]
fn negative_and_extreme_numbers_survive_the_record() {
    let extreme = CharacterStats {
        level: i32::MAX,
        vigor: i32::MIN,
        attunement: -1,
        endurance: 0,
        vitality: 1,
        strength: -2,
        dexterity: 0x0102_0304,
        intelligence: -0x0102_0304,
        faith: 255,
        luck: 256,
        souls: -256,
    };
    let mut mem = MemoryImage::new(0, vec![0u8; 44]);
    let chain = PointerChain::new(0, vec![]);
    let mut editor = CharacterStatsEdit::new();
    editor.read(Some(extreme));
    editor.write_to(&chain, &mut mem);
    assert_eq!(mem.data[4..8], i32::MIN.to_le_bytes());
    assert_eq!(mem.data[8..12], (-1i32).to_le_bytes());
    let mut again = CharacterStatsEdit::new();
    again.read_from(&chain, &mem);
    assert_eq!(again.write(), Some(extreme));
}

#[test]
fn an_unreadable_record_gives_no_snapshot_and_takes_no_write() {
    let mut mem = MemoryImage::new(0x1000, vec![7u8; 43]);
    let chain = PointerChain::new(0x1000, vec![]);
    let mut editor = CharacterStatsEdit::new();
    editor.read(Some(sample()));
    editor.read_from(&chain, &mem);
    assert_eq!(editor.write(), None);
    editor.write_to(&chain, &mut mem);
    editor.read(Some(sample()));
    editor.write_to(&chain, &mut mem);
    assert_eq!(mem.data, vec![7u8; 43]);
    let dangling = PointerChain::new(0x1000, vec![0, 0]);
    editor.write_to(&dangling, &mut mem);
    assert_eq!(mem.data, vec![7u8; 43]);
}
