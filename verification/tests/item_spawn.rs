use practice_tool::bitflag::Bitflag;
use practice_tool::hotkey::{Hotkey, Modifier};
use practice_tool::item_spawn::{
    infusion_label, upgrade_label, ItemSpawnInstance, ItemSpawner, SpawnRequest, DEFAULT_ITEM_ID,
    INFUSION_COUNT, UPGRADE_COUNT,
};
use practice_tool::item_tree::ItemIDNode;
use practice_tool::memory::MemoryImage;
use practice_tool::pointer_chain::PointerChain;

fn catalogue() -> Vec<ItemIDNode> {
    vec![ItemIDNode::Node {
        node: "Weapons".to_string(),
        children: vec![
            ItemIDNode::Leaf { id: 0x40000B67, desc: "Longsword".to_string() },
            ItemIDNode::Leaf { id: 0x40000BCB, desc: "Broadsword".to_string() },
        ],
    }]
}

fn spawner(sentinel_at: u64) -> ItemSpawner {
    ItemSpawner::new(
        0x1111,
        0x2222,
        Bitflag::new(PointerChain::new(sentinel_at, vec![]), 1),
        Hotkey { key: 0x49, modifier: None },
        Hotkey { key: 0x30, modifier: Some(Modifier::Ctrl) },
        &catalogue(),
    )
}

fn in_game() -> MemoryImage {
    MemoryImage::new(0x100, vec![0u8; 8])
}

#[test]
fn a_new_spawner_has_the_defaults() {
    let s = spawner(0x100);
    assert_eq!(DEFAULT_ITEM_ID, 0x40000000 + 2919);
    assert_eq!((s.qty, s.durability, s.item_id, s.upgrade, s.infusion_type), (1, 100, DEFAULT_ITEM_ID, 0, 0));
    assert_eq!(s.label_load, "生成物品 (I)");
    assert_eq!(s.label_close, "关闭 (Ctrl+0)");
    assert_eq!(s.filter_string, "");
    assert!(s.log.is_none());
    assert_eq!(s.item_id_tree.len(), 1);
}

#[test]
fn spawning_outside_a_game_only_logs() {
    let mut s = spawner(0x9999);
    assert_eq!(s.spawn(&in_game()), None);
    assert_eq!(s.log(), Some(vec!["不在游戏中无法生成物品".to_string()]));
    assert_eq!(s.log(), None);
}

#[test]
fn spawning_in_a_game_hands_out_the_request() {
    let mut s = spawner(0x100);
    s.set_quantity(5);
    s.set_durability(70);
    s.set_upgrade(10);
    s.set_infusion(15);
    s.select(0x40000BCB);
    let made = s.spawn(&in_game()).unwrap();
    assert_eq!(
        made,
        ItemSpawnInstance {
            spawn_item_func_ptr: 0x1111,
            map_item_man: 0x2222,
            qty: 5,
            durability: 70,
            item_id: 0x40000BCB,
            infusion: 1500,
            upgrade: 10,
        }
    );
    assert_eq!(
        made.request(),
        SpawnRequest { unknown: 1, item_id: 0x40000BCB + 1500 + 10, qty: 5, durability: 70 }
    );
    assert_eq!(made.describe(), "40000bcb (数量=5, 耐久度=70, 质变=1500, 升级=10)");
    assert_eq!(s.log(), Some(vec![format!("生成 5 #{} +10 游魂", 0x40000BCBu32)]));
}

#[test]
fn request_id_wraps_in_32_bits() {
    let i = ItemSpawnInstance {
        spawn_item_func_ptr: 0,
        map_item_man: 0,
        qty: 1,
        durability: 0,
        item_id: u32::MAX,
        infusion: 100,
        upgrade: 1,
    };
    assert_eq!(i.request().item_id, 100);
    assert_eq!(i.describe(), "ffffffff (数量=1, 耐久度=0, 质变=100, 升级=1)");
}

#[test]
fn logs_accumulate_until_taken() {
    let mut s = spawner(0x100);
    s.write_log("a".to_string());
    s.write_log("b".to_string());
    assert_eq!(s.log(), Some(vec!["a".to_string(), "b".to_string()]));
    assert_eq!(s.log(), None);
}

#[test]
fn interact_spawns_only_on_the_hotkey_and_outside_input_fields() {
    let mem = in_game();
    let mut s = spawner(0x100);
    assert_eq!(s.interact(true, true, &mem), None);
    assert_eq!(s.interact(false, false, &mem), None);
    assert!(s.log.is_none());
    assert!(s.interact(false, true, &mem).is_some());
    assert_eq!(s.log().unwrap().len(), 1);
}

#[test]
fn sliders_and_combos_hold_their_ranges() {
    let mut s = spawner(0x100);
    s.set_quantity(0);
    assert_eq!(s.qty, 1);
    s.set_quantity(100);
    assert_eq!(s.qty, 99);
    s.set_quantity(42);
    assert_eq!(s.qty, 42);
    s.set_durability(10_000);
    assert_eq!(s.durability, 9999);
    s.set_durability(0);
    assert_eq!(s.durability, 0);
    s.set_upgrade(UPGRADE_COUNT);
    assert_eq!(s.upgrade, 0);
    s.set_upgrade(UPGRADE_COUNT - 1);
    assert_eq!(s.upgrade, 10);
    s.set_infusion(INFUSION_COUNT);
    assert_eq!(s.infusion_type, 0);
    s.set_infusion(3);
    assert_eq!(s.infusion_type, 3);
}

#[test]
fn filter_and_reset() {
    let tree = catalogue();
    let mut s = spawner(0x100);
    s.set_filter(&tree, "bro");
    assert_eq!(s.filter_string, "bro");
    match &s.item_id_tree[0] {
        practice_tool::item_tree::ItemIDNodeRef::Node { children, .. } => assert_eq!(children.len(), 1),
        other => panic!("unexpected {:?}", other),
    }
    s.set_filter(&tree, "zzz");
    assert!(s.item_id_tree.is_empty());
    s.set_quantity(7);
    s.select(5);
    s.set_upgrade(2);
    s.set_infusion(2);
    s.set_durability(3);
    s.reset(&tree);
    assert_eq!((s.qty, s.durability, s.item_id, s.upgrade, s.infusion_type), (1, 100, DEFAULT_ITEM_ID, 0, 0));
    assert_eq!(s.filter_string, "");
    assert_eq!(s.item_id_tree.len(), 1);
}

#[test]
fn combo_labels() {
    let infusions: Vec<&str> = (0..INFUSION_COUNT).map(infusion_label).collect();
    assert_eq!(
        infusions,
        vec![
            "普通", "厚重", "锋利", "熟练", "愚人", "结晶", "火焰", "混沌", "雷", "幽邃", "暗", "毒", "血",
            "粗制", "祝福", "游魂"
        ]
    );
    let upgrades: Vec<String> = (0..UPGRADE_COUNT).map(upgrade_label).collect();
    assert_eq!(upgrades, vec!["+0", "+1", "+2", "+3", "+4", "+5", "+6", "+7", "+8", "+9", "+10"]);
}
