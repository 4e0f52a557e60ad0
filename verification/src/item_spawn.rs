//! The item spawner: its editing state, the request it builds, and the
//! messages it leaves for the frame log. The call into the host is made by
//! the embedding program from the request handed out here.

use vstd::prelude::*;
use vstd::string::*;
use crate::bitflag::{flag_state, Bitflag};
use crate::hotkey::{hotkey_text, Hotkey};
use crate::item_tree::{
    filter_list_outcome, filter_tree, item_views, shown_views, whole_tree, ItemIDNode,
    ItemIDNodeRef,
};
use crate::memory::HostMemory;
use crate::text::{decimal, hex_digit_char, push_decimal, string_push};

verus! {

/// The item selected at first and after a reset.
pub const DEFAULT_ITEM_ID: u32 = 0x4000_0B67;

/// How many infusion types there are.
pub const INFUSION_COUNT: usize = 16;

/// How many upgrade levels there are.
pub const UPGRADE_COUNT: usize = 11;

/// What infusion `index` adds to an item id.
pub open spec fn infusion_value(index: int) -> int {
    100 * index
}

/// The name of infusion `index`.
pub open spec fn infusion_name(index: int) -> Seq<char> {
    if index == 0 {
        "普通"@
    } else if index == 1 {
        "厚重"@
    } else if index == 2 {
        "锋利"@
    } else if index == 3 {
        "熟练"@
    } else if index == 4 {
        "愚人"@
    } else if index == 5 {
        "结晶"@
    } else if index == 6 {
        "火焰"@
    } else if index == 7 {
        "混沌"@
    } else if index == 8 {
        "雷"@
    } else if index == 9 {
        "幽邃"@
    } else if index == 10 {
        "暗"@
    } else if index == 11 {
        "毒"@
    } else if index == 12 {
        "血"@
    } else if index == 13 {
        "粗制"@
    } else if index == 14 {
        "祝福"@
    } else {
        "游魂"@
    }
}

/// The name of upgrade level `index`: a plus sign and the level.
pub open spec fn upgrade_name(index: int) -> Seq<char> {
    seq!['+'] + decimal(index as nat)
}

/// The name of infusion `index`, as the combo box shows it.
pub fn infusion_label(index: usize) -> (name: &'static str)
    requires
        index < INFUSION_COUNT,
    ensures
        name@ == infusion_name(index as int),
{
    if index == 0 {
        "普通"
    } else if index == 1 {
        "厚重"
    } else if index == 2 {
        "锋利"
    } else if index == 3 {
        "熟练"
    } else if index == 4 {
        "愚人"
    } else if index == 5 {
        "结晶"
    } else if index == 6 {
        "火焰"
    } else if index == 7 {
        "混沌"
    } else if index == 8 {
        "雷"
    } else if index == 9 {
        "幽邃"
    } else if index == 10 {
        "暗"
    } else if index == 11 {
        "毒"
    } else if index == 12 {
        "血"
    } else if index == 13 {
        "粗制"
    } else if index == 14 {
        "祝福"
    } else {
        "游魂"
    }
}

/// The name of upgrade level `index`, as the combo box shows it.
pub fn upgrade_label(index: usize) -> (name: String)
    requires
        index < UPGRADE_COUNT,
    ensures
        name@ == upgrade_name(index as int),
{
    let mut name = String::new();
    string_push(&mut name, '+');
    push_decimal(&mut name, index as u64);
    assert(name@ =~= upgrade_name(index as int));
    name
}

/// The record handed to the host's spawn routine.
#[derive(Clone, Copy, Debug, PartialEq, Eq, Structural)]
pub struct SpawnRequest {
    pub unknown: u32,
    pub item_id: u32,
    pub qty: u32,
    pub durability: u32,
}

/// One spawn, fully described: where the host's routine and its manager
/// pointer live, and what to spawn.
#[derive(Clone, Copy, Debug, PartialEq, Eq, Structural)]
pub struct ItemSpawnInstance {
    pub spawn_item_func_ptr: u64,
    pub map_item_man: u64,
    pub qty: u32,
    pub durability: u32,
    pub item_id: u32,
    pub infusion: u32,
    pub upgrade: u32,
}

/// The id the host is asked for: base id, infusion and upgrade added up
/// in 32-bit arithmetic.
pub open spec fn final_item_id(base: u32, infusion: u32, upgrade: u32) -> u32 {
    ((base + infusion + upgrade) % 0x1_0000_0000) as u32
}

/// `v` as eight lower-case hexadecimal digits.
pub open spec fn hex8(v: u32) -> Seq<char> {
    Seq::new(8, |i: int| hex_digit_char((v as int / hex_weight(7 - i)) % 16))
}

/// 16 to the power `k`, for the eight digit positions.
pub open spec fn hex_weight(k: int) -> int {
    if k <= 0 {
        1
    } else if k == 1 {
        0x10
    } else if k == 2 {
        0x100
    } else if k == 3 {
        0x1000
    } else if k == 4 {
        0x1_0000
    } else if k == 5 {
        0x10_0000
    } else if k == 6 {
        0x100_0000
    } else {
        0x1000_0000
    }
}

/// The one-line description of a spawn.
pub open spec fn instance_text(i: ItemSpawnInstance) -> Seq<char> {
    hex8(i.item_id) + " (数量="@ + decimal(i.qty as nat) + ", 耐久度="@ + decimal(
        i.durability as nat,
    ) + ", 质变="@ + decimal(i.infusion as nat) + ", 升级="@ + decimal(i.upgrade as nat) + ")"@
}

fn push_hex8(out: &mut String, v: u32)
    ensures
        final(out)@ == old(out)@ + hex8(v),
{
    let weights: [u32; 8] = [
        0x1000_0000,
        0x100_0000,
        0x10_0000,
        0x1_0000,
        0x1000,
        0x100,
        0x10,
        1,
    ];
    let mut i: usize = 0;
    while i < 8
        invariant
            i <= 8,
            weights@ == seq![
                0x1000_0000u32,
                0x100_0000u32,
                0x10_0000u32,
                0x1_0000u32,
                0x1000u32,
                0x100u32,
                0x10u32,
                1u32,
            ],
            out@ == old(out)@ + hex8(v).subrange(0, i as int),
        decreases 8 - i,
    {
        let d = (v / weights[i]) % 16;
        assert(weights@[i as int] == hex_weight(7 - i));
        let c: u8 = if d < 10 {
            48 + (d as u8)
        } else {
            87 + (d as u8)
        };
        string_push(out, c as char);
        i = i + 1;
        assert(out@ =~= old(out)@ + hex8(v).subrange(0, i as int));
    }
    assert(hex8(v).subrange(0, 8) =~= hex8(v));
}

impl ItemSpawnInstance {
    /// The record for the host: the marker 1, the final item id, quantity
    /// and durability.
    pub fn request(&self) -> (r: SpawnRequest)
        ensures
            r == (SpawnRequest {
                unknown: 1,
                item_id: final_item_id(self.item_id, self.infusion, self.upgrade),
                qty: self.qty,
                durability: self.durability,
            }),
    {
        let sum = self.item_id as u64 + self.infusion as u64 + self.upgrade as u64;
        SpawnRequest {
            unknown: 1,
            item_id: (sum % 0x1_0000_0000) as u32,
            qty: self.qty,
            durability: self.durability,
        }
    }

    /// The one-line description of this spawn.
    pub fn describe(&self) -> (text: String)
        ensures
            text@ == instance_text(*self),
    {
        let mut text = String::new();
        push_hex8(&mut text, self.item_id);
        text.append(" (数量=");
        push_decimal(&mut text, self.qty as u64);
        text.append(", 耐久度=");
        push_decimal(&mut text, self.durability as u64);
        text.append(", 质变=");
        push_decimal(&mut text, self.infusion as u64);
        text.append(", 升级=");
        push_decimal(&mut text, self.upgrade as u64);
        text.append(")");
        assert(text@ =~= instance_text(*self));
        text
    }
}

/// The characters of each string of a list.
pub open spec fn texts(list: Seq<String>) -> Seq<Seq<char>> {
    Seq::new(list.len(), |i: int| list[i]@)
}

/// The messages waiting in a log slot.
pub open spec fn pending(log: Option<Vec<String>>) -> Seq<Seq<char>> {
    match log {
        Some(list) => texts(list@),
        None => Seq::empty(),
    }
}

/// The message left when a spawn is asked for outside a live game.
pub open spec fn not_in_game_text() -> Seq<char> {
    "不在游戏中无法生成物品"@
}

/// The message left when a spawn is made.
pub open spec fn spawned_text(qty: u32, item_id: u32, upgrade: int, infusion: int) -> Seq<char> {
    "生成 "@ + decimal(qty as nat) + " #"@ + decimal(item_id as nat) + " "@ + upgrade_name(upgrade)
        + " "@ + infusion_name(infusion)
}

/// The label of the button that opens the spawner.
pub open spec fn load_label(hotkey: Hotkey) -> Seq<char> {
    "生成物品 ("@ + hotkey_text(hotkey) + ")"@
}

/// The label of the button that closes the spawner.
pub open spec fn close_label(hotkey: Hotkey) -> Seq<char> {
    "关闭 ("@ + hotkey_text(hotkey) + ")"@
}

/// The item spawner widget.
#[derive(Debug)]
pub struct ItemSpawner {
    pub func_ptr: u64,
    pub map_item_man: u64,
    pub hotkey_load: Hotkey,
    pub hotkey_close: Hotkey,
    pub sentinel: Bitflag,
    pub label_load: String,
    pub label_close: String,
    pub qty: u32,
    pub item_id: u32,
    pub durability: u32,
    pub upgrade: usize,
    pub infusion_type: usize,
    pub filter_string: String,
    pub log: Option<Vec<String>>,
    pub item_id_tree: Vec<ItemIDNodeRef>,
}

impl ItemSpawner {
    /// The two combo boxes point into their tables.
    pub open spec fn wf(&self) -> bool {
        self.upgrade < UPGRADE_COUNT && self.infusion_type < INFUSION_COUNT
    }

    /// Whether the editing fields hold their initial values.
    pub open spec fn at_defaults(&self) -> bool {
        &&& self.qty == 1
        &&& self.durability == 100
        &&& self.item_id == DEFAULT_ITEM_ID
        &&& self.upgrade == 0
        &&& self.infusion_type == 0
        &&& self.filter_string@.len() == 0
    }

    /// A spawner over `catalogue`, with nothing filtered and the default
    /// item selected.
    pub fn new(
        func_ptr: u64,
        map_item_man: u64,
        sentinel: Bitflag,
        hotkey_load: Hotkey,
        hotkey_close: Hotkey,
        catalogue: &Vec<ItemIDNode>,
    ) -> (s: ItemSpawner)
        ensures
            s.wf(),
            s.at_defaults(),
            s.func_ptr == func_ptr,
            s.map_item_man == map_item_man,
            s.sentinel@ == sentinel@,
            s.hotkey_load == hotkey_load,
            s.hotkey_close == hotkey_close,
            s.label_load@ == load_label(hotkey_load),
            s.label_close@ == close_label(hotkey_close),
            s.log is None,
            shown_views(s.item_id_tree@) == item_views(catalogue@),
    {
        let mut label_load = String::new();
        label_load.append("生成物品 (");
        label_load.append(hotkey_load.label().as_str());
        label_load.append(")");
        assert(label_load@ =~= load_label(hotkey_load));
        let mut label_close = String::new();
        label_close.append("关闭 (");
        label_close.append(hotkey_close.label().as_str());
        label_close.append(")");
        assert(label_close@ =~= close_label(hotkey_close));
        ItemSpawner {
            func_ptr,
            map_item_man,
            hotkey_load,
            hotkey_close,
            sentinel,
            label_load,
            label_close,
            qty: 1,
            durability: 100,
            item_id: DEFAULT_ITEM_ID,
            upgrade: 0,
            infusion_type: 0,
            filter_string: String::new(),
            log: None,
            item_id_tree: whole_tree(catalogue),
        }
    }

    /// Appends a message for the frame log.
    pub fn write_log(&mut self, log: String)
        ensures
            final(self).log is Some,
            pending(final(self).log) == pending(old(self).log).push(log@),
            final(self).same_but_log(*old(self)),
    {
        let logs = self.log.take();
        self.log = match logs {
            Some(mut v) => {
                v.push(log);
                Some(v)
            },
            None => {
                let mut v: Vec<String> = Vec::new();
                v.push(log);
                Some(v)
            },
        };
        assert(pending(self.log) =~= pending(old(self).log).push(log@));
    }

    /// Whether everything but the log slot is as in `other`.
    pub open spec fn same_but_log(&self, other: ItemSpawner) -> bool {
        &&& self.func_ptr == other.func_ptr
        &&& self.map_item_man == other.map_item_man
        &&& self.hotkey_load == other.hotkey_load
        &&& self.hotkey_close == other.hotkey_close
        &&& self.sentinel == other.sentinel
        &&& self.label_load == other.label_load
        &&& self.label_close == other.label_close
        &&& self.qty == other.qty
        &&& self.item_id == other.item_id
        &&& self.durability == other.durability
        &&& self.upgrade == other.upgrade
        &&& self.infusion_type == other.infusion_type
        &&& self.filter_string == other.filter_string
        &&& self.item_id_tree == other.item_id_tree
    }

    /// Whether what binds the widget to the host and to its hotkeys, and
    /// the waiting messages, are as in `other`.
    pub open spec fn same_binding(&self, other: ItemSpawner) -> bool {
        &&& self.func_ptr == other.func_ptr
        &&& self.map_item_man == other.map_item_man
        &&& self.hotkey_load == other.hotkey_load
        &&& self.hotkey_close == other.hotkey_close
        &&& self.sentinel == other.sentinel
        &&& self.label_load == other.label_load
        &&& self.label_close == other.label_close
        &&& self.log == other.log
    }

    /// The spawn that the current fields ask for.
    pub open spec fn instance(&self) -> ItemSpawnInstance {
        ItemSpawnInstance {
            spawn_item_func_ptr: self.func_ptr,
            map_item_man: self.map_item_man,
            qty: self.qty,
            durability: self.durability,
            upgrade: self.upgrade as u32,
            infusion: infusion_value(self.infusion_type as int) as u32,
            item_id: self.item_id,
        }
    }

    /// Asks for a spawn. Outside a live game, which shows in the sentinel
    /// flag being unreadable, nothing is spawned and a message says so. In a
    /// game the spawn is handed out for the caller to perform, and a message
    /// records it.
    pub fn spawn<M: HostMemory>(&mut self, mem: &M) -> (made: Option<ItemSpawnInstance>)
        requires
            old(self).wf(),
        ensures
            final(self).same_but_log(*old(self)),
            match flag_state(mem.cells(), old(self).sentinel@) {
                None => made is None && pending(final(self).log) == pending(old(self).log).push(
                    not_in_game_text(),
                ),
                Some(_) => made == Some(old(self).instance()) && pending(final(self).log)
                    == pending(old(self).log).push(
                    spawned_text(
                        old(self).qty,
                        old(self).item_id,
                        old(self).upgrade as int,
                        old(self).infusion_type as int,
                    ),
                ),
            },
    {
        if self.sentinel.get(mem).is_none() {
            self.write_log(String::from_str("不在游戏中无法生成物品"));
            return None;
        }
        let upgrade = self.upgrade as u32;
        let infusion = 100 * (self.infusion_type as u32);
        let made = ItemSpawnInstance {
            spawn_item_func_ptr: self.func_ptr,
            map_item_man: self.map_item_man,
            qty: self.qty,
            durability: self.durability,
            upgrade,
            infusion,
            item_id: self.item_id,
        };
        let mut message = String::new();
        message.append("生成 ");
        push_decimal(&mut message, self.qty as u64);
        message.append(" #");
        push_decimal(&mut message, self.item_id as u64);
        message.append(" ");
        message.append(upgrade_label(self.upgrade).as_str());
        message.append(" ");
        message.append(infusion_label(self.infusion_type));
        assert(message@ =~= spawned_text(
            self.qty,
            self.item_id,
            self.upgrade as int,
            self.infusion_type as int,
        ));
        self.write_log(message);
        Some(made)
    }

    /// Hands the waiting messages over and empties the slot.
    pub fn log(&mut self) -> (taken: Option<Vec<String>>)
        ensures
            taken == old(self).log,
            final(self).log is None,
            final(self).same_but_log(*old(self)),
    {
        self.log.take()
    }

    /// The per-frame hotkey handling: the load hotkey spawns, unless some
    /// input field of the interface is being edited.
    pub fn interact<M: HostMemory>(&mut self, any_item_active: bool, load_fired: bool, mem: &M) -> (made:
        Option<ItemSpawnInstance>)
        requires
            old(self).wf(),
        ensures
            final(self).same_but_log(*old(self)),
            any_item_active || !load_fired ==> made is None && final(self).log == old(self).log,
            !any_item_active && load_fired ==> (match flag_state(mem.cells(), old(self).sentinel@) {
                None => made is None && pending(final(self).log) == pending(old(self).log).push(
                    not_in_game_text(),
                ),
                Some(_) => made == Some(old(self).instance()) && pending(final(self).log)
                    == pending(old(self).log).push(
                    spawned_text(
                        old(self).qty,
                        old(self).item_id,
                        old(self).upgrade as int,
                        old(self).infusion_type as int,
                    ),
                ),
            }),
    {
        if any_item_active {
            return None;
        }
        if load_fired {
            self.spawn(mem)
        } else {
            None
        }
    }

    /// Takes a new filter text and prunes the shown tree with it.
    pub fn set_filter(&mut self, catalogue: &Vec<ItemIDNode>, filter: &str)
        ensures
            final(self).filter_string@ == filter@,
            shown_views(final(self).item_id_tree@) == filter_list_outcome(
                item_views(catalogue@),
                filter@,
            ),
            final(self).same_binding(*old(self)),
            final(self).qty == old(self).qty,
            final(self).item_id == old(self).item_id,
            final(self).durability == old(self).durability,
            final(self).upgrade == old(self).upgrade,
            final(self).infusion_type == old(self).infusion_type,
    {
        self.filter_string = String::from_str(filter);
        self.item_id_tree = filter_tree(catalogue, filter);
    }

    /// Puts every editing field back to its initial value and shows the
    /// whole catalogue again.
    pub fn reset(&mut self, catalogue: &Vec<ItemIDNode>)
        ensures
            final(self).wf(),
            final(self).at_defaults(),
            shown_views(final(self).item_id_tree@) == item_views(catalogue@),
            final(self).same_binding(*old(self)),
    {
        self.filter_string = String::new();
        self.qty = 1;
        self.durability = 100;
        self.item_id = DEFAULT_ITEM_ID;
        self.upgrade = 0;
        self.infusion_type = 0;
        self.item_id_tree = whole_tree(catalogue);
    }

    /// Selects an item, as a click on its leaf does.
    pub fn select(&mut self, item_id: u32)
        ensures
            *final(self) == (ItemSpawner { item_id, ..*old(self) }),
    {
        self.item_id = item_id;
    }

    /// Sets the quantity, held to the slider's range of 1 to 99.
    pub fn set_quantity(&mut self, qty: u32)
        ensures
            *final(self) == (ItemSpawner {
                qty: if qty < 1 {
                    1u32
                } else if qty > 99 {
                    99u32
                } else {
                    qty
                },
                ..*old(self)
            }),
    {
        self.qty = if qty < 1 {
            1
        } else if qty > 99 {
            99
        } else {
            qty
        };
    }

    /// Sets the durability, held to the slider's range of 0 to 9999.
    pub fn set_durability(&mut self, durability: u32)
        ensures
            *final(self) == (ItemSpawner {
                durability: if durability > 9999 {
                    9999u32
                } else {
                    durability
                },
                ..*old(self)
            }),
    {
        self.durability = if durability > 9999 {
            9999
        } else {
            durability
        };
    }

    /// Picks an upgrade level; an index outside the table is ignored.
    pub fn set_upgrade(&mut self, index: usize)
        ensures
            *final(self) == (ItemSpawner {
                upgrade: if index < UPGRADE_COUNT {
                    index
                } else {
                    old(self).upgrade
                },
                ..*old(self)
            }),
    {
        if index < UPGRADE_COUNT {
            self.upgrade = index;
        }
    }

    /// Picks an infusion type; an index outside the table is ignored.
    pub fn set_infusion(&mut self, index: usize)
        ensures
            *final(self) == (ItemSpawner {
                infusion_type: if index < INFUSION_COUNT {
                    index
                } else {
                    old(self).infusion_type
                },
                ..*old(self)
            }),
    {
        if index < INFUSION_COUNT {
            self.infusion_type = index;
        }
    }
}

} // verus!
