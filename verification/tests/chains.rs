use practice_tool::bitflag::Bitflag;
use practice_tool::chains::PointerChains;
use practice_tool::flags::FlagSpec;
use practice_tool::hotkey::Hotkey;
use practice_tool::item_tree::ItemIDNode;
use practice_tool::memory::MemoryImage;
use practice_tool::pointer_chain::PointerChain;
use practice_tool::practice_tool::{apply_cursor, flag_interact, flag_shown, igt_indicator};

fn flag(at: u64, mask: u8) -> Bitflag {
    Bitflag::new(PointerChain::new(at, vec![]), mask)
}

fn chain(at: u64) -> PointerChain {
    PointerChain::new(at, vec![])
}

/// Every flag on a byte of its own from 0x100 on; the cursor flag at 0x120;
/// the in-game time at 0x130.
fn chains() -> PointerChains {
    PointerChains {
        all_no_damage: flag(0x100, 1),
        inf_stamina: flag(0x101, 1),
        inf_focus: flag(0x102, 1),
        inf_consumables: flag(0x103, 1),
        deathcam: flag(0x104, 1),
        no_death: flag(0x105, 1),
        one_shot: flag(0x106, 1),
        evt_draw: flag(0x107, 1),
        evt_disable: flag(0x108, 1),
        ai_disable: flag(0x109, 1),
        rend_chr: flag(0x10A, 1),
        rend_obj: flag(0x10B, 1),
        rend_map: flag(0x10C, 1),
        rend_mesh_hi: flag(0x10D, 1),
        rend_mesh_lo: flag(0x10E, 1),
        rend_mesh_hit: flag(0x10F, 1),
        debug_draw: flag(0x110, 1),
        rend_hurtbox: flag(0x111, 1),
        all_draw_hit: flag(0x112, 1),
        ik_foot_ray: flag(0x113, 1),
        debug_sphere_1: flag(0x114, 1),
        debug_sphere_2: flag(0x115, 1),
        gravity: flag(0x116, 0x40),
        cursor_show: flag(0x120, 0x80),
        position: (chain(0x140), chain(0x144)),
        character_stats: chain(0x150),
        speed: chain(0x160),
        souls: chain(0x164),
        quitout: chain(0x168),
        current_target: chain(0x170),
        igt: chain(0x130),
        fps: chain(0x134),
        cur_anim: chain(0x138),
        cur_anim_time: chain(0x13C),
        cur_anim_length: chain(0x180),
        spawn_item_func_ptr: 0xAAAA,
        map_item_man: 0xBBBB,
        travel_ptr: 0,
        attune_ptr: 0,
        xa: 0,
    }
}

const ALL: [FlagSpec; 23] = [
    FlagSpec::AllNoDamage,
    FlagSpec::InfStamina,
    FlagSpec::InfFocus,
    FlagSpec::InfConsumables,
    FlagSpec::Deathcam,
    FlagSpec::NoDeath,
    FlagSpec::OneShot,
    FlagSpec::EvtDraw,
    FlagSpec::EvtDisable,
    FlagSpec::AiDisable,
    FlagSpec::RendChr,
    FlagSpec::RendObj,
    FlagSpec::RendMap,
    FlagSpec::RendMeshHi,
    FlagSpec::RendMeshLo,
    FlagSpec::RendMeshHit,
    FlagSpec::DebugDraw,
    FlagSpec::Hurtbox,
    FlagSpec::AllDrawHit,
    FlagSpec::IkFootRay,
    FlagSpec::DebugSphere1,
    FlagSpec::DebugSphere2,
    FlagSpec::Gravity,
];

#[test]
fn every_flag_is_bound_to_its_own_cell() {
    let chains = chains();
    for (i, spec) in ALL.iter().enumerate() {
        let cell = chains.flag(*spec);
        assert_eq!(cell.chain.base, 0x100 + i as u64, "{:?}", spec);
    }
    assert_eq!(chains.flag(FlagSpec::Gravity).mask, 0x40);
}

#[test]
fn a_fired_hotkey_flips_only_its_flag() {
    let chains = chains();
    let mut mem = MemoryImage::new(0x100, vec![0u8; 0x100]);
    flag_interact(&chains, FlagSpec::NoDeath, false, &mut mem);
    assert!(mem.data.iter().all(|b| *b == 0));
    assert_eq!(flag_shown(&chains, FlagSpec::NoDeath, &mem), Some(false));
    flag_interact(&chains, FlagSpec::NoDeath, true, &mut mem);
    assert_eq!(flag_shown(&chains, FlagSpec::NoDeath, &mem), Some(true));
    assert_eq!(mem.data.iter().filter(|b| **b != 0).count(), 1);
    assert_eq!(mem.data[5], 1);
    flag_interact(&chains, FlagSpec::NoDeath, true, &mut mem);
    assert!(mem.data.iter().all(|b| *b == 0));
    let outside = MemoryImage::new(0x1000, vec![0u8; 8]);
    assert_eq!(flag_shown(&chains, FlagSpec::NoDeath, &outside), None);
}

#[test]
fn the_cursor_flag_follows_the_frame_plan() {
    let chains = chains();
    let mut mem = MemoryImage::new(0x100, vec![0x01u8; 0x100]);
    apply_cursor(&chains, None, &mut mem);
    assert_eq!(mem.data[0x20], 0x01);
    apply_cursor(&chains, Some(true), &mut mem);
    assert_eq!(mem.data[0x20], 0x81);
    apply_cursor(&chains, Some(false), &mut mem);
    assert_eq!(mem.data[0x20], 0x01);
    assert_eq!(mem.data.iter().filter(|b| **b != 1).count(), 0);
}

#[test]
fn the_in_game_time_is_read_and_formatted() {
    let chains = chains();
    let mut mem = MemoryImage::new(0x100, vec![0u8; 0x100]);
    mem.data[0x30..0x34].copy_from_slice(&3725123u32.to_le_bytes());
    assert_eq!(igt_indicator(&chains, &mem), Some("IGT 01:02:05.12".to_string()));
    let outside = MemoryImage::new(0x1000, vec![0u8; 8]);
    assert_eq!(igt_indicator(&chains, &outside), None);
}

#[test]
fn the_spawner_is_bound_to_the_spawn_routine_and_the_gravity_flag() {
    let chains = chains();
    let catalogue = vec![ItemIDNode::Leaf { id: 1, desc: "One".to_string() }];
    let key = Hotkey { key: 0x49, modifier: None };
    let mut spawner = chains.item_spawner(key, Hotkey { key: 0x30, modifier: None }, &catalogue);
    assert_eq!((spawner.func_ptr, spawner.map_item_man), (0xAAAA, 0xBBBB));
    assert_eq!((spawner.sentinel.chain.base, spawner.sentinel.mask), (0x116, 0x40));
    assert_eq!(spawner.item_id_tree.len(), 1);
    let mem = MemoryImage::new(0x100, vec![0u8; 0x100]);
    assert!(spawner.spawn(&mem).is_some());
    let copy = chains.igt.duplicate();
    assert_eq!((copy.base, copy.offsets), (0x130, vec![]));
    let copy = PointerChain::new(7, vec![1, 2, 3]).duplicate();
    assert_eq!((copy.base, copy.offsets), (7, vec![1, 2, 3]));
    let copy = chains.gravity.duplicate();
    assert_eq!((copy.chain.base, copy.mask), (0x116, 0x40));
}
