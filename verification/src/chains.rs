//! The catalogue of named cells of the host: one handle per piece of game
//! state the overlay reads or writes. The catalogue is filled once while the
//! overlay attaches and is only read afterwards.

use vstd::prelude::*;
use crate::bitflag::{Bitflag, BitflagView};
use crate::flags::FlagSpec;
use crate::hotkey::Hotkey;
use crate::item_spawn::{close_label, load_label, ItemSpawner};
use crate::item_tree::{item_views, shown_views, ItemIDNode};
use crate::pointer_chain::{ChainView, PointerChain};

verus! {

/// The named cells.
#[derive(Debug)]
pub struct PointerChains {
    pub all_no_damage: Bitflag,
    pub inf_stamina: Bitflag,
    pub inf_focus: Bitflag,
    pub inf_consumables: Bitflag,
    pub deathcam: Bitflag,
    pub no_death: Bitflag,
    pub one_shot: Bitflag,
    pub evt_draw: Bitflag,
    pub evt_disable: Bitflag,
    pub ai_disable: Bitflag,
    pub rend_chr: Bitflag,
    pub rend_obj: Bitflag,
    pub rend_map: Bitflag,
    pub rend_mesh_hi: Bitflag,
    pub rend_mesh_lo: Bitflag,
    pub rend_mesh_hit: Bitflag,
    pub debug_draw: Bitflag,
    pub rend_hurtbox: Bitflag,
    pub all_draw_hit: Bitflag,
    pub ik_foot_ray: Bitflag,
    pub debug_sphere_1: Bitflag,
    pub debug_sphere_2: Bitflag,
    pub gravity: Bitflag,
    /// The flag that forces the host's cursor visible.
    pub cursor_show: Bitflag,
    /// The facing angle and the world position of the player.
    pub position: (PointerChain, PointerChain),
    pub character_stats: PointerChain,
    pub speed: PointerChain,
    pub souls: PointerChain,
    pub quitout: PointerChain,
    pub current_target: PointerChain,
    /// The in-game time in milliseconds.
    pub igt: PointerChain,
    pub fps: PointerChain,
    pub cur_anim: PointerChain,
    pub cur_anim_time: PointerChain,
    pub cur_anim_length: PointerChain,
    /// The address of the host's routine that spawns an item.
    pub spawn_item_func_ptr: u64,
    /// The address of the cell that holds the pointer to the map item manager.
    pub map_item_man: u64,
    pub travel_ptr: u64,
    pub attune_ptr: u64,
    pub xa: u64,
}

/// The cell that a flag of the configuration catalogue is bound to.
pub open spec fn bound_flag(chains: PointerChains, flag: FlagSpec) -> Bitflag {
    match flag {
        FlagSpec::AllNoDamage => chains.all_no_damage,
        FlagSpec::InfStamina => chains.inf_stamina,
        FlagSpec::InfFocus => chains.inf_focus,
        FlagSpec::InfConsumables => chains.inf_consumables,
        FlagSpec::Deathcam => chains.deathcam,
        FlagSpec::NoDeath => chains.no_death,
        FlagSpec::OneShot => chains.one_shot,
        FlagSpec::EvtDraw => chains.evt_draw,
        FlagSpec::EvtDisable => chains.evt_disable,
        FlagSpec::AiDisable => chains.ai_disable,
        FlagSpec::RendChr => chains.rend_chr,
        FlagSpec::RendObj => chains.rend_obj,
        FlagSpec::RendMap => chains.rend_map,
        FlagSpec::RendMeshHi => chains.rend_mesh_hi,
        FlagSpec::RendMeshLo => chains.rend_mesh_lo,
        FlagSpec::RendMeshHit => chains.rend_mesh_hit,
        FlagSpec::DebugDraw => chains.debug_draw,
        FlagSpec::Hurtbox => chains.rend_hurtbox,
        FlagSpec::AllDrawHit => chains.all_draw_hit,
        FlagSpec::IkFootRay => chains.ik_foot_ray,
        FlagSpec::DebugSphere1 => chains.debug_sphere_1,
        FlagSpec::DebugSphere2 => chains.debug_sphere_2,
        FlagSpec::Gravity => chains.gravity,
    }
}

impl PointerChain {
    /// A chain with the same base and offsets.
    pub fn duplicate(&self) -> (copy: PointerChain)
        ensures
            copy@ == self@,
    {
        let mut offsets: Vec<u64> = Vec::new();
        let mut i: usize = 0;
        while i < self.offsets.len()
            invariant
                i <= self.offsets.len(),
                offsets@ == self.offsets@.subrange(0, i as int),
            decreases self.offsets.len() - i,
        {
            offsets.push(self.offsets[i]);
            i = i + 1;
            assert(offsets@ =~= self.offsets@.subrange(0, i as int));
        }
        assert(self.offsets@.subrange(0, self.offsets.len() as int) =~= self.offsets@);
        PointerChain { base: self.base, offsets }
    }
}

impl Bitflag {
    /// A flag on the same cell with the same mask.
    pub fn duplicate(&self) -> (copy: Bitflag)
        ensures
            copy@ == self@,
    {
        Bitflag { chain: self.chain.duplicate(), mask: self.mask }
    }
}

impl PointerChains {
    /// The cell that a flag of the configuration catalogue is bound to.
    pub fn flag(&self, flag: FlagSpec) -> (cell: &Bitflag)
        ensures
            *cell == bound_flag(*self, flag),
    {
        match flag {
            FlagSpec::AllNoDamage => &self.all_no_damage,
            FlagSpec::InfStamina => &self.inf_stamina,
            FlagSpec::InfFocus => &self.inf_focus,
            FlagSpec::InfConsumables => &self.inf_consumables,
            FlagSpec::Deathcam => &self.deathcam,
            FlagSpec::NoDeath => &self.no_death,
            FlagSpec::OneShot => &self.one_shot,
            FlagSpec::EvtDraw => &self.evt_draw,
            FlagSpec::EvtDisable => &self.evt_disable,
            FlagSpec::AiDisable => &self.ai_disable,
            FlagSpec::RendChr => &self.rend_chr,
            FlagSpec::RendObj => &self.rend_obj,
            FlagSpec::RendMap => &self.rend_map,
            FlagSpec::RendMeshHi => &self.rend_mesh_hi,
            FlagSpec::RendMeshLo => &self.rend_mesh_lo,
            FlagSpec::RendMeshHit => &self.rend_mesh_hit,
            FlagSpec::DebugDraw => &self.debug_draw,
            FlagSpec::Hurtbox => &self.rend_hurtbox,
            FlagSpec::AllDrawHit => &self.all_draw_hit,
            FlagSpec::IkFootRay => &self.ik_foot_ray,
            FlagSpec::DebugSphere1 => &self.debug_sphere_1,
            FlagSpec::DebugSphere2 => &self.debug_sphere_2,
            FlagSpec::Gravity => &self.gravity,
        }
    }

    /// The item spawner over these cells: it calls the host's spawn
    /// routine, and takes the gravity flag as the sign of a live game.
    pub fn item_spawner(
        &self,
        hotkey_load: Hotkey,
        hotkey_close: Hotkey,
        catalogue: &Vec<ItemIDNode>,
    ) -> (s: ItemSpawner)
        ensures
            s.wf(),
            s.at_defaults(),
            s.func_ptr == self.spawn_item_func_ptr,
            s.map_item_man == self.map_item_man,
            s.sentinel@ == self.gravity@,
            s.hotkey_load == hotkey_load,
            s.hotkey_close == hotkey_close,
            s.label_load@ == load_label(hotkey_load),
            s.label_close@ == close_label(hotkey_close),
            s.log is None,
            shown_views(s.item_id_tree@) == item_views(catalogue@),
    {
        ItemSpawner::new(
            self.spawn_item_func_ptr,
            self.map_item_man,
            self.gravity.duplicate(),
            hotkey_load,
            hotkey_close,
            catalogue,
        )
    }
}

} // verus!
