//! The closed catalogue of boolean game flags a configuration may name.

use vstd::prelude::*;
use vstd::string::*;
use crate::text::same_text;

verus! {

/// A flag of the catalogue.
#[derive(Clone, Copy, Debug, PartialEq, Eq, Structural)]
pub enum FlagSpec {
    AllNoDamage,
    InfStamina,
    InfFocus,
    InfConsumables,
    Deathcam,
    NoDeath,
    OneShot,
    EvtDraw,
    EvtDisable,
    AiDisable,
    RendChr,
    RendObj,
    RendMap,
    RendMeshHi,
    RendMeshLo,
    RendMeshHit,
    DebugDraw,
    Hurtbox,
    AllDrawHit,
    IkFootRay,
    DebugSphere1,
    DebugSphere2,
    Gravity,
}

/// The flag that a configuration name stands for; names outside the
/// catalogue stand for none.
pub open spec fn flag_of(name: Seq<char>) -> Option<FlagSpec> {
    if name == "all_no_damage"@ {
        Some(FlagSpec::AllNoDamage)
    } else if name == "inf_stamina"@ {
        Some(FlagSpec::InfStamina)
    } else if name == "inf_focus"@ {
        Some(FlagSpec::InfFocus)
    } else if name == "inf_consumables"@ {
        Some(FlagSpec::InfConsumables)
    } else if name == "deathcam"@ {
        Some(FlagSpec::Deathcam)
    } else if name == "no_death"@ {
        Some(FlagSpec::NoDeath)
    } else if name == "one_shot"@ {
        Some(FlagSpec::OneShot)
    } else if name == "evt_draw"@ {
        Some(FlagSpec::EvtDraw)
    } else if name == "evt_disable"@ {
        Some(FlagSpec::EvtDisable)
    } else if name == "ai_disable"@ {
        Some(FlagSpec::AiDisable)
    } else if name == "rend_chr"@ {
        Some(FlagSpec::RendChr)
    } else if name == "rend_obj"@ {
        Some(FlagSpec::RendObj)
    } else if name == "rend_map"@ {
        Some(FlagSpec::RendMap)
    } else if name == "rend_mesh_hi"@ {
        Some(FlagSpec::RendMeshHi)
    } else if name == "rend_mesh_lo"@ {
        Some(FlagSpec::RendMeshLo)
    } else if name == "rend_mesh_hit"@ {
        Some(FlagSpec::RendMeshHit)
    } else if name == "debug_draw"@ {
        Some(FlagSpec::DebugDraw)
    } else if name == "hurtbox"@ {
        Some(FlagSpec::Hurtbox)
    } else if name == "all_draw_hit"@ {
        Some(FlagSpec::AllDrawHit)
    } else if name == "ik_foot_ray"@ {
        Some(FlagSpec::IkFootRay)
    } else if name == "debug_sphere_1"@ {
        Some(FlagSpec::DebugSphere1)
    } else if name == "debug_sphere_2"@ {
        Some(FlagSpec::DebugSphere2)
    } else if name == "gravity"@ {
        Some(FlagSpec::Gravity)
    } else {
        None
    }
}

/// The configuration name of each flag.
pub open spec fn flag_name(flag: FlagSpec) -> Seq<char> {
    match flag {
        FlagSpec::AllNoDamage => "all_no_damage"@,
        FlagSpec::InfStamina => "inf_stamina"@,
        FlagSpec::InfFocus => "inf_focus"@,
        FlagSpec::InfConsumables => "inf_consumables"@,
        FlagSpec::Deathcam => "deathcam"@,
        FlagSpec::NoDeath => "no_death"@,
        FlagSpec::OneShot => "one_shot"@,
        FlagSpec::EvtDraw => "evt_draw"@,
        FlagSpec::EvtDisable => "evt_disable"@,
        FlagSpec::AiDisable => "ai_disable"@,
        FlagSpec::RendChr => "rend_chr"@,
        FlagSpec::RendObj => "rend_obj"@,
        FlagSpec::RendMap => "rend_map"@,
        FlagSpec::RendMeshHi => "rend_mesh_hi"@,
        FlagSpec::RendMeshLo => "rend_mesh_lo"@,
        FlagSpec::RendMeshHit => "rend_mesh_hit"@,
        FlagSpec::DebugDraw => "debug_draw"@,
        FlagSpec::Hurtbox => "hurtbox"@,
        FlagSpec::AllDrawHit => "all_draw_hit"@,
        FlagSpec::IkFootRay => "ik_foot_ray"@,
        FlagSpec::DebugSphere1 => "debug_sphere_1"@,
        FlagSpec::DebugSphere2 => "debug_sphere_2"@,
        FlagSpec::Gravity => "gravity"@,
    }
}

/// The menu label of each flag.
pub open spec fn flag_label(flag: FlagSpec) -> Seq<char> {
    match flag {
        FlagSpec::AllNoDamage => "全体无伤害"@,
        FlagSpec::InfStamina => "精力无消耗"@,
        FlagSpec::InfFocus => "专注值无消耗"@,
        FlagSpec::InfConsumables => "物品使用无消耗"@,
        FlagSpec::Deathcam => "死亡视角"@,
        FlagSpec::NoDeath => "不会死亡"@,
        FlagSpec::OneShot => "一击必杀"@,
        FlagSpec::EvtDraw => "事件绘制"@,
        FlagSpec::EvtDisable => "事件禁止"@,
        FlagSpec::AiDisable => "不计算AI"@,
        FlagSpec::RendChr => "绘制角色"@,
        FlagSpec::RendObj => "绘制物件"@,
        FlagSpec::RendMap => "绘制地图"@,
        FlagSpec::RendMeshHi => "碰撞检测 (高)"@,
        FlagSpec::RendMeshLo => "碰撞检测 (低)"@,
        FlagSpec::RendMeshHit => "命中碰撞检测"@,
        FlagSpec::DebugDraw => "调试绘制"@,
        FlagSpec::Hurtbox => "伤害区域显示 (需要调试绘制)"@,
        FlagSpec::AllDrawHit => "绘制所有角色碰撞"@,
        FlagSpec::IkFootRay => "足部IK追踪"@,
        FlagSpec::DebugSphere1 => "调试球体1"@,
        FlagSpec::DebugSphere2 => "调试球体2"@,
        FlagSpec::Gravity => "无重力"@,
    }
}

/// The message for a name outside the catalogue: the name in double
/// quotes, followed by the complaint.
pub open spec fn unknown_flag_text(name: Seq<char>) -> Seq<char> {
    seq!['"'] + name + "\" is not a valid flag specifier"@
}

impl FlagSpec {
    /// Looks a configuration name up in the catalogue.
    pub fn lookup(name: &str) -> (flag: Option<FlagSpec>)
        ensures
            flag == flag_of(name@),
    {
        if same_text(name, "all_no_damage") {
            Some(FlagSpec::AllNoDamage)
        } else if same_text(name, "inf_stamina") {
            Some(FlagSpec::InfStamina)
        } else if same_text(name, "inf_focus") {
            Some(FlagSpec::InfFocus)
        } else if same_text(name, "inf_consumables") {
            Some(FlagSpec::InfConsumables)
        } else if same_text(name, "deathcam") {
            Some(FlagSpec::Deathcam)
        } else if same_text(name, "no_death") {
            Some(FlagSpec::NoDeath)
        } else if same_text(name, "one_shot") {
            Some(FlagSpec::OneShot)
        } else if same_text(name, "evt_draw") {
            Some(FlagSpec::EvtDraw)
        } else if same_text(name, "evt_disable") {
            Some(FlagSpec::EvtDisable)
        } else if same_text(name, "ai_disable") {
            Some(FlagSpec::AiDisable)
        } else if same_text(name, "rend_chr") {
            Some(FlagSpec::RendChr)
        } else if same_text(name, "rend_obj") {
            Some(FlagSpec::RendObj)
        } else if same_text(name, "rend_map") {
            Some(FlagSpec::RendMap)
        } else if same_text(name, "rend_mesh_hi") {
            Some(FlagSpec::RendMeshHi)
        } else if same_text(name, "rend_mesh_lo") {
            Some(FlagSpec::RendMeshLo)
        } else if same_text(name, "rend_mesh_hit") {
            Some(FlagSpec::RendMeshHit)
        } else if same_text(name, "debug_draw") {
            Some(FlagSpec::DebugDraw)
        } else if same_text(name, "hurtbox") {
            Some(FlagSpec::Hurtbox)
        } else if same_text(name, "all_draw_hit") {
            Some(FlagSpec::AllDrawHit)
        } else if same_text(name, "ik_foot_ray") {
            Some(FlagSpec::IkFootRay)
        } else if same_text(name, "debug_sphere_1") {
            Some(FlagSpec::DebugSphere1)
        } else if same_text(name, "debug_sphere_2") {
            Some(FlagSpec::DebugSphere2)
        } else if same_text(name, "gravity") {
            Some(FlagSpec::Gravity)
        } else {
            None
        }
    }

    /// Reads a flag from its configuration name, or says which name was not
    /// understood.
    pub fn try_from(value: &str) -> (flag: Result<FlagSpec, String>)
        ensures
            match flag {
                Ok(f) => flag_of(value@) == Some(f),
                Err(message) => flag_of(value@) is None && message@ == unknown_flag_text(value@),
            },
    {
        match FlagSpec::lookup(value) {
            Some(flag) => Ok(flag),
            None => {
                let mut message = String::new();
                message.append("\"");
                message.append(value);
                message.append("\" is not a valid flag specifier");
                proof {
                    reveal_strlit("\"");
                    assert("\""@ =~= seq!['"']);
                    assert(message@ =~= unknown_flag_text(value@));
                }
                Err(message)
            },
        }
    }

    /// The name the flag goes by in a configuration.
    pub fn name(&self) -> (text: &'static str)
        ensures
            text@ == flag_name(*self),
    {
        match self {
            FlagSpec::AllNoDamage => "all_no_damage",
            FlagSpec::InfStamina => "inf_stamina",
            FlagSpec::InfFocus => "inf_focus",
            FlagSpec::InfConsumables => "inf_consumables",
            FlagSpec::Deathcam => "deathcam",
            FlagSpec::NoDeath => "no_death",
            FlagSpec::OneShot => "one_shot",
            FlagSpec::EvtDraw => "evt_draw",
            FlagSpec::EvtDisable => "evt_disable",
            FlagSpec::AiDisable => "ai_disable",
            FlagSpec::RendChr => "rend_chr",
            FlagSpec::RendObj => "rend_obj",
            FlagSpec::RendMap => "rend_map",
            FlagSpec::RendMeshHi => "rend_mesh_hi",
            FlagSpec::RendMeshLo => "rend_mesh_lo",
            FlagSpec::RendMeshHit => "rend_mesh_hit",
            FlagSpec::DebugDraw => "debug_draw",
            FlagSpec::Hurtbox => "hurtbox",
            FlagSpec::AllDrawHit => "all_draw_hit",
            FlagSpec::IkFootRay => "ik_foot_ray",
            FlagSpec::DebugSphere1 => "debug_sphere_1",
            FlagSpec::DebugSphere2 => "debug_sphere_2",
            FlagSpec::Gravity => "gravity",
        }
    }

    /// The label the flag's toggle carries in the menu.
    pub fn label(&self) -> (text: &'static str)
        ensures
            text@ == flag_label(*self),
    {
        match self {
            FlagSpec::AllNoDamage => "全体无伤害",
            FlagSpec::InfStamina => "精力无消耗",
            FlagSpec::InfFocus => "专注值无消耗",
            FlagSpec::InfConsumables => "物品使用无消耗",
            FlagSpec::Deathcam => "死亡视角",
            FlagSpec::NoDeath => "不会死亡",
            FlagSpec::OneShot => "一击必杀",
            FlagSpec::EvtDraw => "事件绘制",
            FlagSpec::EvtDisable => "事件禁止",
            FlagSpec::AiDisable => "不计算AI",
            FlagSpec::RendChr => "绘制角色",
            FlagSpec::RendObj => "绘制物件",
            FlagSpec::RendMap => "绘制地图",
            FlagSpec::RendMeshHi => "碰撞检测 (高)",
            FlagSpec::RendMeshLo => "碰撞检测 (低)",
            FlagSpec::RendMeshHit => "命中碰撞检测",
            FlagSpec::DebugDraw => "调试绘制",
            FlagSpec::Hurtbox => "伤害区域显示 (需要调试绘制)",
            FlagSpec::AllDrawHit => "绘制所有角色碰撞",
            FlagSpec::IkFootRay => "足部IK追踪",
            FlagSpec::DebugSphere1 => "调试球体1",
            FlagSpec::DebugSphere2 => "调试球体2",
            FlagSpec::Gravity => "无重力",
        }
    }
}

/// Every flag is found again under its own name.
pub proof fn lemma_name_round_trip(flag: FlagSpec)
    ensures
        flag_of(flag_name(flag)) == Some(flag),
{
    reveal_strlit("all_no_damage");
    reveal_strlit("inf_stamina");
    reveal_strlit("inf_focus");
    reveal_strlit("inf_consumables");
    reveal_strlit("deathcam");
    reveal_strlit("no_death");
    reveal_strlit("one_shot");
    reveal_strlit("evt_draw");
    reveal_strlit("evt_disable");
    reveal_strlit("ai_disable");
    reveal_strlit("rend_chr");
    reveal_strlit("rend_obj");
    reveal_strlit("rend_map");
    reveal_strlit("rend_mesh_hi");
    reveal_strlit("rend_mesh_lo");
    reveal_strlit("rend_mesh_hit");
    reveal_strlit("debug_draw");
    reveal_strlit("hurtbox");
    reveal_strlit("all_draw_hit");
    reveal_strlit("ik_foot_ray");
    reveal_strlit("debug_sphere_1");
    reveal_strlit("debug_sphere_2");
    reveal_strlit("gravity");
    assert("all_no_damage"@.len() == 13);
    assert("inf_stamina"@.len() == 11);
    assert("inf_focus"@.len() == 9);
    assert("inf_consumables"@.len() == 15);
    assert("deathcam"@.len() == 8);
    assert("no_death"@.len() == 8);
    assert("one_shot"@.len() == 8);
    assert("evt_draw"@.len() == 8);
    assert("evt_disable"@.len() == 11);
    assert("ai_disable"@.len() == 10);
    assert("rend_chr"@.len() == 8);
    assert("rend_obj"@.len() == 8);
    assert("rend_map"@.len() == 8);
    assert("rend_mesh_hi"@.len() == 12);
    assert("rend_mesh_lo"@.len() == 12);
    assert("rend_mesh_hit"@.len() == 13);
    assert("debug_draw"@.len() == 10);
    assert("hurtbox"@.len() == 7);
    assert("all_draw_hit"@.len() == 12);
    assert("ik_foot_ray"@.len() == 11);
    assert("debug_sphere_1"@.len() == 14);
    assert("debug_sphere_2"@.len() == 14);
    assert("gravity"@.len() == 7);
    assert("all_no_damage"@[0] != "rend_mesh_hit"@[0]);
    assert("inf_stamina"@[0] != "evt_disable"@[0]);
    assert("inf_stamina"@[1] != "ik_foot_ray"@[1]);
    assert("deathcam"@[0] != "no_death"@[0]);
    assert("deathcam"@[0] != "one_shot"@[0]);
    assert("deathcam"@[0] != "evt_draw"@[0]);
    assert("deathcam"@[0] != "rend_chr"@[0]);
    assert("deathcam"@[0] != "rend_obj"@[0]);
    assert("deathcam"@[0] != "rend_map"@[0]);
    assert("no_death"@[0] != "one_shot"@[0]);
    assert("no_death"@[0] != "evt_draw"@[0]);
    assert("no_death"@[0] != "rend_chr"@[0]);
    assert("no_death"@[0] != "rend_obj"@[0]);
    assert("no_death"@[0] != "rend_map"@[0]);
    assert("one_shot"@[0] != "evt_draw"@[0]);
    assert("one_shot"@[0] != "rend_chr"@[0]);
    assert("one_shot"@[0] != "rend_obj"@[0]);
    assert("one_shot"@[0] != "rend_map"@[0]);
    assert("evt_draw"@[0] != "rend_chr"@[0]);
    assert("evt_draw"@[0] != "rend_obj"@[0]);
    assert("evt_draw"@[0] != "rend_map"@[0]);
    assert("evt_disable"@[0] != "ik_foot_ray"@[0]);
    assert("ai_disable"@[0] != "debug_draw"@[0]);
    assert("rend_chr"@[5] != "rend_obj"@[5]);
    assert("rend_chr"@[5] != "rend_map"@[5]);
    assert("rend_obj"@[5] != "rend_map"@[5]);
    assert("rend_mesh_hi"@[10] != "rend_mesh_lo"@[10]);
    assert("rend_mesh_hi"@[0] != "all_draw_hit"@[0]);
    assert("rend_mesh_lo"@[0] != "all_draw_hit"@[0]);
    assert("hurtbox"@[0] != "gravity"@[0]);
    assert("debug_sphere_1"@[13] != "debug_sphere_2"@[13]);
}

} // verus!
