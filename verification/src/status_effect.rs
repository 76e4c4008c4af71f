//! Turning a buff id into the status effect shown to the user.
use vstd::prelude::*;
use crate::buff_flags::{
    buff_ranges_known, buff_ranges_readable, buff_type_flags, get_status_effect_buff_type_flags,
};
use crate::model::{
    option_string_view, SkillBuffData, SkillData, StatusEffect, StatusEffectSource,
    StatusEffectTarget, StatusEffectView,
};
use crate::tables::{skill_buff_table, skill_effect_table, skill_table, GameData};
use crate::text::{is_text, owned};

verus! {

/// The category under which a buff is shown: the buffs of the ether drop
/// groups are put under their own category.
pub open spec fn shown_buff_category(buff: SkillBuffData) -> Seq<char> {
    if buff.buff_category@ == "ability"@ && 501 <= buff.unique_group <= 505 {
        "dropsofether"@
    } else {
        buff.buff_category@
    }
}

pub open spec fn shown_target(target: Seq<char>) -> StatusEffectTarget {
    if target == "none"@ {
        StatusEffectTarget::Other
    } else if target == "self"@ {
        StatusEffectTarget::OnSelf
    } else {
        StatusEffectTarget::Party
    }
}

/// Buffs of these categories are shown with the skill they come from.
pub open spec fn is_skill_sourced(category: Seq<char>, unique_group: u32) -> bool {
    category == "classskill"@ || category == "identity"@ || (category == "ability"@
        && unique_group != 0)
}

/// The skill that a buff comes from: the one it names; else the skill whose
/// id is the buff's id without its last digit, or without its last two digits
/// (then followed by a zero); else the skill of its unique group without its
/// last digit.
pub open spec fn source_skill_of(d: GameData, buff_id: u32, buff: SkillBuffData) -> Option<
    SkillData,
> {
    match buff.source_skill {
        Some(s) => skill_table(d).get(s),
        None => if skill_table(d).contains_key(buff_id / 10) {
            skill_table(d).get(buff_id / 10)
        } else if skill_table(d).contains_key(((buff_id / 100) * 10) as u32) {
            skill_table(d).get(((buff_id / 100) * 10) as u32)
        } else {
            skill_table(d).get(buff.unique_group / 10)
        },
    }
}

pub open spec fn or_text(s: Option<String>, default: Seq<char>) -> Seq<char> {
    match s {
        Some(s) => s@,
        None => default,
    }
}

/// The status effect of a known buff, shown as the buff itself describes it.
pub open spec fn plain_status_effect(d: GameData, buff: SkillBuffData) -> StatusEffectView {
    StatusEffectView {
        target: shown_target(buff.target@),
        category: buff.category@,
        buff_category: shown_buff_category(buff),
        buff_type: buff_type_flags(d, buff),
        unique_group: buff.unique_group,
        source_name: buff.name@,
        source_desc: buff.desc@,
        source_icon: buff.icon@,
        source_skill: None,
        source_set_name: None,
    }
}

/// The status effect that a buff id is shown as: none for an unknown buff or
/// one whose icon is not shown; otherwise the buff's own description, with
/// its source skill (for class, identity and ability buffs), its set's name
/// (for set buffs), or the name, description and icon of the battle item
/// (for battle item buffs).
pub open spec fn status_effect_of(d: GameData, buff_id: u32) -> Option<StatusEffectView> {
    match skill_buff_table(d).get(buff_id) {
        None => None,
        Some(buff) => if buff.icon_show_type@ == "none"@ {
            None
        } else {
            let base = plain_status_effect(d, buff);
            let category = shown_buff_category(buff);
            if is_skill_sourced(category, buff.unique_group) {
                Some(StatusEffectView { source_skill: source_skill_of(d, buff_id, buff), ..base })
            } else if category == "set"@ && buff.set_name is Some {
                Some(StatusEffectView { source_set_name: option_string_view(buff.set_name), ..base })
            } else if category == "battleitem"@ {
                match skill_effect_table(d).get(buff_id) {
                    Some(item) => Some(
                        StatusEffectView {
                            source_name: or_text(item.item_name, base.source_name),
                            source_desc: or_text(item.item_desc, base.source_desc),
                            source_icon: or_text(item.icon, base.source_icon),
                            ..base
                        },
                    ),
                    None => Some(base),
                }
            } else {
                Some(base)
            }
        },
    }
}

/// A buff id is shown exactly where the table holds its buff and that buff's
/// icon is shown ("none" hides it). What is shown keeps the buff's category
/// and unique group, carries the buff's flags, and targets others for the
/// target "none", the bearer for "self", and the party otherwise.
pub proof fn lemma_status_effect_describes_its_buff(d: GameData, buff_id: u32)
    ensures
        match skill_buff_table(d).get(buff_id) {
            None => status_effect_of(d, buff_id) is None,
            Some(buff) => {
                &&& (status_effect_of(d, buff_id) is None <==> buff.icon_show_type@ == "none"@)
                &&& status_effect_of(d, buff_id) matches Some(e) ==> {
                    &&& e.unique_group == buff.unique_group
                    &&& e.category == buff.category@
                    &&& e.buff_type == buff_type_flags(d, buff)
                    &&& buff.target@ == "none"@ ==> e.target == StatusEffectTarget::Other
                    &&& buff.target@ == "self"@ ==> e.target == StatusEffectTarget::OnSelf
                    &&& buff.target@ != "none"@ && buff.target@ != "self"@ ==> e.target
                        == StatusEffectTarget::Party
                    &&& buff.buff_category@ == "ability"@ && 501 <= buff.unique_group <= 505
                        ==> e.buff_category == "dropsofether"@
                    &&& !(buff.buff_category@ == "ability"@ && 501 <= buff.unique_group <= 505)
                        ==> e.buff_category == buff.buff_category@
                    &&& e.buff_category != "battleitem"@ ==> e.source_name == buff.name@
                        && e.source_desc == buff.desc@ && e.source_icon == buff.icon@
                    &&& e.buff_category == "set"@ && buff.set_name is Some
                        ==> e.source_set_name == Some(buff.set_name->0@)
                    &&& e.buff_category != "classskill"@ && e.buff_category != "identity"@
                        && e.buff_category != "ability"@ && e.buff_category != "set"@
                        ==> e.source_set_name is None && e.source_skill is None
                }
            },
        },
{
    reveal_strlit("ability");
    reveal_strlit("battleitem");
    reveal_strlit("classskill");
    reveal_strlit("dropsofether");
    reveal_strlit("identity");
    reveal_strlit("none");
    reveal_strlit("self");
    reveal_strlit("set");
    assert("ability"@.len() == 7);
    assert("battleitem"@.len() == 10 && "battleitem"@[0] == 'b');
    assert("classskill"@.len() == 10 && "classskill"@[0] == 'c');
    assert("dropsofether"@.len() == 12);
    assert("identity"@.len() == 8);
    assert("none"@.len() == 4 && "none"@[0] == 'n');
    assert("self"@.len() == 4 && "self"@[0] == 's');
    assert("set"@.len() == 3);
}

/// Every range-bounding stat that showing the buff id reads is in the stat
/// type table: a shown buff is classified (see `buff_ranges_known`).
pub open spec fn status_effect_readable(d: GameData, buff_id: u32) -> bool {
    match skill_buff_table(d).get(buff_id) {
        Some(buff) => buff.icon_show_type@ != "none"@ ==> buff_ranges_known(d, buff),
        None => true,
    }
}

fn copy_text(s: &Option<String>) -> (r: Option<String>)
    ensures
        option_string_view(r) == option_string_view(*s),
        r is Some == s is Some,
{
    match s {
        Some(s) => Some(s.clone()),
        None => None,
    }
}

fn copy_skill(s: Option<&SkillData>) -> (r: Option<SkillData>)
    ensures
        r == (match s {
            Some(s) => Some(*s),
            None => None::<SkillData>,
        }),
{
    match s {
        Some(s) => Some(s.clone()),
        None => None,
    }
}

/// The status effect that a buff is shown as; `None` for a buff that the
/// table does not hold or whose icon is not shown.
pub fn get_status_effect_data(buff_id: u32, data: &GameData) -> (r: Option<StatusEffect>)
    requires
        status_effect_readable(*data, buff_id),
    ensures
        match r {
            Some(e) => status_effect_of(*data, buff_id) == Some(e@),
            None => status_effect_of(*data, buff_id) is None,
        },
        r matches Some(e) ==> (skill_buff_table(*data).get(buff_id) matches Some(buff)
            && e.unique_group == buff.unique_group && e.category@ == buff.category@
            && e.buff_type == buff_type_flags(*data, buff)),
{
    let buff = match data.skill_buff(buff_id) {
        None => return None,
        Some(buff) => buff,
    };
    if is_text(&buff.icon_show_type, "none") {
        return None;
    }
    let buff_category = if is_text(&buff.buff_category, "ability") && 501 <= buff.unique_group
        && buff.unique_group <= 505 {
        owned("dropsofether")
    } else {
        buff.buff_category.clone()
    };
    let target = if is_text(&buff.target, "none") {
        StatusEffectTarget::Other
    } else if is_text(&buff.target, "self") {
        StatusEffectTarget::OnSelf
    } else {
        StatusEffectTarget::Party
    };
    let skill_sourced = is_text(&buff_category, "classskill") || is_text(
        &buff_category,
        "identity",
    ) || (is_text(&buff_category, "ability") && buff.unique_group != 0);
    let mut status_effect = StatusEffect {
        target,
        category: buff.category.clone(),
        buff_category: buff_category.clone(),
        buff_type: get_status_effect_buff_type_flags(buff, data),
        unique_group: buff.unique_group,
        source: StatusEffectSource {
            name: buff.name.clone(),
            desc: buff.desc.clone(),
            icon: buff.icon.clone(),
            skill: None,
            set_name: None,
        },
    };
    if skill_sourced {
        status_effect.source.skill = match buff.source_skill {
            Some(s) => copy_skill(data.skill(s)),
            None => {
                if let Some(skill) = data.skill(buff_id / 10) {
                    Some(skill.clone())
                } else if let Some(skill) = data.skill((buff_id / 100) * 10) {
                    Some(skill.clone())
                } else {
                    copy_skill(data.skill(buff.unique_group / 10))
                }
            },
        };
    } else if is_text(&buff_category, "set") && buff.set_name.is_some() {
        status_effect.source.set_name = copy_text(&buff.set_name);
    } else if is_text(&buff_category, "battleitem") {
        if let Some(item) = data.skill_effect(buff_id) {
            if let Some(item_name) = &item.item_name {
                status_effect.source.name = item_name.clone();
            }
            if let Some(item_desc) = &item.item_desc {
                status_effect.source.desc = item_desc.clone();
            }
            if let Some(icon) = &item.icon {
                status_effect.source.icon = icon.clone();
            }
        }
    }
    Some(status_effect)
}

/// The status effect of a buff, as `get_status_effect_data` gives it, where
/// the stat type table holds every range-bounding stat that showing it reads
/// (see `status_effect_readable`); `None` otherwise.
pub fn try_status_effect_data(buff_id: u32, data: &GameData) -> (r: Option<Option<StatusEffect>>)
    ensures
        r is Some == status_effect_readable(*data, buff_id),
        r matches Some(Some(e)) ==> status_effect_of(*data, buff_id) == Some(e@),
        r matches Some(None) ==> status_effect_of(*data, buff_id) is None,
{
    let readable = match data.skill_buff(buff_id) {
        Some(buff) => is_text(&buff.icon_show_type, "none") || buff_ranges_readable(buff, data),
        None => true,
    };
    if readable {
        Some(get_status_effect_data(buff_id, data))
    } else {
        None
    }
}

} // verus!
