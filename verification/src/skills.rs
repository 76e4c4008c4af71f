//! Names and icons of skills, skill effects and battle items.
use vstd::prelude::*;
use crate::model::SkillData;
use crate::tables::{skill_effect_table, skill_table, GameData};
use crate::text::{is_text, owned};

verus! {

/// The name and icon of a skill.
pub open spec fn skill_label(s: SkillData) -> (Seq<char>, Seq<char>) {
    (s.name@, s.icon@)
}

/// The name and icon shown for a hit, from its skill id, its skill effect id
/// and the name that the hit carried:
/// - neither id: a bleed;
/// - a skill effect whose id is also the skill id: the item it names (with
///   its icon, or none), else the skill it comes from, else (where it names
///   none) the skill whose id is its own without the last digit, else the
///   effect's comment without an icon; an unknown effect keeps the carried
///   name;
/// - otherwise the skill: the skill that summoned it (its name marked as a
///   summon), else the skill it comes from, else itself; an unknown skill is
///   looked up again without its last digit; where a lookup fails the carried
///   name stays, without an icon.
pub open spec fn skill_name_and_icon(
    d: GameData,
    skill_id: u32,
    skill_effect_id: u32,
    skill_name: Seq<char>,
) -> (Seq<char>, Seq<char>) {
    if skill_id == 0 && skill_effect_id == 0 {
        ("Bleed"@, "buff_168.png"@)
    } else if skill_effect_id != 0 && skill_effect_id == skill_id {
        match skill_effect_table(d).get(skill_effect_id) {
            Some(effect) => match effect.item_name {
                Some(item_name) => (
                    item_name@,
                    match effect.icon {
                        Some(icon) => icon@,
                        None => Seq::empty(),
                    },
                ),
                None => match effect.source_skill {
                    Some(source) => match skill_table(d).get(source) {
                        Some(s) => skill_label(s),
                        None => (effect.comment@, Seq::empty()),
                    },
                    None => match skill_table(d).get(skill_effect_id / 10) {
                        Some(s) => skill_label(s),
                        None => (effect.comment@, Seq::empty()),
                    },
                },
            },
            None => (skill_name, Seq::empty()),
        }
    } else {
        match skill_table(d).get(skill_id) {
            Some(skill) => match skill.summon_source_skill {
                Some(summoner) => match skill_table(d).get(summoner) {
                    Some(s) => (s.name@ + " (Summon)"@, s.icon@),
                    None => (skill_name, Seq::empty()),
                },
                None => match skill.source_skill {
                    Some(source) => match skill_table(d).get(source) {
                        Some(s) => skill_label(s),
                        None => (skill_name, Seq::empty()),
                    },
                    None => skill_label(skill),
                },
            },
            None => match skill_table(d).get((skill_id - skill_id % 10) as u32) {
                Some(s) => skill_label(s),
                None => (skill_name, Seq::empty()),
            },
        }
    }
}

/// What a hit is shown as, case by case: with neither id, as "Bleed" with
/// the icon "buff_168.png"; as a battle item whose effect names an item, by
/// that item's name and icon; as a skill that was summoned, by its summoner's
/// name followed by " (Summon)" and the summoner's icon; as a skill with no
/// summoner and no source, by its own name and icon; and as a skill that the
/// table lacks, with neither it nor its id rounded down to tens known, by the
/// name the hit carried, without an icon.
pub proof fn lemma_skill_labels(d: GameData, skill_id: u32, skill_effect_id: u32, skill_name: Seq<
    char,
>)
    ensures
        skill_id == 0 && skill_effect_id == 0 ==> skill_name_and_icon(
            d,
            skill_id,
            skill_effect_id,
            skill_name,
        ) == ("Bleed"@, "buff_168.png"@),
        skill_effect_id != 0 && skill_effect_id == skill_id ==> (skill_effect_table(d).get(
            skill_effect_id,
        ) matches Some(effect) ==> (effect.item_name matches Some(item) ==> skill_name_and_icon(
            d,
            skill_id,
            skill_effect_id,
            skill_name,
        ).0 == item@)),
        skill_effect_id != skill_id ==> (skill_table(d).get(skill_id) matches Some(skill) ==> (
        skill.summon_source_skill matches Some(summoner) ==> (skill_table(d).get(summoner) matches Some(
            s,
        ) ==> skill_name_and_icon(d, skill_id, skill_effect_id, skill_name) == (s.name@
            + " (Summon)"@, s.icon@)))),
        skill_effect_id != skill_id ==> (skill_table(d).get(skill_id) matches Some(skill) ==> (
        skill.summon_source_skill is None && skill.source_skill is None ==> skill_name_and_icon(
            d,
            skill_id,
            skill_effect_id,
            skill_name,
        ) == (skill.name@, skill.icon@))),
        skill_effect_id != skill_id && !skill_table(d).contains_key(skill_id)
            && !skill_table(d).contains_key((skill_id - skill_id % 10) as u32) ==> skill_name_and_icon(
            d,
            skill_id,
            skill_effect_id,
            skill_name,
        ) == (skill_name, Seq::<char>::empty()),
{
}

fn label(s: &SkillData) -> (r: (String, String))
    ensures
        (r.0@, r.1@) == skill_label(*s),
{
    (s.name.clone(), s.icon.clone())
}

/// The name and icon shown for a hit (see `skill_name_and_icon`).
pub fn get_skill_name_and_icon(
    skill_id: &u32,
    skill_effect_id: &u32,
    skill_name: String,
    data: &GameData,
) -> (r: (String, String))
    ensures
        (r.0@, r.1@) == skill_name_and_icon(*data, *skill_id, *skill_effect_id, skill_name@),
{
    if *skill_id == 0 && *skill_effect_id == 0 {
        (owned("Bleed"), owned("buff_168.png"))
    } else if *skill_effect_id != 0 && *skill_effect_id == *skill_id {
        if let Some(effect) = data.skill_effect(*skill_effect_id) {
            if let Some(item_name) = &effect.item_name {
                let icon = match &effect.icon {
                    Some(icon) => icon.clone(),
                    None => String::new(),
                };
                return (item_name.clone(), icon);
            }
            if let Some(source_skill) = effect.source_skill {
                if let Some(skill) = data.skill(source_skill) {
                    return label(skill);
                }
            } else if let Some(skill) = data.skill(*skill_effect_id / 10) {
                return label(skill);
            }
            (effect.comment.clone(), String::new())
        } else {
            (skill_name, String::new())
        }
    } else {
        if let Some(skill) = data.skill(*skill_id) {
            if let Some(summon_source_skill) = skill.summon_source_skill {
                if let Some(summoner) = data.skill(summon_source_skill) {
                    (summoner.name.clone().concat(" (Summon)"), summoner.icon.clone())
                } else {
                    (skill_name, String::new())
                }
            } else if let Some(source_skill) = skill.source_skill {
                if let Some(source) = data.skill(source_skill) {
                    label(source)
                } else {
                    (skill_name, String::new())
                }
            } else {
                label(skill)
            }
        } else if let Some(skill) = data.skill(*skill_id - (*skill_id % 10)) {
            label(skill)
        } else {
            (skill_name, String::new())
        }
    }
}

/// The name of a skill, or the empty string for an unknown skill.
pub open spec fn skill_name_of(d: GameData, skill_id: u32) -> Seq<char> {
    match skill_table(d).get(skill_id) {
        Some(s) => s.name@,
        None => Seq::empty(),
    }
}

/// The name of a skill; empty for a skill that the table does not hold.
pub fn get_skill_name(skill_id: &u32, data: &GameData) -> (r: String)
    ensures
        r@ == skill_name_of(*data, *skill_id),
{
    match data.skill(*skill_id) {
        Some(skill) => skill.name.clone(),
        None => String::new(),
    }
}

/// A copy of the skill that the table holds under the id, if any.
pub fn get_skill(skill_id: &u32, data: &GameData) -> (r: Option<SkillData>)
    ensures
        r == skill_table(*data).get(*skill_id),
{
    match data.skill(*skill_id) {
        Some(skill) => Some(skill.clone()),
        None => None,
    }
}

/// A skill effect is a battle item that attacks: its item category says so.
pub open spec fn is_attack_battle_item(d: GameData, skill_effect_id: u32) -> bool {
    match skill_effect_table(d).get(skill_effect_id) {
        Some(item) => match item.item_category {
            Some(category) => category@ == "useup_battle_item_common_attack"@,
            None => false,
        },
        None => false,
    }
}

/// Whether the skill effect is an attacking battle item.  The item type is
/// not consulted.
pub fn is_battle_item(skill_effect_id: u32, _item_type: &str, data: &GameData) -> (r: bool)
    ensures
        r == is_attack_battle_item(*data, skill_effect_id),
{
    if let Some(item) = data.skill_effect(skill_effect_id) {
        if let Some(category) = &item.item_category {
            return is_text(category, "useup_battle_item_common_attack");
        }
    }
    false
}

} // verus!
