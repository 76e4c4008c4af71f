use loa_parser::model::{SkillData, SkillEffectData};
use loa_parser::skills::{get_skill, get_skill_name, get_skill_name_and_icon, is_battle_item};
use loa_parser::tables::GameData;

fn skill(id: u32, name: &str, icon: &str, summon: Option<u32>, source: Option<u32>) -> (u32, SkillData) {
    (
        id,
        SkillData {
            id,
            name: name.to_string(),
            desc: String::new(),
            class_id: 102,
            icon: icon.to_string(),
            summon_source_skill: summon,
            source_skill: source,
        },
    )
}

fn effect(
    id: u32,
    comment: &str,
    source: Option<u32>,
    item_name: Option<&str>,
    icon: Option<&str>,
    category: Option<&str>,
) -> (u32, SkillEffectData) {
    (
        id,
        SkillEffectData {
            id,
            comment: comment.to_string(),
            source_skill: source,
            item_name: item_name.map(|s| s.to_string()),
            item_desc: None,
            item_category: category.map(|s| s.to_string()),
            icon: icon.map(|s| s.to_string()),
        },
    )
}

fn data() -> GameData {
    GameData::from_entries(
        vec![
            skill(16140, "Sword Storm", "sword.png", None, None),
            skill(16150, "Summoned Wolf", "wolf.png", Some(16140), None),
            skill(16160, "Aftershock", "after.png", None, Some(16140)),
            skill(16170, "Orphan Summon", "orphan.png", Some(1), None),
            skill(16180, "Orphan Part", "part.png", None, Some(2)),
            skill(3000, "Effect Base", "base.png", None, None),
            skill(700, "Old Name", "old.png", None, None),
            skill(700, "New Name", "new.png", None, None),
        ],
        vec![
            effect(32000, "bomb comment", None, Some("Dark Grenade"), Some("grenade.png"), Some("useup_battle_item_common_attack")),
            effect(32001, "potion", None, Some("HP Potion"), None, Some("useup_battle_item_common_recovery")),
            effect(30005, "effect comment", None, None, None, None),
            effect(40000, "sourced", Some(16140), None, None, None),
            effect(40001, "lost source", Some(9), None, None, None),
            effect(50005, "no category", None, None, None, None),
        ],
        vec![],
        vec![],
        vec![],
        vec![],
    )
}

#[test]
fn bleed_has_no_ids() {
    let d = data();
    let (name, icon) = get_skill_name_and_icon(&0, &0, "anything".to_string(), &d);
    assert_eq!(name, "Bleed");
    assert_eq!(icon, "buff_168.png");
}

#[test]
fn battle_item_effect_named_by_item() {
    let d = data();
    assert_eq!(
        get_skill_name_and_icon(&32000, &32000, "x".to_string(), &d),
        ("Dark Grenade".to_string(), "grenade.png".to_string())
    );
    assert_eq!(
        get_skill_name_and_icon(&32001, &32001, "x".to_string(), &d),
        ("HP Potion".to_string(), "".to_string())
    );
}

#[test]
fn effect_named_by_its_source_skill() {
    let d = data();
    assert_eq!(
        get_skill_name_and_icon(&40000, &40000, "x".to_string(), &d),
        ("Sword Storm".to_string(), "sword.png".to_string())
    );
    assert_eq!(
        get_skill_name_and_icon(&40001, &40001, "x".to_string(), &d),
        ("lost source".to_string(), "".to_string())
    );
    assert_eq!(
        get_skill_name_and_icon(&30005, &30005, "x".to_string(), &d),
        ("Effect Base".to_string(), "base.png".to_string())
    );
    assert_eq!(
        get_skill_name_and_icon(&50005, &50005, "x".to_string(), &d),
        ("no category".to_string(), "".to_string())
    );
    assert_eq!(
        get_skill_name_and_icon(&77777, &77777, "carried".to_string(), &d),
        ("carried".to_string(), "".to_string())
    );
}

#[test]
fn skills_named_by_summoner_or_source() {
    let d = data();
    assert_eq!(
        get_skill_name_and_icon(&16150, &0, "x".to_string(), &d),
        ("Sword Storm (Summon)".to_string(), "sword.png".to_string())
    );
    assert_eq!(
        get_skill_name_and_icon(&16160, &0, "x".to_string(), &d),
        ("Sword Storm".to_string(), "sword.png".to_string())
    );
    assert_eq!(
        get_skill_name_and_icon(&16140, &5, "x".to_string(), &d),
        ("Sword Storm".to_string(), "sword.png".to_string())
    );
    assert_eq!(
        get_skill_name_and_icon(&16170, &0, "carried".to_string(), &d),
        ("carried".to_string(), "".to_string())
    );
    assert_eq!(
        get_skill_name_and_icon(&16180, &0, "carried".to_string(), &d),
        ("carried".to_string(), "".to_string())
    );
}

#[test]
fn unknown_skill_looked_up_without_last_digit() {
    let d = data();
    assert_eq!(
        get_skill_name_and_icon(&16147, &0, "x".to_string(), &d),
        ("Sword Storm".to_string(), "sword.png".to_string())
    );
    assert_eq!(
        get_skill_name_and_icon(&99999, &0, "carried".to_string(), &d),
        ("carried".to_string(), "".to_string())
    );
}

#[test]
fn skill_names_and_copies() {
    let d = data();
    assert_eq!(get_skill_name(&16140, &d), "Sword Storm");
    assert_eq!(get_skill_name(&1, &d), "");
    let s = get_skill(&16150, &d).unwrap();
    assert_eq!(s.name, "Summoned Wolf");
    assert_eq!(s.summon_source_skill, Some(16140));
    assert!(get_skill(&2, &d).is_none());
}

#[test]
fn later_table_entry_replaces_earlier() {
    let d = data();
    assert_eq!(get_skill_name(&700, &d), "New Name");
}

#[test]
fn battle_items_that_attack() {
    let d = data();
    assert!(is_battle_item(32000, "anything", &d));
    assert!(!is_battle_item(32001, "anything", &d));
    assert!(!is_battle_item(50005, "", &d));
    assert!(!is_battle_item(1, "", &d));
}
