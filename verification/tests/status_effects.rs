use loa_parser::buff_flags::{
    buff_ranges_readable, get_status_effect_buff_type_flags, try_status_effect_buff_type_flags,
    BUFF_TYPE_ATKSPEED, BUFF_TYPE_COOLDOWN, BUFF_TYPE_CRIT, BUFF_TYPE_DEFENSE, BUFF_TYPE_DMG,
    BUFF_TYPE_HP, BUFF_TYPE_MOVESPEED, BUFF_TYPE_NONE, BUFF_TYPE_RESOURCE, BUFF_TYPE_SHIELD,
    BUFF_TYPE_STAGGER,
};
use loa_parser::model::{
    CombatEffectAction, CombatEffectData, CombatEffectDetail, PassiveOption, SkillBuffData,
    SkillData, SkillEffectData, StatusEffectTarget,
};
use loa_parser::status_effect::{get_status_effect_data, try_status_effect_data};
use loa_parser::tables::GameData;

fn stats() -> Vec<(String, u32)> {
    [
        ("def", 10),
        ("phy_def", 15),
        ("magical_inc_rate", 20),
        ("move_speed", 30),
        ("move_speed_rate", 32),
        ("vehicle_move_speed_rate", 35),
        ("attack_power_sub_rate_1", 40),
        ("skill_damage_sub_rate_1", 42),
        ("skill_damage_sub_rate_2", 45),
        ("fire_dam_rate", 50),
        ("elements_dam_rate", 60),
        ("mastery", 1),
        ("rapidity", 2),
        ("max_mp", 3),
        ("con", 4),
        ("endurance", 90),
        ("attack_speed", 95),
        ("critical_hit_rate", 96),
        ("str", 97),
        ("unrelated", 99),
    ]
    .iter()
    .map(|(k, v)| (k.to_string(), *v))
    .collect()
}

fn opt(option_type: &str, key_stat: &str, key_index: u32, value: i32) -> PassiveOption {
    PassiveOption {
        option_type: option_type.to_string(),
        key_stat: key_stat.to_string(),
        key_index,
        value,
    }
}

fn buff(id: u32, buff_type: &str, category: &str, options: Vec<PassiveOption>) -> SkillBuffData {
    SkillBuffData {
        id,
        name: format!("buff {}", id),
        desc: format!("desc {}", id),
        icon: format!("icon{}.png", id),
        icon_show_type: "all".to_string(),
        category: category.to_string(),
        buff_category: "etc".to_string(),
        buff_type: buff_type.to_string(),
        target: "party".to_string(),
        unique_group: 0,
        passive_option: options,
        source_skill: None,
        set_name: None,
    }
}

fn combat_effect(id: u32, actions: &[&str]) -> (u32, CombatEffectData) {
    (
        id,
        CombatEffectData {
            id,
            effects: vec![
                CombatEffectDetail {
                    actions: actions
                        .iter()
                        .map(|a| CombatEffectAction { action_type: a.to_string() })
                        .collect(),
                },
                CombatEffectDetail { actions: vec![] },
            ],
        },
    )
}

fn skill(id: u32, name: &str) -> (u32, SkillData) {
    (
        id,
        SkillData {
            id,
            name: name.to_string(),
            desc: String::new(),
            class_id: 0,
            icon: format!("{}.png", name),
            summon_source_skill: None,
            source_skill: None,
        },
    )
}

fn data_with(buffs: Vec<SkillBuffData>) -> GameData {
    GameData::from_entries(
        vec![skill(16140, "Sword Storm"), skill(1610, "Base Skill")],
        vec![(
            32000,
            SkillEffectData {
                id: 32000,
                comment: "grenade".to_string(),
                source_skill: None,
                item_name: Some("Dark Grenade".to_string()),
                item_desc: Some("Explodes.".to_string()),
                item_category: Some("useup_battle_item_common_attack".to_string()),
                icon: Some("grenade.png".to_string()),
            },
        )],
        buffs.into_iter().map(|b| (b.id, b)).collect(),
        vec![combat_effect(7, &["modify_damage", "modify_critical_ratio", "other"]), combat_effect(8, &["other"])],
        vec![],
        stats(),
    )
}

fn flags(b: SkillBuffData) -> u32 {
    let d = data_with(vec![]);
    get_status_effect_buff_type_flags(&b, &d)
}

#[test]
fn flags_from_buff_type() {
    assert_eq!(flags(buff(1, "weaken_defense", "debuff", vec![])), BUFF_TYPE_DMG);
    assert_eq!(flags(buff(1, "instant_stat_amplify_by_contents", "buff", vec![])), BUFF_TYPE_DMG);
    assert_eq!(flags(buff(1, "all_speed_down", "debuff", vec![])), BUFF_TYPE_MOVESPEED);
    assert_eq!(flags(buff(1, "reset_cooldown", "buff", vec![])), BUFF_TYPE_COOLDOWN);
    assert_eq!(flags(buff(1, "ai_point_amplify", "buff", vec![])), BUFF_TYPE_STAGGER);
    assert_eq!(flags(buff(1, "increase_identity_gauge", "buff", vec![])), BUFF_TYPE_RESOURCE);
    assert_eq!(flags(buff(1, "something_else", "buff", vec![])), BUFF_TYPE_NONE);
}

#[test]
fn flags_from_stat_options() {
    let f = |o: PassiveOption, category: &str| flags(buff(1, "x", category, vec![o]));
    assert_eq!(f(opt("stat", "rapidity", 0, 10), "buff"), BUFF_TYPE_COOLDOWN | BUFF_TYPE_ATKSPEED);
    assert_eq!(f(opt("stat", "mastery", 0, 10), "buff"), BUFF_TYPE_STAGGER);
    assert_eq!(f(opt("stat", "max_mp", 0, 10), "buff"), BUFF_TYPE_RESOURCE);
    assert_eq!(f(opt("stat", "con", 0, 10), "buff"), BUFF_TYPE_HP);
    assert_eq!(f(opt("stat", "phy_def", 0, 5), "buff"), BUFF_TYPE_DMG);
    assert_eq!(f(opt("stat", "phy_def", 0, 5), "debuff"), BUFF_TYPE_DEFENSE);
    assert_eq!(f(opt("stat", "phy_def", 0, -5), "debuff"), BUFF_TYPE_DMG);
    assert_eq!(f(opt("stat", "endurance", 0, -1), "debuff"), BUFF_TYPE_DMG);
    assert_eq!(f(opt("stat", "move_speed_rate", 0, 3), "buff"), BUFF_TYPE_MOVESPEED);
    assert_eq!(f(opt("stat", "skill_damage_sub_rate_1", 0, -3), "buff"), BUFF_TYPE_DEFENSE);
    assert_eq!(f(opt("stat", "critical_hit_rate", 0, 1), "buff"), BUFF_TYPE_CRIT);
    assert_eq!(f(opt("stat", "attack_speed", 0, 1), "buff"), BUFF_TYPE_ATKSPEED);
    assert_eq!(f(opt("stat", "str", 0, 1), "buff"), BUFF_TYPE_DMG);
    assert_eq!(f(opt("stat", "unrelated", 0, 1), "buff"), BUFF_TYPE_NONE);
    assert_eq!(f(opt("stat", "nonexistent", 0, 1), "buff"), BUFF_TYPE_NONE);
}

#[test]
fn flags_from_other_options() {
    let f = |o: PassiveOption, category: &str| flags(buff(1, "x", category, vec![o]));
    assert_eq!(f(opt("skill_critical_ratio", "", 0, 1), "buff"), BUFF_TYPE_CRIT);
    assert_eq!(f(opt("skill_damage", "", 0, 1), "buff"), BUFF_TYPE_DMG);
    assert_eq!(f(opt("skill_penetration", "", 0, 1), "other"), BUFF_TYPE_DEFENSE);
    assert_eq!(f(opt("skill_group_cooldown_reduction", "", 0, 1), "buff"), BUFF_TYPE_COOLDOWN);
    assert_eq!(f(opt("mana_reduction", "", 0, 1), "buff"), BUFF_TYPE_RESOURCE);
    assert_eq!(f(opt("combat_effect", "", 7, 0), "buff"), BUFF_TYPE_DMG | BUFF_TYPE_CRIT);
    assert_eq!(f(opt("combat_effect", "", 8, 0), "buff"), BUFF_TYPE_NONE);
    assert_eq!(f(opt("combat_effect", "", 9, 0), "buff"), BUFF_TYPE_NONE);
    assert_eq!(f(opt("unknown_option", "", 0, 0), "buff"), BUFF_TYPE_NONE);
}

#[test]
fn flags_combine_type_and_options() {
    let b = buff(
        1,
        "increase_identity_gauge",
        "buff",
        vec![opt("skill_cooldown_reduction", "", 0, 1), opt("stat", "con", 0, 3), opt("combat_effect", "", 7, 0)],
    );
    assert_eq!(
        flags(b),
        BUFF_TYPE_RESOURCE | BUFF_TYPE_COOLDOWN | BUFF_TYPE_HP | BUFF_TYPE_DMG | BUFF_TYPE_CRIT
    );
}

#[test]
fn flags_stay_below_shield() {
    let all = vec![
        opt("stat", "rapidity", 0, 10),
        opt("stat", "mastery", 0, 10),
        opt("stat", "max_mp", 0, 10),
        opt("stat", "con", 0, 10),
        opt("stat", "phy_def", 0, 5),
        opt("stat", "move_speed_rate", 0, 3),
        opt("stat", "skill_damage_sub_rate_1", 0, -3),
        opt("combat_effect", "", 7, 0),
    ];
    let f = flags(buff(1, "weaken_defense", "buff", all));
    assert!(f < BUFF_TYPE_SHIELD);
    assert_eq!(f, 0x1ff);
}

#[test]
fn flags_need_stat_ranges_only_when_read() {
    let d = GameData::from_entries(
        vec![],
        vec![],
        vec![],
        vec![],
        vec![],
        vec![("def".to_string(), 1), ("rapidity".to_string(), 2), ("phy_def".to_string(), 3)],
    );
    let plain = buff(1, "weaken_defense", "buff", vec![]);
    assert!(buff_ranges_readable(&plain, &d));
    assert_eq!(try_status_effect_buff_type_flags(&plain, &d), Some(BUFF_TYPE_DMG));
    let by_name = buff(1, "x", "buff", vec![opt("stat", "rapidity", 0, 1)]);
    assert!(buff_ranges_readable(&by_name, &d));
    assert_eq!(
        try_status_effect_buff_type_flags(&by_name, &d),
        Some(BUFF_TYPE_COOLDOWN | BUFF_TYPE_ATKSPEED)
    );
    let unknown_stat = buff(1, "x", "buff", vec![opt("stat", "nonexistent", 0, 1)]);
    assert_eq!(try_status_effect_buff_type_flags(&unknown_stat, &d), Some(BUFF_TYPE_NONE));
    // "def" is below "phy_def", so the defense range's upper bound is read, and it is missing
    let by_range = buff(1, "x", "buff", vec![opt("stat", "phy_def", 0, 1)]);
    assert!(!buff_ranges_readable(&by_range, &d));
    assert!(try_status_effect_buff_type_flags(&by_range, &d).is_none());
    let d = data_with(vec![]);
    assert!(buff_ranges_readable(&by_range, &d));
    assert_eq!(try_status_effect_buff_type_flags(&by_range, &d), Some(BUFF_TYPE_DMG));
}

#[test]
fn upper_bounds_are_read_only_when_the_stat_reaches_the_lower_ones() {
    // a stat below every lower bound: only the lower bounds are read
    let d = GameData::from_entries(
        vec![],
        vec![],
        vec![],
        vec![],
        vec![],
        vec![
            ("def".to_string(), 10),
            ("move_speed".to_string(), 20),
            ("attack_power_sub_rate_1".to_string(), 30),
            ("fire_dam_rate".to_string(), 40),
            ("str".to_string(), 1),
            ("high".to_string(), 50),
        ],
    );
    let b = buff(1, "x", "buff", vec![opt("stat", "str", 0, 1)]);
    assert!(buff_ranges_readable(&b, &d));
    assert_eq!(get_status_effect_buff_type_flags(&b, &d), BUFF_TYPE_DMG);
    // a stat above "def" reads "magical_inc_rate", which is missing
    let b = buff(1, "x", "buff", vec![opt("stat", "high", 0, 1)]);
    assert!(!buff_ranges_readable(&b, &d));
    assert!(try_status_effect_buff_type_flags(&b, &d).is_none());
}

#[test]
fn joined_options_give_the_union_of_flags() {
    let d = data_with(vec![]);
    let o1 = || vec![opt("stat", "mastery", 0, 1), opt("skill_critical_ratio", "", 0, 1)];
    let o2 = || vec![opt("stat", "max_mp", 0, 1), opt("stat", "phy_def", 0, -1)];
    let joined = |a: Vec<PassiveOption>, b: Vec<PassiveOption>| {
        let mut v = a;
        v.extend(b);
        v
    };
    let b1 = buff(1, "reset_cooldown", "buff", o1());
    let b2 = buff(1, "reset_cooldown", "buff", o2());
    let b = buff(1, "reset_cooldown", "buff", joined(o1(), o2()));
    let reversed = buff(1, "reset_cooldown", "buff", joined(o2(), o1()));
    let f = get_status_effect_buff_type_flags(&b, &d);
    assert_eq!(
        f,
        get_status_effect_buff_type_flags(&b1, &d) | get_status_effect_buff_type_flags(&b2, &d)
    );
    assert_eq!(f, get_status_effect_buff_type_flags(&reversed, &d));
    assert_eq!(
        f,
        BUFF_TYPE_COOLDOWN | BUFF_TYPE_STAGGER | BUFF_TYPE_CRIT | BUFF_TYPE_RESOURCE | BUFF_TYPE_DEFENSE
    );
}

#[test]
fn flagless_options_change_nothing() {
    let d = data_with(vec![]);
    let base = || vec![opt("stat", "mastery", 0, 1)];
    let f = get_status_effect_buff_type_flags(&buff(1, "x", "buff", base()), &d);
    for extra in [
        opt("no_such_type", "str", 7, 1),
        opt("stat", "nonexistent", 0, 1),
        opt("combat_effect", "", 123456, 0),
    ] {
        let mut options = base();
        options.push(extra);
        assert_eq!(get_status_effect_buff_type_flags(&buff(1, "x", "buff", options), &d), f);
    }
}

#[test]
fn hidden_and_unknown_buffs_have_no_status_effect() {
    let mut hidden = buff(1001, "x", "buff", vec![]);
    hidden.icon_show_type = "none".to_string();
    let d = data_with(vec![hidden]);
    assert!(get_status_effect_data(1001, &d).is_none());
    assert!(get_status_effect_data(1002, &d).is_none());
}

#[test]
fn plain_status_effect() {
    let mut b = buff(1003, "weaken_defense", "debuff", vec![]);
    b.target = "none".to_string();
    let d = data_with(vec![b]);
    let e = get_status_effect_data(1003, &d).unwrap();
    assert_eq!(e.target, StatusEffectTarget::Other);
    assert_eq!(e.category, "debuff");
    assert_eq!(e.buff_category, "etc");
    assert_eq!(e.buff_type, BUFF_TYPE_DMG);
    assert_eq!(e.source.name, "buff 1003");
    assert_eq!(e.source.desc, "desc 1003");
    assert_eq!(e.source.icon, "icon1003.png");
    assert!(e.source.skill.is_none());
    assert!(e.source.set_name.is_none());
}

#[test]
fn ether_drops_get_their_own_category() {
    let mut b = buff(501010, "x", "buff", vec![]);
    b.buff_category = "ability".to_string();
    b.unique_group = 503;
    b.target = "self".to_string();
    let mut c = buff(501011, "x", "buff", vec![]);
    c.buff_category = "ability".to_string();
    c.unique_group = 506;
    let d = data_with(vec![b, c]);
    let e = get_status_effect_data(501010, &d).unwrap();
    assert_eq!(e.buff_category, "dropsofether");
    assert_eq!(e.target, StatusEffectTarget::OnSelf);
    assert!(e.source.skill.is_none());
    let e = get_status_effect_data(501011, &d).unwrap();
    assert_eq!(e.buff_category, "ability");
    assert_eq!(e.target, StatusEffectTarget::Party);
    assert!(e.source.skill.is_none());
}

#[test]
fn class_buffs_show_their_source_skill() {
    let mut named = buff(2001, "x", "buff", vec![]);
    named.buff_category = "classskill".to_string();
    named.source_skill = Some(16140);
    let mut named_missing = buff(2002, "x", "buff", vec![]);
    named_missing.buff_category = "identity".to_string();
    named_missing.source_skill = Some(5);
    let mut by_id = buff(161400, "x", "buff", vec![]);
    by_id.buff_category = "classskill".to_string();
    let mut by_hundreds = buff(16155, "x", "buff", vec![]);
    by_hundreds.buff_category = "identity".to_string();
    let mut by_group = buff(999999, "x", "buff", vec![]);
    by_group.buff_category = "ability".to_string();
    by_group.unique_group = 161400;
    let d = data_with(vec![named, named_missing, by_id, by_hundreds, by_group]);
    assert_eq!(get_status_effect_data(2001, &d).unwrap().source.skill.unwrap().name, "Sword Storm");
    assert!(get_status_effect_data(2002, &d).unwrap().source.skill.is_none());
    assert_eq!(get_status_effect_data(161400, &d).unwrap().source.skill.unwrap().name, "Sword Storm");
    assert_eq!(get_status_effect_data(16155, &d).unwrap().source.skill.unwrap().name, "Base Skill");
    assert_eq!(get_status_effect_data(999999, &d).unwrap().source.skill.unwrap().name, "Sword Storm");
}

#[test]
fn set_buffs_show_their_set() {
    let mut b = buff(3001, "x", "buff", vec![]);
    b.buff_category = "set".to_string();
    b.set_name = Some("Hallucination".to_string());
    let d = data_with(vec![b]);
    let e = get_status_effect_data(3001, &d).unwrap();
    assert_eq!(e.source.set_name, Some("Hallucination".to_string()));
    assert!(e.source.skill.is_none());
}

#[test]
fn battle_item_buffs_show_the_item() {
    let mut b = buff(32000, "x", "buff", vec![]);
    b.buff_category = "battleitem".to_string();
    let mut c = buff(32001, "x", "buff", vec![]);
    c.buff_category = "battleitem".to_string();
    let d = data_with(vec![b, c]);
    let e = get_status_effect_data(32000, &d).unwrap();
    assert_eq!(e.source.name, "Dark Grenade");
    assert_eq!(e.source.desc, "Explodes.");
    assert_eq!(e.source.icon, "grenade.png");
    let e = get_status_effect_data(32001, &d).unwrap();
    assert_eq!(e.source.name, "buff 32001");
}

#[test]
fn status_effect_needs_stat_ranges_only_when_read() {
    let d = GameData::from_entries(
        vec![],
        vec![],
        vec![
            (1, buff(1, "x", "buff", vec![])),
            (2, buff(2, "x", "buff", vec![opt("stat", "phy_def", 0, 1)])),
        ],
        vec![],
        vec![],
        vec![("phy_def".to_string(), 3)],
    );
    assert!(try_status_effect_data(1, &d).unwrap().is_some());
    assert!(try_status_effect_data(2, &d).is_none());
    assert!(try_status_effect_data(3, &d).unwrap().is_none());
    let d = data_with(vec![buff(2, "x", "buff", vec![opt("stat", "phy_def", 0, 1)])]);
    assert!(try_status_effect_data(2, &d).unwrap().is_some());
}
