use loa_parser::classes::{
    cooldown_gem_value_to_level, damage_gem_value_to_level, get_class_from_id, is_class_engraving,
    is_support_class_id,
};

#[test]
fn class_names_of_known_ids() {
    assert_eq!(get_class_from_id(&0), "");
    assert_eq!(get_class_from_id(&101), "Warrior (Male)");
    assert_eq!(get_class_from_id(&102), "Berserker");
    assert_eq!(get_class_from_id(&105), "Paladin");
    assert_eq!(get_class_from_id(&204), "Bard");
    assert_eq!(get_class_from_id(&301), "Martial Artist (Female)");
    assert_eq!(get_class_from_id(&512), "Gunslinger");
    assert_eq!(get_class_from_id(&602), "Artist");
    assert_eq!(get_class_from_id(&604), "Alchemist");
}

#[test]
fn class_name_of_unknown_id() {
    assert_eq!(get_class_from_id(&106), "Unknown");
    assert_eq!(get_class_from_id(&999), "Unknown");
    assert_eq!(get_class_from_id(&u32::MAX), "Unknown");
}

#[test]
fn support_classes() {
    assert!(is_support_class_id(105));
    assert!(is_support_class_id(204));
    assert!(is_support_class_id(602));
    assert!(!is_support_class_id(102));
    assert!(!is_support_class_id(0));
    for id in [105u32, 204, 602] {
        let name = get_class_from_id(&id);
        assert!(name == "Paladin" || name == "Bard" || name == "Artist");
    }
}

#[test]
fn class_engravings_belong_to_one_class() {
    assert!(is_class_engraving(102, 125));
    assert!(is_class_engraving(102, 188));
    assert!(!is_class_engraving(103, 125));
    assert!(is_class_engraving(302, 127));
    assert!(is_class_engraving(503, 129));
    assert!(is_class_engraving(603, 308));
    assert!(!is_class_engraving(102, 999));
    assert!(!is_class_engraving(0, 118));
    for e in 0u32..400 {
        let owners: Vec<u32> = (0u32..700).filter(|c| is_class_engraving(*c, e)).collect();
        assert!(owners.len() <= 1);
        for c in owners {
            let name = get_class_from_id(&c);
            assert!(name != "" && name != "Unknown");
        }
    }
}

#[test]
fn damage_gem_levels() {
    assert_eq!(damage_gem_value_to_level(4000), 10);
    assert_eq!(damage_gem_value_to_level(3000), 9);
    assert_eq!(damage_gem_value_to_level(2400), 8);
    assert_eq!(damage_gem_value_to_level(2100), 7);
    assert_eq!(damage_gem_value_to_level(300), 1);
    assert_eq!(damage_gem_value_to_level(301), 0);
    assert_eq!(damage_gem_value_to_level(0), 0);
}

#[test]
fn cooldown_gem_levels() {
    assert_eq!(cooldown_gem_value_to_level(2000), 10);
    assert_eq!(cooldown_gem_value_to_level(1800), 9);
    assert_eq!(cooldown_gem_value_to_level(200), 1);
    assert_eq!(cooldown_gem_value_to_level(2200), 0);
    assert_eq!(cooldown_gem_value_to_level(300), 0);
}

#[test]
fn gem_levels_rise_with_value() {
    let mut last = 0;
    for v in 0u32..5000 {
        let l = damage_gem_value_to_level(v);
        if l > 0 {
            assert!(l > last);
            last = l;
        }
    }
    assert_eq!(last, 10);
}

#[test]
fn each_class_has_two_or_no_engravings() {
    let with_engravings = [
        102u32, 103, 104, 105, 112, 202, 203, 204, 205, 302, 303, 304, 305, 312, 313, 402, 403,
        404, 405, 502, 503, 504, 505, 512, 602, 603,
    ];
    for c in 0u32..700 {
        let count = (0u32..1000).filter(|e| is_class_engraving(c, *e)).count();
        assert_eq!(count, if with_engravings.contains(&c) { 2 } else { 0 });
    }
}
