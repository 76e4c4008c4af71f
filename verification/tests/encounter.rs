use loa_parser::encounter::{
    add_unfinished_stagger, card_draws, damage_per_second, encounter_duration, gem_level,
    identity_gain, is_stored_entity, rolling_dps, stagger_totals, GemLevel,
};
use loa_parser::encounter::{identity_gauge_max, identity_kind, IdentityKind};
use loa_parser::encounter::{card_draw_counts, damage_series, DamageSeries};
use loa_parser::encounter::{
    encounter_notes, records_identity, settle_skills, stagger_summary, StaggerSummary,
};
use loa_parser::model::{EncounterEntity, EntityType, Gem, Skill};

#[test]
fn duration_and_dps() {
    assert_eq!(encounter_duration(1_000, 61_500), (60_500, 60));
    assert_eq!(encounter_duration(1_000, 1_500), (500, 1));
    assert_eq!(encounter_duration(1_000, 1_000), (0, 1));
    assert_eq!(encounter_duration(5_000, 1_000), (-4_000, 1));
    assert_eq!(damage_per_second(1_000_000, 60), 16_666);
    assert_eq!(damage_per_second(-7, 2), -3);
}

#[test]
fn unfinished_stagger_added() {
    let mut v = vec![(10, 500)];
    add_unfinished_stagger(&mut v, 40, 300, 1000, 20_000, 5_000);
    // started at second 15, last log at second 40
    assert_eq!(v, vec![(10, 500), (25, 300)]);
    let mut v = vec![];
    add_unfinished_stagger(&mut v, 40, 1000, 1000, 20_000, 5_000);
    assert!(v.is_empty());
    add_unfinished_stagger(&mut v, 40, 0, 1000, 20_000, 5_000);
    assert!(v.is_empty());
    add_unfinished_stagger(&mut v, 15, 300, 1000, 20_000, 5_000);
    assert!(v.is_empty());
}

#[test]
fn stagger_sums() {
    assert_eq!(stagger_totals(&vec![]), Some((0, 0)));
    assert_eq!(stagger_totals(&vec![(10, 500), (25, 300), (1, 1)]), Some((36, 801)));
    assert_eq!(stagger_totals(&vec![(i32::MAX, 1), (1, 1)]), None);
    assert_eq!(stagger_totals(&vec![(1, i32::MIN), (1, -1)]), None);
}

#[test]
fn stagger_summaries() {
    // no stagger log: no statistics, and the intervals stay as they are
    let mut v = vec![(10, 500)];
    assert_eq!(stagger_summary(&mut v, None, 300, 1000, 20_000, 5_000), StaggerSummary::Absent);
    assert_eq!(v, vec![(10, 500)]);
    // the unfinished stagger is added before the totals are taken
    let mut v = vec![(10, 500)];
    assert_eq!(
        stagger_summary(&mut v, Some(40), 300, 1000, 20_000, 5_000),
        StaggerSummary::Totals(35, 800)
    );
    assert_eq!(v, vec![(10, 500), (25, 300)]);
    // no stagger time: no statistics
    let mut v = vec![];
    assert_eq!(stagger_summary(&mut v, Some(40), 0, 1000, 20_000, 5_000), StaggerSummary::Absent);
    let mut v = vec![(0, 500)];
    assert_eq!(stagger_summary(&mut v, Some(40), 0, 1000, 20_000, 5_000), StaggerSummary::Absent);
    let mut v = vec![(i32::MAX, 1), (1, 1)];
    assert_eq!(stagger_summary(&mut v, Some(40), 0, 1000, 20_000, 5_000), StaggerSummary::TooLarge);
}

fn skill(id: u32, total_damage: i64) -> Skill {
    Skill { id, total_damage, dps: 0, cast_log: vec![], gem_damage: None, gem_cooldown: Some(1) }
}

#[test]
fn skills_settled() {
    let skills = vec![skill(1, 1_000), skill(2, 90), skill(3, 7)];
    let gems = vec![
        Gem { skill_id: 1, gem_type: 5, value: 2400 },
        Gem { skill_id: 1, gem_type: 5, value: 3000 },
        Gem { skill_id: 2, gem_type: 27, value: 2000 },
        Gem { skill_id: 3, gem_type: 34, value: 2000 },
        Gem { skill_id: 9, gem_type: 5, value: 2400 },
    ];
    let casts = vec![(2, vec![1, 5, 9]), (8, vec![4])];
    let r = settle_skills(skills, &gems, &casts, 10);
    assert_eq!(r.len(), 3);
    // the last damage gem for a skill wins
    assert_eq!((r[0].id, r[0].dps, r[0].gem_damage, r[0].gem_cooldown), (1, 100, Some(9), Some(1)));
    assert!(r[0].cast_log.is_empty());
    assert_eq!((r[1].id, r[1].dps, r[1].gem_damage, r[1].gem_cooldown), (2, 9, None, Some(10)));
    assert_eq!(r[1].cast_log, vec![1, 5, 9]);
    assert_eq!((r[2].id, r[2].dps, r[2].gem_damage, r[2].gem_cooldown), (3, 0, None, Some(1)));
    assert_eq!(r[2].total_damage, 7);
}

#[test]
fn identity_recorded_for_local_player_only() {
    let me = "Me".to_string();
    assert!(records_identity(&me, &me, 2));
    assert!(!records_identity(&me, &me, 1));
    assert!(!records_identity(&"Other".to_string(), &me, 5));
}

#[test]
fn notes_of_an_encounter() {
    let n = encounter_notes(false, vec![], None, "1.2".to_string());
    assert_eq!(n.raid_clear, None);
    assert!(n.party_info.is_none());
    assert_eq!(n.region, None);
    assert_eq!(n.version, Some("1.2".to_string()));
    let parties = vec![vec!["A".to_string()], vec!["B".to_string(), "C".to_string()]];
    let n = encounter_notes(true, parties, Some("EU".to_string()), "1.2".to_string());
    assert_eq!(n.raid_clear, Some(true));
    assert_eq!(
        n.party_info,
        Some(vec![(0, vec!["A".to_string()]), (1, vec!["B".to_string(), "C".to_string()])])
    );
    assert_eq!(n.region, Some("EU".to_string()));
}

fn record(t: EntityType, class_id: u32, max_hp: i64, name: &str, damage: i64) -> EncounterEntity {
    let mut r = EncounterEntity::default();
    r.entity_type = t;
    r.class_id = class_id;
    r.max_hp = max_hp;
    r.name = name.to_string();
    r.damage_dealt = damage;
    r
}

#[test]
fn stored_entities() {
    let me = "Me".to_string();
    assert!(is_stored_entity(&record(EntityType::Player, 102, 100, "A", 1), &me));
    assert!(!is_stored_entity(&record(EntityType::Player, 0, 100, "A", 1), &me));
    assert!(!is_stored_entity(&record(EntityType::Player, 102, 0, "A", 1), &me));
    assert!(is_stored_entity(&record(EntityType::Player, 0, 0, "Me", 1), &me));
    assert!(!is_stored_entity(&record(EntityType::Player, 102, 100, "Me", 0), &me));
    assert!(is_stored_entity(&record(EntityType::Esther, 0, 0, "E", 5), &me));
    assert!(is_stored_entity(&record(EntityType::Boss, 0, 9, "B", 5), &me));
    assert!(!is_stored_entity(&record(EntityType::Boss, 0, 0, "B", 5), &me));
    assert!(!is_stored_entity(&record(EntityType::Monster, 0, 9, "M", 5), &me));
}

#[test]
fn rolling_dps_over_ten_seconds() {
    let log: Vec<(i64, i64)> = vec![(10_000, 100), (12_000, 200), (16_000, 300), (20_500, 1000)];
    let r = rolling_dps(&log, 10_000, 13_000);
    // windows [5000, 15000], [6000, 16000], [7000, 17000]
    assert_eq!(r, Some(vec![30, 60, 60]));
    assert_eq!(rolling_dps(&log, 10_000, 10_000), Some(Vec::<i64>::new()));
}

#[test]
fn rolling_dps_refuses_windows_it_cannot_sum() {
    let overflow: Vec<(i64, i64)> = vec![(10_000, i64::MAX), (10_001, 1)];
    assert_eq!(rolling_dps(&overflow, 10_000, 11_000), None);
    // out of time order: each window is where the binary searches end
    let unordered: Vec<(i64, i64)> = vec![(20_000, 10), (0, 20), (0, 30)];
    assert_eq!(rolling_dps(&unordered, 10_000, 11_000), Some(vec![0]));
}

#[test]
fn identity_gains() {
    assert_eq!(identity_gain(&vec![]), Some(0));
    assert_eq!(identity_gain(&vec![(0, 5)]), Some(0));
    assert_eq!(identity_gain(&vec![(0, 5), (1, 10), (1, 50), (2, 20), (3, 40)]), Some(25));
    assert_eq!(identity_gain(&vec![(0, 0), (1, u32::MAX), (2, 0), (3, 1)]), None);
    assert_eq!(identity_gain(&vec![(0, 0), (1, u32::MAX), (2, 0)]), Some(u32::MAX));
}

#[test]
fn arcanist_card_draws() {
    let log = vec![
        (0, (0, 0, 0)),
        (1, (0, 7, 0)),
        (2, (0, 7, 8)),
        (3, (0, 19284, 8)),
        (4, (0, 9, 8)),
        (5, (0, 0, 3)),
    ];
    assert_eq!(card_draws(&log), vec![7, 8, 19284, 3]);
}

#[test]
fn gems() {
    assert_eq!(gem_level(5, 2400), Some(GemLevel::Damage(8)));
    assert_eq!(gem_level(27, 2000), Some(GemLevel::Cooldown(10)));
    assert_eq!(gem_level(27, 123), Some(GemLevel::Cooldown(0)));
    assert_eq!(gem_level(34, 2000), None);
}

#[test]
fn identity_kinds_and_gauges() {
    assert_eq!(identity_kind(&"Arcanist".to_string()), IdentityKind::Cards);
    assert_eq!(identity_kind(&"Bard".to_string()), IdentityKind::Bubbles);
    assert_eq!(identity_kind(&"Artist".to_string()), IdentityKind::Bubbles);
    assert_eq!(identity_kind(&"Berserker".to_string()), IdentityKind::Gauge);
    assert_eq!(identity_gauge_max(&"Summoner".to_string()), 7000);
    assert_eq!(identity_gauge_max(&"Souleater".to_string()), 3000);
    assert_eq!(identity_gauge_max(&"Bard".to_string()), 10000);
}

#[test]
fn card_draws_counted() {
    let log = vec![
        (0, (0, 0, 0)),
        (1, (0, 7, 0)),
        (2, (0, 7, 8)),
        (3, (0, 19284, 8)),
        (4, (0, 9, 8)),
        (5, (0, 7, 3)),
        (6, (0, 8, 3)),
    ];
    // draws: 7, 8, 19284, 7, 3, 8
    let mut counts = card_draw_counts(&log).unwrap();
    counts.sort();
    assert_eq!(counts, vec![(3, 1), (7, 2), (8, 2), (19284, 1)]);
    assert_eq!(card_draw_counts(&vec![(0, (0, 1, 2))]), Some(vec![]));
}

#[test]
fn damage_series_only_for_players_with_a_log() {
    let log: Vec<(i64, i64)> = vec![(10_000, 100), (12_000, 200), (16_000, 300), (20_500, 1000)];
    match damage_series(EntityType::Player, Some(&log), 10_000, 13_000) {
        DamageSeries::Recorded(rolling, average) => {
            assert_eq!(rolling, vec![30, 60, 60]);
            // seconds 10 to 13: one step, at second 10, over the first entry
            assert_eq!(average, vec![100]);
        }
        _ => panic!("expected a recorded series"),
    }
    assert!(matches!(damage_series(EntityType::Boss, Some(&log), 10_000, 13_000), DamageSeries::Absent));
    assert!(matches!(damage_series(EntityType::Player, None, 10_000, 13_000), DamageSeries::Absent));
    let overflow: Vec<(i64, i64)> = vec![(10_000, i64::MAX), (10_001, 1)];
    assert!(matches!(
        damage_series(EntityType::Player, Some(&overflow), 10_000, 11_000),
        DamageSeries::Unsummable
    ));
}
