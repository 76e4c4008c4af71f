use loa_parser::entity::{
    check_tripod_index_change, check_tripod_level_change, encounter_entity_from_entity,
    update_player_entity,
};
use loa_parser::model::{EncounterEntity, Entity, EntityType, TripodIndex, TripodLevel};

fn entity(character_id: u64) -> Entity {
    Entity {
        id: 77,
        entity_type: EntityType::Player,
        name: "Ayla".to_string(),
        npc_id: 0,
        class_id: 204,
        gear_level_bits: 1620.5f32.to_bits(),
        character_id,
    }
}

#[test]
fn record_from_entity() {
    let r = encounter_entity_from_entity(&entity(9001));
    assert_eq!(r.id, 77);
    assert_eq!(r.character_id, 9001);
    assert_eq!(r.name, "Ayla");
    assert_eq!(r.entity_type, EntityType::Player);
    assert_eq!(r.class_id, 204);
    assert_eq!(r.class, "Bard");
    assert_eq!(f32::from_bits(r.gear_score_bits), 1620.5);
    assert_eq!(r.max_hp, 0);
    assert_eq!(r.damage_dealt, 0);
    assert!(!r.is_dead);
}

#[test]
fn record_without_character_id() {
    let r = encounter_entity_from_entity(&entity(0));
    assert_eq!(r.character_id, 0);
}

#[test]
fn update_refreshes_identity_only() {
    let mut r = EncounterEntity::default();
    r.damage_dealt = 500;
    r.max_hp = 1000;
    r.npc_id = 3;
    r.entity_type = EntityType::Esther;
    let mut e = entity(42);
    e.class_id = 102;
    e.name = "Kai".to_string();
    update_player_entity(&mut r, &e);
    assert_eq!(r.id, 77);
    assert_eq!(r.character_id, 42);
    assert_eq!(r.name, "Kai");
    assert_eq!(r.class, "Berserker");
    assert_eq!(r.damage_dealt, 500);
    assert_eq!(r.max_hp, 1000);
    assert_eq!(r.npc_id, 3);
    assert_eq!(r.entity_type, EntityType::Esther);
}

#[test]
fn update_with_source_changes_nothing() {
    let e = entity(5);
    let made = encounter_entity_from_entity(&e);
    let mut refreshed = encounter_entity_from_entity(&e);
    update_player_entity(&mut refreshed, &e);
    assert_eq!(made.id, refreshed.id);
    assert_eq!(made.character_id, refreshed.character_id);
    assert_eq!(made.name, refreshed.name);
    assert_eq!(made.class, refreshed.class);
    assert_eq!(made.gear_score_bits, refreshed.gear_score_bits);
}

#[test]
fn tripod_index_changes() {
    let a = TripodIndex { first: 1, second: 2, third: 3 };
    let b = TripodIndex { first: 1, second: 3, third: 3 };
    assert!(!check_tripod_index_change(None, None));
    assert!(check_tripod_index_change(Some(a), None));
    assert!(check_tripod_index_change(None, Some(a)));
    assert!(!check_tripod_index_change(Some(a), Some(a)));
    assert!(check_tripod_index_change(Some(a), Some(b)));
}

#[test]
fn tripod_level_changes() {
    let a = TripodLevel { first: 1, second: 5, third: 5 };
    let b = TripodLevel { first: 1, second: 5, third: 4 };
    assert!(!check_tripod_level_change(None, None));
    assert!(check_tripod_level_change(Some(a), None));
    assert!(!check_tripod_level_change(Some(b), Some(b)));
    assert!(check_tripod_level_change(Some(a), Some(b)));
}
