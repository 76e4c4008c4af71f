//! Encounter records of entities, and changes of a skill's tripods.
use vstd::prelude::*;
use crate::classes::{class_name, get_class_from_id};
use crate::model::{EncounterEntity, Entity, TripodIndex, TripodLevel};

verus! {

/// `r` is the encounter record made from `e`: its identity copied (the
/// character id only where it is set, that is positive), its class named from
/// its class id, everything else at its default.
pub open spec fn made_from(r: EncounterEntity, e: Entity) -> bool {
    &&& r.id == e.id
    &&& r.name@ == e.name@
    &&& r.entity_type == e.entity_type
    &&& r.npc_id == e.npc_id
    &&& r.class_id == e.class_id
    &&& r.class@ == class_name(e.class_id)
    &&& r.gear_score_bits == e.gear_level_bits
    &&& r.character_id == (if e.character_id > 0 {
        e.character_id
    } else {
        0
    })
    &&& r.current_hp == 0
    &&& r.max_hp == 0
    &&& !r.is_dead
    &&& r.damage_dealt == 0
    &&& r.dps == 0
}

/// A new encounter record for the entity.
pub fn encounter_entity_from_entity(entity: &Entity) -> (r: EncounterEntity)
    ensures
        made_from(r, *entity),
        r.id == entity.id,
        r.npc_id == entity.npc_id,
        r.name@ == entity.name@,
        r.entity_type == entity.entity_type,
        r.class_id == entity.class_id,
        r.gear_score_bits == entity.gear_level_bits,
        r.character_id == entity.character_id,
{
    let mut e = EncounterEntity {
        id: entity.id,
        name: entity.name.clone(),
        entity_type: entity.entity_type,
        npc_id: entity.npc_id,
        class_id: entity.class_id,
        class: get_class_from_id(&entity.class_id),
        gear_score_bits: entity.gear_level_bits,
        ..Default::default()
    };
    if entity.character_id > 0 {
        e.character_id = entity.character_id;
    }
    e
}

/// `r` is `old` with the player's identity (id, character id, name, class,
/// gear score) taken from `e`; the rest as in `old`.
pub open spec fn updated_from(r: EncounterEntity, old: EncounterEntity, e: Entity) -> bool {
    &&& r.id == e.id
    &&& r.character_id == e.character_id
    &&& r.name@ == e.name@
    &&& r.class_id == e.class_id
    &&& r.class@ == class_name(e.class_id)
    &&& r.gear_score_bits == e.gear_level_bits
    &&& r.npc_id == old.npc_id
    &&& r.entity_type == old.entity_type
    &&& r.current_hp == old.current_hp
    &&& r.max_hp == old.max_hp
    &&& r.is_dead == old.is_dead
    &&& r.damage_dealt == old.damage_dealt
    &&& r.dps == old.dps
}

/// Refreshes a player's record with what the entity tracker now knows.
pub fn update_player_entity(record: &mut EncounterEntity, new: &Entity)
    ensures
        updated_from(*final(record), *old(record), *new),
        final(record).id == new.id,
        final(record).character_id == new.character_id,
        final(record).name@ == new.name@,
        final(record).class_id == new.class_id,
        final(record).gear_score_bits == new.gear_level_bits,
        final(record).npc_id == old(record).npc_id,
        final(record).entity_type == old(record).entity_type,
{
    record.id = new.id;
    record.character_id = new.character_id;
    record.name = new.name.clone();
    record.class_id = new.class_id;
    record.class = get_class_from_id(&new.class_id);
    record.gear_score_bits = new.gear_level_bits;
}

/// Two records hold the same values, strings taken by their characters.
pub open spec fn same_record(a: EncounterEntity, b: EncounterEntity) -> bool {
    &&& a.id == b.id
    &&& a.character_id == b.character_id
    &&& a.npc_id == b.npc_id
    &&& a.name@ == b.name@
    &&& a.entity_type == b.entity_type
    &&& a.class_id == b.class_id
    &&& a.class@ == b.class@
    &&& a.gear_score_bits == b.gear_score_bits
    &&& a.current_hp == b.current_hp
    &&& a.max_hp == b.max_hp
    &&& a.is_dead == b.is_dead
    &&& a.damage_dealt == b.damage_dealt
    &&& a.dps == b.dps
}

/// Refreshing a record with the entity it was made from changes nothing.
pub proof fn lemma_update_with_source_keeps_record(
    made: EncounterEntity,
    refreshed: EncounterEntity,
    e: Entity,
)
    requires
        made_from(made, e),
        updated_from(refreshed, made, e),
    ensures
        same_record(refreshed, made),
{
}

/// Refreshing a record twice with the same entity is refreshing it once.
pub proof fn lemma_update_idempotent(
    old: EncounterEntity,
    once: EncounterEntity,
    twice: EncounterEntity,
    e: Entity,
)
    requires
        updated_from(once, old, e),
        updated_from(twice, once, e),
    ensures
        same_record(twice, once),
{
}

/// A record made from an entity carries the entity's id, npc id, name, kind,
/// class id and class name, gear level and character id, and nothing of a
/// fight yet: no health, no damage, alive.
pub proof fn lemma_made_record_is_the_entity(r: EncounterEntity, e: Entity)
    requires
        made_from(r, e),
    ensures
        r.id == e.id,
        r.npc_id == e.npc_id,
        r.name@ == e.name@,
        r.entity_type == e.entity_type,
        r.class_id == e.class_id,
        r.class@ == class_name(e.class_id),
        r.gear_score_bits == e.gear_level_bits,
        r.character_id == e.character_id,
        r.current_hp == 0 && r.max_hp == 0 && r.damage_dealt == 0 && r.dps == 0 && !r.is_dead,
{
}

/// Refreshing a record from an entity gives it the identity that a record
/// made from that entity has (id, character id, name, class id and name, gear
/// level), and keeps what the fight recorded (npc id, kind, health, death,
/// damage, damage per second).
pub proof fn lemma_update_takes_identity_of_new_record(
    old: EncounterEntity,
    refreshed: EncounterEntity,
    made: EncounterEntity,
    e: Entity,
)
    requires
        updated_from(refreshed, old, e),
        made_from(made, e),
    ensures
        refreshed.id == made.id,
        refreshed.character_id == made.character_id,
        refreshed.name@ == made.name@,
        refreshed.class_id == made.class_id,
        refreshed.class@ == made.class@,
        refreshed.gear_score_bits == made.gear_score_bits,
        refreshed.gear_score_bits == e.gear_level_bits,
        refreshed.npc_id == old.npc_id,
        refreshed.entity_type == old.entity_type,
        refreshed.current_hp == old.current_hp,
        refreshed.max_hp == old.max_hp,
        refreshed.is_dead == old.is_dead,
        refreshed.damage_dealt == old.damage_dealt,
        refreshed.dps == old.dps,
{
}

/// Whether the chosen tripods differ (a tripod set appearing or going away
/// counts as a change).
pub fn check_tripod_index_change(before: Option<TripodIndex>, after: Option<TripodIndex>) -> (r:
    bool)
    ensures
        r == (before != after),
{
    if before.is_none() && after.is_none() {
        return false;
    }
    if before.is_none() || after.is_none() {
        return true;
    }
    let before = before.unwrap();
    let after = after.unwrap();
    before != after
}

/// Whether the tripod levels differ (levels appearing or going away count as
/// a change).
pub fn check_tripod_level_change(before: Option<TripodLevel>, after: Option<TripodLevel>) -> (r:
    bool)
    ensures
        r == (before != after),
{
    if before.is_none() && after.is_none() {
        return false;
    }
    if before.is_none() || after.is_none() {
        return true;
    }
    let before = before.unwrap();
    let after = after.unwrap();
    before != after
}

} // verus!
