//! The records that the parser reads from the game's data tables and the
//! records that it produces for an encounter.
use vstd::prelude::*;

verus! {

/// A skill as the game's skill table describes it.
pub struct SkillData {
    pub id: u32,
    pub name: String,
    pub desc: String,
    pub class_id: u32,
    pub icon: String,
    pub summon_source_skill: Option<u32>,
    pub source_skill: Option<u32>,
}

impl Clone for SkillData {
    fn clone(&self) -> (r: Self)
        ensures
            r == *self,
    {
        SkillData {
            id: self.id,
            name: self.name.clone(),
            desc: self.desc.clone(),
            class_id: self.class_id,
            icon: self.icon.clone(),
            summon_source_skill: self.summon_source_skill,
            source_skill: self.source_skill,
        }
    }
}

/// A skill effect (also used for battle items) from the skill effect table.
pub struct SkillEffectData {
    pub id: u32,
    pub comment: String,
    pub source_skill: Option<u32>,
    pub item_name: Option<String>,
    pub item_desc: Option<String>,
    pub item_category: Option<String>,
    pub icon: Option<String>,
}

/// One passive option of a buff: what it modifies and by how much.
pub struct PassiveOption {
    pub option_type: String,
    pub key_stat: String,
    pub key_index: u32,
    pub value: i32,
}

/// A buff or debuff from the skill buff table.
pub struct SkillBuffData {
    pub id: u32,
    pub name: String,
    pub desc: String,
    pub icon: String,
    pub icon_show_type: String,
    pub category: String,
    pub buff_category: String,
    pub buff_type: String,
    pub target: String,
    pub unique_group: u32,
    pub passive_option: Vec<PassiveOption>,
    pub source_skill: Option<u32>,
    pub set_name: Option<String>,
}

/// One action of a combat effect.
pub struct CombatEffectAction {
    pub action_type: String,
}

/// One effect of a combat effect, made of actions.
pub struct CombatEffectDetail {
    pub actions: Vec<CombatEffectAction>,
}

/// A combat effect from the combat effect table.
pub struct CombatEffectData {
    pub id: u32,
    pub effects: Vec<CombatEffectDetail>,
}

/// An engraving from the engraving table.
pub struct EngravingData {
    pub id: u32,
    pub name: String,
    pub icon: String,
}

/// Whom a status effect is shown on.
#[derive(Clone, Copy, Debug, PartialEq, Eq, Structural)]
pub enum StatusEffectTarget {
    Other,
    Party,
    OnSelf,
}

/// Where a status effect comes from, as shown to the user.
pub struct StatusEffectSource {
    pub name: String,
    pub desc: String,
    pub icon: String,
    pub skill: Option<SkillData>,
    pub set_name: Option<String>,
}

/// A status effect, ready to be shown.
pub struct StatusEffect {
    pub target: StatusEffectTarget,
    pub category: String,
    pub buff_category: String,
    pub buff_type: u32,
    pub unique_group: u32,
    pub source: StatusEffectSource,
}

/// The text of a status effect, with every string taken by its characters.
pub struct StatusEffectView {
    pub target: StatusEffectTarget,
    pub category: Seq<char>,
    pub buff_category: Seq<char>,
    pub buff_type: u32,
    pub unique_group: u32,
    pub source_name: Seq<char>,
    pub source_desc: Seq<char>,
    pub source_icon: Seq<char>,
    pub source_skill: Option<SkillData>,
    pub source_set_name: Option<Seq<char>>,
}

pub open spec fn option_string_view(s: Option<String>) -> Option<Seq<char>> {
    match s {
        Some(s) => Some(s@),
        None => None,
    }
}

impl View for StatusEffect {
    type V = StatusEffectView;

    open spec fn view(&self) -> StatusEffectView {
        StatusEffectView {
            target: self.target,
            category: self.category@,
            buff_category: self.buff_category@,
            buff_type: self.buff_type,
            unique_group: self.unique_group,
            source_name: self.source.name@,
            source_desc: self.source.desc@,
            source_icon: self.source.icon@,
            source_skill: self.source.skill,
            source_set_name: option_string_view(self.source.set_name),
        }
    }
}

/// The kind of an entity seen in the fight.
#[derive(Clone, Copy, Debug, PartialEq, Eq, Structural)]
pub enum EntityType {
    Unknown,
    Monster,
    Boss,
    Guardian,
    Player,
    Npc,
    Esther,
    Projectile,
    Summon,
}

/// An entity as the entity tracker knows it.  The gear level is a
/// floating-point number in the game; it is carried here by its IEEE-754 bit
/// pattern, which is copied and never computed on.
pub struct Entity {
    pub id: u64,
    pub entity_type: EntityType,
    pub name: String,
    pub npc_id: u32,
    pub class_id: u32,
    pub gear_level_bits: u32,
    pub character_id: u64,
}

/// An entity as it is stored with an encounter.  The gear score is carried by
/// its IEEE-754 bit pattern.
pub struct EncounterEntity {
    pub id: u64,
    pub character_id: u64,
    pub npc_id: u32,
    pub name: String,
    pub entity_type: EntityType,
    pub class_id: u32,
    pub class: String,
    pub gear_score_bits: u32,
    pub current_hp: i64,
    pub max_hp: i64,
    pub is_dead: bool,
    pub damage_dealt: i64,
    pub dps: i64,
}

impl EncounterEntity {
    /// An entity with every field at its default: numbers zero, strings empty,
    /// kind unknown.
    pub open spec fn is_default(self) -> bool {
        &&& self.id == 0
        &&& self.character_id == 0
        &&& self.npc_id == 0
        &&& self.name@ == Seq::<char>::empty()
        &&& self.entity_type == EntityType::Unknown
        &&& self.class_id == 0
        &&& self.class@ == Seq::<char>::empty()
        &&& self.gear_score_bits == 0
        &&& self.current_hp == 0
        &&& self.max_hp == 0
        &&& !self.is_dead
        &&& self.damage_dealt == 0
        &&& self.dps == 0
    }
}

impl Default for EncounterEntity {
    fn default() -> (r: Self)
        ensures
            r.is_default(),
    {
        EncounterEntity {
            id: 0,
            character_id: 0,
            npc_id: 0,
            name: String::new(),
            entity_type: EntityType::Unknown,
            class_id: 0,
            class: String::new(),
            gear_score_bits: 0,
            current_hp: 0,
            max_hp: 0,
            is_dead: false,
            damage_dealt: 0,
            dps: 0,
        }
    }
}

/// An engraving that a player has equipped, as the stats service reports it.
#[derive(Clone, Copy, Debug, PartialEq, Eq, Structural)]
pub struct Engraving {
    pub id: u32,
    pub level: u8,
}

/// An engraving of a player, with its name and icon.
pub struct PlayerEngraving {
    pub name: String,
    pub id: u32,
    pub level: u8,
    pub icon: String,
}

/// A player's engravings, split into those of the player's class and the rest.
pub struct PlayerEngravings {
    pub class_engravings: Option<Vec<PlayerEngraving>>,
    pub other_engravings: Option<Vec<PlayerEngraving>>,
}

/// What storing an encounter settles of one of a player's skills: its damage
/// per second, its cast log and the levels of the gems on it.
pub struct Skill {
    pub id: u32,
    pub total_damage: i64,
    pub dps: i64,
    pub cast_log: Vec<i32>,
    pub gem_damage: Option<u8>,
    pub gem_cooldown: Option<u8>,
}

/// A gem that a player has equipped, as the stats service reports it.
#[derive(Clone, Copy, Debug, PartialEq, Eq, Structural)]
pub struct Gem {
    pub skill_id: u32,
    pub gem_type: u32,
    pub value: u32,
}

/// The tripods chosen for a skill.
#[derive(Clone, Copy, Debug, PartialEq, Eq, Structural)]
pub struct TripodIndex {
    pub first: u8,
    pub second: u8,
    pub third: u8,
}

/// The levels of the tripods of a skill.
#[derive(Clone, Copy, Debug, PartialEq, Eq, Structural)]
pub struct TripodLevel {
    pub first: u16,
    pub second: u16,
    pub third: u16,
}

} // verus!
