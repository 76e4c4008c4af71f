//! The game's data tables: skills, skill effects, buffs, combat effects,
//! engravings and stat types, each a `hashbrown` map.
use vstd::prelude::*;
use crate::model::{
    CombatEffectData, EngravingData, SkillBuffData, SkillData, SkillEffectData,
};

verus! {

/// The game's data tables.  Each table is a `hashbrown::HashMap`; the maps are
/// held privately and read through the functions below, whose contracts speak
/// of each table's contents by the names that follow.
#[verifier::external_body]
pub struct GameData {
    skills: hashbrown::HashMap<u32, SkillData>,
    skill_effects: hashbrown::HashMap<u32, SkillEffectData>,
    skill_buffs: hashbrown::HashMap<u32, SkillBuffData>,
    combat_effects: hashbrown::HashMap<u32, CombatEffectData>,
    engravings: hashbrown::HashMap<u32, EngravingData>,
    stat_types: hashbrown::HashMap<String, u32>,
}

/// What the skill table holds, by skill id.
pub uninterp spec fn skill_table(d: GameData) -> Map<u32, SkillData>;

/// What the skill effect table holds, by skill effect id.
pub uninterp spec fn skill_effect_table(d: GameData) -> Map<u32, SkillEffectData>;

/// What the buff table holds, by buff id.
pub uninterp spec fn skill_buff_table(d: GameData) -> Map<u32, SkillBuffData>;

/// What the combat effect table holds, by combat effect id.
pub uninterp spec fn combat_effect_table(d: GameData) -> Map<u32, CombatEffectData>;

/// What the engraving table holds, by engraving id.
pub uninterp spec fn engraving_table(d: GameData) -> Map<u32, EngravingData>;

/// What the stat type table holds: the number of each stat, by the stat's name.
pub uninterp spec fn stat_type_table(d: GameData) -> Map<Seq<char>, u32>;

/// The map that inserting the pairs one after the other, first to last, into
/// an empty map gives: where a key occurs twice, its last value stays.
pub open spec fn pairs_to_map<V>(s: Seq<(u32, V)>) -> Map<u32, V>
    decreases s.len(),
{
    if s.len() == 0 {
        Map::empty()
    } else {
        pairs_to_map(s.drop_last()).insert(s.last().0, s.last().1)
    }
}

/// As `pairs_to_map`, for pairs keyed by a string, taken by its characters.
pub open spec fn named_pairs_to_map(s: Seq<(String, u32)>) -> Map<Seq<char>, u32>
    decreases s.len(),
{
    if s.len() == 0 {
        Map::empty()
    } else {
        named_pairs_to_map(s.drop_last()).insert(s.last().0@, s.last().1)
    }
}

impl GameData {
    /// Makes six empty tables with `hashbrown::HashMap::new`, which the crate
    /// documents as creating an empty map.
    #[verifier::external_body]
    fn empty() -> (d: GameData)
        ensures
            skill_table(d).dom() == Set::<u32>::empty(),
            skill_effect_table(d).dom() == Set::<u32>::empty(),
            skill_buff_table(d).dom() == Set::<u32>::empty(),
            combat_effect_table(d).dom() == Set::<u32>::empty(),
            engraving_table(d).dom() == Set::<u32>::empty(),
            stat_type_table(d).dom() == Set::<Seq<char>>::empty(),
    {
        GameData {
            skills: hashbrown::HashMap::new(),
            skill_effects: hashbrown::HashMap::new(),
            skill_buffs: hashbrown::HashMap::new(),
            combat_effects: hashbrown::HashMap::new(),
            engravings: hashbrown::HashMap::new(),
            stat_types: hashbrown::HashMap::new(),
        }
    }

    /// `hashbrown::HashMap::insert` on the skill table: afterwards the key maps
    /// to the value (an earlier value for it is replaced); the other tables
    /// are not touched.
    #[verifier::external_body]
    fn insert_skill(&mut self, k: u32, v: SkillData)
        ensures
            skill_table(*final(self)) == skill_table(*old(self)).insert(k, v),
            skill_effect_table(*final(self)) == skill_effect_table(*old(self)),
            skill_buff_table(*final(self)) == skill_buff_table(*old(self)),
            combat_effect_table(*final(self)) == combat_effect_table(*old(self)),
            engraving_table(*final(self)) == engraving_table(*old(self)),
            stat_type_table(*final(self)) == stat_type_table(*old(self)),
    {
        self.skills.insert(k, v);
    }

    /// `hashbrown::HashMap::insert` on the skill effect table, as above.
    #[verifier::external_body]
    fn insert_skill_effect(&mut self, k: u32, v: SkillEffectData)
        ensures
            skill_effect_table(*final(self)) == skill_effect_table(*old(self)).insert(k, v),
            skill_table(*final(self)) == skill_table(*old(self)),
            skill_buff_table(*final(self)) == skill_buff_table(*old(self)),
            combat_effect_table(*final(self)) == combat_effect_table(*old(self)),
            engraving_table(*final(self)) == engraving_table(*old(self)),
            stat_type_table(*final(self)) == stat_type_table(*old(self)),
    {
        self.skill_effects.insert(k, v);
    }

    /// `hashbrown::HashMap::insert` on the buff table, as above.
    #[verifier::external_body]
    fn insert_skill_buff(&mut self, k: u32, v: SkillBuffData)
        ensures
            skill_buff_table(*final(self)) == skill_buff_table(*old(self)).insert(k, v),
            skill_table(*final(self)) == skill_table(*old(self)),
            skill_effect_table(*final(self)) == skill_effect_table(*old(self)),
            combat_effect_table(*final(self)) == combat_effect_table(*old(self)),
            engraving_table(*final(self)) == engraving_table(*old(self)),
            stat_type_table(*final(self)) == stat_type_table(*old(self)),
    {
        self.skill_buffs.insert(k, v);
    }

    /// `hashbrown::HashMap::insert` on the combat effect table, as above.
    #[verifier::external_body]
    fn insert_combat_effect(&mut self, k: u32, v: CombatEffectData)
        ensures
            combat_effect_table(*final(self)) == combat_effect_table(*old(self)).insert(k, v),
            skill_table(*final(self)) == skill_table(*old(self)),
            skill_effect_table(*final(self)) == skill_effect_table(*old(self)),
            skill_buff_table(*final(self)) == skill_buff_table(*old(self)),
            engraving_table(*final(self)) == engraving_table(*old(self)),
            stat_type_table(*final(self)) == stat_type_table(*old(self)),
    {
        self.combat_effects.insert(k, v);
    }

    /// `hashbrown::HashMap::insert` on the engraving table, as above.
    #[verifier::external_body]
    fn insert_engraving(&mut self, k: u32, v: EngravingData)
        ensures
            engraving_table(*final(self)) == engraving_table(*old(self)).insert(k, v),
            skill_table(*final(self)) == skill_table(*old(self)),
            skill_effect_table(*final(self)) == skill_effect_table(*old(self)),
            skill_buff_table(*final(self)) == skill_buff_table(*old(self)),
            combat_effect_table(*final(self)) == combat_effect_table(*old(self)),
            stat_type_table(*final(self)) == stat_type_table(*old(self)),
    {
        self.engravings.insert(k, v);
    }

    /// `hashbrown::HashMap::insert` on the stat type table, keyed by the
    /// stat's name (std's `Eq` and `Hash` on `String` compare characters), as
    /// above.
    #[verifier::external_body]
    fn insert_stat_type(&mut self, k: String, v: u32)
        ensures
            stat_type_table(*final(self)) == stat_type_table(*old(self)).insert(k@, v),
            skill_table(*final(self)) == skill_table(*old(self)),
            skill_effect_table(*final(self)) == skill_effect_table(*old(self)),
            skill_buff_table(*final(self)) == skill_buff_table(*old(self)),
            combat_effect_table(*final(self)) == combat_effect_table(*old(self)),
            engraving_table(*final(self)) == engraving_table(*old(self)),
    {
        self.stat_types.insert(k, v);
    }

    /// `hashbrown::HashMap::get` on the skill table: the value that the key
    /// maps to, if any.
    #[verifier::external_body]
    pub(crate) fn skill(&self, k: u32) -> (r: Option<&SkillData>)
        ensures
            r matches Some(v) ==> skill_table(*self).get(k) == Some(*v),
            r is None ==> skill_table(*self).get(k) is None,
    {
        self.skills.get(&k)
    }

    /// `hashbrown::HashMap::get` on the skill effect table, as above.
    #[verifier::external_body]
    pub(crate) fn skill_effect(&self, k: u32) -> (r: Option<&SkillEffectData>)
        ensures
            r matches Some(v) ==> skill_effect_table(*self).get(k) == Some(*v),
            r is None ==> skill_effect_table(*self).get(k) is None,
    {
        self.skill_effects.get(&k)
    }

    /// `hashbrown::HashMap::get` on the buff table, as above.
    #[verifier::external_body]
    pub(crate) fn skill_buff(&self, k: u32) -> (r: Option<&SkillBuffData>)
        ensures
            r matches Some(v) ==> skill_buff_table(*self).get(k) == Some(*v),
            r is None ==> skill_buff_table(*self).get(k) is None,
    {
        self.skill_buffs.get(&k)
    }

    /// `hashbrown::HashMap::get` on the combat effect table, as above.
    #[verifier::external_body]
    pub(crate) fn combat_effect(&self, k: u32) -> (r: Option<&CombatEffectData>)
        ensures
            r matches Some(v) ==> combat_effect_table(*self).get(k) == Some(*v),
            r is None ==> combat_effect_table(*self).get(k) is None,
    {
        self.combat_effects.get(&k)
    }

    /// `hashbrown::HashMap::get` on the engraving table, as above.
    #[verifier::external_body]
    pub(crate) fn engraving(&self, k: u32) -> (r: Option<&EngravingData>)
        ensures
            r matches Some(v) ==> engraving_table(*self).get(k) == Some(*v),
            r is None ==> engraving_table(*self).get(k) is None,
    {
        self.engravings.get(&k)
    }

    /// `hashbrown::HashMap::get` on the stat type table, looked up by a
    /// stat's name, as above.
    #[verifier::external_body]
    pub(crate) fn stat_type(&self, k: &str) -> (r: Option<u32>)
        ensures
            r == stat_type_table(*self).get(k@),
    {
        self.stat_types.get(k).copied()
    }

    /// Builds the tables from lists of entries; within a list, a later entry
    /// for a key replaces an earlier one.
    pub fn from_entries(
        skills: Vec<(u32, SkillData)>,
        skill_effects: Vec<(u32, SkillEffectData)>,
        skill_buffs: Vec<(u32, SkillBuffData)>,
        combat_effects: Vec<(u32, CombatEffectData)>,
        engravings: Vec<(u32, EngravingData)>,
        stat_types: Vec<(String, u32)>,
    ) -> (d: GameData)
        ensures
            skill_table(d) == pairs_to_map(skills@),
            skill_effect_table(d) == pairs_to_map(skill_effects@),
            skill_buff_table(d) == pairs_to_map(skill_buffs@),
            combat_effect_table(d) == pairs_to_map(combat_effects@),
            engraving_table(d) == pairs_to_map(engravings@),
            stat_type_table(d) == named_pairs_to_map(stat_types@),
    {
        let mut d = GameData::empty();
        let ghost skills_all = skills@;
        let ghost skill_effects_all = skill_effects@;
        let ghost skill_buffs_all = skill_buffs@;
        let ghost combat_effects_all = combat_effects@;
        let ghost engravings_all = engravings@;
        let ghost stat_types_all = stat_types@;
        assert(skills_all.take(0) =~= Seq::empty());
        assert(skill_table(d) =~= pairs_to_map(skills_all.take(0)));
        for e in it: skills.into_iter()
            invariant
                it.seq() == skills_all,
                skill_table(d) == pairs_to_map(skills_all.take(it.index() as int)),
                skill_effect_table(d).dom() == Set::<u32>::empty(),
                skill_buff_table(d).dom() == Set::<u32>::empty(),
                combat_effect_table(d).dom() == Set::<u32>::empty(),
                engraving_table(d).dom() == Set::<u32>::empty(),
                stat_type_table(d).dom() == Set::<Seq<char>>::empty(),
        {
            assert(skills_all.take(it.index() + 1).drop_last() == skills_all.take(it.index() as int));
            d.insert_skill(e.0, e.1);
        }
        assert(skills_all.take(skills_all.len() as int) == skills_all);
        assert(skill_effects_all.take(0) =~= Seq::empty());
        assert(skill_effect_table(d) =~= pairs_to_map(skill_effects_all.take(0)));
        for e in it: skill_effects.into_iter()
            invariant
                it.seq() == skill_effects_all,
                skill_table(d) == pairs_to_map(skills_all),
                skill_effect_table(d) == pairs_to_map(skill_effects_all.take(it.index() as int)),
                skill_buff_table(d).dom() == Set::<u32>::empty(),
                combat_effect_table(d).dom() == Set::<u32>::empty(),
                engraving_table(d).dom() == Set::<u32>::empty(),
                stat_type_table(d).dom() == Set::<Seq<char>>::empty(),
        {
            assert(skill_effects_all.take(it.index() + 1).drop_last() == skill_effects_all.take(it.index() as int));
            d.insert_skill_effect(e.0, e.1);
        }
        assert(skill_effects_all.take(skill_effects_all.len() as int) == skill_effects_all);
        assert(skill_buffs_all.take(0) =~= Seq::empty());
        assert(skill_buff_table(d) =~= pairs_to_map(skill_buffs_all.take(0)));
        for e in it: skill_buffs.into_iter()
            invariant
                it.seq() == skill_buffs_all,
                skill_table(d) == pairs_to_map(skills_all),
                skill_effect_table(d) == pairs_to_map(skill_effects_all),
                skill_buff_table(d) == pairs_to_map(skill_buffs_all.take(it.index() as int)),
                combat_effect_table(d).dom() == Set::<u32>::empty(),
                engraving_table(d).dom() == Set::<u32>::empty(),
                stat_type_table(d).dom() == Set::<Seq<char>>::empty(),
        {
            assert(skill_buffs_all.take(it.index() + 1).drop_last() == skill_buffs_all.take(it.index() as int));
            d.insert_skill_buff(e.0, e.1);
        }
        assert(skill_buffs_all.take(skill_buffs_all.len() as int) == skill_buffs_all);
        assert(combat_effects_all.take(0) =~= Seq::empty());
        assert(combat_effect_table(d) =~= pairs_to_map(combat_effects_all.take(0)));
        for e in it: combat_effects.into_iter()
            invariant
                it.seq() == combat_effects_all,
                skill_table(d) == pairs_to_map(skills_all),
                skill_effect_table(d) == pairs_to_map(skill_effects_all),
                skill_buff_table(d) == pairs_to_map(skill_buffs_all),
                combat_effect_table(d) == pairs_to_map(combat_effects_all.take(it.index() as int)),
                engraving_table(d).dom() == Set::<u32>::empty(),
                stat_type_table(d).dom() == Set::<Seq<char>>::empty(),
        {
            assert(combat_effects_all.take(it.index() + 1).drop_last() == combat_effects_all.take(it.index() as int));
            d.insert_combat_effect(e.0, e.1);
        }
        assert(combat_effects_all.take(combat_effects_all.len() as int) == combat_effects_all);
        assert(engravings_all.take(0) =~= Seq::empty());
        assert(engraving_table(d) =~= pairs_to_map(engravings_all.take(0)));
        for e in it: engravings.into_iter()
            invariant
                it.seq() == engravings_all,
                skill_table(d) == pairs_to_map(skills_all),
                skill_effect_table(d) == pairs_to_map(skill_effects_all),
                skill_buff_table(d) == pairs_to_map(skill_buffs_all),
                combat_effect_table(d) == pairs_to_map(combat_effects_all),
                engraving_table(d) == pairs_to_map(engravings_all.take(it.index() as int)),
                stat_type_table(d).dom() == Set::<Seq<char>>::empty(),
        {
            assert(engravings_all.take(it.index() + 1).drop_last() == engravings_all.take(it.index() as int));
            d.insert_engraving(e.0, e.1);
        }
        assert(engravings_all.take(engravings_all.len() as int) == engravings_all);
        assert(stat_types_all.take(0) =~= Seq::empty());
        assert(stat_type_table(d) =~= named_pairs_to_map(stat_types_all.take(0)));
        for e in it: stat_types.into_iter()
            invariant
                it.seq() == stat_types_all,
                skill_table(d) == pairs_to_map(skills_all),
                skill_effect_table(d) == pairs_to_map(skill_effects_all),
                skill_buff_table(d) == pairs_to_map(skill_buffs_all),
                combat_effect_table(d) == pairs_to_map(combat_effects_all),
                engraving_table(d) == pairs_to_map(engravings_all),
                stat_type_table(d) == named_pairs_to_map(stat_types_all.take(it.index() as int)),
        {
            assert(stat_types_all.take(it.index() + 1).drop_last() == stat_types_all.take(it.index() as int));
            d.insert_stat_type(e.0, e.1);
        }
        assert(stat_types_all.take(stat_types_all.len() as int) == stat_types_all);
        d
    }
}

} // verus!
