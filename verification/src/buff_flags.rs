//! Classifying a buff into the kinds of effect it has (damage, crit, attack
//! speed, ...), as a set of flag bits.
use vstd::prelude::*;
use crate::model::{CombatEffectAction, CombatEffectData, CombatEffectDetail, PassiveOption, SkillBuffData};
use crate::tables::{combat_effect_table, stat_type_table, GameData};
use crate::text::is_text;

verus! {

pub const BUFF_TYPE_NONE: u32 = 0;
pub const BUFF_TYPE_DMG: u32 = 1;
pub const BUFF_TYPE_CRIT: u32 = 2;
pub const BUFF_TYPE_ATKSPEED: u32 = 4;
pub const BUFF_TYPE_MOVESPEED: u32 = 8;
pub const BUFF_TYPE_HP: u32 = 16;
pub const BUFF_TYPE_DEFENSE: u32 = 32;
pub const BUFF_TYPE_RESOURCE: u32 = 64;
pub const BUFF_TYPE_COOLDOWN: u32 = 128;
pub const BUFF_TYPE_STAGGER: u32 = 256;
pub const BUFF_TYPE_SHIELD: u32 = 512;
pub const BUFF_TYPE_ANY: u32 = 1048576;

// ---------------------------------------------------------------------------
// The vocabulary of the classification.

pub open spec fn is_damage_buff_type(t: Seq<char>) -> bool {
    ||| t == "weaken_defense"@
    ||| t == "weaken_resistance"@
    ||| t == "skill_damage_amplify"@
    ||| t == "beattacked_damage_amplify"@
    ||| t == "skill_damage_amplify_attack"@
    ||| t == "directional_attack_amplify"@
    ||| t == "instant_stat_amplify"@
    ||| t == "attack_power_amplify"@
    ||| t == "instant_stat_amplify_by_contents"@
}

pub open spec fn is_move_speed_buff_type(t: Seq<char>) -> bool {
    t == "move_speed_down"@ || t == "all_speed_down"@
}

pub open spec fn is_stagger_buff_type(t: Seq<char>) -> bool {
    t == "change_ai_point"@ || t == "ai_point_amplify"@
}

/// The flag that a buff's own type gives it.
pub open spec fn base_buff_type_flag(t: Seq<char>) -> u32 {
    if is_damage_buff_type(t) {
        BUFF_TYPE_DMG
    } else if is_move_speed_buff_type(t) {
        BUFF_TYPE_MOVESPEED
    } else if t == "reset_cooldown"@ {
        BUFF_TYPE_COOLDOWN
    } else if is_stagger_buff_type(t) {
        BUFF_TYPE_STAGGER
    } else if t == "increase_identity_gauge"@ {
        BUFF_TYPE_RESOURCE
    } else {
        BUFF_TYPE_NONE
    }
}

pub open spec fn is_stagger_stat(k: Seq<char>) -> bool {
    k == "mastery"@ || k == "mastery_x"@ || k == "paralyzation_point_rate"@
}

pub open spec fn is_cooldown_stat(k: Seq<char>) -> bool {
    k == "rapidity"@ || k == "rapidity_x"@ || k == "cooldown_reduction"@
}

pub open spec fn is_resource_stat(k: Seq<char>) -> bool {
    ||| k == "max_mp"@
    ||| k == "max_mp_x"@
    ||| k == "max_mp_x_x"@
    ||| k == "normal_mp_recovery"@
    ||| k == "combat_mp_recovery"@
    ||| k == "normal_mp_recovery_rate"@
    ||| k == "combat_mp_recovery_rate"@
    ||| k == "resource_recovery_rate"@
}

pub open spec fn is_hp_stat(k: Seq<char>) -> bool {
    ||| k == "con"@
    ||| k == "con_x"@
    ||| k == "max_hp"@
    ||| k == "max_hp_x"@
    ||| k == "max_hp_x_x"@
    ||| k == "normal_hp_recovery"@
    ||| k == "combat_hp_recovery"@
    ||| k == "normal_hp_recovery_rate"@
    ||| k == "combat_hp_recovery_rate"@
    ||| k == "self_recovery_rate"@
    ||| k == "drain_hp_dam_rate"@
    ||| k == "vitality"@
}

pub open spec fn is_endurance_stat(k: Seq<char>) -> bool {
    k == "endurance"@ || k == "endurance_x"@
}

pub open spec fn is_attack_speed_stat(k: Seq<char>) -> bool {
    k == "attack_speed"@ || k == "attack_speed_rate"@ || k == "rapidity"@ || k == "rapidity_x"@
}

pub open spec fn is_crit_stat(k: Seq<char>) -> bool {
    k == "critical_hit_rate"@ || k == "criticalhit"@ || k == "criticalhit_x"@
}

pub open spec fn is_damage_stat(k: Seq<char>) -> bool {
    ||| k == "str"@
    ||| k == "agi"@
    ||| k == "int"@
    ||| k == "str_x"@
    ||| k == "agi_x"@
    ||| k == "int_x"@
    ||| k == "char_attack_dam"@
    ||| k == "attack_power_rate"@
    ||| k == "skill_damage_rate"@
    ||| k == "attack_power_rate_x"@
    ||| k == "skill_damage_rate_x"@
    ||| k == "hit_rate"@
    ||| k == "dodge_rate"@
    ||| k == "critical_dam_rate"@
    ||| k == "awakening_dam_rate"@
    ||| k == "attack_power_addend"@
    ||| k == "weapon_dam"@
}

pub open spec fn is_skill_damage_option(t: Seq<char>) -> bool {
    ||| t == "skill_damage"@
    ||| t == "class_option"@
    ||| t == "skill_group_damage"@
    ||| t == "skill_critical_damage"@
    ||| t == "skill_penetration"@
}

pub open spec fn is_cooldown_option(t: Seq<char>) -> bool {
    t == "skill_cooldown_reduction"@ || t == "skill_group_cooldown_reduction"@
}

pub open spec fn is_mana_option(t: Seq<char>) -> bool {
    t == "skill_mana_reduction"@ || t == "mana_reduction"@
}

pub open spec fn is_damage_action(a: Seq<char>) -> bool {
    ||| a == "modify_damage"@
    ||| a == "modify_final_damage"@
    ||| a == "modify_critical_multiplier"@
    ||| a == "modify_penetration"@
    ||| a == "modify_penetration_when_critical"@
    ||| a == "modify_penetration_addend"@
    ||| a == "modify_penetration_addend_when_critical"@
    ||| a == "modify_damage_shield_multiplier"@
}

// ---------------------------------------------------------------------------
// The classification.

/// The number of a stat, by its name, in the stat type table.
pub open spec fn stat_number(d: GameData, name: Seq<char>) -> u32 {
    stat_type_table(d)[name]
}

/// A stat option is settled by the named-stat lists of its first flag.
pub open spec fn primary_by_name(k: Seq<char>) -> bool {
    is_stagger_stat(k) || is_cooldown_stat(k) || is_resource_stat(k) || is_hp_stat(k)
}

/// A stat option is settled by the named-stat lists of its second flag.
pub open spec fn secondary_by_name(k: Seq<char>) -> bool {
    is_attack_speed_stat(k) || is_crit_stat(k)
}

/// The stat type table holds a stat of this name.
pub open spec fn stat_known(d: GameData, name: Seq<char>) -> bool {
    stat_type_table(d).contains_key(name)
}

/// Comparing `stat` with a range reads the stat that bounds it below, and
/// the one that bounds it above only where `stat` is not below the first:
/// each that is read is in the table.
pub open spec fn range_readable(d: GameData, stat: u32, low: Seq<char>, high: Seq<char>) -> bool {
    &&& stat_known(d, low)
    &&& (stat_number(d, low) <= stat ==> stat_known(d, high))
}

/// Each range-bounding stat that the first flag of a stat option reads is in
/// the table: none where the name settles it; else the defense range, and the
/// move speed range where neither the defense range nor endurance settles it.
pub open spec fn primary_ranges_readable(d: GameData, key: Seq<char>, stat: u32) -> bool {
    ||| primary_by_name(key)
    ||| {
        &&& range_readable(d, stat, "def"@, "magical_inc_rate"@)
        &&& (in_stat_range(d, stat, "def"@, "magical_inc_rate"@) || is_endurance_stat(key)
            || range_readable(d, stat, "move_speed"@, "vehicle_move_speed_rate"@))
    }
}

/// Each range-bounding stat that the second flag of a stat option reads is
/// in the table: none where the name settles it; else the attack power
/// range, and the elemental range where the first does not hold the stat.
pub open spec fn secondary_ranges_readable(d: GameData, key: Seq<char>, stat: u32) -> bool {
    ||| secondary_by_name(key)
    ||| {
        &&& range_readable(d, stat, "attack_power_sub_rate_1"@, "skill_damage_sub_rate_2"@)
        &&& (in_stat_range(d, stat, "attack_power_sub_rate_1"@, "skill_damage_sub_rate_2"@)
            || range_readable(d, stat, "fire_dam_rate"@, "elements_dam_rate"@))
    }
}

/// Every range-bounding stat that classifying the option reads is in the
/// table (only a stat option of a known stat reads any).
pub open spec fn option_ranges_known(d: GameData, o: PassiveOption) -> bool {
    o.option_type@ == "stat"@ && stat_known(d, o.key_stat@) ==> {
        &&& primary_ranges_readable(d, o.key_stat@, stat_number(d, o.key_stat@))
        &&& secondary_ranges_readable(d, o.key_stat@, stat_number(d, o.key_stat@))
    }
}

/// Every range-bounding stat that classifying the buff reads is in the table.
pub open spec fn buff_ranges_known(d: GameData, buff: SkillBuffData) -> bool {
    forall|i: int|
        0 <= i < buff.passive_option@.len() ==> option_ranges_known(
            d,
            #[trigger] buff.passive_option@[i],
        )
}

pub open spec fn in_stat_range(d: GameData, stat: u32, low: Seq<char>, high: Seq<char>) -> bool {
    stat_number(d, low) <= stat && stat <= stat_number(d, high)
}

/// A modifier helps its bearer (a buff that raises, a debuff that lowers):
/// it counts as damage; otherwise as defense.
pub open spec fn damage_or_defense(category: Seq<char>, value: i32) -> u32 {
    if (category == "buff"@ && value >= 0) || (category == "debuff"@ && value <= 0) {
        BUFF_TYPE_DMG
    } else {
        BUFF_TYPE_DEFENSE
    }
}

/// The first flag that a stat option gives.
pub open spec fn stat_primary_flag(
    d: GameData,
    category: Seq<char>,
    key: Seq<char>,
    stat: u32,
    value: i32,
) -> u32 {
    if is_stagger_stat(key) {
        BUFF_TYPE_STAGGER
    } else if is_cooldown_stat(key) {
        BUFF_TYPE_COOLDOWN
    } else if is_resource_stat(key) {
        BUFF_TYPE_RESOURCE
    } else if is_hp_stat(key) {
        BUFF_TYPE_HP
    } else if in_stat_range(d, stat, "def"@, "magical_inc_rate"@) || is_endurance_stat(key) {
        damage_or_defense(category, value)
    } else if in_stat_range(d, stat, "move_speed"@, "vehicle_move_speed_rate"@) {
        BUFF_TYPE_MOVESPEED
    } else {
        BUFF_TYPE_NONE
    }
}

/// The second flag that a stat option gives.
pub open spec fn stat_secondary_flag(
    d: GameData,
    category: Seq<char>,
    key: Seq<char>,
    stat: u32,
    value: i32,
) -> u32 {
    if is_attack_speed_stat(key) {
        BUFF_TYPE_ATKSPEED
    } else if is_crit_stat(key) {
        BUFF_TYPE_CRIT
    } else if in_stat_range(d, stat, "attack_power_sub_rate_1"@, "skill_damage_sub_rate_2"@)
        || in_stat_range(d, stat, "fire_dam_rate"@, "elements_dam_rate"@) || is_damage_stat(key) {
        damage_or_defense(category, value)
    } else {
        BUFF_TYPE_NONE
    }
}

pub open spec fn action_flag(a: Seq<char>) -> u32 {
    if is_damage_action(a) {
        BUFF_TYPE_DMG
    } else if a == "modify_critical_ratio"@ {
        BUFF_TYPE_CRIT
    } else {
        BUFF_TYPE_NONE
    }
}

/// `acc` together with the flags of the actions.
pub open spec fn actions_flags(acc: u32, actions: Seq<CombatEffectAction>) -> u32
    decreases actions.len(),
{
    if actions.len() == 0 {
        acc
    } else {
        actions_flags(acc, actions.drop_last()) | action_flag(actions.last().action_type@)
    }
}

/// The flags of all actions of all effects.
pub open spec fn effects_flags(effects: Seq<CombatEffectDetail>) -> u32
    decreases effects.len(),
{
    if effects.len() == 0 {
        BUFF_TYPE_NONE
    } else {
        actions_flags(effects_flags(effects.drop_last()), effects.last().actions@)
    }
}

pub open spec fn combat_effect_flags(c: CombatEffectData) -> u32 {
    effects_flags(c.effects@)
}

/// The flags that one passive option of a buff of the given category gives.
pub open spec fn passive_option_flags(d: GameData, category: Seq<char>, o: PassiveOption) -> u32 {
    let t = o.option_type@;
    if t == "stat"@ {
        match stat_type_table(d).get(o.key_stat@) {
            Some(stat) => stat_primary_flag(d, category, o.key_stat@, stat, o.value)
                | stat_secondary_flag(d, category, o.key_stat@, stat, o.value),
            None => BUFF_TYPE_NONE,
        }
    } else if t == "skill_critical_ratio"@ {
        BUFF_TYPE_CRIT
    } else if is_skill_damage_option(t) {
        damage_or_defense(category, o.value)
    } else if is_cooldown_option(t) {
        BUFF_TYPE_COOLDOWN
    } else if is_mana_option(t) {
        BUFF_TYPE_RESOURCE
    } else if t == "combat_effect"@ {
        match combat_effect_table(d).get(o.key_index) {
            Some(c) => combat_effect_flags(c),
            None => BUFF_TYPE_NONE,
        }
    } else {
        BUFF_TYPE_NONE
    }
}

/// `base` together with the flags of each option.
pub open spec fn options_flags(
    d: GameData,
    base: u32,
    category: Seq<char>,
    options: Seq<PassiveOption>,
) -> u32
    decreases options.len(),
{
    if options.len() == 0 {
        base
    } else {
        options_flags(d, base, category, options.drop_last()) | passive_option_flags(
            d,
            category,
            options.last(),
        )
    }
}

/// The flags of a buff: those of its type, together with those of each of
/// its passive options.
pub open spec fn buff_type_flags(d: GameData, buff: SkillBuffData) -> u32 {
    options_flags(d, base_buff_type_flag(buff.buff_type@), buff.category@, buff.passive_option@)
}

// ---------------------------------------------------------------------------
// What the classification can give: only the flags from damage to stagger.

proof fn lemma_or_below_shield(a: u32, b: u32)
    requires
        a < 512,
        b < 512,
    ensures
        a | b < 512,
{
    assert(a < 512 && b < 512 ==> a | b < 512) by (bit_vector);
}

proof fn lemma_actions_flags_below_shield(acc: u32, actions: Seq<CombatEffectAction>)
    requires
        acc < BUFF_TYPE_SHIELD,
    ensures
        actions_flags(acc, actions) < BUFF_TYPE_SHIELD,
    decreases actions.len(),
{
    if actions.len() > 0 {
        lemma_actions_flags_below_shield(acc, actions.drop_last());
        lemma_or_below_shield(
            actions_flags(acc, actions.drop_last()),
            action_flag(actions.last().action_type@),
        );
    }
}

proof fn lemma_effects_flags_below_shield(effects: Seq<CombatEffectDetail>)
    ensures
        effects_flags(effects) < BUFF_TYPE_SHIELD,
    decreases effects.len(),
{
    if effects.len() > 0 {
        lemma_effects_flags_below_shield(effects.drop_last());
        lemma_actions_flags_below_shield(effects_flags(effects.drop_last()), effects.last().actions@);
    }
}

proof fn lemma_option_flags_below_shield(d: GameData, category: Seq<char>, o: PassiveOption)
    ensures
        passive_option_flags(d, category, o) < BUFF_TYPE_SHIELD,
{
    if o.option_type@ == "stat"@ {
        if let Some(stat) = stat_type_table(d).get(o.key_stat@) {
            lemma_or_below_shield(
                stat_primary_flag(d, category, o.key_stat@, stat, o.value),
                stat_secondary_flag(d, category, o.key_stat@, stat, o.value),
            );
        }
    } else if o.option_type@ == "combat_effect"@ {
        if let Some(c) = combat_effect_table(d).get(o.key_index) {
            lemma_effects_flags_below_shield(c.effects@);
        }
    }
}

proof fn lemma_options_flags_below_shield(
    d: GameData,
    base: u32,
    category: Seq<char>,
    options: Seq<PassiveOption>,
)
    requires
        base < BUFF_TYPE_SHIELD,
    ensures
        options_flags(d, base, category, options) < BUFF_TYPE_SHIELD,
    decreases options.len(),
{
    if options.len() > 0 {
        lemma_options_flags_below_shield(d, base, category, options.drop_last());
        lemma_option_flags_below_shield(d, category, options.last());
        lemma_or_below_shield(
            options_flags(d, base, category, options.drop_last()),
            passive_option_flags(d, category, options.last()),
        );
    }
}

/// A buff's flags are among those from damage to stagger: never the shield
/// flag, the catch-all flag, or a bit that names no flag.
pub proof fn lemma_buff_type_flags_are_known_kinds(d: GameData, buff: SkillBuffData)
    ensures
        buff_type_flags(d, buff) < BUFF_TYPE_SHIELD,
{
    lemma_options_flags_below_shield(
        d,
        base_buff_type_flag(buff.buff_type@),
        buff.category@,
        buff.passive_option@,
    );
}

proof fn lemma_or_keeps(x: u32, y: u32, z: u32)
    ensures
        x & y == y ==> (x | z) & y == y,
        (x | z) & z == z,
{
    assert(x & y == y ==> (x | z) & y == y) by (bit_vector);
    assert((x | z) & z == z) by (bit_vector);
}

proof fn lemma_options_flags_contain(
    d: GameData,
    base: u32,
    category: Seq<char>,
    options: Seq<PassiveOption>,
    i: int,
)
    requires
        -1 <= i < options.len(),
    ensures
        options_flags(d, base, category, options) & base == base,
        i >= 0 ==> options_flags(d, base, category, options) & passive_option_flags(
            d,
            category,
            options[i],
        ) == passive_option_flags(d, category, options[i]),
    decreases options.len(),
{
    if options.len() == 0 {
        assert(base & base == base) by (bit_vector);
    } else {
        let rest = options.drop_last();
        let last = passive_option_flags(d, category, options.last());
        let j = if i == options.len() - 1 {
            -1
        } else {
            i
        };
        lemma_options_flags_contain(d, base, category, rest, j);
        lemma_or_keeps(options_flags(d, base, category, rest), base, last);
        if 0 <= i < options.len() - 1 {
            assert(rest[i] == options[i]);
            lemma_or_keeps(
                options_flags(d, base, category, rest),
                passive_option_flags(d, category, options[i]),
                last,
            );
        }
    }
}

/// A buff has every flag that its type gives and every flag that each of its
/// passive options gives: no part of the classification takes a flag away.
pub proof fn lemma_buff_type_flags_contain_parts(d: GameData, buff: SkillBuffData, i: int)
    requires
        0 <= i < buff.passive_option@.len(),
    ensures
        buff_type_flags(d, buff) & base_buff_type_flag(buff.buff_type@) == base_buff_type_flag(
            buff.buff_type@,
        ),
        buff_type_flags(d, buff) & passive_option_flags(d, buff.category@, buff.passive_option@[i])
            == passive_option_flags(d, buff.category@, buff.passive_option@[i]),
{
    lemma_options_flags_contain(
        d,
        base_buff_type_flag(buff.buff_type@),
        buff.category@,
        buff.passive_option@,
        i,
    );
}

proof fn lemma_options_flags_concat(
    d: GameData,
    base: u32,
    category: Seq<char>,
    o1: Seq<PassiveOption>,
    o2: Seq<PassiveOption>,
)
    ensures
        options_flags(d, base, category, o1 + o2) == options_flags(d, base, category, o1)
            | options_flags(d, base, category, o2),
    decreases o2.len(),
{
    let x = options_flags(d, base, category, o1);
    if o2.len() == 0 {
        assert(o1 + o2 =~= o1);
        lemma_options_flags_contain(d, base, category, o1, -1);
        assert(x & base == base ==> x | base == x) by (bit_vector);
    } else {
        let rest = o2.drop_last();
        assert((o1 + o2).drop_last() =~= o1 + rest);
        assert((o1 + o2).last() == o2.last());
        lemma_options_flags_concat(d, base, category, o1, rest);
        let y = options_flags(d, base, category, rest);
        let p = passive_option_flags(d, category, o2.last());
        assert((x | y) | p == x | (y | p)) by (bit_vector);
    }
}

/// A buff whose passive options are those of two buffs of its type and
/// category put together has exactly the flags of the two together: options
/// only add flags, in whatever order they come; and classifying it reads a
/// range-bounding stat that the table lacks exactly where classifying one of
/// the two does.
pub proof fn lemma_buff_type_flags_of_joined_options(
    d: GameData,
    b1: SkillBuffData,
    b2: SkillBuffData,
    b: SkillBuffData,
)
    requires
        b2.buff_type@ == b1.buff_type@,
        b2.category@ == b1.category@,
        b.buff_type@ == b1.buff_type@,
        b.category@ == b1.category@,
        b.passive_option@ == b1.passive_option@ + b2.passive_option@,
    ensures
        buff_type_flags(d, b) == buff_type_flags(d, b1) | buff_type_flags(d, b2),
        buff_ranges_known(d, b) <==> buff_ranges_known(d, b1) && buff_ranges_known(d, b2),
{
    let s1 = b1.passive_option@;
    let s2 = b2.passive_option@;
    lemma_options_flags_concat(d, base_buff_type_flag(b1.buff_type@), b1.category@, s1, s2);
    if buff_ranges_known(d, b) {
        assert forall|i: int| 0 <= i < s1.len() implies option_ranges_known(d, #[trigger] s1[i]) by {
            assert(b.passive_option@[i] == s1[i]);
        }
        assert forall|j: int| 0 <= j < s2.len() implies option_ranges_known(d, #[trigger] s2[j]) by {
            assert(b.passive_option@[s1.len() + j] == s2[j]);
        }
    }
    if buff_ranges_known(d, b1) && buff_ranges_known(d, b2) {
        assert forall|i: int| 0 <= i < b.passive_option@.len() implies option_ranges_known(
            d,
            #[trigger] b.passive_option@[i],
        ) by {
            if i < s1.len() {
                assert(b.passive_option@[i] == s1[i]);
            } else {
                assert(b.passive_option@[i] == s2[i - s1.len()]);
            }
        }
    }
}

/// The option types that the classification gives flags for.
pub open spec fn is_classified_option_type(t: Seq<char>) -> bool {
    ||| t == "stat"@
    ||| t == "skill_critical_ratio"@
    ||| is_skill_damage_option(t)
    ||| is_cooldown_option(t)
    ||| is_mana_option(t)
    ||| t == "combat_effect"@
}

/// An option gives no flag where its type is none that the classification
/// knows, where it is a stat option of a stat that the table lacks, or a
/// combat effect option of an effect that the table lacks.
pub proof fn lemma_options_without_flags(d: GameData, category: Seq<char>, o: PassiveOption)
    ensures
        !is_classified_option_type(o.option_type@) ==> passive_option_flags(d, category, o)
            == BUFF_TYPE_NONE,
        o.option_type@ == "stat"@ && !stat_known(d, o.key_stat@) ==> passive_option_flags(
            d,
            category,
            o,
        ) == BUFF_TYPE_NONE,
        o.option_type@ == "combat_effect"@ && !combat_effect_table(d).contains_key(o.key_index)
            ==> passive_option_flags(d, category, o) == BUFF_TYPE_NONE,
{
    reveal_strlit("combat_effect");
    reveal_strlit("stat");
    reveal_strlit("skill_critical_ratio");
    reveal_strlit("skill_damage");
    reveal_strlit("class_option");
    reveal_strlit("skill_group_damage");
    reveal_strlit("skill_critical_damage");
    reveal_strlit("skill_penetration");
    reveal_strlit("skill_cooldown_reduction");
    reveal_strlit("skill_group_cooldown_reduction");
    reveal_strlit("skill_mana_reduction");
    reveal_strlit("mana_reduction");
    // "combat_effect" differs from every other option type by its first
    // character or its length.
    assert("combat_effect"@[0] == 'c' && "combat_effect"@.len() == 13);
}

/// Adding to a buff an option that gives no flag (see
/// `lemma_options_without_flags`) leaves its flags as they were; classifying
/// it then reads a range-bounding stat that the table lacks exactly where
/// classifying the buff or the option does.
pub proof fn lemma_flagless_option_changes_nothing(
    d: GameData,
    b1: SkillBuffData,
    b2: SkillBuffData,
    o: PassiveOption,
)
    requires
        b2.buff_type@ == b1.buff_type@,
        b2.category@ == b1.category@,
        b2.passive_option@ == b1.passive_option@.push(o),
        passive_option_flags(d, b1.category@, o) == BUFF_TYPE_NONE,
    ensures
        buff_type_flags(d, b2) == buff_type_flags(d, b1),
        buff_ranges_known(d, b2) <==> buff_ranges_known(d, b1) && option_ranges_known(d, o),
{
    let s1 = b1.passive_option@;
    assert(b2.passive_option@.drop_last() =~= s1);
    let x = buff_type_flags(d, b1);
    assert(x | 0 == x) by (bit_vector);
    if buff_ranges_known(d, b2) {
        assert forall|i: int| 0 <= i < s1.len() implies option_ranges_known(d, #[trigger] s1[i]) by {
            assert(b2.passive_option@[i] == s1[i]);
        }
        assert(b2.passive_option@[s1.len() as int] == o);
    }
    if buff_ranges_known(d, b1) && option_ranges_known(d, o) {
        assert forall|i: int| 0 <= i < b2.passive_option@.len() implies option_ranges_known(
            d,
            #[trigger] b2.passive_option@[i],
        ) by {
            if i < s1.len() {
                assert(b2.passive_option@[i] == s1[i]);
            }
        }
    }
}

/// A buff with no passive options is classified by its type alone: the
/// types weaken_defense, weaken_resistance, skill_damage_amplify,
/// beattacked_damage_amplify, skill_damage_amplify_attack,
/// directional_attack_amplify, instant_stat_amplify, attack_power_amplify and
/// instant_stat_amplify_by_contents give exactly the damage flag;
/// move_speed_down and all_speed_down the movement speed flag; reset_cooldown
/// the cooldown flag; change_ai_point and ai_point_amplify the stagger flag;
/// increase_identity_gauge the resource flag; every other type no flag.
pub proof fn lemma_flags_of_buff_types(d: GameData, buff: SkillBuffData)
    requires
        buff.passive_option@.len() == 0,
    ensures
        (buff.buff_type@ == "weaken_defense"@ || buff.buff_type@ == "weaken_resistance"@ || buff.buff_type@ == "skill_damage_amplify"@ || buff.buff_type@ == "beattacked_damage_amplify"@ || buff.buff_type@ == "skill_damage_amplify_attack"@ || buff.buff_type@ == "directional_attack_amplify"@ || buff.buff_type@ == "instant_stat_amplify"@ || buff.buff_type@ == "attack_power_amplify"@ || buff.buff_type@ == "instant_stat_amplify_by_contents"@) ==> buff_type_flags(d, buff) == BUFF_TYPE_DMG,
        (buff.buff_type@ == "move_speed_down"@ || buff.buff_type@ == "all_speed_down"@) ==> buff_type_flags(d, buff) == BUFF_TYPE_MOVESPEED,
        buff.buff_type@ == "reset_cooldown"@ ==> buff_type_flags(d, buff) == BUFF_TYPE_COOLDOWN,
        (buff.buff_type@ == "change_ai_point"@ || buff.buff_type@ == "ai_point_amplify"@) ==> buff_type_flags(d, buff) == BUFF_TYPE_STAGGER,
        buff.buff_type@ == "increase_identity_gauge"@ ==> buff_type_flags(d, buff) == BUFF_TYPE_RESOURCE,
        !(buff.buff_type@ == "weaken_defense"@ || buff.buff_type@ == "weaken_resistance"@ || buff.buff_type@ == "skill_damage_amplify"@ || buff.buff_type@ == "beattacked_damage_amplify"@ || buff.buff_type@ == "skill_damage_amplify_attack"@ || buff.buff_type@ == "directional_attack_amplify"@ || buff.buff_type@ == "instant_stat_amplify"@ || buff.buff_type@ == "attack_power_amplify"@ || buff.buff_type@ == "instant_stat_amplify_by_contents"@ || buff.buff_type@ == "move_speed_down"@ || buff.buff_type@ == "all_speed_down"@ || buff.buff_type@ == "reset_cooldown"@ || buff.buff_type@ == "change_ai_point"@ || buff.buff_type@ == "ai_point_amplify"@ || buff.buff_type@ == "increase_identity_gauge"@) ==> buff_type_flags(d, buff) == BUFF_TYPE_NONE,
{
    reveal_strlit("weaken_defense");
    reveal_strlit("weaken_resistance");
    reveal_strlit("skill_damage_amplify");
    reveal_strlit("beattacked_damage_amplify");
    reveal_strlit("skill_damage_amplify_attack");
    reveal_strlit("directional_attack_amplify");
    reveal_strlit("instant_stat_amplify");
    reveal_strlit("attack_power_amplify");
    reveal_strlit("instant_stat_amplify_by_contents");
    reveal_strlit("move_speed_down");
    reveal_strlit("all_speed_down");
    reveal_strlit("reset_cooldown");
    reveal_strlit("change_ai_point");
    reveal_strlit("ai_point_amplify");
    reveal_strlit("increase_identity_gauge");
    // The types differ from one another by their length or first character.
    assert("weaken_defense"@.len() == 14 && "weaken_defense"@[0] == 'w');
    assert("weaken_resistance"@.len() == 17 && "weaken_resistance"@[0] == 'w');
    assert("skill_damage_amplify"@.len() == 20 && "skill_damage_amplify"@[0] == 's');
    assert("beattacked_damage_amplify"@.len() == 25 && "beattacked_damage_amplify"@[0] == 'b');
    assert("skill_damage_amplify_attack"@.len() == 27 && "skill_damage_amplify_attack"@[0] == 's');
    assert("directional_attack_amplify"@.len() == 26 && "directional_attack_amplify"@[0] == 'd');
    assert("instant_stat_amplify"@.len() == 20 && "instant_stat_amplify"@[0] == 'i');
    assert("attack_power_amplify"@.len() == 20 && "attack_power_amplify"@[0] == 'a');
    assert("instant_stat_amplify_by_contents"@.len() == 32 && "instant_stat_amplify_by_contents"@[0] == 'i');
    assert("move_speed_down"@.len() == 15 && "move_speed_down"@[0] == 'm');
    assert("all_speed_down"@.len() == 14 && "all_speed_down"@[0] == 'a');
    assert("reset_cooldown"@.len() == 14 && "reset_cooldown"@[0] == 'r');
    assert("change_ai_point"@.len() == 15 && "change_ai_point"@[0] == 'c');
    assert("ai_point_amplify"@.len() == 16 && "ai_point_amplify"@[0] == 'a');
    assert("increase_identity_gauge"@.len() == 23 && "increase_identity_gauge"@[0] == 'i');
}

/// A stat option of a stat that the table holds has the flags that the
/// stat's name gives: stagger for mastery, mastery_x and
/// paralyzation_point_rate; cooldown for rapidity, rapidity_x and
/// cooldown_reduction; resource for the mana stats; health for the health
/// stats; attack speed for attack_speed, attack_speed_rate, rapidity and
/// rapidity_x; crit for critical_hit_rate, criticalhit and criticalhit_x; and
/// for endurance and the damage stats (str, agi, int, ...) the damage flag
/// where the modifier helps its bearer (a buff that raises, a debuff that
/// lowers), the defense flag otherwise.
pub proof fn lemma_flags_of_stat_names(d: GameData, category: Seq<char>, o: PassiveOption)
    requires
        o.option_type@ == "stat"@,
        stat_known(d, o.key_stat@),
    ensures
        (o.key_stat@ == "mastery"@ || o.key_stat@ == "mastery_x"@ || o.key_stat@ == "paralyzation_point_rate"@) ==> passive_option_flags(d, category, o) & BUFF_TYPE_STAGGER == BUFF_TYPE_STAGGER,
        (o.key_stat@ == "rapidity"@ || o.key_stat@ == "rapidity_x"@ || o.key_stat@ == "cooldown_reduction"@) ==> passive_option_flags(d, category, o) & BUFF_TYPE_COOLDOWN == BUFF_TYPE_COOLDOWN,
        (o.key_stat@ == "max_mp"@ || o.key_stat@ == "max_mp_x"@ || o.key_stat@ == "max_mp_x_x"@ || o.key_stat@ == "normal_mp_recovery"@ || o.key_stat@ == "combat_mp_recovery"@ || o.key_stat@ == "normal_mp_recovery_rate"@ || o.key_stat@ == "combat_mp_recovery_rate"@ || o.key_stat@ == "resource_recovery_rate"@) ==> passive_option_flags(d, category, o) & BUFF_TYPE_RESOURCE == BUFF_TYPE_RESOURCE,
        (o.key_stat@ == "con"@ || o.key_stat@ == "con_x"@ || o.key_stat@ == "max_hp"@ || o.key_stat@ == "max_hp_x"@ || o.key_stat@ == "max_hp_x_x"@ || o.key_stat@ == "normal_hp_recovery"@ || o.key_stat@ == "combat_hp_recovery"@ || o.key_stat@ == "normal_hp_recovery_rate"@ || o.key_stat@ == "combat_hp_recovery_rate"@ || o.key_stat@ == "self_recovery_rate"@ || o.key_stat@ == "drain_hp_dam_rate"@ || o.key_stat@ == "vitality"@) ==> passive_option_flags(d, category, o) & BUFF_TYPE_HP == BUFF_TYPE_HP,
        (o.key_stat@ == "attack_speed"@ || o.key_stat@ == "attack_speed_rate"@ || o.key_stat@ == "rapidity"@ || o.key_stat@ == "rapidity_x"@) ==> passive_option_flags(d, category, o) & BUFF_TYPE_ATKSPEED == BUFF_TYPE_ATKSPEED,
        (o.key_stat@ == "critical_hit_rate"@ || o.key_stat@ == "criticalhit"@ || o.key_stat@ == "criticalhit_x"@) ==> passive_option_flags(d, category, o) & BUFF_TYPE_CRIT == BUFF_TYPE_CRIT,
        (o.key_stat@ == "endurance"@ || o.key_stat@ == "endurance_x"@ || o.key_stat@ == "str"@ || o.key_stat@ == "agi"@ || o.key_stat@ == "int"@ || o.key_stat@ == "str_x"@ || o.key_stat@ == "agi_x"@ || o.key_stat@ == "int_x"@ || o.key_stat@ == "char_attack_dam"@ || o.key_stat@ == "attack_power_rate"@ || o.key_stat@ == "skill_damage_rate"@ || o.key_stat@ == "attack_power_rate_x"@ || o.key_stat@ == "skill_damage_rate_x"@ || o.key_stat@ == "hit_rate"@ || o.key_stat@ == "dodge_rate"@ || o.key_stat@ == "critical_dam_rate"@ || o.key_stat@ == "awakening_dam_rate"@ || o.key_stat@ == "attack_power_addend"@ || o.key_stat@ == "weapon_dam"@) ==> passive_option_flags(d, category, o) & (if (category == "buff"@ && o.value >= 0) || (category == "debuff"@ && o.value <= 0) {
            BUFF_TYPE_DMG
        } else {
            BUFF_TYPE_DEFENSE
        })
            == (if (category == "buff"@ && o.value >= 0) || (category == "debuff"@ && o.value <= 0) {
            BUFF_TYPE_DMG
        } else {
            BUFF_TYPE_DEFENSE
        }),
{
    reveal_strlit("agi");
    reveal_strlit("agi_x");
    reveal_strlit("attack_power_addend");
    reveal_strlit("attack_power_rate");
    reveal_strlit("attack_power_rate_x");
    reveal_strlit("attack_speed");
    reveal_strlit("attack_speed_rate");
    reveal_strlit("awakening_dam_rate");
    reveal_strlit("char_attack_dam");
    reveal_strlit("combat_hp_recovery");
    reveal_strlit("combat_hp_recovery_rate");
    reveal_strlit("combat_mp_recovery");
    reveal_strlit("combat_mp_recovery_rate");
    reveal_strlit("con");
    reveal_strlit("con_x");
    reveal_strlit("cooldown_reduction");
    reveal_strlit("critical_dam_rate");
    reveal_strlit("critical_hit_rate");
    reveal_strlit("criticalhit");
    reveal_strlit("criticalhit_x");
    reveal_strlit("dodge_rate");
    reveal_strlit("drain_hp_dam_rate");
    reveal_strlit("endurance");
    reveal_strlit("endurance_x");
    reveal_strlit("hit_rate");
    reveal_strlit("int");
    reveal_strlit("int_x");
    reveal_strlit("mastery");
    reveal_strlit("mastery_x");
    reveal_strlit("max_hp");
    reveal_strlit("max_hp_x");
    reveal_strlit("max_hp_x_x");
    reveal_strlit("max_mp");
    reveal_strlit("max_mp_x");
    reveal_strlit("max_mp_x_x");
    reveal_strlit("normal_hp_recovery");
    reveal_strlit("normal_hp_recovery_rate");
    reveal_strlit("normal_mp_recovery");
    reveal_strlit("normal_mp_recovery_rate");
    reveal_strlit("paralyzation_point_rate");
    reveal_strlit("rapidity");
    reveal_strlit("rapidity_x");
    reveal_strlit("resource_recovery_rate");
    reveal_strlit("self_recovery_rate");
    reveal_strlit("skill_damage_rate");
    reveal_strlit("skill_damage_rate_x");
    reveal_strlit("str");
    reveal_strlit("str_x");
    reveal_strlit("vitality");
    reveal_strlit("weapon_dam");
    assert("agi"@.len() == 3 && "agi"@[0] == 'a');
    assert("agi_x"@.len() == 5 && "agi_x"@[0] == 'a');
    assert("attack_power_addend"@.len() == 19 && "attack_power_addend"@[0] == 'a' && "attack_power_addend"@[13] == 'a');
    assert("attack_power_rate"@.len() == 17 && "attack_power_rate"@[0] == 'a' && "attack_power_rate"@[7] == 'p');
    assert("attack_power_rate_x"@.len() == 19 && "attack_power_rate_x"@[0] == 'a' && "attack_power_rate_x"@[13] == 'r');
    assert("attack_speed"@.len() == 12);
    assert("attack_speed_rate"@.len() == 17 && "attack_speed_rate"@[0] == 'a' && "attack_speed_rate"@[7] == 's');
    assert("awakening_dam_rate"@.len() == 18 && "awakening_dam_rate"@[0] == 'a');
    assert("char_attack_dam"@.len() == 15);
    assert("combat_hp_recovery"@.len() == 18 && "combat_hp_recovery"@[0] == 'c' && "combat_hp_recovery"@[2] == 'm' && "combat_hp_recovery"@[7] == 'h');
    assert("combat_hp_recovery_rate"@.len() == 23 && "combat_hp_recovery_rate"@[0] == 'c' && "combat_hp_recovery_rate"@[7] == 'h');
    assert("combat_mp_recovery"@.len() == 18 && "combat_mp_recovery"@[0] == 'c' && "combat_mp_recovery"@[2] == 'm' && "combat_mp_recovery"@[7] == 'm');
    assert("combat_mp_recovery_rate"@.len() == 23 && "combat_mp_recovery_rate"@[0] == 'c' && "combat_mp_recovery_rate"@[7] == 'm');
    assert("con"@.len() == 3 && "con"@[0] == 'c');
    assert("con_x"@.len() == 5 && "con_x"@[0] == 'c');
    assert("cooldown_reduction"@.len() == 18 && "cooldown_reduction"@[0] == 'c' && "cooldown_reduction"@[2] == 'o');
    assert("critical_dam_rate"@.len() == 17 && "critical_dam_rate"@[0] == 'c' && "critical_dam_rate"@[9] == 'd');
    assert("critical_hit_rate"@.len() == 17 && "critical_hit_rate"@[0] == 'c' && "critical_hit_rate"@[9] == 'h');
    assert("criticalhit"@.len() == 11 && "criticalhit"@[0] == 'c');
    assert("criticalhit_x"@.len() == 13);
    assert("dodge_rate"@.len() == 10 && "dodge_rate"@[0] == 'd');
    assert("drain_hp_dam_rate"@.len() == 17 && "drain_hp_dam_rate"@[0] == 'd');
    assert("endurance"@.len() == 9 && "endurance"@[0] == 'e');
    assert("endurance_x"@.len() == 11 && "endurance_x"@[0] == 'e');
    assert("hit_rate"@.len() == 8 && "hit_rate"@[0] == 'h');
    assert("int"@.len() == 3 && "int"@[0] == 'i');
    assert("int_x"@.len() == 5 && "int_x"@[0] == 'i');
    assert("mastery"@.len() == 7);
    assert("mastery_x"@.len() == 9 && "mastery_x"@[0] == 'm');
    assert("max_hp"@.len() == 6 && "max_hp"@[4] == 'h');
    assert("max_hp_x"@.len() == 8 && "max_hp_x"@[0] == 'm' && "max_hp_x"@[4] == 'h');
    assert("max_hp_x_x"@.len() == 10 && "max_hp_x_x"@[0] == 'm' && "max_hp_x_x"@[4] == 'h');
    assert("max_mp"@.len() == 6 && "max_mp"@[4] == 'm');
    assert("max_mp_x"@.len() == 8 && "max_mp_x"@[0] == 'm' && "max_mp_x"@[4] == 'm');
    assert("max_mp_x_x"@.len() == 10 && "max_mp_x_x"@[0] == 'm' && "max_mp_x_x"@[4] == 'm');
    assert("normal_hp_recovery"@.len() == 18 && "normal_hp_recovery"@[0] == 'n' && "normal_hp_recovery"@[7] == 'h');
    assert("normal_hp_recovery_rate"@.len() == 23 && "normal_hp_recovery_rate"@[0] == 'n' && "normal_hp_recovery_rate"@[7] == 'h');
    assert("normal_mp_recovery"@.len() == 18 && "normal_mp_recovery"@[0] == 'n' && "normal_mp_recovery"@[7] == 'm');
    assert("normal_mp_recovery_rate"@.len() == 23 && "normal_mp_recovery_rate"@[0] == 'n' && "normal_mp_recovery_rate"@[7] == 'm');
    assert("paralyzation_point_rate"@.len() == 23 && "paralyzation_point_rate"@[0] == 'p');
    assert("rapidity"@.len() == 8 && "rapidity"@[0] == 'r');
    assert("rapidity_x"@.len() == 10 && "rapidity_x"@[0] == 'r');
    assert("resource_recovery_rate"@.len() == 22);
    assert("self_recovery_rate"@.len() == 18 && "self_recovery_rate"@[0] == 's');
    assert("skill_damage_rate"@.len() == 17 && "skill_damage_rate"@[0] == 's');
    assert("skill_damage_rate_x"@.len() == 19 && "skill_damage_rate_x"@[0] == 's');
    assert("str"@.len() == 3 && "str"@[0] == 's');
    assert("str_x"@.len() == 5 && "str_x"@[0] == 's');
    assert("vitality"@.len() == 8 && "vitality"@[0] == 'v');
    assert("weapon_dam"@.len() == 10 && "weapon_dam"@[0] == 'w');
    let stat = stat_number(d, o.key_stat@);
    lemma_or_has(
        stat_primary_flag(d, category, o.key_stat@, stat, o.value),
        stat_secondary_flag(d, category, o.key_stat@, stat, o.value),
    );
}

proof fn lemma_or_has(x: u32, y: u32)
    ensures
        (x | y) & x == x,
        (x | y) & y == y,
{
    assert((x | y) & x == x) by (bit_vector);
    assert((x | y) & y == y) by (bit_vector);
}

/// An option's type gives its flag: skill_critical_ratio the crit flag;
/// skill_damage, class_option, skill_group_damage, skill_critical_damage and
/// skill_penetration the damage flag where the modifier helps its bearer (a
/// buff that raises, a debuff that lowers), the defense flag otherwise;
/// skill_cooldown_reduction and skill_group_cooldown_reduction the cooldown
/// flag; skill_mana_reduction and mana_reduction the resource flag.
pub proof fn lemma_flags_of_option_types(d: GameData, category: Seq<char>, o: PassiveOption)
    ensures
        o.option_type@ == "skill_critical_ratio"@ ==> passive_option_flags(d, category, o)
            == BUFF_TYPE_CRIT,
        (o.option_type@ == "skill_damage"@ || o.option_type@ == "class_option"@ || o.option_type@ == "skill_group_damage"@ || o.option_type@ == "skill_critical_damage"@ || o.option_type@ == "skill_penetration"@) ==> passive_option_flags(d, category, o)
            == (if (category == "buff"@ && o.value >= 0) || (category == "debuff"@ && o.value <= 0) {
            BUFF_TYPE_DMG
        } else {
            BUFF_TYPE_DEFENSE
        }),
        (o.option_type@ == "skill_cooldown_reduction"@ || o.option_type@ == "skill_group_cooldown_reduction"@) ==> passive_option_flags(d, category, o)
            == BUFF_TYPE_COOLDOWN,
        (o.option_type@ == "skill_mana_reduction"@ || o.option_type@ == "mana_reduction"@) ==> passive_option_flags(d, category, o)
            == BUFF_TYPE_RESOURCE,
{
    reveal_strlit("buff");
    reveal_strlit("class_option");
    reveal_strlit("combat_effect");
    reveal_strlit("debuff");
    reveal_strlit("mana_reduction");
    reveal_strlit("skill_cooldown_reduction");
    reveal_strlit("skill_critical_damage");
    reveal_strlit("skill_critical_ratio");
    reveal_strlit("skill_damage");
    reveal_strlit("skill_group_cooldown_reduction");
    reveal_strlit("skill_group_damage");
    reveal_strlit("skill_mana_reduction");
    reveal_strlit("skill_penetration");
    reveal_strlit("stat");
    assert("buff"@.len() == 4 && "buff"@[0] == 'b');
    assert("class_option"@.len() == 12 && "class_option"@[0] == 'c');
    assert("combat_effect"@.len() == 13);
    assert("debuff"@.len() == 6);
    assert("mana_reduction"@.len() == 14);
    assert("skill_cooldown_reduction"@.len() == 24);
    assert("skill_critical_damage"@.len() == 21);
    assert("skill_critical_ratio"@.len() == 20 && "skill_critical_ratio"@[6] == 'c');
    assert("skill_damage"@.len() == 12 && "skill_damage"@[0] == 's');
    assert("skill_group_cooldown_reduction"@.len() == 30);
    assert("skill_group_damage"@.len() == 18);
    assert("skill_mana_reduction"@.len() == 20 && "skill_mana_reduction"@[6] == 'm');
    assert("skill_penetration"@.len() == 17);
    assert("stat"@.len() == 4 && "stat"@[0] == 's');
}

// ---------------------------------------------------------------------------
// Computing it.

fn is_damage_buff_type_text(t: &String) -> (r: bool)
    ensures
        r == is_damage_buff_type(t@),
{
    is_text(t, "weaken_defense") || is_text(t, "weaken_resistance") || is_text(
        t,
        "skill_damage_amplify",
    ) || is_text(t, "beattacked_damage_amplify") || is_text(t, "skill_damage_amplify_attack")
        || is_text(t, "directional_attack_amplify") || is_text(t, "instant_stat_amplify")
        || is_text(t, "attack_power_amplify") || is_text(t, "instant_stat_amplify_by_contents")
}

fn base_flag(t: &String) -> (r: u32)
    ensures
        r == base_buff_type_flag(t@),
{
    if is_damage_buff_type_text(t) {
        BUFF_TYPE_DMG
    } else if is_text(t, "move_speed_down") || is_text(t, "all_speed_down") {
        BUFF_TYPE_MOVESPEED
    } else if is_text(t, "reset_cooldown") {
        BUFF_TYPE_COOLDOWN
    } else if is_text(t, "change_ai_point") || is_text(t, "ai_point_amplify") {
        BUFF_TYPE_STAGGER
    } else if is_text(t, "increase_identity_gauge") {
        BUFF_TYPE_RESOURCE
    } else {
        BUFF_TYPE_NONE
    }
}

fn is_resource_stat_text(k: &String) -> (r: bool)
    ensures
        r == is_resource_stat(k@),
{
    is_text(k, "max_mp") || is_text(k, "max_mp_x") || is_text(k, "max_mp_x_x") || is_text(
        k,
        "normal_mp_recovery",
    ) || is_text(k, "combat_mp_recovery") || is_text(k, "normal_mp_recovery_rate") || is_text(
        k,
        "combat_mp_recovery_rate",
    ) || is_text(k, "resource_recovery_rate")
}

fn is_hp_stat_text(k: &String) -> (r: bool)
    ensures
        r == is_hp_stat(k@),
{
    is_text(k, "con") || is_text(k, "con_x") || is_text(k, "max_hp") || is_text(k, "max_hp_x")
        || is_text(k, "max_hp_x_x") || is_text(k, "normal_hp_recovery") || is_text(
        k,
        "combat_hp_recovery",
    ) || is_text(k, "normal_hp_recovery_rate") || is_text(k, "combat_hp_recovery_rate")
        || is_text(k, "self_recovery_rate") || is_text(k, "drain_hp_dam_rate") || is_text(
        k,
        "vitality",
    )
}

fn is_damage_stat_text(k: &String) -> (r: bool)
    ensures
        r == is_damage_stat(k@),
{
    is_text(k, "str") || is_text(k, "agi") || is_text(k, "int") || is_text(k, "str_x") || is_text(
        k,
        "agi_x",
    ) || is_text(k, "int_x") || is_text(k, "char_attack_dam") || is_text(k, "attack_power_rate")
        || is_text(k, "skill_damage_rate") || is_text(k, "attack_power_rate_x") || is_text(
        k,
        "skill_damage_rate_x",
    ) || is_text(k, "hit_rate") || is_text(k, "dodge_rate") || is_text(k, "critical_dam_rate")
        || is_text(k, "awakening_dam_rate") || is_text(k, "attack_power_addend") || is_text(
        k,
        "weapon_dam",
    )
}

fn is_damage_action_text(a: &String) -> (r: bool)
    ensures
        r == is_damage_action(a@),
{
    is_text(a, "modify_damage") || is_text(a, "modify_final_damage") || is_text(
        a,
        "modify_critical_multiplier",
    ) || is_text(a, "modify_penetration") || is_text(a, "modify_penetration_when_critical")
        || is_text(a, "modify_penetration_addend") || is_text(
        a,
        "modify_penetration_addend_when_critical",
    ) || is_text(a, "modify_damage_shield_multiplier")
}

fn damage_or_defense_flag(category: &String, value: i32) -> (r: u32)
    ensures
        r == damage_or_defense(category@, value),
{
    if (is_text(category, "buff") && value >= 0) || (is_text(category, "debuff") && value <= 0) {
        BUFF_TYPE_DMG
    } else {
        BUFF_TYPE_DEFENSE
    }
}

/// The number of a range-bounding stat.
fn range_stat(d: &GameData, name: &str) -> (r: u32)
    requires
        stat_known(*d, name@),
    ensures
        r == stat_number(*d, name@),
{
    match d.stat_type(name) {
        Some(v) => v,
        None => 0,
    }
}

fn stat_option_flags(d: &GameData, category: &String, key: &String, stat: u32, value: i32) -> (r:
    u32)
    requires
        primary_ranges_readable(*d, key@, stat),
        secondary_ranges_readable(*d, key@, stat),
    ensures
        r == stat_primary_flag(*d, category@, key@, stat, value) | stat_secondary_flag(
            *d,
            category@,
            key@,
            stat,
            value,
        ),
{
    let primary = if is_text(key, "mastery") || is_text(key, "mastery_x") || is_text(
        key,
        "paralyzation_point_rate",
    ) {
        BUFF_TYPE_STAGGER
    } else if is_text(key, "rapidity") || is_text(key, "rapidity_x") || is_text(
        key,
        "cooldown_reduction",
    ) {
        BUFF_TYPE_COOLDOWN
    } else if is_resource_stat_text(key) {
        BUFF_TYPE_RESOURCE
    } else if is_hp_stat_text(key) {
        BUFF_TYPE_HP
    } else if (range_stat(d, "def") <= stat && stat <= range_stat(d, "magical_inc_rate")) || is_text(
        key,
        "endurance",
    ) || is_text(key, "endurance_x") {
        damage_or_defense_flag(category, value)
    } else if range_stat(d, "move_speed") <= stat && stat <= range_stat(
        d,
        "vehicle_move_speed_rate",
    ) {
        BUFF_TYPE_MOVESPEED
    } else {
        BUFF_TYPE_NONE
    };
    let secondary = if is_text(key, "attack_speed") || is_text(key, "attack_speed_rate") || is_text(
        key,
        "rapidity",
    ) || is_text(key, "rapidity_x") {
        BUFF_TYPE_ATKSPEED
    } else if is_text(key, "critical_hit_rate") || is_text(key, "criticalhit") || is_text(
        key,
        "criticalhit_x",
    ) {
        BUFF_TYPE_CRIT
    } else if (range_stat(d, "attack_power_sub_rate_1") <= stat && stat <= range_stat(
        d,
        "skill_damage_sub_rate_2",
    )) || (range_stat(d, "fire_dam_rate") <= stat && stat <= range_stat(d, "elements_dam_rate"))
        || is_damage_stat_text(key) {
        damage_or_defense_flag(category, value)
    } else {
        BUFF_TYPE_NONE
    };
    primary | secondary
}

fn combat_effect_flags_of(c: &CombatEffectData) -> (r: u32)
    ensures
        r == combat_effect_flags(*c),
{
    let mut flags = BUFF_TYPE_NONE;
    let n = c.effects.len();
    for j in 0..n
        invariant
            n == c.effects@.len(),
            flags == effects_flags(c.effects@.take(j as int)),
    {
        let actions = &c.effects[j].actions;
        let m = actions.len();
        let ghost before = flags;
        assert(c.effects@.take(j as int + 1).drop_last() == c.effects@.take(j as int));
        for k in 0..m
            invariant
                m == actions@.len(),
                flags == actions_flags(before, actions@.take(k as int)),
        {
            assert(actions@.take(k as int + 1).drop_last() == actions@.take(k as int));
            let a = &actions[k].action_type;
            let f = if is_damage_action_text(a) {
                BUFF_TYPE_DMG
            } else if is_text(a, "modify_critical_ratio") {
                BUFF_TYPE_CRIT
            } else {
                BUFF_TYPE_NONE
            };
            flags = flags | f;
        }
        assert(actions@.take(m as int) == actions@);
    }
    assert(c.effects@.take(n as int) == c.effects@);
    flags
}

fn option_flags(d: &GameData, category: &String, o: &PassiveOption) -> (r: u32)
    requires
        option_ranges_known(*d, *o),
    ensures
        r == passive_option_flags(*d, category@, *o),
{
    let t = &o.option_type;
    if is_text(t, "stat") {
        match d.stat_type(o.key_stat.as_str()) {
            Some(stat) => stat_option_flags(d, category, &o.key_stat, stat, o.value),
            None => BUFF_TYPE_NONE,
        }
    } else if is_text(t, "skill_critical_ratio") {
        BUFF_TYPE_CRIT
    } else if is_text(t, "skill_damage") || is_text(t, "class_option") || is_text(
        t,
        "skill_group_damage",
    ) || is_text(t, "skill_critical_damage") || is_text(t, "skill_penetration") {
        damage_or_defense_flag(category, o.value)
    } else if is_text(t, "skill_cooldown_reduction") || is_text(
        t,
        "skill_group_cooldown_reduction",
    ) {
        BUFF_TYPE_COOLDOWN
    } else if is_text(t, "skill_mana_reduction") || is_text(t, "mana_reduction") {
        BUFF_TYPE_RESOURCE
    } else if is_text(t, "combat_effect") {
        match d.combat_effect(o.key_index) {
            Some(c) => combat_effect_flags_of(c),
            None => BUFF_TYPE_NONE,
        }
    } else {
        BUFF_TYPE_NONE
    }
}

/// The kinds of effect a buff has, as flag bits: those that its type gives,
/// together with those that each of its passive options gives.
pub fn get_status_effect_buff_type_flags(buff: &SkillBuffData, data: &GameData) -> (r: u32)
    requires
        buff_ranges_known(*data, *buff),
    ensures
        r == buff_type_flags(*data, *buff),
{
    let mut flags = base_flag(&buff.buff_type);
    let n = buff.passive_option.len();
    for i in 0..n
        invariant
            n == buff.passive_option@.len(),
            buff_ranges_known(*data, *buff),
            flags == options_flags(
                *data,
                base_buff_type_flag(buff.buff_type@),
                buff.category@,
                buff.passive_option@.take(i as int),
            ),
    {
        assert(buff.passive_option@.take(i as int + 1).drop_last() == buff.passive_option@.take(
            i as int,
        ));
        let o = &buff.passive_option[i];
        assert(option_ranges_known(*data, buff.passive_option@[i as int]));
        let f = option_flags(data, &buff.category, o);
        flags = flags | f;
    }
    assert(buff.passive_option@.take(n as int) == buff.passive_option@);
    flags
}

fn is_primary_by_name(k: &String) -> (r: bool)
    ensures
        r == primary_by_name(k@),
{
    is_text(k, "mastery") || is_text(k, "mastery_x") || is_text(k, "paralyzation_point_rate")
        || is_text(k, "rapidity") || is_text(k, "rapidity_x") || is_text(k, "cooldown_reduction")
        || is_resource_stat_text(k) || is_hp_stat_text(k)
}

fn is_secondary_by_name(k: &String) -> (r: bool)
    ensures
        r == secondary_by_name(k@),
{
    is_text(k, "attack_speed") || is_text(k, "attack_speed_rate") || is_text(k, "rapidity")
        || is_text(k, "rapidity_x") || is_text(k, "critical_hit_rate") || is_text(k, "criticalhit")
        || is_text(k, "criticalhit_x")
}

fn is_range_readable(d: &GameData, stat: u32, low: &str, high: &str) -> (r: bool)
    ensures
        r == range_readable(*d, stat, low@, high@),
{
    match d.stat_type(low) {
        None => false,
        Some(l) => l > stat || d.stat_type(high).is_some(),
    }
}

fn is_option_readable(d: &GameData, o: &PassiveOption) -> (r: bool)
    ensures
        r == option_ranges_known(*d, *o),
{
    if !is_text(&o.option_type, "stat") {
        return true;
    }
    let key = &o.key_stat;
    match d.stat_type(key.as_str()) {
        None => true,
        Some(stat) => {
            let primary = is_primary_by_name(key) || (is_range_readable(
                d,
                stat,
                "def",
                "magical_inc_rate",
            ) && ((range_stat(d, "def") <= stat && stat <= range_stat(d, "magical_inc_rate"))
                || is_text(key, "endurance") || is_text(key, "endurance_x") || is_range_readable(
                d,
                stat,
                "move_speed",
                "vehicle_move_speed_rate",
            )));
            let secondary = is_secondary_by_name(key) || (is_range_readable(
                d,
                stat,
                "attack_power_sub_rate_1",
                "skill_damage_sub_rate_2",
            ) && ((range_stat(d, "attack_power_sub_rate_1") <= stat && stat <= range_stat(
                d,
                "skill_damage_sub_rate_2",
            )) || is_range_readable(d, stat, "fire_dam_rate", "elements_dam_rate")));
            primary && secondary
        },
    }
}

/// Whether every range-bounding stat that classifying the buff reads is in
/// the stat type table.
pub fn buff_ranges_readable(buff: &SkillBuffData, data: &GameData) -> (r: bool)
    ensures
        r == buff_ranges_known(*data, *buff),
{
    let n = buff.passive_option.len();
    for i in 0..n
        invariant
            n == buff.passive_option@.len(),
            forall|j: int|
                0 <= j < i ==> option_ranges_known(*data, #[trigger] buff.passive_option@[j]),
    {
        if !is_option_readable(data, &buff.passive_option[i]) {
            return false;
        }
    }
    true
}

/// The buff's flags, or `None` where classifying it would read a
/// range-bounding stat that the stat type table lacks.
pub fn try_status_effect_buff_type_flags(buff: &SkillBuffData, data: &GameData) -> (r: Option<u32>)
    ensures
        r == (if buff_ranges_known(*data, *buff) {
            Some(buff_type_flags(*data, *buff))
        } else {
            None::<u32>
        }),
{
    if buff_ranges_readable(buff, data) {
        Some(get_status_effect_buff_type_flags(buff, data))
    } else {
        None
    }
}

} // verus!
