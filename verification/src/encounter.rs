//! The arithmetic and the rules that storing an encounter applies: its
//! duration and damage per second, its notes, the stagger it records, which
//! entities are kept, each player's rolling and running damage per second,
//! identity gauge gains and card draws, and what settles each skill of a
//! player: its damage per second, its cast log and the gems on it.
use vstd::prelude::*;
use crate::classes::{cooldown_gem_level, cooldown_gem_value_to_level, damage_gem_level, damage_gem_value_to_level};
use crate::damage::{
    average_at_step, average_dps_fits, average_sums_fit, calculate_average_dps, count_before,
    damage_between, div_toward_zero, generate_intervals, in_time_order,
    lemma_window_in_time_order, step_count, total_damage, try_sum_in_range, window_end,
    window_start, window_sum_fits,
};
use crate::model::{EncounterEntity, EntityType, Gem, Skill};
use crate::text::is_text;

verus! {

/// How long a fight lasted, in milliseconds, and the whole seconds that its
/// damage per second is taken over: at least one.
pub fn encounter_duration(fight_start: i64, last_combat_packet: i64) -> (r: (i64, i64))
    requires
        i64::MIN <= last_combat_packet - fight_start <= i64::MAX,
    ensures
        r.0 == last_combat_packet - fight_start,
        r.1 == (if div_toward_zero(r.0 as int, 1000) >= 1 {
            div_toward_zero(r.0 as int, 1000)
        } else {
            1
        }),
{
    let duration = last_combat_packet - fight_start;
    let seconds = duration / 1000;
    let duration_seconds = if seconds >= 1 {
        seconds
    } else {
        1
    };
    (duration, duration_seconds)
}

/// Damage per second: the damage over the seconds, rounded toward zero.
pub fn damage_per_second(damage: i64, duration_seconds: i64) -> (r: i64)
    requires
        duration_seconds >= 1,
    ensures
        r == div_toward_zero(damage as int, duration_seconds as int),
{
    damage / duration_seconds
}

/// The time and amount of a stagger that was begun and never finished: where
/// the previous stagger is positive and not the boss's whole stagger bar, the
/// seconds from its start to the last stagger log entry, if positive.
pub open spec fn unfinished_stagger(
    last_log_second: i32,
    prev_stagger: i32,
    max_stagger: i32,
    stagger_start: i64,
    fight_start: i64,
) -> Option<(i32, i32)> {
    if prev_stagger > 0 && prev_stagger != max_stagger {
        let start_second = div_toward_zero(stagger_start - fight_start, 1000) as i32;
        let duration = last_log_second - start_second;
        if duration > 0 {
            Some((duration as i32, prev_stagger))
        } else {
            None
        }
    } else {
        None
    }
}

/// Adds to the stagger intervals the one that was begun and never finished,
/// if any.
pub fn add_unfinished_stagger(
    intervals: &mut Vec<(i32, i32)>,
    last_log_second: i32,
    prev_stagger: i32,
    max_stagger: i32,
    stagger_start: i64,
    fight_start: i64,
)
    requires
        prev_stagger > 0 && prev_stagger != max_stagger ==> i64::MIN <= stagger_start
            - fight_start <= i64::MAX,
        prev_stagger > 0 && prev_stagger != max_stagger ==> i32::MIN <= last_log_second - (
        div_toward_zero(stagger_start - fight_start, 1000) as i32) <= i32::MAX,
    ensures
        final(intervals)@ == (match unfinished_stagger(
            last_log_second,
            prev_stagger,
            max_stagger,
            stagger_start,
            fight_start,
        ) {
            Some(i) => old(intervals)@.push(i),
            None => old(intervals)@,
        }),
{
    if prev_stagger > 0 && prev_stagger != max_stagger {
        let start_second = ((stagger_start - fight_start) / 1000) as i32;
        let duration = last_log_second - start_second;
        if duration > 0 {
            intervals.push((duration, prev_stagger));
        }
    }
}

/// The total time and the total stagger of the intervals.
pub open spec fn stagger_sums(s: Seq<(i32, i32)>) -> (int, int)
    decreases s.len(),
{
    if s.len() == 0 {
        (0, 0)
    } else {
        let rest = stagger_sums(s.drop_last());
        (rest.0 + s.last().0, rest.1 + s.last().1)
    }
}

/// Every running total of the intervals stays within `i32`.
pub open spec fn stagger_sums_fit(s: Seq<(i32, i32)>) -> bool {
    forall|k: int|
        0 <= k <= s.len() ==> {
            let t = #[trigger] stagger_sums(s.take(k));
            i32::MIN <= t.0 <= i32::MAX && i32::MIN <= t.1 <= i32::MAX
        }
}

/// The total time and the total stagger of the intervals, where every
/// running total stays within `i32`; `None` where one does not.
pub fn stagger_totals(intervals: &Vec<(i32, i32)>) -> (r: Option<(i32, i32)>)
    ensures
        r is Some <==> stagger_sums_fit(intervals@),
        r matches Some(t) ==> (t.0 as int, t.1 as int) == stagger_sums(intervals@),
{
    let mut total_time: i32 = 0;
    let mut total_stagger: i32 = 0;
    let n = intervals.len();
    assert(intervals@.take(0) =~= Seq::<(i32, i32)>::empty());
    for i in 0..n
        invariant
            n == intervals@.len(),
            (total_time as int, total_stagger as int) == stagger_sums(intervals@.take(i as int)),
            forall|k: int|
                0 <= k <= i ==> {
                    let t = #[trigger] stagger_sums(intervals@.take(k));
                    i32::MIN <= t.0 <= i32::MAX && i32::MIN <= t.1 <= i32::MAX
                },
    {
        assert(intervals@.take(i + 1).drop_last() =~= intervals@.take(i as int));
        let time = total_time.checked_add(intervals[i].0);
        let stagger = total_stagger.checked_add(intervals[i].1);
        match (time, stagger) {
            (Some(t), Some(g)) => {
                total_time = t;
                total_stagger = g;
            },
            _ => {
                assert(!({
                    let t = stagger_sums(intervals@.take(i + 1));
                    i32::MIN <= t.0 <= i32::MAX && i32::MIN <= t.1 <= i32::MAX
                }));
                return None;
            },
        }
    }
    assert(intervals@.take(n as int) =~= intervals@);
    Some((total_time, total_stagger))
}

/// What the stagger of an encounter records.
#[derive(Clone, Copy, Debug, PartialEq, Eq, Structural)]
pub enum StaggerSummary {
    /// No statistics: no stagger log, or no stagger time.
    Absent,
    /// The total time and total stagger that the statistics are made of.
    Totals(i32, i32),
    /// A running total does not fit in `i32`.
    TooLarge,
}

/// The intervals once the stagger begun and never finished is added, where
/// there is a stagger log (its last entry's second given).
pub open spec fn stagger_intervals_after(
    intervals: Seq<(i32, i32)>,
    last_log_second: Option<i32>,
    prev_stagger: i32,
    max_stagger: i32,
    stagger_start: i64,
    fight_start: i64,
) -> Seq<(i32, i32)> {
    match last_log_second {
        Some(last) => match unfinished_stagger(last, prev_stagger, max_stagger, stagger_start, fight_start) {
            Some(i) => intervals.push(i),
            None => intervals,
        },
        None => intervals,
    }
}

/// Statistics are recorded for a non-empty stagger log whose intervals add up
/// to a positive time.
pub open spec fn stagger_summary_of(intervals: Seq<(i32, i32)>, has_log: bool) -> StaggerSummary {
    if !has_log {
        StaggerSummary::Absent
    } else if !stagger_sums_fit(intervals) {
        StaggerSummary::TooLarge
    } else if stagger_sums(intervals).0 > 0 {
        StaggerSummary::Totals(stagger_sums(intervals).0 as i32, stagger_sums(intervals).1 as i32)
    } else {
        StaggerSummary::Absent
    }
}

/// Completes the stagger intervals and says what the stagger statistics are
/// made of.
pub fn stagger_summary(
    intervals: &mut Vec<(i32, i32)>,
    last_log_second: Option<i32>,
    prev_stagger: i32,
    max_stagger: i32,
    stagger_start: i64,
    fight_start: i64,
) -> (r: StaggerSummary)
    requires
        last_log_second is Some && prev_stagger > 0 && prev_stagger != max_stagger ==> i64::MIN
            <= stagger_start - fight_start <= i64::MAX,
        last_log_second is Some && prev_stagger > 0 && prev_stagger != max_stagger
            ==> i32::MIN <= last_log_second->0 - (div_toward_zero(stagger_start - fight_start, 1000)
            as i32) <= i32::MAX,
    ensures
        final(intervals)@ == stagger_intervals_after(
            old(intervals)@,
            last_log_second,
            prev_stagger,
            max_stagger,
            stagger_start,
            fight_start,
        ),
        r == stagger_summary_of(final(intervals)@, last_log_second is Some),
{
    match last_log_second {
        None => StaggerSummary::Absent,
        Some(last) => {
            add_unfinished_stagger(intervals, last, prev_stagger, max_stagger, stagger_start, fight_start);
            match stagger_totals(intervals) {
                None => StaggerSummary::TooLarge,
                Some((time, stagger)) => if time > 0 {
                    StaggerSummary::Totals(time, stagger)
                } else {
                    StaggerSummary::Absent
                },
            }
        },
    }
}

/// The entities whose records an encounter keeps: those that dealt damage
/// and are a player with a class and health, the local player, an esther, or
/// a boss with health.
pub open spec fn is_stored(e: EncounterEntity, local_player: Seq<char>) -> bool {
    ((e.entity_type == EntityType::Player && e.class_id != 0 && e.max_hp > 0) || e.name@
        == local_player || e.entity_type == EntityType::Esther || (e.entity_type
        == EntityType::Boss && e.max_hp > 0)) && e.damage_dealt > 0
}

/// Whether the encounter keeps the entity's record.
pub fn is_stored_entity(e: &EncounterEntity, local_player: &String) -> (r: bool)
    ensures
        r == is_stored(*e, local_player@),
{
    ((e.entity_type == EntityType::Player && e.class_id != 0 && e.max_hp > 0) || e.name
        == *local_player || e.entity_type == EntityType::Esther || (e.entity_type
        == EntityType::Boss && e.max_hp > 0)) && e.damage_dealt > 0
}

/// No entity that dealt no damage is kept; one that dealt damage is kept
/// exactly where it is the local player, an esther, a boss with health, or a
/// player with a class and health. Monsters, guardians, npcs, summons and
/// projectiles are kept only as the local player.
pub proof fn lemma_stored_entities(e: EncounterEntity, local_player: Seq<char>)
    ensures
        e.damage_dealt <= 0 ==> !is_stored(e, local_player),
        e.damage_dealt > 0 && e.name@ == local_player ==> is_stored(e, local_player),
        e.damage_dealt > 0 && e.entity_type == EntityType::Esther ==> is_stored(e, local_player),
        e.damage_dealt > 0 && e.entity_type == EntityType::Boss ==> (is_stored(e, local_player)
            <==> (e.max_hp > 0 || e.name@ == local_player)),
        e.damage_dealt > 0 && e.entity_type == EntityType::Player ==> (is_stored(e, local_player)
            <==> ((e.class_id != 0 && e.max_hp > 0) || e.name@ == local_player)),
        e.entity_type != EntityType::Player && e.entity_type != EntityType::Esther
            && e.entity_type != EntityType::Boss ==> (is_stored(e, local_player) <==> (
        e.damage_dealt > 0 && e.name@ == local_player)),
{
}

/// The half-width of the rolling window, in milliseconds, and its whole width
/// in seconds.
pub const WINDOW_MS: i64 = 5000;
pub const WINDOW_S: i64 = 5;

/// The window around second `k` of the fight: from five seconds before to
/// five seconds after, both included.
pub open spec fn window_low(fight_start: int, k: int) -> int {
    fight_start + 1000 * k - WINDOW_MS
}

pub open spec fn window_high(fight_start: int, k: int) -> int {
    fight_start + 1000 * k + WINDOW_MS
}

/// The damage per second over the window around second `k` (see
/// `window_low`): the damage of the window, over its ten seconds, rounded
/// toward zero.
pub open spec fn rolling_dps_at(s: Seq<(i64, i64)>, fight_start: int, k: int) -> int {
    div_toward_zero(
        total_damage(
            s.subrange(
                window_start(s, window_low(fight_start, k)),
                window_end(s, window_high(fight_start, k)),
            ),
        ),
        WINDOW_S * 2,
    )
}

/// The number of seconds of a fight that a rolling average is kept for.
pub open spec fn second_count(fight_start: int, fight_end: int) -> int {
    if fight_start < fight_end {
        (fight_end - fight_start + 999) / 1000
    } else {
        0
    }
}

/// Every window can be summed: none slices backwards, none overflows.
pub open spec fn rolling_sums_fit(s: Seq<(i64, i64)>, fight_start: int, fight_end: int) -> bool {
    forall|k: int|
        0 <= k < second_count(fight_start, fight_end) ==> #[trigger] window_sum_fits(
            s,
            window_low(fight_start, k),
            window_high(fight_start, k),
        )
}

/// Entries before a later time are at least as many.
pub proof fn lemma_count_before_grows(s: Seq<(i64, i64)>, t1: int, t2: int)
    requires
        t1 <= t2,
    ensures
        count_before(s, t1) <= count_before(s, t2),
    decreases s.len(),
{
    if s.len() > 0 {
        lemma_count_before_grows(s.drop_last(), t1, t2);
    }
}

/// In time order, the rolling damage per second is the damage of the entries
/// from five seconds before to five seconds after, over ten seconds.
pub proof fn lemma_rolling_dps_in_time_order(s: Seq<(i64, i64)>, fight_start: int, k: int)
    requires
        in_time_order(s),
        window_sum_fits(s, window_low(fight_start, k), window_high(fight_start, k)),
    ensures
        rolling_dps_at(s, fight_start, k) == div_toward_zero(
            damage_between(s, window_low(fight_start, k), window_high(fight_start, k)),
            WINDOW_S * 2,
        ),
{
    lemma_window_in_time_order(s, window_low(fight_start, k), window_high(fight_start, k));
}

/// The rolling damage per second of a player for each second of the fight
/// (see `rolling_dps_at`), where every window can be summed; `None` where one
/// cannot (it would slice backwards or overflow).
pub fn rolling_dps(damage_log: &Vec<(i64, i64)>, fight_start: i64, fight_end: i64) -> (r: Option<
    Vec<i64>,
>)
    requires
        fight_start < fight_end ==> fight_end - fight_start <= i64::MAX,
        fight_start < fight_end ==> fight_end + WINDOW_MS < i64::MAX,
        fight_start < fight_end ==> fight_start - WINDOW_MS >= i64::MIN,
    ensures
        r is Some <==> rolling_sums_fit(damage_log@, fight_start as int, fight_end as int),
        r matches Some(v) ==> v@.len() == second_count(fight_start as int, fight_end as int),
        r matches Some(v) ==> forall|k: int|
            0 <= k < v@.len() ==> #[trigger] v@[k] == rolling_dps_at(
                damage_log@,
                fight_start as int,
                k,
            ),
        r matches Some(v) ==> in_time_order(damage_log@) ==> forall|k: int|
            0 <= k < v@.len() ==> #[trigger] v@[k] == div_toward_zero(
                damage_between(
                    damage_log@,
                    window_low(fight_start as int, k),
                    window_high(fight_start as int, k),
                ),
                WINDOW_S * 2,
            ),
{
    let intervals = generate_intervals(fight_start, fight_end);
    let mut r: Vec<i64> = Vec::new();
    let n = intervals.len();
    for i in 0..n
        invariant
            n == intervals@.len(),
            n == second_count(fight_start as int, fight_end as int),
            forall|k: int| 0 <= k < n ==> #[trigger] intervals@[k] == 1000 * k,
            n > 0 ==> fight_end - fight_start <= i64::MAX,
            n > 0 ==> fight_end + WINDOW_MS < i64::MAX,
            n > 0 ==> fight_start - WINDOW_MS >= i64::MIN,
            n > 0 ==> fight_start < fight_end,
            r@.len() == i,
            forall|k: int|
                0 <= k < i ==> #[trigger] window_sum_fits(
                    damage_log@,
                    window_low(fight_start as int, k),
                    window_high(fight_start as int, k),
                ),
            forall|k: int|
                0 <= k < i ==> #[trigger] r@[k] == rolling_dps_at(
                    damage_log@,
                    fight_start as int,
                    k,
                ),
    {
        let interval = intervals[i];
        assert(interval == 1000 * i);
        assert(1000 * i < fight_end - fight_start) by (nonlinear_arith)
            requires
                i < n,
                n == (fight_end - fight_start + 999) / 1000,
                fight_start < fight_end,
        {
        }
        let start = fight_start + interval - WINDOW_MS;
        let end = fight_start + interval + WINDOW_MS;
        match try_sum_in_range(damage_log, start, end) {
            Some(damage) => {
                r.push(damage / (WINDOW_S * 2));
            },
            None => {
                assert(start == window_low(fight_start as int, i as int));
                assert(end == window_high(fight_start as int, i as int));
                assert(!window_sum_fits(
                    damage_log@,
                    window_low(fight_start as int, i as int),
                    window_high(fight_start as int, i as int),
                ));
                return None;
            },
        }
    }
    proof {
        if in_time_order(damage_log@) {
            assert forall|k: int| 0 <= k < r@.len() implies #[trigger] r@[k] == div_toward_zero(
                damage_between(
                    damage_log@,
                    window_low(fight_start as int, k),
                    window_high(fight_start as int, k),
                ),
                WINDOW_S * 2,
            ) by {
                assert(window_sum_fits(
                    damage_log@,
                    window_low(fight_start as int, k),
                    window_high(fight_start as int, k),
                ));
                lemma_rolling_dps_in_time_order(damage_log@, fight_start as int, k);
            }
        }
    }
    Some(r)
}

/// `v` is the rolling damage per second of every second of the fight (see
/// `rolling_dps_at`).
pub open spec fn is_rolling_series(
    v: Seq<i64>,
    s: Seq<(i64, i64)>,
    fight_start: int,
    fight_end: int,
) -> bool {
    &&& v.len() == second_count(fight_start, fight_end)
    &&& forall|k: int| 0 <= k < v.len() ==> #[trigger] v[k] == rolling_dps_at(s, fight_start, k)
}

/// `v` is the average damage per second since the start at every fifth
/// second from `start` to `end` (see `calculate_average_dps`).
pub open spec fn is_average_series(v: Seq<i64>, s: Seq<(i64, i64)>, start: int, end: int) -> bool {
    &&& v.len() == step_count(start, end)
    &&& forall|k: int|
        0 <= k < v.len() ==> #[trigger] v[k] == (if start + 5 * k <= end {
            average_at_step(s, start, k)
        } else {
            0
        })
}

/// A time in milliseconds as whole seconds, rounded toward zero.
pub open spec fn whole_seconds(ms: int) -> int {
    div_toward_zero(ms, 1000)
}

/// What storing an entity records of its damage over the fight.
pub enum DamageSeries {
    /// Nothing: the entity is not a player, or has no damage log.
    Absent,
    /// The rolling damage per second of each second, and the average damage
    /// per second since the start at every fifth second.
    Recorded(Vec<i64>, Vec<i64>),
    /// A window of the rolling damage cannot be summed, or a running total of
    /// the average overflows.
    Unsummable,
}

/// The damage over the fight that storing an entity records: only for a
/// player with a damage log, its rolling damage per second over the fight's
/// milliseconds and its average damage per second over the fight's whole
/// seconds.
pub fn damage_series(
    entity_type: EntityType,
    damage_log: Option<&Vec<(i64, i64)>>,
    fight_start: i64,
    fight_end: i64,
) -> (r: DamageSeries)
    requires
        entity_type == EntityType::Player && damage_log is Some ==> {
            &&& fight_start < fight_end ==> fight_end - fight_start <= i64::MAX
            &&& fight_start < fight_end ==> fight_end + WINDOW_MS < i64::MAX
            &&& fight_start < fight_end ==> fight_start - WINDOW_MS >= i64::MIN
            &&& -9 <= whole_seconds(fight_end as int) - whole_seconds(fight_start as int)
            &&& step_count(whole_seconds(fight_start as int), whole_seconds(fight_end as int))
                <= usize::MAX
        },
    ensures
        !(entity_type == EntityType::Player && damage_log is Some) ==> r is Absent,
        damage_log matches Some(log) ==> entity_type == EntityType::Player ==> (r is Unsummable
            <==> !(rolling_sums_fit(log@, fight_start as int, fight_end as int) && average_sums_fit(
            log@,
            whole_seconds(fight_start as int),
            whole_seconds(fight_end as int),
        ))),
        r matches DamageSeries::Recorded(rolling, average) ==> (damage_log matches Some(log)
            && is_rolling_series(rolling@, log@, fight_start as int, fight_end as int)
            && is_average_series(
            average@,
            log@,
            whole_seconds(fight_start as int),
            whole_seconds(fight_end as int),
        )),
{
    if entity_type != EntityType::Player {
        return DamageSeries::Absent;
    }
    match damage_log {
        None => DamageSeries::Absent,
        Some(log) => {
            let rolling = match rolling_dps(log, fight_start, fight_end) {
                Some(v) => v,
                None => {
                    return DamageSeries::Unsummable;
                },
            };
            let start_second = fight_start / 1000;
            let end_second = fight_end / 1000;
            assert(start_second == whole_seconds(fight_start as int));
            assert(end_second == whole_seconds(fight_end as int));
            if !average_dps_fits(log, start_second, end_second) {
                return DamageSeries::Unsummable;
            }
            let average = calculate_average_dps(log, start_second, end_second);
            DamageSeries::Recorded(rolling, average)
        },
    }
}

/// The identity gauge gained over a log of (time, gauge) readings: the sum of
/// the rises between consecutive readings whose time moves forward.
pub open spec fn identity_gain_of(s: Seq<(i64, u32)>) -> int
    decreases s.len(),
{
    if s.len() <= 1 {
        0
    } else {
        let prev = s[s.len() - 2];
        let curr = s.last();
        identity_gain_of(s.drop_last()) + if curr.0 > prev.0 && curr.1 > prev.1 {
            curr.1 - prev.1
        } else {
            0int
        }
    }
}

/// The gauge gained over a prefix of the log is at most that gained over the
/// whole log.
pub proof fn lemma_identity_gain_grows(s: Seq<(i64, u32)>, k: int)
    requires
        0 <= k <= s.len(),
    ensures
        0 <= identity_gain_of(s.take(k)) <= identity_gain_of(s),
    decreases s.len(),
{
    if k == s.len() {
        assert(s.take(k) =~= s);
        lemma_identity_gain_nonnegative(s);
    } else {
        lemma_identity_gain_grows(s.drop_last(), k);
        assert(s.drop_last().take(k) =~= s.take(k));
    }
}

proof fn lemma_identity_gain_nonnegative(s: Seq<(i64, u32)>)
    ensures
        identity_gain_of(s) >= 0,
    decreases s.len(),
{
    if s.len() > 1 {
        lemma_identity_gain_nonnegative(s.drop_last());
    }
}

/// The identity gauge gained over the log (see `identity_gain_of`), where it
/// fits in `u32`; `None` where it does not.
pub fn identity_gain(log: &Vec<(i64, u32)>) -> (r: Option<u32>)
    ensures
        r is Some <==> identity_gain_of(log@) <= u32::MAX,
        r matches Some(g) ==> g == identity_gain_of(log@),
{
    let mut total: u32 = 0;
    let n = log.len();
    if n == 0 {
        return Some(0);
    }
    assert(log@.take(1).len() == 1);
    for i in 1..n
        invariant
            n == log@.len(),
            total == identity_gain_of(log@.take(i as int)),
    {
        let (t1, g1) = log[i - 1];
        let (t2, g2) = log[i];
        assert(log@.take(i + 1).drop_last() =~= log@.take(i as int));
        if t2 > t1 && g2 > g1 {
            match total.checked_add(g2 - g1) {
                Some(sum) => {
                    total = sum;
                },
                None => {
                    proof {
                        lemma_identity_gain_grows(log@, i + 1);
                    }
                    return None;
                },
            }
        }
    }
    assert(log@.take(n as int) =~= log@);
    Some(total)
}

/// How a class's identity is recorded: with the cards drawn (arcanist), as
/// bubbles (artist, bard), or as a plain gauge.
#[derive(Clone, Copy, Debug, PartialEq, Eq, Structural)]
pub enum IdentityKind {
    Cards,
    Bubbles,
    Gauge,
}

pub open spec fn identity_kind_of(class: Seq<char>) -> IdentityKind {
    if class == "Arcanist"@ {
        IdentityKind::Cards
    } else if class == "Artist"@ || class == "Bard"@ {
        IdentityKind::Bubbles
    } else {
        IdentityKind::Gauge
    }
}

/// How the class's identity is recorded.
pub fn identity_kind(class: &String) -> (r: IdentityKind)
    ensures
        r == identity_kind_of(class@),
{
    if is_text(class, "Arcanist") {
        IdentityKind::Cards
    } else if is_text(class, "Artist") || is_text(class, "Bard") {
        IdentityKind::Bubbles
    } else {
        IdentityKind::Gauge
    }
}

/// A full identity gauge: 7000 for a summoner, 3000 for a souleater, 10000
/// for every other class.
pub open spec fn identity_gauge_max_of(class: Seq<char>) -> u32 {
    if class == "Summoner"@ {
        7000
    } else if class == "Souleater"@ {
        3000
    } else {
        10000
    }
}

/// The identity of an Arcanist is recorded with its cards, that of an Artist
/// or a Bard with its bubbles, every other class's as a gauge; a full gauge
/// is 7000 for a Summoner, 3000 for a Souleater and 10000 for every other
/// class.
pub proof fn lemma_identity_by_class(class: Seq<char>)
    ensures
        class == "Arcanist"@ ==> identity_kind_of(class) == IdentityKind::Cards,
        class == "Artist"@ || class == "Bard"@ ==> identity_kind_of(class) == IdentityKind::Bubbles,
        class != "Arcanist"@ && class != "Artist"@ && class != "Bard"@ ==> identity_kind_of(class)
            == IdentityKind::Gauge,
        class == "Summoner"@ ==> identity_gauge_max_of(class) == 7000,
        class == "Souleater"@ ==> identity_gauge_max_of(class) == 3000,
        class != "Summoner"@ && class != "Souleater"@ ==> identity_gauge_max_of(class) == 10000,
{
    reveal_strlit("Arcanist");
    reveal_strlit("Artist");
    reveal_strlit("Bard");
    reveal_strlit("Souleater");
    reveal_strlit("Summoner");
    assert("Arcanist"@.len() == 8 && "Arcanist"@[0] == 'A');
    assert("Artist"@.len() == 6);
    assert("Bard"@.len() == 4);
    assert("Souleater"@.len() == 9);
    assert("Summoner"@.len() == 8 && "Summoner"@[0] == 'S');
}

/// Gems of type 5 are damage gems and gems of type 27 cooldown gems, each at
/// the level its value gives; a gem of any other type sets nothing.
pub proof fn lemma_gem_kinds(gem_type: u32, value: u32)
    ensures
        gem_type == 5 ==> gem_level_of(gem_type, value) == Some(
            GemLevel::Damage(damage_gem_level(value)),
        ),
        gem_type == 27 ==> gem_level_of(gem_type, value) == Some(
            GemLevel::Cooldown(cooldown_gem_level(value)),
        ),
        gem_type != 5 && gem_type != 27 ==> gem_level_of(gem_type, value) is None,
{
}

/// The value of a full identity gauge of the class.
pub fn identity_gauge_max(class: &String) -> (r: u32)
    ensures
        r == identity_gauge_max_of(class@),
{
    if is_text(class, "Summoner") {
        7000
    } else if is_text(class, "Souleater") {
        3000
    } else {
        10000
    }
}

/// The card that the clown card is; a card drawn right after it is not a draw
/// of its own.
pub const CLOWN_CARD: u32 = 19284;

/// A slot of a card reading shows a newly drawn card: it holds a card, a
/// different one than before, and the card before was not the clown card.
pub open spec fn is_drawn(prev: u32, curr: u32) -> bool {
    curr != 0 && curr != prev && prev != CLOWN_CARD
}

/// A slot shows a draw exactly where it now holds a card (not 0) other than
/// the one it held, unless it held the clown card (19284): the card that
/// replaces the clown card is not a draw of its own.
pub proof fn lemma_what_counts_as_a_draw(prev: u32, curr: u32)
    ensures
        curr == 0 ==> !is_drawn(prev, curr),
        curr == prev ==> !is_drawn(prev, curr),
        prev == 19284 ==> !is_drawn(prev, curr),
        curr != 0 && curr != prev && prev != 19284 ==> is_drawn(prev, curr),
{
}

/// The cards drawn over a log of readings of (time, (gauge, first card,
/// second card)), in order: for each reading after the first, the card in its
/// first slot, then the one in its second slot, where newly drawn.
pub open spec fn card_draws_of(s: Seq<(i64, (u32, u32, u32))>) -> Seq<u32>
    decreases s.len(),
{
    if s.len() <= 1 {
        Seq::empty()
    } else {
        let prev = s[s.len() - 2].1;
        let curr = s.last().1;
        let first = if is_drawn(prev.1, curr.1) {
            card_draws_of(s.drop_last()).push(curr.1)
        } else {
            card_draws_of(s.drop_last())
        };
        if is_drawn(prev.2, curr.2) {
            first.push(curr.2)
        } else {
            first
        }
    }
}

/// The cards drawn over the log (see `card_draws_of`).
pub fn card_draws(log: &Vec<(i64, (u32, u32, u32))>) -> (r: Vec<u32>)
    ensures
        r@ == card_draws_of(log@),
{
    let mut draws: Vec<u32> = Vec::new();
    let n = log.len();
    if n == 0 {
        return draws;
    }
    assert(log@.take(1).len() == 1);
    for i in 1..n
        invariant
            n == log@.len(),
            draws@ == card_draws_of(log@.take(i as int)),
    {
        let prev = log[i - 1].1;
        let curr = log[i].1;
        assert(log@.take(i + 1).drop_last() =~= log@.take(i as int));
        if curr.1 != 0 && curr.1 != prev.1 && prev.1 != CLOWN_CARD {
            draws.push(curr.1);
        }
        if curr.2 != 0 && curr.2 != prev.2 && prev.2 != CLOWN_CARD {
            draws.push(curr.2);
        }
    }
    assert(log@.take(n as int) =~= log@);
    draws
}

/// How many times a card occurs among the draws.
pub open spec fn draw_count(draws: Seq<u32>, card: u32) -> nat
    decreases draws.len(),
{
    if draws.len() == 0 {
        0
    } else {
        draw_count(draws.drop_last(), card) + if draws.last() == card {
            1nat
        } else {
            0nat
        }
    }
}

/// Some entry of the counts is for the card.
pub open spec fn counts_card(counts: Seq<(u32, u32)>, card: u32) -> bool {
    exists|j: int| 0 <= j < counts.len() && counts[j].0 == card
}

proof fn lemma_draw_count_grows(draws: Seq<u32>, card: u32, i: int, j: int)
    requires
        0 <= i <= j <= draws.len(),
    ensures
        draw_count(draws.take(i), card) <= draw_count(draws.take(j), card),
    decreases j - i,
{
    if i < j {
        lemma_draw_count_grows(draws, card, i, j - 1);
        assert(draws.take(j).drop_last() =~= draws.take(j - 1));
    }
}

/// Each card drawn over the log (see `card_draws_of`), once, with the number
/// of times it was drawn; `None` where a card was drawn more times than a
/// `u32` counts.
pub fn card_draw_counts(log: &Vec<(i64, (u32, u32, u32))>) -> (r: Option<Vec<(u32, u32)>>)
    ensures
        r is None <==> exists|c: u32|
            #![trigger draw_count(card_draws_of(log@), c)]
            draw_count(card_draws_of(log@), c) > u32::MAX,
        r matches Some(v) ==> forall|j: int, k: int|
            0 <= j < k < v@.len() ==> #[trigger] v@[j].0 != #[trigger] v@[k].0,
        r matches Some(v) ==> forall|j: int|
            0 <= j < v@.len() ==> #[trigger] v@[j].1 == draw_count(card_draws_of(log@), v@[j].0)
                && v@[j].1 > 0,
        r matches Some(v) ==> forall|c: u32|
            #![trigger draw_count(card_draws_of(log@), c)]
            draw_count(card_draws_of(log@), c) > 0 ==> counts_card(v@, c),
{
    let draws = card_draws(log);
    let ghost ds = draws@;
    let mut counts: Vec<(u32, u32)> = Vec::new();
    let n = draws.len();
    assert(ds.take(0) =~= Seq::<u32>::empty());
    let mut i: usize = 0;
    while i < n
        invariant
            i <= n,
            n == ds.len(),
            ds == draws@,
            ds == card_draws_of(log@),
            forall|j: int, k: int|
                0 <= j < k < counts@.len() ==> #[trigger] counts@[j].0 != #[trigger] counts@[k].0,
            forall|j: int|
                0 <= j < counts@.len() ==> #[trigger] counts@[j].1 == draw_count(
                    ds.take(i as int),
                    counts@[j].0,
                ) && counts@[j].1 > 0,
            forall|c: u32|
                #![trigger draw_count(ds.take(i as int), c)]
                draw_count(ds.take(i as int), c) > 0 ==> counts_card(counts@, c),
        decreases n - i,
    {
        let d = draws[i];
        assert(ds.take(i + 1).drop_last() =~= ds.take(i as int));
        assert(ds.take(i + 1).last() == d);
        let ghost before = counts@;
        let m = counts.len();
        let mut j: usize = 0;
        while j < m && counts[j].0 != d
            invariant
                j <= m,
                m == counts@.len(),
                counts@ == before,
                forall|k: int| 0 <= k < j ==> counts@[k].0 != d,
            decreases m - j,
        {
            j = j + 1;
        }
        if j < m {
            let c = counts[j].1;
            if c == u32::MAX {
                proof {
                    assert(counts@[j as int].0 == d);
                    assert(counts@[j as int].1 == draw_count(ds.take(i as int), d));
                    assert(draw_count(ds.take(i + 1), d) == draw_count(ds.take(i as int), d) + 1);
                    lemma_draw_count_grows(ds, d, i + 1, n as int);
                    assert(ds.take(n as int) =~= ds);
                    assert(draw_count(card_draws_of(log@), d) > u32::MAX);
                }
                return None;
            }
            counts.set(j, (d, c + 1));
            proof {
                assert forall|k: int| 0 <= k < counts@.len() implies #[trigger] counts@[k].1
                    == draw_count(ds.take(i + 1), counts@[k].0) && counts@[k].1 > 0 by {
                    if k != j {
                        assert(before[k].0 != d);
                    }
                }
                assert forall|x: u32|
                    #![trigger draw_count(ds.take(i + 1), x)]
                    draw_count(ds.take(i + 1), x) > 0 implies counts_card(counts@, x) by {
                    if x == d {
                        assert(counts@[j as int].0 == x);
                    } else {
                        assert(draw_count(ds.take(i as int), x) > 0);
                        let k = choose|k: int| 0 <= k < before.len() && before[k].0 == x;
                        assert(counts@[k].0 == x);
                    }
                }
            }
        } else {
            proof {
                if draw_count(ds.take(i as int), d) > 0 {
                    let k = choose|k: int| 0 <= k < before.len() && before[k].0 == d;
                    assert(false);
                }
            }
            counts.push((d, 1));
            proof {
                assert forall|k: int| 0 <= k < counts@.len() implies #[trigger] counts@[k].1
                    == draw_count(ds.take(i + 1), counts@[k].0) && counts@[k].1 > 0 by {
                    if k < m {
                        assert(before[k].0 != d);
                        assert(counts@[k] == before[k]);
                    }
                }
                assert forall|x: u32|
                    #![trigger draw_count(ds.take(i + 1), x)]
                    draw_count(ds.take(i + 1), x) > 0 implies counts_card(counts@, x) by {
                    if x == d {
                        assert(counts@[m as int].0 == x);
                    } else {
                        assert(draw_count(ds.take(i as int), x) > 0);
                        let k = choose|k: int| 0 <= k < before.len() && before[k].0 == x;
                        assert(counts@[k].0 == x);
                    }
                }
            }
        }
        i = i + 1;
    }
    proof {
        assert(ds.take(n as int) =~= ds);
        assert forall|x: u32|
            #![trigger draw_count(card_draws_of(log@), x)]
            draw_count(card_draws_of(log@), x) <= u32::MAX by {
            if draw_count(ds, x) > 0 {
                let k = choose|k: int| 0 <= k < counts@.len() && counts@[k].0 == x;
                assert(counts@[k].1 == draw_count(ds, x));
            }
        }
    }
    Some(counts)
}

/// What an equipped gem sets on its skill.
#[derive(Clone, Copy, Debug, PartialEq, Eq, Structural)]
pub enum GemLevel {
    Damage(u8),
    Cooldown(u8),
}

/// Gems of type 5 raise damage, gems of type 27 lower cooldowns; the level
/// comes from the gem's value.
pub open spec fn gem_level_of(gem_type: u32, value: u32) -> Option<GemLevel> {
    if gem_type == 5 {
        Some(GemLevel::Damage(damage_gem_level(value)))
    } else if gem_type == 27 {
        Some(GemLevel::Cooldown(cooldown_gem_level(value)))
    } else {
        None
    }
}

/// What an equipped gem sets on its skill, if anything.
pub fn gem_level(gem_type: u32, value: u32) -> (r: Option<GemLevel>)
    ensures
        r == gem_level_of(gem_type, value),
{
    match gem_type {
        5 => Some(GemLevel::Damage(damage_gem_value_to_level(value))),
        27 => Some(GemLevel::Cooldown(cooldown_gem_value_to_level(value))),
        _ => None,
    }
}

/// The damage gem level that the gems set on a skill: that of the last
/// damage gem for the skill, or `old` where there is none.
pub open spec fn damage_gem_after(gems: Seq<Gem>, skill_id: u32, old: Option<u8>) -> Option<u8>
    decreases gems.len(),
{
    if gems.len() == 0 {
        old
    } else {
        let g = gems.last();
        match gem_level_of(g.gem_type, g.value) {
            Some(GemLevel::Damage(level)) => if g.skill_id == skill_id {
                Some(level)
            } else {
                damage_gem_after(gems.drop_last(), skill_id, old)
            },
            _ => damage_gem_after(gems.drop_last(), skill_id, old),
        }
    }
}

/// The cooldown gem level that the gems set on a skill: that of the last
/// cooldown gem for the skill, or `old` where there is none.
pub open spec fn cooldown_gem_after(gems: Seq<Gem>, skill_id: u32, old: Option<u8>) -> Option<u8>
    decreases gems.len(),
{
    if gems.len() == 0 {
        old
    } else {
        let g = gems.last();
        match gem_level_of(g.gem_type, g.value) {
            Some(GemLevel::Cooldown(level)) => if g.skill_id == skill_id {
                Some(level)
            } else {
                cooldown_gem_after(gems.drop_last(), skill_id, old)
            },
            _ => cooldown_gem_after(gems.drop_last(), skill_id, old),
        }
    }
}

/// The cast log recorded for a skill: the last one given for it, if any.
pub open spec fn cast_log_for(casts: Seq<(u32, Vec<i32>)>, skill_id: u32) -> Option<Seq<i32>>
    decreases casts.len(),
{
    if casts.len() == 0 {
        None
    } else if casts.last().0 == skill_id {
        Some(casts.last().1@)
    } else {
        cast_log_for(casts.drop_last(), skill_id)
    }
}

/// `r` is the skill `s` settled: its damage per second over the fight's
/// seconds, the cast log recorded for it (else its own), and the levels of
/// the gems on it (else its own); the rest unchanged.
pub open spec fn settled(
    r: Skill,
    s: Skill,
    gems: Seq<Gem>,
    casts: Seq<(u32, Vec<i32>)>,
    duration_seconds: i64,
) -> bool {
    &&& r.id == s.id
    &&& r.total_damage == s.total_damage
    &&& r.dps == div_toward_zero(s.total_damage as int, duration_seconds as int)
    &&& r.cast_log@ == (match cast_log_for(casts, s.id) {
        Some(log) => log,
        None => s.cast_log@,
    })
    &&& r.gem_damage == damage_gem_after(gems, s.id, s.gem_damage)
    &&& r.gem_cooldown == cooldown_gem_after(gems, s.id, s.gem_cooldown)
}

fn copy_log(v: &Vec<i32>) -> (r: Vec<i32>)
    ensures
        r@ == v@,
{
    let mut r: Vec<i32> = Vec::new();
    for i in 0..v.len()
        invariant
            r@ == v@.take(i as int),
    {
        assert(v@.take(i + 1) =~= v@.take(i as int).push(v@[i as int]));
        r.push(v[i]);
    }
    assert(v@.take(v@.len() as int) =~= v@);
    r
}

fn settle_skill(s: Skill, gems: &Vec<Gem>, casts: &Vec<(u32, Vec<i32>)>, duration_seconds: i64) -> (r:
    Skill)
    requires
        duration_seconds >= 1,
    ensures
        settled(r, s, gems@, casts@, duration_seconds),
{
    let mut gem_damage = s.gem_damage;
    let mut gem_cooldown = s.gem_cooldown;
    assert(gems@.take(0) =~= Seq::<Gem>::empty());
    for k in 0..gems.len()
        invariant
            gem_damage == damage_gem_after(gems@.take(k as int), s.id, s.gem_damage),
            gem_cooldown == cooldown_gem_after(gems@.take(k as int), s.id, s.gem_cooldown),
    {
        assert(gems@.take(k + 1).drop_last() =~= gems@.take(k as int));
        let g = gems[k];
        if g.skill_id == s.id {
            match gem_level(g.gem_type, g.value) {
                Some(GemLevel::Damage(level)) => {
                    gem_damage = Some(level);
                },
                Some(GemLevel::Cooldown(level)) => {
                    gem_cooldown = Some(level);
                },
                None => {},
            }
        }
    }
    assert(gems@.take(gems@.len() as int) =~= gems@);
    let mut cast_log = s.cast_log;
    assert(casts@.take(0) =~= Seq::<(u32, Vec<i32>)>::empty());
    for k in 0..casts.len()
        invariant
            cast_log@ == (match cast_log_for(casts@.take(k as int), s.id) {
                Some(log) => log,
                None => s.cast_log@,
            }),
    {
        assert(casts@.take(k + 1).drop_last() =~= casts@.take(k as int));
        if casts[k].0 == s.id {
            cast_log = copy_log(&casts[k].1);
        }
    }
    assert(casts@.take(casts@.len() as int) =~= casts@);
    Skill {
        id: s.id,
        total_damage: s.total_damage,
        dps: damage_per_second(s.total_damage, duration_seconds),
        cast_log,
        gem_damage,
        gem_cooldown,
    }
}

/// Settles each of a player's skills (see `settled`) from the gems the player
/// has equipped, the cast logs recorded for the player's skills, and the
/// fight's seconds.
pub fn settle_skills(
    skills: Vec<Skill>,
    gems: &Vec<Gem>,
    casts: &Vec<(u32, Vec<i32>)>,
    duration_seconds: i64,
) -> (r: Vec<Skill>)
    requires
        duration_seconds >= 1,
    ensures
        r@.len() == skills@.len(),
        forall|i: int|
            0 <= i < r@.len() ==> settled(
                #[trigger] r@[i],
                skills@[i],
                gems@,
                casts@,
                duration_seconds,
            ),
{
    let ghost all = skills@;
    let mut r: Vec<Skill> = Vec::new();
    for s in it: skills.into_iter()
        invariant
            it.seq() == all,
            duration_seconds >= 1,
            r@.len() == it.index(),
            forall|i: int|
                0 <= i < r@.len() ==> settled(#[trigger] r@[i], all[i], gems@, casts@, duration_seconds),
    {
        let settled_skill = settle_skill(s, gems, casts, duration_seconds);
        r.push(settled_skill);
    }
    r
}

/// The local player's identity is recorded where it has at least two
/// readings.
pub open spec fn records_identity_of(name: Seq<char>, local_player: Seq<char>, readings: int) -> bool {
    name == local_player && readings >= 2
}

/// Whether the entity's identity statistics are recorded.
pub fn records_identity(name: &String, local_player: &String, readings: usize) -> (r: bool)
    ensures
        r == records_identity_of(name@, local_player@, readings as int),
{
    *name == *local_player && readings >= 2
}

/// What an encounter's record notes besides its statistics: whether the raid
/// was cleared, the parties numbered from zero, the region and the meter's
/// version.
pub struct EncounterNotes {
    pub raid_clear: Option<bool>,
    pub party_info: Option<Vec<(i32, Vec<String>)>>,
    pub region: Option<String>,
    pub version: Option<String>,
}

/// The parties, each beside its place in the list.
pub open spec fn numbered_parties(parties: Seq<Vec<String>>) -> Seq<(i32, Vec<String>)> {
    Seq::new(parties.len(), |i: int| (i as i32, parties[i]))
}

/// Gathers an encounter's notes: a clear is noted only where the raid was
/// cleared, and the parties only where there are any.
pub fn encounter_notes(
    raid_clear: bool,
    party_info: Vec<Vec<String>>,
    region: Option<String>,
    version: String,
) -> (r: EncounterNotes)
    ensures
        r.raid_clear == (if raid_clear {
            Some(true)
        } else {
            None
        }),
        party_info@.len() == 0 ==> r.party_info is None,
        party_info@.len() > 0 ==> r.party_info is Some && r.party_info->0@ == numbered_parties(
            party_info@,
        ),
        r.region == region,
        r.version == Some(version),
{
    let parties = if party_info.len() == 0 {
        None
    } else {
        let ghost all = party_info@;
        let count: usize = party_info.len();
        let mut numbered: Vec<(i32, Vec<String>)> = Vec::new();
        let mut index: usize = 0;
        for party in it: party_info.into_iter()
            invariant
                it.seq() == all,
                all.len() == count,
                index == it.index(),
                numbered@ =~= numbered_parties(all).take(index as int),
        {
            assert(index < count);
            numbered.push((#[verifier::truncate] (index as i32), party));
            index = index + 1;
        }
        Some(numbered)
    };
    EncounterNotes {
        raid_clear: if raid_clear {
            Some(true)
        } else {
            None
        },
        party_info: parties,
        region,
        version: Some(version),
    }
}

} // verus!
