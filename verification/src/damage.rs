//! Damage over time: a damage log is a list of (timestamp in milliseconds,
//! damage) entries, appended in time order.
use vstd::prelude::*;

verus! {

/// Rust's integer division, which rounds toward zero.
pub open spec fn div_toward_zero(a: int, b: int) -> int {
    if a >= 0 {
        a / b
    } else {
        -((-a) / b)
    }
}

/// The entries are in time order.
pub open spec fn in_time_order(s: Seq<(i64, i64)>) -> bool {
    forall|i: int, j: int| 0 <= i <= j < s.len() ==> (#[trigger] s[i]).0 <= (#[trigger] s[j]).0
}

/// The total damage of the entries.
pub open spec fn total_damage(s: Seq<(i64, i64)>) -> int
    decreases s.len(),
{
    if s.len() == 0 {
        0
    } else {
        total_damage(s.drop_last()) + s.last().1
    }
}

/// The number of entries before `target`.
pub open spec fn count_before(s: Seq<(i64, i64)>, target: int) -> int
    decreases s.len(),
{
    if s.len() == 0 {
        0
    } else {
        count_before(s.drop_last(), target) + if s.last().0 < target {
            1int
        } else {
            0int
        }
    }
}

/// The total damage of the entries from `start` to `end`, both included.
pub open spec fn damage_between(s: Seq<(i64, i64)>, start: int, end: int) -> int
    decreases s.len(),
{
    if s.len() == 0 {
        0
    } else {
        damage_between(s.drop_last(), start, end) + if start <= s.last().0 <= end {
            s.last().1 as int
        } else {
            0int
        }
    }
}

/// In time order, the entries before a time are the first ones: `i` is where
/// the entries at or after `target` begin exactly when it counts those before.
pub proof fn lemma_count_before_is_boundary(s: Seq<(i64, i64)>, target: int, i: int)
    requires
        in_time_order(s),
        0 <= i <= s.len(),
        forall|k: int| 0 <= k < i ==> (#[trigger] s[k]).0 < target,
        forall|k: int| i <= k < s.len() ==> (#[trigger] s[k]).0 >= target,
    ensures
        count_before(s, target) == i,
    decreases s.len(),
{
    if s.len() > 0 {
        let t = s.drop_last();
        if i == s.len() {
            lemma_count_before_is_boundary(t, target, i - 1);
        } else {
            lemma_count_before_is_boundary(t, target, i);
        }
    }
}

/// Where the binary search for `target` between positions `lo` and `hi`
/// ends: it halves the range, keeping the upper half while the middle entry
/// is earlier than `target`.  On entries in time order this is the first
/// position at or after `target`; on other entries it is still a position
/// whose left neighbour is earlier than `target` and whose own entry is not.
pub open spec fn search_left(s: Seq<(i64, i64)>, target: int, lo: int, hi: int) -> int
    decreases hi - lo,
{
    if lo < hi {
        let mid = lo + (hi - lo) / 2;
        if s[mid].0 < target {
            search_left(s, target, mid + 1, hi)
        } else {
            search_left(s, target, lo, mid)
        }
    } else {
        lo
    }
}

/// Where the binary search for `target` over the whole log ends.
pub open spec fn first_at_or_after(s: Seq<(i64, i64)>, target: int) -> int {
    search_left(s, target, 0, s.len() as int)
}

/// The position where the binary search for `target` ends (see
/// `search_left`): the entry before it is earlier than `target` and the entry
/// at it (if any) is not; in time order, it is the number of entries earlier
/// than `target`.
pub fn binary_search_left(vec: &Vec<(i64, i64)>, target: i64) -> (r: usize)
    ensures
        r == first_at_or_after(vec@, target as int),
        r <= vec@.len(),
        r == 0 || vec@[r - 1].0 < target,
        r == vec@.len() || vec@[r as int].0 >= target,
        in_time_order(vec@) ==> r == count_before(vec@, target as int),
{
    let mut left: usize = 0;
    let mut right: usize = vec.len();
    while left < right
        invariant
            left <= right <= vec@.len(),
            search_left(vec@, target as int, left as int, right as int) == first_at_or_after(
                vec@,
                target as int,
            ),
            left == 0 || vec@[left - 1].0 < target,
            right == vec@.len() || vec@[right as int].0 >= target,
            in_time_order(vec@) ==> forall|k: int| 0 <= k < left ==> (#[trigger] vec@[k]).0 < target,
            in_time_order(vec@) ==> forall|k: int|
                right <= k < vec@.len() ==> (#[trigger] vec@[k]).0 >= target,
        decreases right - left,
    {
        let mid = left + (right - left) / 2;
        if vec[mid].0 < target {
            left = mid + 1;
        } else {
            right = mid;
        }
    }
    proof {
        if in_time_order(vec@) {
            lemma_count_before_is_boundary(vec@, target as int, left as int);
        }
    }
    left
}

/// The damage between two times, summed over the entries that lie between
/// them in time order.
proof fn lemma_damage_between_is_range(s: Seq<(i64, i64)>, start: int, end: int, i: int, j: int)
    requires
        in_time_order(s),
        0 <= i <= j <= s.len(),
        forall|k: int| 0 <= k < i ==> (#[trigger] s[k]).0 < start,
        forall|k: int| i <= k < s.len() ==> (#[trigger] s[k]).0 >= start,
        forall|k: int| 0 <= k < j ==> (#[trigger] s[k]).0 <= end,
        forall|k: int| j <= k < s.len() ==> (#[trigger] s[k]).0 > end,
    ensures
        damage_between(s, start, end) == total_damage(s.subrange(i, j)),
    decreases s.len(),
{
    if s.len() > 0 {
        let t = s.drop_last();
        let n = s.len() - 1;
        if j == s.len() {
            if i == s.len() {
                lemma_damage_between_is_range(t, start, end, n, n);
                assert(s.subrange(i, j) =~= Seq::<(i64, i64)>::empty());
                assert(t.subrange(n, n) =~= Seq::<(i64, i64)>::empty());
            } else {
                lemma_damage_between_is_range(t, start, end, i, n);
                assert(s.subrange(i, j).drop_last() =~= t.subrange(i, n));
            }
        } else {
            lemma_damage_between_is_range(t, start, end, i, j);
            assert(s.subrange(i, j) =~= t.subrange(i, j));
        }
    }
}

proof fn lemma_total_damage_push(s: Seq<(i64, i64)>, i: int, j: int)
    requires
        0 <= i <= j < s.len(),
    ensures
        total_damage(s.subrange(i, j + 1)) == total_damage(s.subrange(i, j)) + s[j].1,
{
    assert(s.subrange(i, j + 1).drop_last() =~= s.subrange(i, j));
}

/// The window of a log from `start` to `end`: the positions where the binary
/// searches for `start` and for the time after `end` end.
pub open spec fn window_start(s: Seq<(i64, i64)>, start: int) -> int {
    first_at_or_after(s, start)
}

pub open spec fn window_end(s: Seq<(i64, i64)>, end: int) -> int {
    first_at_or_after(s, end + 1)
}

/// The window's positions are in order and its running totals stay within
/// `i64`: summing it neither slices backwards nor overflows.
pub open spec fn window_sum_fits(s: Seq<(i64, i64)>, start: int, end: int) -> bool {
    &&& window_start(s, start) <= window_end(s, end)
    &&& forall|j: int|
        window_start(s, start) <= j <= window_end(s, end) ==> i64::MIN <= #[trigger] total_damage(
            s.subrange(window_start(s, start), j),
        ) <= i64::MAX
}

/// In time order, the window holds exactly the entries from `start` to `end`.
proof fn lemma_window_is_between(s: Seq<(i64, i64)>, start: int, end: int, i: int, j: int)
    requires
        in_time_order(s),
        0 <= i <= s.len(),
        0 <= j <= s.len(),
        i == 0 || s[i - 1].0 < start,
        i == s.len() || s[i].0 >= start,
        j == 0 || s[j - 1].0 < end + 1,
        j == s.len() || s[j].0 >= end + 1,
        i <= j,
    ensures
        damage_between(s, start, end) == total_damage(s.subrange(i, j)),
{
    assert forall|x: int| 0 <= x < i implies (#[trigger] s[x]).0 < start by {
        assert(s[i - 1].0 < start);
    }
    assert forall|x: int| j <= x < s.len() implies (#[trigger] s[x]).0 > end by {
        assert(s[j].0 >= end + 1);
    }
    assert forall|x: int| 0 <= x < j implies (#[trigger] s[x]).0 <= end by {
        assert(s[j - 1].0 < end + 1);
    }
    assert forall|x: int| i <= x < s.len() implies (#[trigger] s[x]).0 >= start by {
        assert(s[i].0 >= start);
    }
    lemma_damage_between_is_range(s, start, end, i, j);
}

proof fn lemma_search_left_boundary(s: Seq<(i64, i64)>, target: int, lo: int, hi: int)
    requires
        0 <= lo <= hi <= s.len(),
        lo == 0 || s[lo - 1].0 < target,
        hi == s.len() || s[hi].0 >= target,
    ensures
        lo <= search_left(s, target, lo, hi) <= hi,
        search_left(s, target, lo, hi) == 0 || s[search_left(s, target, lo, hi) - 1].0 < target,
        search_left(s, target, lo, hi) == s.len() || s[search_left(s, target, lo, hi)].0
            >= target,
    decreases hi - lo,
{
    if lo < hi {
        let mid = lo + (hi - lo) / 2;
        if s[mid].0 < target {
            lemma_search_left_boundary(s, target, mid + 1, hi);
        } else {
            lemma_search_left_boundary(s, target, lo, mid);
        }
    }
}

proof fn lemma_search_left_range(s: Seq<(i64, i64)>, target: int, lo: int, hi: int)
    requires
        lo <= hi,
    ensures
        lo <= search_left(s, target, lo, hi) <= hi,
    decreases hi - lo,
{
    if lo < hi {
        let mid = lo + (hi - lo) / 2;
        if s[mid].0 < target {
            lemma_search_left_range(s, target, mid + 1, hi);
        } else {
            lemma_search_left_range(s, target, lo, mid);
        }
    }
}

proof fn lemma_search_left_monotone_between(
    s: Seq<(i64, i64)>,
    t1: int,
    t2: int,
    lo: int,
    hi: int,
)
    requires
        t1 <= t2,
        lo <= hi,
    ensures
        search_left(s, t1, lo, hi) <= search_left(s, t2, lo, hi),
    decreases hi - lo,
{
    if lo < hi {
        let mid = lo + (hi - lo) / 2;
        if s[mid].0 < t1 {
            lemma_search_left_monotone_between(s, t1, t2, mid + 1, hi);
        } else if s[mid].0 >= t2 {
            lemma_search_left_monotone_between(s, t1, t2, lo, mid);
        } else {
            lemma_search_left_range(s, t1, lo, mid);
            lemma_search_left_range(s, t2, mid + 1, hi);
        }
    }
}

/// Whatever the order of the entries, the binary search for a later target
/// ends no earlier: a window whose start is not after the time after its end
/// never slices backwards.
pub proof fn lemma_search_left_monotone(s: Seq<(i64, i64)>, t1: int, t2: int)
    requires
        t1 <= t2,
    ensures
        first_at_or_after(s, t1) <= first_at_or_after(s, t2),
{
    lemma_search_left_monotone_between(s, t1, t2, 0, s.len() as int);
}

/// In time order, a window that can be summed holds exactly the entries from
/// `start` to `end`: its damage is the damage between them.
pub proof fn lemma_window_in_time_order(s: Seq<(i64, i64)>, start: int, end: int)
    requires
        in_time_order(s),
        window_start(s, start) <= window_end(s, end),
    ensures
        total_damage(s.subrange(window_start(s, start), window_end(s, end))) == damage_between(
            s,
            start,
            end,
        ),
{
    lemma_search_left_boundary(s, start, 0, s.len() as int);
    lemma_search_left_boundary(s, end + 1, 0, s.len() as int);
    lemma_window_is_between(s, start, end, window_start(s, start), window_end(s, end));
}

/// The damage of the window from `start` to `end`, where summing it neither
/// slices backwards nor overflows; `None` otherwise.  In time order it is the
/// damage of the entries from `start` to `end`, both included.
pub fn try_sum_in_range(vec: &Vec<(i64, i64)>, start: i64, end: i64) -> (r: Option<i64>)
    requires
        end < i64::MAX,
    ensures
        r is Some <==> window_sum_fits(vec@, start as int, end as int),
        r matches Some(v) ==> v == total_damage(
            vec@.subrange(window_start(vec@, start as int), window_end(vec@, end as int)),
        ),
        r matches Some(v) ==> in_time_order(vec@) ==> v == damage_between(
            vec@,
            start as int,
            end as int,
        ),
{
    let start_idx = binary_search_left(vec, start);
    let end_idx = binary_search_left(vec, end + 1);
    if start_idx > end_idx {
        return None;
    }
    let mut sum: i64 = 0;
    let mut k = start_idx;
    assert(vec@.subrange(start_idx as int, start_idx as int) =~= Seq::<(i64, i64)>::empty());
    while k < end_idx
        invariant
            start_idx <= k <= end_idx <= vec@.len(),
            start_idx == window_start(vec@, start as int),
            end_idx == window_end(vec@, end as int),
            sum == total_damage(vec@.subrange(start_idx as int, k as int)),
            forall|j: int|
                start_idx <= j <= k ==> i64::MIN <= #[trigger] total_damage(
                    vec@.subrange(start_idx as int, j),
                ) <= i64::MAX,
        decreases end_idx - k,
    {
        proof {
            lemma_total_damage_push(vec@, start_idx as int, k as int);
        }
        match sum.checked_add(vec[k].1) {
            Some(next) => {
                sum = next;
            },
            None => {
                return None;
            },
        }
        k = k + 1;
    }
    proof {
        if in_time_order(vec@) {
            lemma_window_is_between(vec@, start as int, end as int, start_idx as int, end_idx as int);
        }
    }
    Some(sum)
}

/// The damage of the entries from `start` to `end`, both included.
pub fn sum_in_range(vec: &Vec<(i64, i64)>, start: i64, end: i64) -> (r: i64)
    requires
        end < i64::MAX,
        window_sum_fits(vec@, start as int, end as int),
    ensures
        r == total_damage(
            vec@.subrange(window_start(vec@, start as int), window_end(vec@, end as int)),
        ),
        in_time_order(vec@) ==> r == damage_between(vec@, start as int, end as int),
{
    try_sum_in_range(vec, start, end).unwrap()
}

/// The offsets, one second apart, from the start of a fight up to (not
/// including) its length: 0, 1000, 2000, ... milliseconds.
pub fn generate_intervals(start: i64, end: i64) -> (r: Vec<i64>)
    requires
        start < end ==> end - start <= i64::MAX,
    ensures
        r@.len() == (if start < end {
            (end - start + 999) / 1000
        } else {
            0
        }),
        forall|k: int| 0 <= k < r@.len() ==> #[trigger] r@[k] == 1000 * k,
{
    let mut r: Vec<i64> = Vec::new();
    if start >= end {
        return r;
    }
    let length = end - start;
    let mut offset: i64 = 0;
    loop
        invariant_except_break
            0 <= offset < length,
            offset == 1000 * r@.len(),
        invariant
            0 < length,
            forall|k: int| 0 <= k < r@.len() ==> #[trigger] r@[k] == 1000 * k,
        ensures
            r@.len() >= 1,
            1000 * (r@.len() - 1) < length <= 1000 * r@.len(),
        decreases length - offset,
    {
        r.push(offset);
        if length - offset <= 1000 {
            break;
        }
        offset = offset + 1000;
    }
    proof {
        let n = r@.len() as int;
        assert((length + 999) / 1000 == n) by (nonlinear_arith)
            requires
                1000 * (n - 1) < length <= 1000 * n,
        {
        }
    }
    r
}

/// The damage of a window is the damage of its first part plus that of the
/// rest: windows add up.
pub proof fn lemma_damage_between_splits(s: Seq<(i64, i64)>, a: int, m: int, b: int)
    requires
        a <= m <= b,
    ensures
        damage_between(s, a, b) == damage_between(s, a, m) + damage_between(s, m + 1, b),
    decreases s.len(),
{
    if s.len() > 0 {
        lemma_damage_between_splits(s.drop_last(), a, m, b);
    }
}

/// In time order, what `sum_in_range` sums from `a` to `b` is what it sums
/// from `a` to `m` plus what it sums from just after `m` to `b`.
pub proof fn lemma_window_sums_add_up(s: Seq<(i64, i64)>, a: int, m: int, b: int)
    requires
        in_time_order(s),
        a <= m <= b,
    ensures
        total_damage(s.subrange(window_start(s, a), window_end(s, b))) == total_damage(
            s.subrange(window_start(s, a), window_end(s, m)),
        ) + total_damage(s.subrange(window_start(s, m + 1), window_end(s, b))),
{
    lemma_search_left_monotone(s, a, b + 1);
    lemma_search_left_monotone(s, a, m + 1);
    lemma_search_left_monotone(s, m + 1, b + 1);
    lemma_window_in_time_order(s, a, b);
    lemma_window_in_time_order(s, a, m);
    lemma_window_in_time_order(s, m + 1, b);
    lemma_damage_between_splits(s, a, m, b);
}

/// An entry's second: its timestamp in whole seconds, rounded toward zero.
pub open spec fn entry_second(e: (i64, i64)) -> int {
    div_toward_zero(e.0 as int, 1000)
}

/// The number of entries, counted from the first, up to the first one whose
/// second is after `t`.
pub open spec fn leading_count(s: Seq<(i64, i64)>, t: int) -> int
    decreases s.len(),
{
    if s.len() == 0 {
        0
    } else if entry_second(s[0]) <= t {
        1 + leading_count(s.drop_first(), t)
    } else {
        0
    }
}

proof fn lemma_leading_count_at_least(s: Seq<(i64, i64)>, t: int, m: int)
    requires
        0 <= m <= s.len(),
        forall|i: int| 0 <= i < m ==> entry_second(#[trigger] s[i]) <= t,
    ensures
        m <= leading_count(s, t) <= s.len(),
    decreases s.len(),
{
    if s.len() > 0 {
        if m > 0 {
            assert(entry_second(s[0]) <= t);
            assert forall|i: int| 0 <= i < m - 1 implies entry_second(
                #[trigger] s.drop_first()[i],
            ) <= t by {
                assert(s.drop_first()[i] == s[i + 1]);
            }
            lemma_leading_count_at_least(s.drop_first(), t, m - 1);
        } else {
            lemma_leading_count_at_least(s.drop_first(), t, 0);
        }
    }
}

proof fn lemma_leading_count_is(s: Seq<(i64, i64)>, t: int, m: int)
    requires
        0 <= m <= s.len(),
        forall|i: int| 0 <= i < m ==> entry_second(#[trigger] s[i]) <= t,
        m < s.len() ==> entry_second(s[m]) > t,
    ensures
        leading_count(s, t) == m,
    decreases s.len(),
{
    if s.len() > 0 && m > 0 {
        assert(entry_second(s[0]) <= t);
        assert forall|i: int| 0 <= i < m - 1 implies entry_second(#[trigger] s.drop_first()[i])
            <= t by {
            assert(s.drop_first()[i] == s[i + 1]);
        }
        if m < s.len() {
            assert(s.drop_first()[m - 1] == s[m]);
        }
        lemma_leading_count_is(s.drop_first(), t, m - 1);
    }
}

/// Counting up to a later second counts at least as many entries.
pub proof fn lemma_leading_count_grows(s: Seq<(i64, i64)>, t1: int, t2: int)
    requires
        t1 <= t2,
    ensures
        leading_count(s, t1) <= leading_count(s, t2),
    decreases s.len(),
{
    if s.len() > 0 {
        lemma_leading_count_grows(s.drop_first(), t1, t2);
        if entry_second(s[0]) <= t1 {
            assert(entry_second(s[0]) <= t2);
            assert(leading_count(s, t1) == 1 + leading_count(s.drop_first(), t1));
            assert(leading_count(s, t2) == 1 + leading_count(s.drop_first(), t2));
        } else {
            assert(leading_count(s, t1) == 0);
            assert(leading_count(s, t2) >= 0) by {
                lemma_leading_count_at_least(s, t2, 0);
            }
        }
    }
}

/// The number of five-second steps from `start` to `end` (both in seconds):
/// the difference divided by five (rounded toward zero), plus one.
pub open spec fn step_count(start: int, end: int) -> int {
    div_toward_zero(end - start, 5) + 1
}

/// The last five-second step at or before `end`.
pub open spec fn last_step(start: int, end: int) -> int {
    start + 5 * ((end - start) / 5)
}

/// The average damage per second at step `k`: the damage of the leading
/// entries up to that second, over the seconds elapsed since the start
/// (counting the first), rounded toward zero.
pub open spec fn average_at_step(s: Seq<(i64, i64)>, start: int, k: int) -> int {
    div_toward_zero(total_damage(s.take(leading_count(s, start + 5 * k))), 5 * k + 1)
}

/// The running totals of the entries that the average reads stay within `i64`.
pub open spec fn average_sums_fit(s: Seq<(i64, i64)>, start: int, end: int) -> bool {
    start <= end ==> forall|m: int|
        0 <= m <= leading_count(s, last_step(start, end)) ==> i64::MIN <= #[trigger] total_damage(
            s.take(m),
        ) <= i64::MAX
}

/// Whether the running totals that `calculate_average_dps` reads stay within
/// `i64`.
pub fn average_dps_fits(data: &[(i64, i64)], start_time: i64, end_time: i64) -> (r: bool)
    requires
        -9 <= end_time - start_time < i64::MAX,
    ensures
        r == average_sums_fit(data@, start_time as int, end_time as int),
{
    if start_time > end_time {
        return true;
    }
    let last = start_time + 5 * ((end_time - start_time) / 5);
    assert(last == last_step(start_time as int, end_time as int));
    assert(last <= end_time) by (nonlinear_arith)
        requires
            last == start_time + 5 * ((end_time - start_time) / 5),
            start_time <= end_time,
    {
    }
    let ghost s = data@;
    let mut sum: i64 = 0;
    let mut idx: usize = 0;
    assert(s.take(0) =~= Seq::<(i64, i64)>::empty());
    while idx < data.len() && data[idx].0 / 1000 <= last
        invariant
            s == data@,
            idx <= s.len(),
            last == last_step(start_time as int, end_time as int),
            start_time <= end_time,
            forall|i: int| 0 <= i < idx ==> entry_second(#[trigger] s[i]) <= last,
            sum == total_damage(s.take(idx as int)),
            forall|m: int|
                0 <= m <= idx ==> i64::MIN <= #[trigger] total_damage(s.take(m)) <= i64::MAX,
        decreases s.len() - idx,
    {
        assert(s.take(idx + 1).drop_last() =~= s.take(idx as int));
        match sum.checked_add(data[idx].1) {
            Some(next) => {
                sum = next;
            },
            None => {
                proof {
                    assert(entry_second(s[idx as int]) <= last);
                    lemma_leading_count_at_least(s, last as int, idx + 1);
                    assert(total_damage(s.take(idx + 1)) == sum + s[idx as int].1);
                    assert(!(i64::MIN <= total_damage(s.take(idx + 1)) <= i64::MAX));
                }
                return false;
            },
        }
        idx = idx + 1;
    }
    proof {
        lemma_leading_count_is(s, last as int, idx as int);
    }
    true
}

/// The average damage per second since the start, every five seconds from
/// `start_time` to `end_time` (in seconds); a step after `end_time` (there is
/// one only where `end_time` is before `start_time`) stays 0.
pub fn calculate_average_dps(data: &[(i64, i64)], start_time: i64, end_time: i64) -> (r: Vec<i64>)
    requires
        -9 <= end_time - start_time < i64::MAX,
        step_count(start_time as int, end_time as int) <= usize::MAX,
        average_sums_fit(data@, start_time as int, end_time as int),
    ensures
        r@.len() == step_count(start_time as int, end_time as int),
        forall|k: int|
            0 <= k < r@.len() ==> #[trigger] r@[k] == (if start_time + 5 * k <= end_time {
                average_at_step(data@, start_time as int, k)
            } else {
                0
            }),
{
    let step: i64 = 5;
    let steps = (end_time - start_time) / step + 1;
    assert(steps == step_count(start_time as int, end_time as int));
    let n = steps as usize;
    let mut results: Vec<i64> = Vec::new();
    for _i in 0..n
        invariant
            results@.len() == _i,
            forall|j: int| 0 <= j < results@.len() ==> #[trigger] results@[j] == 0,
    {
        results.push(0);
    }
    if start_time > end_time {
        return results;
    }
    let ghost s = data@;
    let mut current_sum: i64 = 0;
    let mut idx: usize = 0;
    let mut t = start_time;
    let mut k: usize = 0;
    proof {
        assert(s.take(0) =~= Seq::<(i64, i64)>::empty());
        assert((end_time - start_time) / 5 >= 0);
    }
    loop
        invariant_except_break
            t <= end_time,
            forall|j: int|
                0 <= j < k ==> #[trigger] results@[j] == average_at_step(s, start_time as int, j),
            forall|j: int| k <= j < n ==> #[trigger] results@[j] == 0,
        invariant
            -9 <= end_time - start_time < i64::MAX,
            start_time <= end_time,
            t == start_time + 5 * k,
            start_time <= t,
            k < n,
            n == step_count(start_time as int, end_time as int),
            results@.len() == n,
            average_sums_fit(s, start_time as int, end_time as int),
            s == data@,
            idx <= s.len(),
            forall|i: int| 0 <= i < idx ==> entry_second(#[trigger] s[i]) <= t,
            current_sum == total_damage(s.take(idx as int)),
        ensures
            forall|j: int|
                0 <= j < n ==> #[trigger] results@[j] == (if start_time + 5 * j <= end_time {
                    average_at_step(s, start_time as int, j)
                } else {
                    0
                }),
        decreases end_time - t,
    {
        proof {
            assert(t <= last_step(start_time as int, end_time as int)) by (nonlinear_arith)
                requires
                    t == start_time + 5 * k,
                    t <= end_time,
                    start_time <= end_time,
            {
            }
            lemma_leading_count_grows(s, t as int, last_step(start_time as int, end_time as int));
        }
        while idx < data.len() && data[idx].0 / 1000 <= t
            invariant
                idx <= s.len(),
                s == data@,
                forall|i: int| 0 <= i < idx ==> entry_second(#[trigger] s[i]) <= t,
                current_sum == total_damage(s.take(idx as int)),
                leading_count(s, t as int) <= leading_count(
                    s,
                    last_step(start_time as int, end_time as int),
                ),
                average_sums_fit(s, start_time as int, end_time as int),
                start_time <= end_time,
                -9 <= end_time - start_time < i64::MAX,
                t <= end_time,
                t == start_time + 5 * k,
                start_time <= t,
                k < n,
                n == step_count(start_time as int, end_time as int),
                results@.len() == n,
                forall|j: int|
                    0 <= j < k ==> #[trigger] results@[j] == average_at_step(s, start_time as int, j),
                forall|j: int| k <= j < n ==> #[trigger] results@[j] == 0,
            decreases s.len() - idx,
        {
            proof {
                lemma_leading_count_at_least(s, t as int, idx + 1);
                assert(s.take(idx + 1).drop_last() =~= s.take(idx as int));
                assert(i64::MIN <= total_damage(s.take(idx + 1)) <= i64::MAX);
            }
            current_sum = current_sum + data[idx].1;
            idx = idx + 1;
        }
        proof {
            lemma_leading_count_is(s, t as int, idx as int);
        }
        let average = current_sum / (t - start_time + 1);
        assert(average == average_at_step(s, start_time as int, k as int));
        results.set(k, average);
        if end_time - t < 5 {
            proof {
                assert forall|j: int| 0 <= j < n implies #[trigger] results@[j] == (if start_time
                    + 5 * j <= end_time {
                    average_at_step(s, start_time as int, j)
                } else {
                    0
                }) by {
                    if j > k {
                        assert(start_time + 5 * j > end_time);
                    }
                }
            }
            break;
        }
        proof {
            assert(k + 1 < n) by (nonlinear_arith)
                requires
                    t == start_time + 5 * k,
                    end_time - t >= 5,
                    n == (end_time - start_time) / 5 + 1,
                    start_time <= end_time,
            {
            }
        }
        t = t + 5;
        k = k + 1;
    }
    results
}

} // verus!
