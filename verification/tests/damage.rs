use loa_parser::damage::{
    average_dps_fits, binary_search_left, calculate_average_dps, generate_intervals, sum_in_range,
    try_sum_in_range,
};

#[test]
fn binary_search_finds_first_not_before() {
    let v: Vec<(i64, i64)> = vec![(1000, 1), (2000, 2), (2000, 3), (5000, 4)];
    assert_eq!(binary_search_left(&v, 0), 0);
    assert_eq!(binary_search_left(&v, 1000), 0);
    assert_eq!(binary_search_left(&v, 1001), 1);
    assert_eq!(binary_search_left(&v, 2000), 1);
    assert_eq!(binary_search_left(&v, 2001), 3);
    assert_eq!(binary_search_left(&v, 5001), 4);
    assert_eq!(binary_search_left(&vec![], 7), 0);
}

#[test]
fn sum_in_range_includes_both_ends() {
    let v: Vec<(i64, i64)> = vec![(1000, 1), (2000, 2), (2000, 3), (5000, 4), (9000, 100)];
    assert_eq!(sum_in_range(&v, 1000, 2000), 6);
    assert_eq!(sum_in_range(&v, 1001, 4999), 5);
    assert_eq!(sum_in_range(&v, 0, 10000), 110);
    assert_eq!(sum_in_range(&v, 5001, 8999), 0);
    assert_eq!(sum_in_range(&v, 9000, 9000), 100);
    assert_eq!(sum_in_range(&v, 3000, 2999), 0);
}

#[test]
fn sum_in_range_matches_filter() {
    let v: Vec<(i64, i64)> = (0..50).map(|i| (i * 137 % 4000 / 7 * 7, i)).collect::<Vec<_>>();
    let mut v = v;
    v.sort();
    for start in (-100..4200).step_by(97) {
        for len in [0i64, 1, 50, 999, 3000] {
            let end = start + len;
            let expected: i64 = v.iter().filter(|(t, _)| start <= *t && *t <= end).map(|(_, d)| d).sum();
            assert_eq!(sum_in_range(&v, start, end), expected);
        }
    }
}

#[test]
fn intervals_every_second() {
    assert_eq!(generate_intervals(0, 0), Vec::<i64>::new());
    assert_eq!(generate_intervals(5, 1), Vec::<i64>::new());
    assert_eq!(generate_intervals(0, 1), vec![0]);
    assert_eq!(generate_intervals(0, 1000), vec![0]);
    assert_eq!(generate_intervals(0, 1001), vec![0, 1000]);
    assert_eq!(generate_intervals(10_000, 13_500), vec![0, 1000, 2000, 3000]);
}

#[test]
fn average_dps_every_five_seconds() {
    let data: Vec<(i64, i64)> = vec![(100_000, 10), (101_500, 20), (104_999, 30), (106_000, 40), (111_000, 50)];
    let r = calculate_average_dps(&data, 100, 112);
    // steps at 100, 105, 110 seconds
    assert_eq!(r, vec![10, 60 / 6, 100 / 11]);
}

#[test]
fn average_dps_stops_at_first_later_entry() {
    let data: Vec<(i64, i64)> = vec![(1000, 10), (9000, 5), (2000, 7)];
    let r = calculate_average_dps(&data, 0, 10);
    // at 0s: nothing; at 5s: only the first entry (the 9s entry stops the scan);
    // at 10s: all three
    assert_eq!(r, vec![0, 10 / 6, 22 / 11]);
}

#[test]
fn average_dps_with_end_before_start() {
    assert_eq!(calculate_average_dps(&[(0, 5)], 10, 7), vec![0]);
    assert_eq!(calculate_average_dps(&[(0, 5)], 10, 1), Vec::<i64>::new());
    assert_eq!(calculate_average_dps(&[(0, 5)], 10, 10), vec![5]);
    assert_eq!(calculate_average_dps(&[(10_999, 5)], 10, 10), vec![5]);
}

#[test]
fn binary_search_on_unsorted_log_ends_at_a_boundary() {
    let v: Vec<(i64, i64)> = vec![(5000, 1), (1000, 2), (9000, 3), (2000, 4)];
    for target in [0i64, 1500, 3000, 6000, 9500] {
        let r = binary_search_left(&v, target);
        assert!(r <= v.len());
        assert!(r == 0 || v[r - 1].0 < target);
        assert!(r == v.len() || v[r].0 >= target);
    }
}

#[test]
fn window_sums_add_up() {
    let v: Vec<(i64, i64)> = vec![(1000, 1), (2000, 2), (2000, 3), (5000, 4), (9000, 100)];
    for (a, m, b) in [(0i64, 2000i64, 9000i64), (1500, 1500, 6000), (2000, 4999, 9000), (0, 0, 0)] {
        assert_eq!(
            sum_in_range(&v, a, b),
            sum_in_range(&v, a, m) + sum_in_range(&v, m + 1, b)
        );
    }
}

#[test]
fn try_sum_refuses_overflow_and_backward_windows() {
    let v: Vec<(i64, i64)> = vec![(1000, i64::MAX), (2000, 1)];
    assert_eq!(try_sum_in_range(&v, 0, 1500), Some(i64::MAX));
    assert_eq!(try_sum_in_range(&v, 0, 3000), None);
    // a start after the time after the end slices backwards
    assert_eq!(try_sum_in_range(&v, 3000, 500), None);
    assert_eq!(try_sum_in_range(&v, 3000, 2999), Some(0));
    // out of time order: the window is where the searches end
    let w: Vec<(i64, i64)> = vec![(5000, 1), (0, 2), (0, 3)];
    assert_eq!(try_sum_in_range(&w, 3000, 3000), Some(0));
    assert_eq!(try_sum_in_range(&w, -100, 6000), Some(6));
}

#[test]
fn average_dps_fit_check() {
    assert!(average_dps_fits(&[(0, 1), (1000, 2)], 0, 10));
    assert!(!average_dps_fits(&[(0, i64::MAX), (1000, 2)], 0, 10));
    // the overflowing entry is after the last step: never read
    assert!(average_dps_fits(&[(0, i64::MAX), (12_000, 2)], 0, 11));
    assert!(average_dps_fits(&[(0, i64::MAX), (0, 2)], 10, 5));
}
