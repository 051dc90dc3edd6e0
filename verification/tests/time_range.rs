use dash_platform::time_range::{TimeRangeTransform, MAX_TIME_RANGE_OVERLAP_FACTOR};

const HOUR_MS: u64 = 3_600_000;

fn transform() -> TimeRangeTransform {
    // range = 6h, step = 2h, origin = 0 -> overlap factor 3.
    TimeRangeTransform {
        source: "$createdAt".to_string(),
        range_ms: 6 * 3_600_000,
        step_ms: 2 * 3_600_000,
        origin_ms: 0,
    }
}

fn with(range_ms: u64, step_ms: u64, origin_ms: u64) -> TimeRangeTransform {
    TimeRangeTransform { source: "$updatedAt".to_string(), range_ms, step_ms, origin_ms }
}

#[test]
fn overlap_factor_is_range_over_step() {
    assert_eq!(transform().overlap_factor(), 3);
}

#[test]
fn most_recent_start_floors_to_step_multiple() {
    let t = transform();
    let h = 3_600_000;
    // now = 7h -> most recent start = 6h
    assert_eq!(t.most_recent_start(7 * h), 6 * h);
    // exactly on a boundary stays put
    assert_eq!(t.most_recent_start(6 * h), 6 * h);
    // before origin saturates to origin
    assert_eq!(t.most_recent_start(0), 0);
}

#[test]
fn containing_buckets_are_the_overlapping_ranges() {
    let t = transform();
    let h = 3_600_000;
    // doc at 7h belongs to ranges starting at 6h, 4h, 2h
    assert_eq!(t.containing_buckets(7 * h), vec![6 * h, 4 * h, 2 * h]);
    // every returned range actually contains the timestamp
    for start in t.containing_buckets(7 * h) {
        assert!(start <= 7 * h && 7 * h < start + t.range_ms);
    }
}

#[test]
fn containing_buckets_truncate_near_origin() {
    let t = transform();
    let h = 3_600_000;
    // doc at 3h: ranges starting at 2h and 0h (4h start would be in future)
    assert_eq!(t.containing_buckets(3 * h), vec![2 * h, 0]);
}

#[test]
fn newest_vs_oldest_active() {
    let t = transform();
    let h = 3_600_000;
    let now = 7 * h;
    // newest active = freshest started range
    assert_eq!(t.newest_active_start(now), 6 * h);
    // oldest active = covers the full trailing window
    assert_eq!(t.oldest_active_start(now), 2 * h);
    // oldest active range still contains now
    let oldest = t.oldest_active_start(now);
    assert!(oldest <= now && now < oldest + t.range_ms);
}

#[test]
fn origin_offset_shifts_alignment() {
    let t = TimeRangeTransform {
        source: "$createdAt".to_string(),
        range_ms: 60,
        step_ms: 20,
        origin_ms: 5,
    };
    // starts are 5, 25, 45, ... ; now=50 -> most recent start 45
    assert_eq!(t.most_recent_start(50), 45);
    assert_eq!(t.containing_buckets(50), vec![45, 25, 5]);
}

#[test]
fn nothing_contains_an_instant_before_the_origin() {
    let t = with(60, 20, 5);
    assert_eq!(t.containing_buckets(4), Vec::<u64>::new());
    assert_eq!(t.most_recent_start(4), 5);
    assert_eq!(t.newest_active_start(4), 5);
    assert_eq!(t.oldest_active_start(4), 5);
    // the origin itself starts the first range
    assert_eq!(t.containing_buckets(5), vec![5]);
}

#[test]
fn zero_step_has_no_ranges() {
    let t = with(60, 0, 7);
    assert_eq!(t.overlap_factor(), 0);
    assert_eq!(t.most_recent_start(100), 7);
    assert_eq!(t.containing_buckets(100), Vec::<u64>::new());
    assert_eq!(t.newest_active_start(100), 7);
    assert_eq!(t.oldest_active_start(100), 7);
}

#[test]
fn window_below_step_has_no_buckets() {
    let t = with(10, 20, 0);
    assert_eq!(t.overlap_factor(), 0);
    assert_eq!(t.most_recent_start(45), 40);
    assert_eq!(t.containing_buckets(45), Vec::<u64>::new());
    assert_eq!(t.oldest_active_start(45), 0);
}

#[test]
fn window_that_is_no_multiple_of_the_step_rounds_down() {
    let t = with(50, 20, 0);
    assert_eq!(t.overlap_factor(), 2);
    assert_eq!(t.containing_buckets(45), vec![40, 20]);
}

#[test]
fn extreme_timestamps_do_not_overflow() {
    let t = with(u64::MAX, u64::MAX, 0);
    assert_eq!(t.overlap_factor(), 1);
    assert_eq!(t.containing_buckets(u64::MAX), vec![u64::MAX]);
    assert_eq!(t.containing_buckets(u64::MAX - 1), vec![0]);
    assert_eq!(t.oldest_active_start(u64::MAX), u64::MAX);

    let late = with(60, 20, u64::MAX);
    assert_eq!(late.most_recent_start(3), u64::MAX);
    assert_eq!(late.containing_buckets(u64::MAX), vec![u64::MAX]);

    // far more ranges than have started
    let fine = with(u64::MAX, 1, 0);
    assert_eq!(fine.containing_buckets(3), vec![3, 2, 1, 0]);
    assert_eq!(fine.oldest_active_start(3), 0);
}

#[test]
fn buckets_are_exactly_the_ranges_that_contain_the_instant() {
    let t = with(60, 20, 5);
    for instant in 0..300u64 {
        let buckets = t.containing_buckets(instant);
        let mut expected: Vec<u64> = Vec::new();
        let mut start = 5;
        while start <= instant {
            if instant < start + 60 {
                expected.insert(0, start);
            }
            start += 20;
        }
        assert_eq!(buckets, expected);
    }
}

#[test]
fn full_overlap_begins_one_window_less_a_step_after_the_origin() {
    let t = with(60, 20, 5);
    assert_eq!(t.containing_buckets(44).len(), 2);
    assert_eq!(t.containing_buckets(45).len(), 3);
}

#[test]
fn outer_buckets_are_the_active_starts() {
    let t = with(60, 20, 5);
    for now in 5..300u64 {
        let buckets = t.containing_buckets(now);
        assert_eq!(buckets[0], t.newest_active_start(now));
        assert_eq!(buckets[buckets.len() - 1], t.oldest_active_start(now));
    }
}

#[test]
fn oldest_active_range_spans_a_near_full_window() {
    let t = with(60, 20, 5);
    for now in 45..300u64 {
        let history = now - t.oldest_active_start(now);
        assert!(40 <= history && history < 60);
    }
}

#[test]
fn entries_stay_within_the_largest_overlap_factor() {
    let t = with(256 * 10, 10, 0);
    assert_eq!(t.overlap_factor(), MAX_TIME_RANGE_OVERLAP_FACTOR);
    assert_eq!(t.containing_buckets(1_000_000).len(), 256);
}

#[test]
fn insert_and_delete_of_an_entry_cancel_out() {
    let t = transform();
    let created_at = 7 * HOUR_MS + 123_456;
    let other: Vec<(u64, u32)> = vec![(6 * HOUR_MS, 1), (0, 1)];
    let mut entries = other.clone();
    for start in t.containing_buckets(created_at) {
        entries.push((start, 2));
    }
    assert!(entries.contains(&(4 * HOUR_MS, 2)));
    assert!(!entries.contains(&(created_at, 2)));
    assert!(!entries.contains(&(0, 2)));
    for start in t.containing_buckets(created_at) {
        entries.retain(|entry| *entry != (start, 2));
    }
    assert_eq!(entries, other);
}
