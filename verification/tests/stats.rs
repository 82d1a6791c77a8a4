use pokemon_dv_calculator::stats::{
    find_dv_range, find_value_range, get_dv_hp_pairs, get_dv_stat_pairs, DvRange, RangeError,
    StatVariation,
};

#[test]
fn variation_of_speed_at_level_100() {
    let variation = StatVariation::init(&100, &15, &0, &false);
    let expected: [i32; 16] = [35, 37, 39, 41, 43, 45, 47, 49, 51, 53, 55, 57, 59, 61, 63, 65];
    assert_eq!(variation.values(), &expected);
}

#[test]
fn variation_is_sorted() {
    let variation = StatVariation::init(&37, &45, &0, &true);
    for dv in 1..16 {
        assert!(variation.get(dv - 1) <= variation.get(dv));
    }
}

#[test]
fn range_of_observed_stat() {
    let variation = StatVariation::init(&100, &15, &0, &false);
    for dv in 1..16 {
        assert!(variation.get(dv - 1) <= variation.get(dv));
    }
    let observed = variation.get(5);
    assert_eq!(observed, 45);
    let range = DvRange::init(&observed, &variation).unwrap();
    assert!(range.min <= 5 && 5 <= range.max);
    for dv in 0..16 {
        let inside = range.min <= dv && dv <= range.max;
        assert_eq!(variation.get(dv as usize) == observed, inside);
    }
    assert_eq!((range.min, range.max), (5, 5));
}

#[test]
fn stats_fall_with_the_dv_at_a_negative_level() {
    let variation = StatVariation::init(&-100, &15, &0, &false);
    assert_eq!(variation.get(0), -30 + 5);
    assert_eq!(variation.get(15), -60 + 5);
    // Division rounds toward zero on either side of it.
    assert_eq!(StatVariation::init(&-1, &15, &0, &false).get(0), 5);
    assert_eq!(StatVariation::init(&-7, &15, &0, &false).get(0), -2 + 5);
    assert_eq!(StatVariation::init(&7, &15, &0, &false).get(0), 2 + 5);
}

#[test]
fn range_spans_all_equal_stats() {
    // At level 5 with base 45 the stat rounds to the same value for many DVs.
    let variation = StatVariation::init(&5, &45, &0, &false);
    let expected: [i32; 16] = [9, 9, 9, 9, 9, 10, 10, 10, 10, 10, 10, 10, 10, 10, 10, 11];
    assert_eq!(variation.values(), &expected);
    let range = DvRange::init(&10, &variation).unwrap();
    assert_eq!((range.min, range.max), (5, 14));
    for dv in 0..16usize {
        let inside = 5 <= dv && dv <= 14;
        assert_eq!(variation.get(dv) == 10, inside);
    }
}

#[test]
fn range_of_impossible_stat() {
    let variation = StatVariation::init(&100, &15, &0, &false);
    assert!(DvRange::init(&36, &variation).is_none());
}

#[test]
fn hp_has_level_offset() {
    let pairs = get_dv_hp_pairs(50, 35, 0);
    assert_eq!(pairs[0], 35 + 50 + 10);
    assert_eq!(pairs[15], 50 + 50 + 10);
}

#[test]
fn training_bonus_counts() {
    // sqrt(65535 - 1) + 1/4 = 256.24..., whole part 256
    let pairs = get_dv_stat_pairs(&100, &100, &65535, &false);
    assert_eq!(pairs[15], (115 * 2 + 256) + 5);
    // sqrt(9) + 1/4 = 3.25, whole part 3; sqrt(8) + 1/4 = 3.07..., whole part 3
    assert_eq!(get_dv_stat_pairs(&100, &0, &10, &false)[0], 3 + 5);
    assert_eq!(get_dv_stat_pairs(&100, &0, &9, &false)[0], 3 + 5);
    // sqrt(7) + 1/4 = 2.89..., whole part 2
    assert_eq!(get_dv_stat_pairs(&100, &0, &8, &false)[0], 2 + 5);
    assert_eq!(get_dv_stat_pairs(&100, &0, &1, &false)[0], 5);
}

#[test]
fn unfit_stats_are_refused() {
    assert!(StatVariation::try_init(&i32::MAX, &i32::MAX, &0, &false).is_none());
    assert!(StatVariation::try_init(&100, &15, &0, &false).is_some());
}

#[test]
fn dv_range_is_inclusive() {
    let pairs: [i32; 16] = [9, 9, 9, 9, 9, 10, 10, 10, 10, 10, 10, 10, 10, 10, 10, 11];
    assert_eq!(find_dv_range(&9, &pairs), Some((0, 4)));
    assert_eq!(find_dv_range(&11, &pairs), Some((15, 15)));
    assert_eq!(find_dv_range(&12, &pairs), None);
}

#[test]
fn value_range_is_inclusive() {
    assert_eq!(find_value_range(2, vec![1, 2, 2, 3]), Ok((1, 2)));
    let stats = vec![14, 14, 14, 14, 14, 15, 15, 15, 15, 15, 16, 16, 16, 16, 16, 17];
    assert_eq!(find_value_range(15, stats.clone()), Ok((5, 9)));
    assert_eq!(find_value_range(17, stats.clone()), Ok((15, 15)));
    assert_eq!(find_value_range(14, stats), Ok((0, 4)));
    assert_eq!(find_value_range(4, vec![1, 2, 2, 3]), Err(RangeError::NotFound));
    assert_eq!(find_value_range(4, vec![]), Err(RangeError::Empty));
}
