use dips::circular_index::UCircularIndex;

#[test]
fn starts_at_given_value() {
    let idx = UCircularIndex::new(2, 5);
    assert_eq!(idx.value(), 2);
}

#[test]
fn advances_forward() {
    let mut idx = UCircularIndex::new(0, 4);
    idx.add_assign(1);
    assert_eq!(idx.value(), 1);
    idx.add_assign(2);
    assert_eq!(idx.value(), 3);
}

#[test]
fn wraps_at_the_bound() {
    let mut idx = UCircularIndex::new(3, 4);
    idx.add_assign(1);
    assert_eq!(idx.value(), 0);
}

#[test]
fn negative_delta_wraps_forward() {
    // -1 from position 0 lands on the last slot, never negative.
    let mut idx = UCircularIndex::new(0, 4);
    idx.add_assign(-1);
    assert_eq!(idx.value(), 3);
}

#[test]
fn large_negative_delta_wraps_forward() {
    let mut idx = UCircularIndex::new(1, 3);
    idx.add_assign(-7);
    // 1 - 7 = -6, and -6 mod 3 = 0.
    assert_eq!(idx.value(), 0);
}

#[test]
fn periodicity_round_trip() {
    // After exactly N single-step advances the index returns to its start.
    for n in 1..6usize {
        for start in 0..n {
            let mut idx = UCircularIndex::new(start, n);
            for _ in 0..n {
                idx.add_assign(1);
                assert!(idx.value() < n);
            }
            assert_eq!(idx.value(), start);
        }
    }
}
