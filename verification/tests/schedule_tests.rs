use dips::schedule::RefreshSchedule;

#[test]
fn snapshot_fires_once_after_the_window() {
    // With a window of 2, the snapshot request comes on the third frame
    // and then never again without a refresh marker.
    let mut s = RefreshSchedule::new(2, Vec::new());
    let flags: Vec<bool> = (0..6).map(|_| s.step()).collect();
    assert_eq!(flags, vec![false, false, true, false, false, false]);
}

#[test]
fn refresh_marker_restarts_the_count() {
    // A marker at overall frame 4 restarts warm-up counting, so a second
    // snapshot comes at overall frame 7.
    let mut s = RefreshSchedule::new(2, vec![4]);
    let flags: Vec<bool> = (0..8).map(|_| s.step()).collect();
    assert_eq!(flags, vec![false, false, true, false, false, false, true, false]);
    assert_eq!(s.overall_frame, 8);
}

#[test]
fn multiple_markers() {
    let mut s = RefreshSchedule::new(1, vec![3, 6]);
    let flags: Vec<bool> = (0..8).map(|_| s.step()).collect();
    assert_eq!(flags, vec![false, true, false, false, true, false, false, true]);
}
