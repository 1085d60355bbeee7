use left_right_cell::Side;
use left_right_cell::Tracker;

#[test]
fn tracker_tracks_sections_per_slot() {
    let mut t = Tracker::new();
    let a = t.register();
    let b = t.register();
    assert!(t.is_quiescent(Side::Left));
    assert!(t.is_quiescent(Side::Right));

    t.enter(a, Side::Left);
    t.enter(b, Side::Right);
    assert!(!t.is_quiescent(Side::Left));
    assert!(!t.is_quiescent(Side::Right));

    t.exit(a);
    assert!(t.is_quiescent(Side::Left));
    assert!(!t.is_quiescent(Side::Right));

    t.exit(b);
    assert!(t.is_quiescent(Side::Right));
}

#[test]
fn reentering_moves_a_reader_between_slots() {
    let mut t = Tracker::new();
    let a = t.register();

    t.enter(a, Side::Left);
    t.exit(a);
    t.enter(a, Side::Right);
    assert!(t.is_quiescent(Side::Left));
    assert!(!t.is_quiescent(Side::Right));
    t.exit(a);
}
