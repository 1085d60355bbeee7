use left_right_cell::Cell;
use left_right_cell::Op;

#[test]
fn initial_value_is_published() {
    let mut cell: Cell<bool> = Cell::new(false);
    let r = cell.register_reader();
    let g = cell.get(r).unwrap();
    assert_eq!(*cell.read(&g), false);
    cell.release(g);
}

#[test]
fn set_then_publish_becomes_visible() {
    let mut cell: Cell<bool> = Cell::new(false);
    let r = cell.register_reader();

    let g = cell.get(r).unwrap();
    let before = *cell.read(&g);
    assert!(before == false || before == true);
    assert_eq!(before, false);
    cell.release(g);

    cell.set(true);
    cell.publish();

    let g = cell.get(r).unwrap();
    assert_eq!(*cell.read(&g), true);
    cell.release(g);
}

#[test]
fn unpublished_sets_stay_invisible() {
    let mut cell: Cell<u64> = Cell::new(0);
    let r = cell.register_reader();

    cell.set(1);
    cell.set(2);
    cell.set(3);

    let g = cell.get(r).unwrap();
    assert_eq!(*cell.read(&g), 0);
    cell.release(g);

    cell.publish();

    let g = cell.get(r).unwrap();
    assert_eq!(*cell.read(&g), 3);
    cell.release(g);
}

#[test]
fn append_replace_matches_set() {
    let mut cell: Cell<u64> = Cell::new(5);
    let r = cell.register_reader();

    cell.append(Op::Replace(9));
    let g = cell.get(r).unwrap();
    assert_eq!(*cell.read(&g), 5);
    cell.release(g);

    cell.publish();
    let g = cell.get(r).unwrap();
    assert_eq!(*cell.read(&g), 9);
    cell.release(g);
}

#[test]
fn both_slots_converge_across_publishes() {
    // Each publish flips which slot readers see, so three cycles exercise the
    // catch-up replay onto both slots in turn.
    let mut cell: Cell<u64> = Cell::new(10);
    let r = cell.register_reader();

    cell.set(1);
    cell.publish();
    let g = cell.get(r).unwrap();
    assert_eq!(*cell.read(&g), 1);
    cell.release(g);

    cell.set(2);
    cell.publish();
    let g = cell.get(r).unwrap();
    assert_eq!(*cell.read(&g), 2);
    cell.release(g);

    cell.set(3);
    cell.publish();
    let g = cell.get(r).unwrap();
    assert_eq!(*cell.read(&g), 3);
    cell.release(g);
}

#[test]
fn empty_publish_keeps_value() {
    let mut cell: Cell<u64> = Cell::new(4);
    let r = cell.register_reader();

    cell.publish();
    cell.publish();

    let g = cell.get(r).unwrap();
    assert_eq!(*cell.read(&g), 4);
    cell.release(g);
}

#[test]
fn guard_blocks_reclaim_until_released() {
    let mut cell: Cell<u64> = Cell::new(0);
    let old_reader = cell.register_reader();
    let new_reader = cell.register_reader();

    let old_guard = cell.get(old_reader).unwrap();
    assert_eq!(*cell.read(&old_guard), 0);

    cell.set(1);
    cell.begin_publish();

    // The old guard pins the vacated slot: the writer cannot reclaim it yet,
    // and the guard still observes the value published before the swap.
    assert!(!cell.vacated_quiescent());
    assert_eq!(*cell.read(&old_guard), 0);

    // A reader entering after the swap sees the new value at once.
    let new_guard = cell.get(new_reader).unwrap();
    assert_eq!(*cell.read(&new_guard), 1);
    cell.release(new_guard);

    cell.release(old_guard);
    assert!(cell.vacated_quiescent());
    cell.finish_publish();

    let g = cell.get(new_reader).unwrap();
    assert_eq!(*cell.read(&g), 1);
    cell.release(g);
}

#[test]
fn readers_have_independent_epochs() {
    let mut cell: Cell<u64> = Cell::new(8);
    let a = cell.register_reader();
    let b = cell.register_reader();

    let ga = cell.get(a).unwrap();
    let gb = cell.get(b).unwrap();
    assert_eq!(*cell.read(&ga), 8);
    assert_eq!(*cell.read(&gb), 8);

    cell.set(9);
    cell.begin_publish();

    // Releasing one reader's guard must not count as the other's exit.
    cell.release(ga);
    assert!(!cell.vacated_quiescent());
    cell.release(gb);
    assert!(cell.vacated_quiescent());
    cell.finish_publish();

    let g = cell.get(a).unwrap();
    assert_eq!(*cell.read(&g), 9);
    cell.release(g);
}

#[test]
fn get_unchecked_reads_published_value() {
    let mut cell: Cell<u64> = Cell::new(3);
    let r = cell.register_reader();
    let g = cell.get_unchecked(r);
    assert_eq!(*cell.read(&g), 3);
    cell.release(g);
}

#[test]
fn retired_cell_returns_none() {
    let mut cell: Cell<u64> = Cell::new(7);
    let r = cell.register_reader();

    cell.retire();
    assert!(cell.get(r).is_none());

    // A reader registered after retirement gets nothing either.
    let late = cell.register_reader();
    assert!(cell.get(late).is_none());
}

#[test]
fn retire_without_publish_returns_none() {
    let mut cell: Cell<bool> = Cell::new(false);
    let r = cell.register_reader();
    cell.retire();
    assert!(cell.get(r).is_none());
}

#[test]
fn guard_survives_retirement() {
    let mut cell: Cell<u64> = Cell::new(6);
    let r = cell.register_reader();
    let g = cell.get(r).unwrap();

    cell.retire();

    // The guard issued before retirement still reads the published value.
    assert_eq!(*cell.read(&g), 6);
    cell.release(g);
    assert!(cell.get(r).is_none());
}
