use snake_core::collision::{cell_box, overlaps, Size};
use snake_core::grid::Position;

fn cell() -> Size {
    cell_box()
}

#[test]
fn cell_box_is_one_cell() {
    let s = cell_box();
    assert_eq!(s.x, 10);
    assert_eq!(s.y, 10);
}

#[test]
fn same_cell_overlaps() {
    let p = Position { x: 40, y: -20 };
    assert!(overlaps(p, cell(), p, cell()));
}

#[test]
fn adjacent_cells_do_not_overlap() {
    let a = Position { x: 0, y: 0 };
    assert!(!overlaps(a, cell(), Position { x: 10, y: 0 }, cell()));
    assert!(!overlaps(a, cell(), Position { x: -10, y: 0 }, cell()));
    assert!(!overlaps(a, cell(), Position { x: 0, y: 10 }, cell()));
    assert!(!overlaps(a, cell(), Position { x: 0, y: -10 }, cell()));
}

#[test]
fn partial_overlap_counts() {
    let a = Position { x: 0, y: 0 };
    assert!(overlaps(a, cell(), Position { x: 9, y: 0 }, cell()));
    assert!(overlaps(a, cell(), Position { x: -9, y: 9 }, cell()));
}

#[test]
fn overlap_needs_both_axes() {
    let a = Position { x: 0, y: 0 };
    assert!(!overlaps(a, cell(), Position { x: 9, y: 10 }, cell()));
    assert!(!overlaps(a, cell(), Position { x: 10, y: 9 }, cell()));
}

#[test]
fn overlap_with_unequal_boxes() {
    let a = Position { x: 0, y: 0 };
    let big = Size { x: 30, y: 30 };
    assert!(overlaps(a, big, Position { x: 15, y: 0 }, cell()));
    assert!(!overlaps(a, big, Position { x: 20, y: 0 }, cell()));
}
