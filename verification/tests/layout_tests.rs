use lurk_dashboard::layout::{partition, Direction, Rect};

fn rect(x: u16, y: u16, width: u16, height: u16) -> Rect {
    Rect { x, y, width, height }
}

#[test]
fn partition_30_40_30_floors_and_remainder() {
    let parent = rect(0, 0, 80, 24);
    let parts = partition(parent, Direction::Horizontal, &vec![30, 40, 30]);
    assert_eq!(parts.len(), 3);
    assert_eq!(parts[0], rect(0, 0, 24, 24));
    assert_eq!(parts[1], rect(24, 0, 32, 24));
    assert_eq!(parts[2], rect(56, 0, 24, 24));
    let total: u16 = parts.iter().map(|r| r.width).sum();
    assert_eq!(total, 80);
}

#[test]
fn partition_30_40_30_odd_width_sums_exactly() {
    // 7 cells: floor shares 2 and 2, the last child absorbs the 3 left over.
    let parts = partition(rect(0, 0, 7, 1), Direction::Horizontal, &vec![30, 40, 30]);
    assert_eq!(parts[0].width, 2);
    assert_eq!(parts[1].width, 2);
    assert_eq!(parts[2].width, 3);
    assert_eq!(parts[0].width + parts[1].width + parts[2].width, 7);
}

#[test]
fn partition_zero_height_yields_zero_height_children() {
    let parts = partition(rect(3, 5, 40, 0), Direction::Vertical, &vec![10, 55, 30, 5]);
    assert_eq!(parts.len(), 4);
    for p in &parts {
        assert_eq!(p.height, 0);
        assert_eq!(p.width, 40);
        assert_eq!(p.x, 3);
        assert_eq!(p.y, 5);
    }
}

#[test]
fn partition_overfull_weights_clamp_without_negatives() {
    // Weights sum over 100: the floor shares are clamped to what is left.
    let parts = partition(rect(0, 0, 10, 1), Direction::Horizontal, &vec![80, 80]);
    assert_eq!(parts[0].width, 8);
    assert_eq!(parts[1].width, 2);
}

#[test]
fn partition_underfull_weights_remainder_to_last() {
    let parts = partition(rect(0, 0, 100, 1), Direction::Horizontal, &vec![10, 10]);
    assert_eq!(parts[0].width, 10);
    assert_eq!(parts[1].width, 90);
}

#[test]
fn partition_single_full_weight_is_whole_parent() {
    let parent = rect(2, 3, 60, 20);
    let parts = partition(parent, Direction::Horizontal, &vec![100]);
    assert_eq!(parts.len(), 1);
    assert_eq!(parts[0], parent);
}

#[test]
fn partition_no_weights_no_children() {
    let parts = partition(rect(0, 0, 10, 10), Direction::Vertical, &vec![]);
    assert!(parts.is_empty());
}

#[test]
fn partition_vertical_children_are_contiguous() {
    let parts = partition(rect(0, 0, 80, 24), Direction::Vertical, &vec![10, 55, 30, 5]);
    assert_eq!(parts.len(), 4);
    let mut y = 0;
    for p in &parts {
        assert_eq!(p.y, y);
        y += p.height;
    }
    assert_eq!(y, 24);
}
