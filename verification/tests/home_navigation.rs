use stassh::home::{move_selection, HostGroupView, MoveDirection};

fn group(count: usize) -> HostGroupView {
    HostGroupView {
        name: "group".to_string(),
        host_indices: (0..count).collect(),
        ungrouped: false,
    }
}

#[test]
fn down_skips_group_headers_and_preserves_column() {
    let groups = vec![group(1), group(3)];
    assert_eq!(move_selection(0, &groups, 3, MoveDirection::Down), 1);
}

#[test]
fn up_from_second_group_returns_to_previous_group_row() {
    let groups = vec![group(2), group(3)];
    assert_eq!(move_selection(3, &groups, 3, MoveDirection::Up), 1);
}

#[test]
fn down_clamps_to_last_column_in_shorter_row() {
    let groups = vec![group(3), group(1)];
    assert_eq!(move_selection(2, &groups, 3, MoveDirection::Down), 3);
}

#[test]
fn horizontal_navigation_stays_within_group_row() {
    let groups = vec![group(1), group(2)];
    assert_eq!(move_selection(0, &groups, 3, MoveDirection::Right), 0);
    assert_eq!(move_selection(1, &groups, 3, MoveDirection::Right), 2);
    assert_eq!(move_selection(1, &groups, 3, MoveDirection::Left), 1);
}

#[test]
fn navigation_skips_empty_groups_and_clamps_selection() {
    let groups = vec![group(4), group(0), group(2)];
    // Row two of the first group holds only card 3.
    assert_eq!(move_selection(2, &groups, 3, MoveDirection::Down), 3);
    assert_eq!(move_selection(3, &groups, 3, MoveDirection::Down), 4);
    assert_eq!(move_selection(5, &groups, 3, MoveDirection::Up), 3);
    assert_eq!(move_selection(99, &groups, 3, MoveDirection::Left), 4);
    assert_eq!(move_selection(5, &groups, 3, MoveDirection::Down), 5);
    assert_eq!(move_selection(0, &[], 3, MoveDirection::Down), 0);
    assert_eq!(move_selection(1, &groups, 0, MoveDirection::Down), 2);
}
