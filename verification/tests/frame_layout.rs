use slp_parquet::frames::{
    follower_column, frame_indexes, frame_row_groups, is_ice_climber, item_frame_indexes,
    port_column, RowGroup, NANA, POPO,
};

fn leader(port: usize) -> RowGroup {
    RowGroup { port, is_follower: false }
}

fn follower(port: usize) -> RowGroup {
    RowGroup { port, is_follower: true }
}

#[test]
fn ice_climbers_are_popo_and_nana() {
    assert!(is_ice_climber(10));
    assert!(is_ice_climber(11));
    assert_eq!(POPO, 10);
    assert_eq!(NANA, 11);
    assert!(!is_ice_climber(0));
    assert!(!is_ice_climber(9));
    assert!(!is_ice_climber(12));
}

#[test]
fn leaders_then_ice_climber_followers() {
    let groups = frame_row_groups(&[2, 10, 11, 0]);
    assert_eq!(
        groups,
        vec![leader(0), leader(1), leader(2), leader(3), follower(1), follower(2)]
    );
}

#[test]
fn no_followers_without_ice_climbers() {
    let groups = frame_row_groups(&[1, 20]);
    assert_eq!(groups, vec![leader(0), leader(1)]);
}

#[test]
fn no_ports_no_row_groups() {
    assert!(frame_row_groups(&[]).is_empty());
}

#[test]
fn frame_indexes_start_at_first_index() {
    assert_eq!(frame_indexes(3), vec![-123, -122, -121]);
    assert!(frame_indexes(0).is_empty());
    let long = frame_indexes(200);
    assert_eq!(long[123], 0);
    assert_eq!(long[199], 76);
}

#[test]
fn item_indexes_repeat_per_item() {
    assert_eq!(item_frame_indexes(&[2, 0, 1]), vec![-123, -123, -121]);
    assert_eq!(item_frame_indexes(&[0, 0, 3]), vec![-121, -121, -121]);
    assert!(item_frame_indexes(&[]).is_empty());
    let counts = [1usize, 4, 0, 2];
    assert_eq!(item_frame_indexes(&counts).len(), counts.iter().sum::<usize>());
}

#[test]
fn key_columns_repeat_value() {
    assert_eq!(port_column(3, 4), vec![3, 3, 3, 3]);
    assert_eq!(follower_column(true, 2), vec![true, true]);
    assert_eq!(follower_column(false, 3), vec![false, false, false]);
    assert!(port_column(1, 0).is_empty());
}
