use waw::dock::DockPosition;
use waw::geometry::AnchorPosition;

#[test]
fn array_lists_the_edge_docks_in_slot_order() {
    assert_eq!(
        DockPosition::array(),
        [DockPosition::Top, DockPosition::Left, DockPosition::Bottom, DockPosition::Right]
    );
}

#[test]
fn index_numbers_the_docks() {
    assert_eq!(DockPosition::Top.index(), 0);
    assert_eq!(DockPosition::Left.index(), 1);
    assert_eq!(DockPosition::Bottom.index(), 2);
    assert_eq!(DockPosition::Right.index(), 3);
    assert_eq!(DockPosition::Center.index(), 4);
}

#[test]
fn from_index_reads_host_numbers() {
    assert_eq!(DockPosition::from_index(0), Some(DockPosition::Top));
    assert_eq!(DockPosition::from_index(1), Some(DockPosition::Left));
    assert_eq!(DockPosition::from_index(2), Some(DockPosition::Bottom));
    assert_eq!(DockPosition::from_index(3), Some(DockPosition::Right));
    assert_eq!(DockPosition::from_index(4), Some(DockPosition::Center));
}

#[test]
fn from_index_rejects_numbers_out_of_range() {
    assert_eq!(DockPosition::from_index(5), None);
    assert_eq!(DockPosition::from_index(-1), None);
    assert_eq!(DockPosition::from_index(i32::MAX), None);
    assert_eq!(DockPosition::from_index(i32::MIN), None);
}

#[test]
fn index_and_from_index_agree() {
    for number in 0..5 {
        let dock = DockPosition::from_index(number).unwrap();
        assert_eq!(dock.index(), number as usize);
    }
}

#[test]
fn only_edge_docks_have_a_size_and_a_handle() {
    for dock in DockPosition::array() {
        assert!(dock.has_size());
        assert!(dock.resize_anchor().is_some());
    }
    assert!(!DockPosition::Center.has_size());
    assert_eq!(DockPosition::Center.resize_anchor(), None);
}

#[test]
fn handles_face_the_center() {
    assert_eq!(DockPosition::Top.resize_anchor(), Some(AnchorPosition::S));
    assert_eq!(DockPosition::Left.resize_anchor(), Some(AnchorPosition::E));
    assert_eq!(DockPosition::Bottom.resize_anchor(), Some(AnchorPosition::N));
    assert_eq!(DockPosition::Right.resize_anchor(), Some(AnchorPosition::W));
}
