use dm_ticket::submit::{is_viewer_key, select_viewers, submit_keys};

#[test]
fn scenario_c_named_slots_only() {
    let sel = select_viewers(5, 4, &vec![1, 3]);
    assert_eq!(sel.marks, vec![true, false, true, false, false]);
    assert_eq!(sel.quantity, 4);
    assert!(!sel.short);
}

#[test]
fn automatic_selection_takes_first_slots() {
    let sel = select_viewers(5, 2, &vec![]);
    assert_eq!(sel.marks, vec![true, true, false, false, false]);
    assert_eq!(sel.quantity, 2);
}

#[test]
fn fewer_slots_than_quantity_is_short() {
    let sel = select_viewers(2, 4, &vec![]);
    assert_eq!(sel.marks, vec![true, true]);
    assert_eq!(sel.quantity, 2);
    assert!(sel.short);
}

#[test]
fn no_slots_means_nothing_marked() {
    let sel = select_viewers(0, 3, &vec![1]);
    assert!(sel.marks.is_empty());
    assert_eq!(sel.quantity, 0);
    assert!(!sel.short);
}

#[test]
fn named_numbers_out_of_range_are_ignored() {
    let sel = select_viewers(3, 1, &vec![0, 3, 7]);
    assert_eq!(sel.marks, vec![false, false, true]);
}

#[test]
fn payload_keys() {
    let input = vec!["dmViewer_1".to_string(), "item_2".to_string()];
    let children = vec!["order_9".to_string(), "other".to_string(), "order_10".to_string()];
    let keys = submit_keys(&input, &"confirmOrder_1".to_string(), &children);
    assert_eq!(keys, vec!["dmViewer_1", "item_2", "confirmOrder_1", "order_9", "order_10"]);
    assert!(is_viewer_key("dmViewer_123"));
    assert!(!is_viewer_key("dmViewe"));
}
