use tsh::common::ListWithState;

#[test]
fn new_list_selects_first_item() {
    let list: ListWithState<u32> = ListWithState::new(vec![5, 6, 7]);
    assert_eq!(list.selected, Some(0));
    let empty: ListWithState<u32> = ListWithState::new(Vec::new());
    assert_eq!(empty.selected, None);
}

#[test]
fn cursor_saturates_at_both_ends() {
    let mut list: ListWithState<u32> = ListWithState::new(vec![5, 6]);
    list.select_prev();
    assert_eq!(list.selected, Some(0));
    list.select_next();
    assert_eq!(list.selected, Some(1));
    list.select_next();
    assert_eq!(list.selected, Some(1));
    list.select_prev();
    assert_eq!(list.selected, Some(0));
}

#[test]
fn cursor_stays_off_an_empty_list() {
    let mut list: ListWithState<u32> = ListWithState::new(Vec::new());
    list.select_next();
    assert_eq!(list.selected, None);
    list.select_prev();
    assert_eq!(list.selected, None);
    list.select_first();
    assert_eq!(list.selected, None);
    assert_eq!(list.get_selected_item(), None);
}

#[test]
fn selection_and_clearing() {
    let mut list: ListWithState<u32> = ListWithState::new(vec![5, 6, 7]);
    list.select_next();
    assert_eq!(list.get_selected_item(), Some(6));
    assert_eq!(list.curr_idx(), Some(1));
    list.unselect();
    assert_eq!(list.get_selected_item(), None);
    list.select_first();
    assert_eq!(list.get_selected_item(), Some(5));
    list.clear_items();
    assert!(list.items.is_empty());
    assert_eq!(list.selected, None);
}
