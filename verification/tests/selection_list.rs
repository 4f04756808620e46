use tarvrs::SelectionList;

#[test]
fn with_items_starts_unselected() {
    let list: SelectionList<u32> = SelectionList::with_items(vec![1, 2, 3]);
    assert_eq!(list.selected_index(), None);
    assert!(list.selected_item().is_none());
}

#[test]
fn next_selects_first_when_nothing_selected() {
    let mut list = SelectionList::with_items(vec![10u32, 20, 30]);
    list.next();
    assert_eq!(list.selected_index(), Some(0));
    assert_eq!(list.selected_item(), Some(&10));
}

#[test]
fn previous_selects_last_when_nothing_selected() {
    let mut list = SelectionList::with_items(vec![10u32, 20, 30]);
    list.previous();
    assert_eq!(list.selected_index(), Some(2));
    assert_eq!(list.selected_item(), Some(&30));
}

#[test]
fn next_wraps_past_the_last_index() {
    let mut list = SelectionList::with_items(vec![10u32, 20, 30]);
    list.next();
    list.next();
    list.next();
    assert_eq!(list.selected_index(), Some(2));
    list.next();
    assert_eq!(list.selected_index(), Some(0));
}

#[test]
fn previous_wraps_below_zero() {
    let mut list = SelectionList::with_items(vec![10u32, 20]);
    list.next();
    assert_eq!(list.selected_index(), Some(0));
    list.previous();
    assert_eq!(list.selected_index(), Some(1));
}

#[test]
fn next_is_cyclic_over_list_length() {
    let mut list = SelectionList::with_items(vec![1u32, 2, 3, 4, 5]);
    list.next();
    list.next();
    assert_eq!(list.selected_index(), Some(1));
    for _ in 0..5 {
        list.next();
    }
    assert_eq!(list.selected_index(), Some(1));
}

#[test]
fn previous_then_next_returns_to_the_same_index() {
    let mut list = SelectionList::with_items(vec![1u32, 2, 3]);
    list.next();
    list.next();
    assert_eq!(list.selected_index(), Some(1));
    list.previous();
    list.next();
    assert_eq!(list.selected_index(), Some(1));
    list.next();
    list.previous();
    assert_eq!(list.selected_index(), Some(1));
}

#[test]
fn navigation_on_empty_list_is_a_noop() {
    let mut list: SelectionList<u32> = SelectionList::with_items(vec![]);
    list.next();
    assert_eq!(list.selected_index(), None);
    list.previous();
    assert_eq!(list.selected_index(), None);
    assert!(list.selected_item().is_none());
}

#[test]
fn selection_stays_valid_under_any_navigation() {
    let mut list = SelectionList::with_items(vec![1u32, 2, 3]);
    let moves = [true, false, false, true, true, true, false, true];
    for &down in moves.iter() {
        if down {
            list.next();
        } else {
            list.previous();
        }
        let i = list.selected_index().expect("a selection must exist after navigating");
        assert!(i < 3);
    }
}
