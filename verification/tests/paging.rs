use backend::paging::{PageInfo, PagedResponse};

#[test]
fn entire_of_nothing() {
    let r: PagedResponse<u32> = PagedResponse::with_entire(Vec::new());
    assert!(r.items.is_empty());
    assert_eq!(r.page_info.has_next, false);
    assert_eq!(r.page_info.total, 0);
}

#[test]
fn entire_of_three_keeps_order() {
    let r = PagedResponse::with_entire(vec!["a", "b", "c"]);
    assert_eq!(r.items, vec!["a", "b", "c"]);
    assert_eq!(r.page_info.has_next, false);
    assert_eq!(r.page_info.total, 3);
}

#[test]
fn entire_keeps_repeated_items() {
    let r = PagedResponse::with_entire(vec![2u8, 1, 2, 2]);
    assert_eq!(r.items, vec![2u8, 1, 2, 2]);
    assert_eq!(r.page_info.total, 4);
    assert!(!r.page_info.has_next);
}

#[test]
fn a_window_may_hold_fewer_items_than_the_total() {
    let r = PagedResponse { items: vec![1u8, 2], page_info: PageInfo { has_next: true, total: 10 } };
    assert_eq!(r.items.len(), 2);
    assert_eq!(r.page_info.total, 10);
    assert!(r.page_info.has_next);
}
