use echocache::paginate::{PaginatedData, PaginationError, Pager, PollStep};

fn item(step: PollStep<u32>) -> Option<u32> {
    match step {
        PollStep::Item(v) => Some(v),
        _ => None,
    }
}

#[test]
fn pager_walks_pages_in_order() {
    let mut p: Pager<u32> = Pager::new();
    assert!(matches!(p.poll(), PollStep::Fetch));
    assert!(matches!(p.poll(), PollStep::Waiting));
    p.page(vec![1, 2, 3], true);
    assert_eq!(item(p.poll()), Some(1));
    assert_eq!(item(p.poll()), Some(2));
    assert_eq!(item(p.poll()), Some(3));
    assert!(matches!(p.poll(), PollStep::Again));
    assert!(matches!(p.poll(), PollStep::Fetch));
    p.page(vec![4], false);
    assert_eq!(item(p.poll()), Some(4));
    assert!(matches!(p.poll(), PollStep::Again));
    assert!(matches!(p.poll(), PollStep::Finished));
    assert!(matches!(p.poll(), PollStep::Finished));
}

#[test]
fn pager_stops_on_failure() {
    let mut p: Pager<u32> = Pager::new();
    assert!(matches!(p.poll(), PollStep::Fetch));
    p.stop();
    assert!(matches!(p.poll(), PollStep::Finished));
}

#[test]
fn pager_empty_page_requests_again() {
    let mut p: Pager<u32> = Pager::new();
    p.poll();
    p.page(vec![], true);
    assert!(matches!(p.poll(), PollStep::Again));
    assert!(matches!(p.poll(), PollStep::Fetch));
}

#[test]
fn paginated_data_hands_items_out_once() {
    let mut page = PaginatedData { data: vec![1, 2], paginate: 7u8 };
    assert_eq!(page.items(), vec![1, 2]);
    assert!(page.items().is_empty());
    assert_eq!(page.paginate, 7);
}

#[test]
fn pagination_error_text() {
    let e = PaginationError::new("500: oops".to_string(), None);
    assert_eq!(e.text(), "Pagination error: 500: oops");
    assert_eq!(e.source(), None);
    let e = PaginationError::new("x".to_string(), Some("io".to_string()));
    assert_eq!(e.source(), Some("io"));
}
