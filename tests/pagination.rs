use excerpts::pagination::PaginationFields;

#[test]
fn offsets_follow_page_and_size() {
    assert_eq!(PaginationFields { page: 1, per_page: 10 }.skip(), 0);
    assert_eq!(PaginationFields { page: 3, per_page: 10 }.skip(), 20);
    assert_eq!(PaginationFields { page: 1, per_page: 0 }.skip(), 0);
    assert_eq!(PaginationFields { page: 0, per_page: 10 }.skip(), 0);
    assert_eq!(PaginationFields { page: u32::MAX, per_page: u32::MAX }.skip(), (u32::MAX as u64 - 1) * u32::MAX as u64);
    assert_eq!(PaginationFields { page: 2, per_page: 25 }.take(), 25);
    let d = PaginationFields::default();
    assert_eq!((d.page, d.per_page), (1, 10));
}
