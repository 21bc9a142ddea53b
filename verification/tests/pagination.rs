use blog_api::endpoints::pagination::{Pagination, DEFAULT_PAGE, DEFAULT_PER_PAGE};

#[test]
fn default_pagination_is_the_first_ten() {
    let pagination = Pagination::default();
    assert_eq!(pagination.get_per_page(), 10);
    assert_eq!(pagination.get_page(), 1);
    assert_eq!(pagination.offset(), Some(0));
    assert_eq!(DEFAULT_PER_PAGE, 10);
    assert_eq!(DEFAULT_PAGE, 1);
}

#[test]
fn missing_parts_take_their_defaults() {
    assert_eq!(Pagination::new(None, None).get_per_page(), 10);
    assert_eq!(Pagination::new(None, None).get_page(), 1);
    assert_eq!(Pagination::new(Some(25), None).get_per_page(), 25);
    assert_eq!(Pagination::new(Some(25), None).get_page(), 1);
    assert_eq!(Pagination::new(None, Some(4)).get_per_page(), 10);
    assert_eq!(Pagination::new(None, Some(4)).get_page(), 4);
}

#[test]
fn offset_is_per_page_times_pages_before() {
    assert_eq!(Pagination::new(Some(25), Some(1)).offset(), Some(0));
    assert_eq!(Pagination::new(Some(25), Some(3)).offset(), Some(50));
    assert_eq!(Pagination::new(None, Some(7)).offset(), Some(60));
    assert_eq!(Pagination::new(Some(0), Some(9)).offset(), Some(0));
    assert_eq!(Pagination::new(Some(10), Some(0)).offset(), Some(-10));
    assert_eq!(Pagination::new(Some(-2), Some(-3)).offset(), Some(8));
}

#[test]
fn offset_that_does_not_fit_is_none() {
    assert_eq!(Pagination::new(Some(i64::MAX), Some(3)).offset(), None);
    assert_eq!(Pagination::new(Some(2), Some(i64::MAX)).offset(), None);
    assert_eq!(Pagination::new(Some(1), Some(i64::MIN)).offset(), None);
    assert_eq!(Pagination::new(Some(0), Some(i64::MIN)).offset(), None);
    assert_eq!(Pagination::new(Some(1), Some(i64::MAX)).offset(), Some(i64::MAX - 1));
    assert_eq!(Pagination::new(Some(i64::MAX), Some(2)).offset(), Some(i64::MAX));
}
