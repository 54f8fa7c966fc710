use proxy_manager::api::endpoints::utils::{
    default_page, default_per_page, next_page, page_offset, paginated_response, total_pages,
    PaginationQuery,
};

#[test]
fn defaults_are_first_page_of_twenty() {
    assert_eq!(default_page(), 1);
    assert_eq!(default_per_page(), 20);
    let q = PaginationQuery::new();
    assert_eq!(q.page, 1);
    assert_eq!(q.per_page, 20);
    assert!(q.validate().is_ok());
}

#[test]
fn query_out_of_range_names_the_fields() {
    let q = PaginationQuery { page: 0, per_page: 20 };
    assert_eq!(q.validate().unwrap_err().fields, vec!["page".to_string()]);
    let q = PaginationQuery { page: 1, per_page: 101 };
    assert_eq!(q.validate().unwrap_err().fields, vec!["per_page".to_string()]);
    let q = PaginationQuery { page: -3, per_page: 0 };
    assert_eq!(
        q.validate().unwrap_err().fields,
        vec!["page".to_string(), "per_page".to_string()]
    );
    assert!(PaginationQuery { page: 7, per_page: 100 }.validate().is_ok());
    assert!(PaginationQuery { page: 1, per_page: 1 }.validate().is_ok());
}

#[test]
fn offsets_skip_whole_pages() {
    assert_eq!(page_offset(1, 20), 0);
    assert_eq!(page_offset(2, 20), 20);
    assert_eq!(page_offset(5, 100), 400);
}

#[test]
fn total_pages_round_up() {
    assert_eq!(total_pages(0, 20), 0);
    assert_eq!(total_pages(1, 20), 1);
    assert_eq!(total_pages(20, 20), 1);
    assert_eq!(total_pages(21, 20), 2);
    assert_eq!(total_pages(250, 100), 3);
    // Negative totals divide toward zero, as Rust's `/` does.
    assert_eq!(total_pages(-45, 20), -1);
    assert_eq!(total_pages(-5, 20), 0);
    // The largest count the pages of twenty can be counted for.
    assert_eq!(total_pages(i64::MAX - 19, 20), i64::MAX / 20);
}

#[test]
fn loader_walks_every_page_once() {
    let mut pages = vec![];
    let mut page = 1;
    loop {
        pages.push(page);
        match next_page(page, 250, 100) {
            Some(p) => page = p,
            None => break,
        }
    }
    assert_eq!(pages, vec![1, 2, 3]);
    // Nothing to list: one fetch of page 1.
    assert_eq!(next_page(1, 0, 100), None);
}

#[test]
fn paginated_response_frames_a_page() {
    let q = PaginationQuery { page: 2, per_page: 10 };
    let r = paginated_response(vec![11, 12, 13], 23, &q);
    assert_eq!(r.data, vec![11, 12, 13]);
    assert_eq!(r.total, 23);
    assert_eq!(r.page, 2);
    assert_eq!(r.per_page, 10);
    assert_eq!(r.total_pages, 3);
}
