use warehouse::models::response::{PaginatedResponse, PaginationMeta, PaginationQuery};
use warehouse::utils::{
    build_search_condition, build_sort_clause, calculate_offset, calculate_total_pages,
    validate_pagination,
};

#[test]
fn offset_of_first_page_is_zero() {
    assert_eq!(calculate_offset(1, 20), 0);
}

#[test]
fn offset_skips_the_pages_before() {
    assert_eq!(calculate_offset(3, 20), 40);
    assert_eq!(calculate_offset(7, 1), 6);
}

#[test]
fn offset_treats_small_page_and_limit_as_one() {
    assert_eq!(calculate_offset(0, 20), 0);
    assert_eq!(calculate_offset(-5, 20), 0);
    assert_eq!(calculate_offset(3, 0), 2);
    assert_eq!(calculate_offset(3, -9), 2);
}

#[test]
fn total_pages_is_the_ceiling() {
    assert_eq!(calculate_total_pages(0, 20), 0);
    assert_eq!(calculate_total_pages(1, 20), 1);
    assert_eq!(calculate_total_pages(20, 20), 1);
    assert_eq!(calculate_total_pages(21, 20), 2);
    assert_eq!(calculate_total_pages(100, 7), 15);
}

#[test]
fn total_pages_is_zero_without_a_positive_limit() {
    assert_eq!(calculate_total_pages(50, 0), 0);
    assert_eq!(calculate_total_pages(50, -3), 0);
    assert_eq!(calculate_total_pages(i64::MAX, i64::MIN), 0);
}

#[test]
fn total_pages_survives_the_largest_inputs() {
    assert_eq!(calculate_total_pages(i64::MAX, 1), i64::MAX);
    assert_eq!(calculate_total_pages(i64::MAX, i64::MAX), 1);
    assert_eq!(calculate_total_pages(i64::MAX, 2), i64::MAX / 2 + 1);
}

#[test]
fn pagination_defaults_apply() {
    let query = PaginationQuery { page: None, limit: None, search: None, sort_by: None, sort_order: None };
    assert_eq!(validate_pagination(&query), (1, 20));
}

#[test]
fn pagination_is_clamped_not_rejected() {
    let low = PaginationQuery { page: Some(0), limit: Some(0), search: None, sort_by: None, sort_order: None };
    assert_eq!(validate_pagination(&low), (1, 1));
    let negative = PaginationQuery { page: Some(-4), limit: Some(-4), search: None, sort_by: None, sort_order: None };
    assert_eq!(validate_pagination(&negative), (1, 1));
    let high = PaginationQuery { page: Some(9), limit: Some(101), search: None, sort_by: None, sort_order: None };
    assert_eq!(validate_pagination(&high), (9, 100));
    let edge = PaginationQuery { page: Some(2), limit: Some(100), search: None, sort_by: None, sort_order: None };
    assert_eq!(validate_pagination(&edge), (2, 100));
}

#[test]
fn default_query_asks_for_the_first_twenty_ascending() {
    let query = PaginationQuery::default();
    assert_eq!(query.page, Some(1));
    assert_eq!(query.limit, Some(20));
    assert_eq!(query.search, None);
    assert_eq!(query.sort_by, None);
    assert_eq!(query.sort_order, Some("ASC".to_string()));
}

#[test]
fn meta_reports_neighbours() {
    let first = PaginationMeta::new(45, 1, 20);
    assert_eq!(first.total, 45);
    assert_eq!(first.page, 1);
    assert_eq!(first.limit, 20);
    assert_eq!(first.total_pages, 3);
    assert!(first.has_next);
    assert!(!first.has_prev);
    let last = PaginationMeta::new(45, 3, 20);
    assert!(!last.has_next);
    assert!(last.has_prev);
    let middle = PaginationMeta::new(45, 2, 20);
    assert!(middle.has_next);
    assert!(middle.has_prev);
}

#[test]
fn meta_with_nonpositive_limit_has_no_pages() {
    let zero = PaginationMeta::new(45, 1, 0);
    assert_eq!(zero.total_pages, 0);
    assert!(!zero.has_next);
    let negative = PaginationMeta::new(45, 2, -1);
    assert_eq!(negative.total_pages, 0);
    assert!(!negative.has_next);
    assert!(negative.has_prev);
}

#[test]
fn paginated_response_keeps_its_data() {
    let response = PaginatedResponse::new(vec![10, 20, 30], 3, 1, 20);
    assert_eq!(response.data, vec![10, 20, 30]);
    assert_eq!(
        response.pagination,
        PaginationMeta { total: 3, page: 1, limit: 20, total_pages: 1, has_next: false, has_prev: false }
    );
}

#[test]
fn sort_clause_accepts_whitelisted_columns() {
    assert_eq!(build_sort_clause(Some("name"), Some("DESC"), "id"), "ORDER BY name DESC");
    assert_eq!(build_sort_clause(Some("code"), Some("desc"), "id"), "ORDER BY code DESC");
    assert_eq!(build_sort_clause(Some("created_at"), Some("ASC"), "id"), "ORDER BY created_at ASC");
    assert_eq!(build_sort_clause(Some("updated_at"), None, "id"), "ORDER BY updated_at ASC");
}

#[test]
fn sort_clause_falls_back_on_unknown_input() {
    assert_eq!(build_sort_clause(Some("password"), Some("sideways"), "warehouse_name"), "ORDER BY warehouse_name ASC");
    assert_eq!(build_sort_clause(None, None, "warehouse_name"), "ORDER BY warehouse_name ASC");
    assert_eq!(build_sort_clause(Some("name; DROP TABLE x"), Some("Desc"), "id"), "ORDER BY id ASC");
}

#[test]
fn search_condition_without_a_term_is_true() {
    assert_eq!(build_search_condition(None, &["a", "b"]), ("TRUE".to_string(), vec![]));
    assert_eq!(build_search_condition(Some(""), &["a", "b"]), ("TRUE".to_string(), vec![]));
    assert_eq!(build_search_condition(Some("  \t\n"), &["a", "b"]), ("TRUE".to_string(), vec![]));
}

#[test]
fn search_condition_tests_every_field() {
    let (clause, params) = build_search_condition(Some("  central "), &["warehouse_code", "warehouse_name", "city"]);
    assert_eq!(clause, "(warehouse_code ILIKE $1 OR warehouse_name ILIKE $2 OR city ILIKE $3)");
    assert_eq!(params, vec!["%central%".to_string(), "%central%".to_string(), "%central%".to_string()]);
}

#[test]
fn search_condition_numbers_past_nine() {
    let fields = ["f1", "f2", "f3", "f4", "f5", "f6", "f7", "f8", "f9", "f10", "f11"];
    let (clause, params) = build_search_condition(Some("x"), &fields);
    assert!(clause.ends_with("f9 ILIKE $9 OR f10 ILIKE $10 OR f11 ILIKE $11)"));
    assert_eq!(params.len(), 11);
}

#[test]
fn search_condition_without_fields_is_an_empty_group() {
    assert_eq!(build_search_condition(Some("x"), &[]), ("()".to_string(), vec![]));
}
