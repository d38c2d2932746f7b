use warehouse::repositories::search::{found_in, lower_all, meets_search, needle};
use warehouse::repositories::sorting::{rank, SortColumn, SortKey};
use warehouse::text::{clone_opt_string, decimal, ends_with, opt_as_str};
use warehouse::utils::page_window;

fn texts(values: &[&str]) -> Vec<String> {
    values.iter().map(|v| v.to_string()).collect()
}

fn text_keys(values: &[&str]) -> Vec<SortKey> {
    values.iter().map(|v| SortKey::Text(v.to_string())).collect()
}

#[test]
fn needle_is_trimmed_and_lowered() {
    assert_eq!(needle(&None), None);
    assert_eq!(needle(&Some(String::new())), None);
    assert_eq!(needle(&Some(" \t\r\n".to_string())), None);
    assert_eq!(needle(&Some("\u{a0}\u{2003}\u{3000}".to_string())), None);
    assert_eq!(needle(&Some("  Jakarta Selatan ".to_string())), Some("jakarta selatan".to_string()));
    assert_eq!(needle(&Some("ÄÖÜ".to_string())), Some("äöü".to_string()));
    assert_eq!(needle(&Some("\u{200b}x".to_string())), Some("\u{200b}x".to_string()));
}

#[test]
fn lowering_keeps_order_and_count() {
    assert_eq!(lower_all(&vec![]), Vec::<String>::new());
    assert_eq!(lower_all(&vec!["WH-01", "Central", "ΑΘΗΝΑ"]), texts(&["wh-01", "central", "αθηνα"]));
}

#[test]
fn found_in_looks_for_exact_substrings() {
    assert!(found_in(&texts(&["alpha", "beta"]), "et"));
    assert!(found_in(&texts(&["alpha", "beta"]), "alpha"));
    assert!(found_in(&texts(&["alpha", "beta"]), ""));
    assert!(!found_in(&texts(&["alpha", "beta"]), "ET"));
    assert!(!found_in(&texts(&["alpha", "beta"]), "alphab"));
    assert!(!found_in(&texts(&["al", "pha"]), "alpha"));
    assert!(!found_in(&texts(&[]), ""));
    assert!(!found_in(&texts(&[]), "x"));
}

#[test]
fn search_is_met_whatever_the_case_of_the_texts() {
    assert!(meets_search(&vec!["WH-01", "Central"], &None));
    assert!(meets_search(&vec![], &None));
    assert!(meets_search(&vec!["WH-01", "Central"], &Some("centr".to_string())));
    assert!(meets_search(&vec!["WH-01", "CENTRAL"], &Some("wh-".to_string())));
    assert!(!meets_search(&vec!["WH-01", "Central"], &Some("north".to_string())));
    assert!(!meets_search(&vec![], &Some("x".to_string())));
    assert!(!meets_search(&vec!["WH-01", "Central"], &Some("CENTRAL".to_string())));
}

#[test]
fn rank_orders_texts_by_code_point() {
    assert_eq!(rank(&text_keys(&[]), false), Vec::<usize>::new());
    assert_eq!(rank(&text_keys(&["b", "a", "c"]), false), vec![1, 0, 2]);
    assert_eq!(rank(&text_keys(&["b", "a", "c"]), true), vec![2, 0, 1]);
    assert_eq!(rank(&text_keys(&["b", "B", "", "ab", "a", "é", "z"]), false), vec![2, 1, 4, 3, 0, 6, 5]);
}

#[test]
fn rank_keeps_equal_keys_in_place() {
    assert_eq!(rank(&text_keys(&["x", "a", "x", "a", "x"]), false), vec![1, 3, 0, 2, 4]);
    assert_eq!(rank(&text_keys(&["x", "a", "x", "a", "x"]), true), vec![4, 2, 0, 3, 1]);
}

#[test]
fn rank_puts_missing_instants_last() {
    let keys = vec![
        SortKey::Instant(Some(30)),
        SortKey::Instant(None),
        SortKey::Instant(Some(-5)),
        SortKey::Instant(Some(30)),
        SortKey::Instant(None),
        SortKey::Instant(Some(i64::MIN)),
    ];
    assert_eq!(rank(&keys, false), vec![5, 2, 0, 3, 1, 4]);
    assert_eq!(rank(&keys, true), vec![4, 1, 3, 0, 2, 5]);
}

#[test]
fn rank_puts_texts_before_instants() {
    let keys = vec![SortKey::Instant(Some(1)), SortKey::Text("z".to_string()), SortKey::Instant(None)];
    assert_eq!(rank(&keys, false), vec![1, 0, 2]);
    assert!(SortKey::Text("z".to_string()).ranks_no_later(&SortKey::Instant(Some(i64::MIN))));
    assert!(!SortKey::Instant(Some(i64::MIN)).ranks_no_later(&SortKey::Text(String::new())));
    assert!(SortKey::Text("a".to_string()).ranks_no_later(&SortKey::Text("a".to_string())));
    assert!(!SortKey::Text("ab".to_string()).ranks_no_later(&SortKey::Text("a".to_string())));
}

#[test]
fn column_is_read_from_the_request() {
    assert_eq!(SortColumn::parse(Some("name"), SortColumn::Code), SortColumn::Name);
    assert_eq!(SortColumn::parse(Some("code"), SortColumn::Name), SortColumn::Code);
    assert_eq!(SortColumn::parse(Some("created_at"), SortColumn::Name), SortColumn::CreatedAt);
    assert_eq!(SortColumn::parse(Some("updated_at"), SortColumn::Name), SortColumn::UpdatedAt);
    assert_eq!(SortColumn::parse(Some("Name"), SortColumn::Code), SortColumn::Code);
    assert_eq!(SortColumn::parse(Some(""), SortColumn::UpdatedAt), SortColumn::UpdatedAt);
    assert_eq!(SortColumn::parse(None, SortColumn::CreatedAt), SortColumn::CreatedAt);
}

#[test]
fn window_is_cut_to_the_listing() {
    assert_eq!(page_window(0, 1, 20), (0, 0));
    assert_eq!(page_window(45, 1, 20), (0, 20));
    assert_eq!(page_window(45, 2, 20), (20, 40));
    assert_eq!(page_window(45, 3, 20), (40, 45));
    assert_eq!(page_window(45, 4, 20), (45, 45));
    assert_eq!(page_window(40, 2, 20), (20, 40));
    assert_eq!(page_window(40, 3, 20), (40, 40));
    assert_eq!(page_window(45, 0, 20), (0, 20));
    assert_eq!(page_window(45, -7, 0), (0, 1));
    assert_eq!(page_window(45, 46, -1), (45, 45));
    assert_eq!(page_window(45, i64::MAX, i64::MAX), (45, 45));
    assert_eq!(page_window(usize::MAX, 2, i64::MAX), (i64::MAX as usize, usize::MAX - 1));
    assert_eq!(page_window(usize::MAX, 3, i64::MAX), (usize::MAX - 1, usize::MAX));
    assert_eq!(page_window(45, i64::MIN, i64::MIN), (0, 1));
}

#[test]
fn numerals_have_no_leading_zeros() {
    assert_eq!(decimal(0), "0");
    assert_eq!(decimal(7), "7");
    assert_eq!(decimal(10), "10");
    assert_eq!(decimal(1_234_567_890), "1234567890");
    assert_eq!(decimal(usize::MAX), usize::MAX.to_string());
}

#[test]
fn optional_texts_are_borrowed_and_copied() {
    assert_eq!(opt_as_str(&None), None);
    assert_eq!(opt_as_str(&Some("x".to_string())), Some("x"));
    assert_eq!(clone_opt_string(&None), None);
    assert_eq!(clone_opt_string(&Some("x".to_string())), Some("x".to_string()));
}

#[test]
fn suffixes_are_compared_by_character() {
    assert!(ends_with("warehouses_pkey", "_pkey"));
    assert!(ends_with("abc", ""));
    assert!(ends_with("", ""));
    assert!(ends_with("abc", "abc"));
    assert!(!ends_with("abc", "xabc"));
    assert!(!ends_with("abc", "ab"));
    assert!(!ends_with("", "a"));
    assert!(ends_with("naïve café", "café"));
    assert!(!ends_with("naïve cafe", "café"));
}
