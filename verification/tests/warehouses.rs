use warehouse::error::AppError;
use warehouse::models::response::{PaginationMeta, PaginationQuery};
use warehouse::models::warehouse::{
    CreateWarehouse, UpdateWarehouse, UpdateWarehouseRequest, Warehouse, WarehouseChanges,
};
use warehouse::repositories::warehouses::WarehouseRepository;

fn draft(code: &str, name: &str) -> CreateWarehouse {
    CreateWarehouse {
        warehouse_code: code.to_string(),
        warehouse_name: name.to_string(),
        warehouse_type: None,
        address: None,
        city: None,
        state: None,
        postal_code: None,
        country: None,
        email: None,
        phone: None,
        manager_user_id: None,
        timezone: None,
    }
}

fn no_update() -> UpdateWarehouse {
    UpdateWarehouse {
        warehouse_name: None,
        warehouse_type: None,
        address: None,
        city: None,
        state: None,
        postal_code: None,
        country: None,
        email: None,
        phone: None,
        manager_user_id: None,
        timezone: None,
    }
}

fn no_request() -> UpdateWarehouseRequest {
    UpdateWarehouseRequest {
        warehouse_code: None,
        warehouse_name: None,
        warehouse_type: None,
        address: None,
        city: None,
        state: None,
        postal_code: None,
        country: None,
        phone: None,
        email: None,
        manager_user_id: None,
        is_active: None,
    }
}

fn query(page: i64, limit: i64) -> PaginationQuery {
    PaginationQuery { page: Some(page), limit: Some(limit), search: None, sort_by: None, sort_order: None }
}

fn names(records: &[Warehouse]) -> Vec<String> {
    records.iter().map(|w| w.warehouse_name.clone()).collect()
}

fn seeded(entries: &[(&str, &str, Option<&str>)]) -> WarehouseRepository {
    let mut repo = WarehouseRepository::new();
    let mut now = 1_000;
    for (code, name, city) in entries {
        let mut payload = draft(code, name);
        payload.city = city.map(|c| c.to_string());
        repo.create_at(payload, now).unwrap();
        now += 1_000;
    }
    repo
}

#[test]
fn lifecycle_of_one_warehouse() {
    let mut repo = WarehouseRepository::new();
    let created = repo.create(draft("WH-01", "Central")).unwrap();
    assert_eq!(created.warehouse_id, 1);
    assert_eq!(created.warehouse_code, "WH-01");
    assert_eq!(created.warehouse_name, "Central");
    assert!(created.is_active);

    let page = repo.list(query(1, 20)).unwrap();
    assert_eq!(page.data.len(), 1);
    assert_eq!(page.data[0].warehouse_id, 1);
    assert_eq!(
        page.pagination,
        PaginationMeta { total: 1, page: 1, limit: 20, total_pages: 1, has_next: false, has_prev: false }
    );

    assert_eq!(repo.delete(1), Ok(true));
    assert_eq!(repo.get_by_id(1), Ok(None));
}

#[test]
fn created_record_round_trips() {
    let mut repo = WarehouseRepository::new();
    let payload = CreateWarehouse {
        warehouse_code: "WH-07".to_string(),
        warehouse_name: "Harbour".to_string(),
        warehouse_type: Some("COLD".to_string()),
        address: Some("Jl. Pelabuhan 7".to_string()),
        city: Some("Surabaya".to_string()),
        state: Some("East Java".to_string()),
        postal_code: Some("60111".to_string()),
        country: Some("Singapore".to_string()),
        email: Some("harbour@example.com".to_string()),
        phone: Some("+62 31 555".to_string()),
        manager_user_id: Some(42),
        timezone: Some("Asia/Singapore".to_string()),
    };
    let created = repo.create_at(payload.clone(), 1_700_000_000_000_000).unwrap();
    let fetched = repo.get_by_id(created.warehouse_id).unwrap().unwrap();
    assert_eq!(fetched, created);
    assert_eq!(
        fetched,
        Warehouse {
            warehouse_id: 1,
            warehouse_code: "WH-07".to_string(),
            warehouse_name: "Harbour".to_string(),
            warehouse_type: Some("COLD".to_string()),
            address: Some("Jl. Pelabuhan 7".to_string()),
            city: Some("Surabaya".to_string()),
            state: Some("East Java".to_string()),
            postal_code: Some("60111".to_string()),
            country: Some("Singapore".to_string()),
            phone: Some("+62 31 555".to_string()),
            email: Some("harbour@example.com".to_string()),
            manager_user_id: Some(42),
            timezone: Some("Asia/Singapore".to_string()),
            is_active: true,
            created_at: Some(1_700_000_000_000_000),
            updated_at: Some(1_700_000_000_000_000),
            created_by: Some(1),
            updated_by: None,
        }
    );
}

#[test]
fn creation_fills_country_and_timezone() {
    let mut repo = WarehouseRepository::new();
    let created = repo.create_at(draft("WH-01", "Central"), 5).unwrap();
    assert_eq!(created.country, Some("Indonesia".to_string()));
    assert_eq!(created.timezone, Some("Asia/Jakarta".to_string()));
}

#[test]
fn identities_are_issued_in_order_and_never_reused() {
    let mut repo = WarehouseRepository::new();
    assert_eq!(repo.create_at(draft("A", "a"), 1).unwrap().warehouse_id, 1);
    assert_eq!(repo.create_at(draft("B", "b"), 2).unwrap().warehouse_id, 2);
    assert_eq!(repo.delete_at(2, 3), Ok(true));
    assert_eq!(repo.create_at(draft("C", "c"), 4).unwrap().warehouse_id, 3);
    assert_eq!(repo.create_at(draft("A", "again"), 5), Err(AppError::already_exists("warehouse with this code")));
    assert_eq!(repo.create_at(draft("D", "d"), 6).unwrap().warehouse_id, 4);
}

#[test]
fn second_create_with_same_code_conflicts() {
    let mut repo = WarehouseRepository::new();
    repo.create_at(draft("WH-01", "Central"), 1).unwrap();
    let second = repo.create_at(draft("WH-01", "Other"), 2);
    assert_eq!(second, Err(AppError::AlreadyExists { resource: "warehouse with this code".to_string() }));
    assert_eq!(repo.list(query(1, 20)).unwrap().pagination.total, 1);
    assert_eq!(repo.get_by_code("WH-01").unwrap().unwrap().warehouse_name, "Central");
}

#[test]
fn codes_differ_by_letter_case() {
    let mut repo = WarehouseRepository::new();
    repo.create_at(draft("wh-01", "lower"), 1).unwrap();
    assert_eq!(repo.create_at(draft("WH-01", "upper"), 2).unwrap().warehouse_id, 2);
}

#[test]
fn delete_twice_affects_once() {
    let mut repo = WarehouseRepository::new();
    repo.create_at(draft("WH-01", "Central"), 1).unwrap();
    assert_eq!(repo.delete_at(1, 2), Ok(true));
    assert_eq!(repo.delete_at(1, 3), Ok(false));
    assert_eq!(repo.get_by_id(1), Ok(None));
    assert_eq!(repo.get_by_code("WH-01"), Ok(None));
    assert!(repo.list(query(1, 20)).unwrap().data.is_empty());
    assert_eq!(repo.code_exists("WH-01", None), Ok(false));
}

#[test]
fn delete_of_unknown_identity_affects_nothing() {
    let mut repo = WarehouseRepository::new();
    repo.create_at(draft("WH-01", "Central"), 1).unwrap();
    assert_eq!(repo.delete_at(2, 2), Ok(false));
    assert_eq!(repo.delete_at(0, 2), Ok(false));
    assert_eq!(repo.delete_at(-1, 2), Ok(false));
    assert_eq!(repo.list(query(1, 20)).unwrap().pagination.total, 1);
}

#[test]
fn code_of_retired_record_can_be_reused() {
    let mut repo = WarehouseRepository::new();
    repo.create_at(draft("WH-01", "Central"), 1).unwrap();
    repo.delete_at(1, 2).unwrap();
    let again = repo.create_at(draft("WH-01", "Reborn"), 3).unwrap();
    assert_eq!(again.warehouse_id, 2);
    assert_eq!(repo.get_by_code("WH-01").unwrap().unwrap().warehouse_name, "Reborn");
    assert_eq!(repo.get_by_id(1), Ok(None));
}

#[test]
fn code_exists_respects_exclusion() {
    let mut repo = WarehouseRepository::new();
    repo.create_at(draft("WH-01", "Central"), 1).unwrap();
    repo.create_at(draft("WH-02", "North"), 2).unwrap();
    assert_eq!(repo.code_exists("WH-01", None), Ok(true));
    assert_eq!(repo.code_exists("WH-01", Some(1)), Ok(false));
    assert_eq!(repo.code_exists("WH-01", Some(2)), Ok(true));
    assert_eq!(repo.code_exists("WH-03", None), Ok(false));
    assert_eq!(repo.code_exists("", None), Ok(false));
}

#[test]
fn partial_update_keeps_omitted_fields() {
    let mut repo = WarehouseRepository::new();
    let mut payload = draft("WH-01", "Central");
    payload.city = Some("Jakarta".to_string());
    payload.phone = Some("021".to_string());
    let created = repo.create_at(payload, 100).unwrap();

    let mut patch = no_update();
    patch.warehouse_name = Some("Central Hub".to_string());
    let updated = repo.apply_at(1, patch.into_changes(), 200).unwrap().unwrap();

    assert_eq!(updated.warehouse_name, "Central Hub");
    assert_eq!(updated.city, Some("Jakarta".to_string()));
    assert_eq!(updated.phone, Some("021".to_string()));
    assert_eq!(updated.warehouse_code, "WH-01");
    assert_eq!(updated.created_at, Some(100));
    assert_eq!(updated.updated_at, Some(200));
    assert_eq!(updated.updated_by, Some(1));
    assert_eq!(updated.created_by, created.created_by);
    assert_eq!(repo.get_by_id(1).unwrap().unwrap(), updated);
}

#[test]
fn empty_update_still_refreshes_the_stamp() {
    let mut repo = WarehouseRepository::new();
    let created = repo.create_at(draft("WH-01", "Central"), 100).unwrap();
    let updated = repo.apply_at(1, no_update().into_changes(), 250).unwrap().unwrap();
    assert_eq!(updated, Warehouse { updated_at: Some(250), updated_by: Some(1), ..created });
}

#[test]
fn update_overwrites_every_named_field() {
    let mut repo = WarehouseRepository::new();
    repo.create_at(draft("WH-01", "Central"), 100).unwrap();
    let patch = UpdateWarehouse {
        warehouse_name: Some("n".to_string()),
        warehouse_type: Some("t".to_string()),
        address: Some("a".to_string()),
        city: Some("c".to_string()),
        state: Some("s".to_string()),
        postal_code: Some("p".to_string()),
        country: Some("k".to_string()),
        email: Some("e".to_string()),
        phone: Some("f".to_string()),
        manager_user_id: Some(9),
        timezone: Some("z".to_string()),
    };
    let updated = repo.apply_at(1, patch.into_changes(), 300).unwrap().unwrap();
    assert_eq!(
        updated,
        Warehouse {
            warehouse_id: 1,
            warehouse_code: "WH-01".to_string(),
            warehouse_name: "n".to_string(),
            warehouse_type: Some("t".to_string()),
            address: Some("a".to_string()),
            city: Some("c".to_string()),
            state: Some("s".to_string()),
            postal_code: Some("p".to_string()),
            country: Some("k".to_string()),
            phone: Some("f".to_string()),
            email: Some("e".to_string()),
            manager_user_id: Some(9),
            timezone: Some("z".to_string()),
            is_active: true,
            created_at: Some(100),
            updated_at: Some(300),
            created_by: Some(1),
            updated_by: Some(1),
        }
    );
}

#[test]
fn update_of_missing_or_retired_record_is_none() {
    let mut repo = WarehouseRepository::new();
    repo.create_at(draft("WH-01", "Central"), 1).unwrap();
    assert_eq!(repo.update(7, no_update()), Ok(None));
    repo.delete_at(1, 2).unwrap();
    let mut patch = no_update();
    patch.city = Some("Bandung".to_string());
    assert_eq!(repo.apply_at(1, patch.into_changes(), 3), Ok(None));
}

#[test]
fn update_to_code_of_another_record_conflicts() {
    let mut repo = WarehouseRepository::new();
    repo.create_at(draft("WH-01", "Central"), 1).unwrap();
    let second = repo.create_at(draft("WH-02", "North"), 2).unwrap();
    let mut request = no_request();
    request.warehouse_code = Some("WH-01".to_string());
    request.city = Some("Medan".to_string());
    assert_eq!(
        repo.apply_at(2, request.into_changes(), 3),
        Err(AppError::AlreadyExists { resource: "warehouse with this code".to_string() })
    );
    assert_eq!(repo.get_by_id(2).unwrap().unwrap(), second);
}

#[test]
fn update_to_own_code_succeeds() {
    let mut repo = WarehouseRepository::new();
    repo.create_at(draft("WH-01", "Central"), 1).unwrap();
    let mut request = no_request();
    request.warehouse_code = Some("WH-01".to_string());
    request.warehouse_name = Some("Renamed".to_string());
    let updated = repo.apply_at(1, request.into_changes(), 2).unwrap().unwrap();
    assert_eq!(updated.warehouse_code, "WH-01");
    assert_eq!(updated.warehouse_name, "Renamed");
}

#[test]
fn update_can_move_to_a_free_or_retired_code() {
    let mut repo = WarehouseRepository::new();
    repo.create_at(draft("WH-01", "Central"), 1).unwrap();
    repo.create_at(draft("WH-02", "North"), 2).unwrap();
    repo.delete_at(1, 3).unwrap();
    let mut request = no_request();
    request.warehouse_code = Some("WH-01".to_string());
    let moved = repo.update_request(2, request).unwrap().unwrap();
    assert_eq!(moved.warehouse_code, "WH-01");
    assert_eq!(repo.code_exists("WH-02", None), Ok(false));
    assert_eq!(repo.get_by_code("WH-01").unwrap().unwrap().warehouse_id, 2);
}

#[test]
fn update_request_can_retire_a_record() {
    let mut repo = WarehouseRepository::new();
    repo.create_at(draft("WH-01", "Central"), 1).unwrap();
    let mut request = no_request();
    request.is_active = Some(false);
    let retired = repo.apply_at(1, request.into_changes(), 2).unwrap().unwrap();
    assert!(!retired.is_active);
    assert_eq!(repo.get_by_id(1), Ok(None));
    assert_eq!(repo.delete_at(1, 3), Ok(false));
}

#[test]
fn changes_of_both_payloads_leave_the_rest_absent() {
    let mut update = no_update();
    update.timezone = Some("UTC".to_string());
    let changes = update.into_changes();
    assert_eq!(changes.timezone, Some("UTC".to_string()));
    assert_eq!(changes.warehouse_code, None);
    assert_eq!(changes.is_active, None);

    let mut request = no_request();
    request.warehouse_code = Some("X".to_string());
    request.is_active = Some(true);
    assert_eq!(
        request.into_changes(),
        WarehouseChanges {
            warehouse_code: Some("X".to_string()),
            warehouse_name: None,
            warehouse_type: None,
            address: None,
            city: None,
            state: None,
            postal_code: None,
            country: None,
            phone: None,
            email: None,
            manager_user_id: None,
            timezone: None,
            is_active: Some(true),
        }
    );
}

#[test]
fn get_by_code_finds_only_active_records() {
    let mut repo = WarehouseRepository::new();
    repo.create_at(draft("WH-01", "Central"), 1).unwrap();
    assert_eq!(repo.get_by_code("WH-01").unwrap().unwrap().warehouse_id, 1);
    assert_eq!(repo.get_by_code("WH-02"), Ok(None));
    repo.delete_at(1, 2).unwrap();
    assert_eq!(repo.get_by_code("WH-01"), Ok(None));
}

#[test]
fn list_of_empty_table_is_empty() {
    let repo = WarehouseRepository::new();
    let page = repo.list(query(1, 20)).unwrap();
    assert!(page.data.is_empty());
    assert_eq!(
        page.pagination,
        PaginationMeta { total: 0, page: 1, limit: 20, total_pages: 0, has_next: false, has_prev: false }
    );
}

#[test]
fn list_sorts_by_name_by_default() {
    let repo = seeded(&[("C", "Charlie", None), ("A", "alpha", None), ("B", "Bravo", None), ("D", "Alpha", None)]);
    let page = repo.list(PaginationQuery { page: None, limit: None, search: None, sort_by: None, sort_order: None }).unwrap();
    assert_eq!(names(&page.data), vec!["Alpha", "Bravo", "Charlie", "alpha"]);
    assert_eq!(page.pagination.limit, 20);
    assert_eq!(page.pagination.page, 1);
}

#[test]
fn list_sorts_by_requested_column_and_direction() {
    let repo = seeded(&[("C", "one", None), ("A", "two", None), ("B", "three", None)]);
    let by_code = repo
        .list(PaginationQuery { page: None, limit: None, search: None, sort_by: Some("code".to_string()), sort_order: None })
        .unwrap();
    assert_eq!(names(&by_code.data), vec!["two", "three", "one"]);
    let by_code_desc = repo
        .list(PaginationQuery {
            page: None,
            limit: None,
            search: None,
            sort_by: Some("code".to_string()),
            sort_order: Some("desc".to_string()),
        })
        .unwrap();
    assert_eq!(names(&by_code_desc.data), vec!["one", "three", "two"]);
    let newest_first = repo
        .list(PaginationQuery {
            page: None,
            limit: None,
            search: None,
            sort_by: Some("created_at".to_string()),
            sort_order: Some("DESC".to_string()),
        })
        .unwrap();
    assert_eq!(names(&newest_first.data), vec!["three", "two", "one"]);
}

#[test]
fn list_falls_back_on_unknown_sort_input() {
    let repo = seeded(&[("C", "b", None), ("A", "c", None), ("B", "a", None)]);
    let page = repo
        .list(PaginationQuery {
            page: None,
            limit: None,
            search: None,
            sort_by: Some("postal_code".to_string()),
            sort_order: Some("Descending".to_string()),
        })
        .unwrap();
    assert_eq!(names(&page.data), vec!["a", "b", "c"]);
}

#[test]
fn list_keeps_creation_order_among_equal_keys() {
    let mut repo = seeded(&[("C", "same", None), ("A", "same", None), ("B", "same", None)]);
    let page = repo.list(query(1, 20)).unwrap();
    let ids: Vec<i32> = page.data.iter().map(|w| w.warehouse_id).collect();
    assert_eq!(ids, vec![1, 2, 3]);
    let mut patch = no_update();
    patch.city = Some("x".to_string());
    repo.apply_at(1, patch.into_changes(), 9_000).unwrap();
    let by_update = repo
        .list(PaginationQuery { page: None, limit: None, search: None, sort_by: Some("updated_at".to_string()), sort_order: None })
        .unwrap();
    let ids: Vec<i32> = by_update.data.iter().map(|w| w.warehouse_id).collect();
    assert_eq!(ids, vec![2, 3, 1]);
}

#[test]
fn list_cuts_pages() {
    let repo = seeded(&[("1", "a", None), ("2", "b", None), ("3", "c", None), ("4", "d", None), ("5", "e", None)]);
    let first = repo.list(query(1, 2)).unwrap();
    assert_eq!(names(&first.data), vec!["a", "b"]);
    assert_eq!(
        first.pagination,
        PaginationMeta { total: 5, page: 1, limit: 2, total_pages: 3, has_next: true, has_prev: false }
    );
    let second = repo.list(query(2, 2)).unwrap();
    assert_eq!(names(&second.data), vec!["c", "d"]);
    assert!(second.pagination.has_next && second.pagination.has_prev);
    let third = repo.list(query(3, 2)).unwrap();
    assert_eq!(names(&third.data), vec!["e"]);
    assert!(!third.pagination.has_next && third.pagination.has_prev);
    let beyond = repo.list(query(4, 2)).unwrap();
    assert!(beyond.data.is_empty());
    assert_eq!(beyond.pagination.total, 5);
    let far = repo.list(query(i64::MAX, 100)).unwrap();
    assert!(far.data.is_empty());
    assert_eq!(far.pagination.page, i64::MAX);
}

#[test]
fn list_clamps_page_and_limit() {
    let repo = seeded(&[("1", "a", None), ("2", "b", None), ("3", "c", None)]);
    let low = repo.list(query(0, 0)).unwrap();
    assert_eq!(names(&low.data), vec!["a"]);
    assert_eq!(
        low.pagination,
        PaginationMeta { total: 3, page: 1, limit: 1, total_pages: 3, has_next: true, has_prev: false }
    );
    let negative = repo.list(query(-3, -3)).unwrap();
    assert_eq!(names(&negative.data), vec!["a"]);
    let high = repo.list(query(1, 5_000)).unwrap();
    assert_eq!(high.data.len(), 3);
    assert_eq!(high.pagination.limit, 100);
}

#[test]
fn list_caps_a_page_at_one_hundred() {
    let mut repo = WarehouseRepository::new();
    for i in 0..130 {
        repo.create_at(draft(&format!("WH-{:03}", i), &format!("n{:03}", i)), i).unwrap();
    }
    let page = repo.list(query(1, 1_000)).unwrap();
    assert_eq!(page.data.len(), 100);
    assert_eq!(page.data[99].warehouse_name, "n099");
    assert_eq!(
        page.pagination,
        PaginationMeta { total: 130, page: 1, limit: 100, total_pages: 2, has_next: true, has_prev: false }
    );
    let rest = repo.list(query(2, 1_000)).unwrap();
    assert_eq!(rest.data.len(), 30);
    assert_eq!(rest.data[0].warehouse_name, "n100");
}

#[test]
fn list_searches_code_name_and_city_whatever_the_case() {
    let repo = seeded(&[
        ("JKT-1", "Central", Some("Jakarta")),
        ("SBY-1", "Harbour", Some("Surabaya")),
        ("BDG-1", "Jakarta Annex", Some("Bandung")),
        ("MDN-1", "North", None),
    ]);
    let search = |term: &str| {
        let page = repo
            .list(PaginationQuery { page: None, limit: None, search: Some(term.to_string()), sort_by: Some("code".to_string()), sort_order: None })
            .unwrap();
        (page.data.iter().map(|w| w.warehouse_code.clone()).collect::<Vec<_>>(), page.pagination.total)
    };
    assert_eq!(search("jakarta"), (vec!["BDG-1".to_string(), "JKT-1".to_string()], 2));
    assert_eq!(search("  JAKARTA \n"), (vec!["BDG-1".to_string(), "JKT-1".to_string()], 2));
    assert_eq!(search("sby"), (vec!["SBY-1".to_string()], 1));
    assert_eq!(search("-1"), (vec!["BDG-1".to_string(), "JKT-1".to_string(), "MDN-1".to_string(), "SBY-1".to_string()], 4));
    assert_eq!(search("nothing"), (vec![], 0));
    assert_eq!(search("   "), (vec!["BDG-1".to_string(), "JKT-1".to_string(), "MDN-1".to_string(), "SBY-1".to_string()], 4));
    assert_eq!(search("%"), (vec![], 0));
}

#[test]
fn list_leaves_out_retired_records() {
    let mut repo = seeded(&[("1", "a", None), ("2", "b", None), ("3", "c", None)]);
    repo.delete_at(2, 10_000).unwrap();
    let page = repo.list(query(1, 20)).unwrap();
    assert_eq!(names(&page.data), vec!["a", "c"]);
    assert_eq!(page.pagination.total, 2);
}
