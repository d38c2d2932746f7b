use warehouse::error::AppError;
use warehouse::merge::{pick, pick_required};
use warehouse::models::item::Item;
use warehouse::models::response::PaginationQuery;
use warehouse::models::warehouse::{CreateWarehouse, Warehouse};
use warehouse::repositories::items::ItemRepository;
use warehouse::repositories::table::Table;
use warehouse::repositories::warehouses::WarehouseRepository;

fn row(id: i32, code: &str, active: bool) -> Warehouse {
    Warehouse {
        warehouse_id: id,
        warehouse_code: code.to_string(),
        warehouse_name: format!("name of {code}"),
        warehouse_type: None,
        address: None,
        city: None,
        state: None,
        postal_code: None,
        country: None,
        phone: None,
        email: None,
        manager_user_id: None,
        timezone: None,
        is_active: active,
        created_at: None,
        updated_at: None,
        created_by: None,
        updated_by: None,
    }
}

fn item_row(id: i32, code: &str, status: &str) -> Item {
    Item {
        item_id: id,
        item_code: code.to_string(),
        item_name: format!("name of {code}"),
        item_description: None,
        item_type: "TOOL".to_string(),
        item_usage_type: None,
        category: None,
        subcategory: None,
        brand: None,
        model: None,
        unit: None,
        weight_kg: None,
        length_cm: None,
        width_cm: None,
        height_cm: None,
        volume_cbm: None,
        is_loanable: false,
        requires_return: false,
        max_loan_duration_days: None,
        replacement_cost: None,
        maintenance_required: false,
        calibration_required: false,
        standard_cost: None,
        last_cost: None,
        average_cost: None,
        status: status.to_string(),
        created_at: None,
        updated_at: None,
        created_by: None,
        updated_by: None,
    }
}

fn draft_for(code: &str) -> CreateWarehouse {
    CreateWarehouse {
        warehouse_code: code.to_string(),
        warehouse_name: "n".to_string(),
        warehouse_type: None,
        address: None,
        city: None,
        state: None,
        postal_code: None,
        country: None,
        email: None,
        phone: None,
        manager_user_id: None,
        timezone: None,
    }
}

fn refused() -> AppError {
    AppError::Internal("stored rows are inconsistent: warehouse".to_string())
}

fn is_refused(rows: Vec<Warehouse>) -> bool {
    match WarehouseRepository::load(rows) {
        Ok(_) => false,
        Err(e) => e == refused(),
    }
}

#[test]
fn loading_no_rows_gives_an_empty_table() {
    let mut repo = WarehouseRepository::load(vec![]).unwrap();
    assert_eq!(repo.get_by_id(1), Ok(None));
    assert_eq!(repo.create_at(draft_for("A"), 1).unwrap().warehouse_id, 1);
}

#[test]
fn loaded_rows_are_served_and_identities_continue() {
    let rows = vec![row(2, "A", true), row(5, "B", false), row(9, "C", true)];
    let mut repo = WarehouseRepository::load(rows.clone()).unwrap();
    assert_eq!(repo.get_by_id(2), Ok(Some(rows[0].clone())));
    assert_eq!(repo.get_by_id(5), Ok(None));
    assert_eq!(repo.get_by_code("C"), Ok(Some(rows[2].clone())));
    assert_eq!(repo.code_exists("B", None), Ok(false));
    let page = repo
        .list(PaginationQuery { page: None, limit: None, search: None, sort_by: None, sort_order: None })
        .unwrap();
    assert_eq!(page.data, vec![rows[0].clone(), rows[2].clone()]);
    assert_eq!(repo.create_at(draft_for("B"), 1).unwrap().warehouse_id, 10);
}

#[test]
fn retired_rows_may_share_a_code() {
    let rows = vec![row(1, "A", false), row(2, "A", false), row(3, "A", true)];
    let repo = WarehouseRepository::load(rows).unwrap();
    assert_eq!(repo.get_by_code("A").unwrap().unwrap().warehouse_id, 3);
}

#[test]
fn rows_with_bad_identities_are_refused() {
    assert!(is_refused(vec![row(0, "A", true)]));
    assert!(is_refused(vec![row(-3, "A", true)]));
    assert!(is_refused(vec![row(1, "A", true), row(1, "B", true)]));
    assert!(is_refused(vec![row(2, "A", true), row(1, "B", true)]));
    assert!(is_refused(vec![row(1, "A", false), row(3, "B", true), row(2, "C", false)]));
    assert!(!is_refused(vec![row(i32::MAX - 1, "A", true), row(i32::MAX, "B", true)]));
}

#[test]
fn rows_with_a_shared_active_code_are_refused() {
    assert!(is_refused(vec![row(1, "A", true), row(2, "A", true)]));
    assert!(is_refused(vec![row(1, "A", true), row(2, "B", true), row(3, "C", false), row(4, "A", true)]));
    assert!(!is_refused(vec![row(1, "A", true), row(2, "a", true)]));
}

#[test]
fn a_full_table_issues_no_identity() {
    let mut repo = WarehouseRepository::load(vec![row(i32::MAX, "A", true)]).unwrap();
    assert_eq!(
        repo.create_at(draft_for("B"), 1),
        Err(AppError::Database("warehouse identities are exhausted".to_string()))
    );
    assert_eq!(repo.create_at(draft_for("A"), 1), Err(AppError::already_exists("warehouse with this code")));
    assert_eq!(repo.delete_at(i32::MAX, 2), Ok(true));
}

#[test]
fn items_are_loaded_by_status() {
    let rows = vec![item_row(1, "A", "ACTIVE"), item_row(2, "A", "INACTIVE"), item_row(3, "B", "active")];
    let repo = ItemRepository::load(rows.clone()).unwrap();
    assert_eq!(repo.get_by_id(1), Ok(Some(rows[0].clone())));
    assert_eq!(repo.get_by_id(2), Ok(None));
    assert_eq!(repo.get_by_id(3), Ok(None));
    assert_eq!(
        ItemRepository::load(vec![item_row(1, "A", "ACTIVE"), item_row(2, "A", "ACTIVE")]).err(),
        Some(AppError::Internal("stored rows are inconsistent: item".to_string()))
    );
}

#[test]
fn conflicts_are_named_after_the_record() {
    assert_eq!(Table::<Warehouse>::conflict(), "warehouse with this code");
    assert_eq!(Table::<Item>::conflict(), "item with this code");
}

#[test]
fn a_change_overwrites_only_where_it_names_a_value() {
    assert_eq!(pick(Some(1), Some(2)), Some(2));
    assert_eq!(pick(Some(1), None), Some(1));
    assert_eq!(pick(None, Some(2)), Some(2));
    assert_eq!(pick::<i32>(None, None), None);
    assert_eq!(pick_required("a", Some("b")), "b");
    assert_eq!(pick_required("a", None), "a");
}
