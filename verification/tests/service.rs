use warehouse::config::{Config, Environment};
use warehouse::database::{Database, DatabaseManager, PoolSettings};
use warehouse::error::AppError;
use warehouse::handlers::{
    create_warehouse, create_warehouse_at, delete_warehouse, delete_warehouse_at, get_warehouse,
    get_warehouse_at, health, list_warehouses, list_warehouses_at, root, update_warehouse,
    update_warehouse_at,
};
use warehouse::models::health::{HealthStatus, ProbeOutcome, ServiceHealth};
use warehouse::models::response::{ApiResponse, PaginationMeta, PaginationQuery};
use warehouse::models::warehouse::{CreateWarehouse, UpdateWarehouse};
use warehouse::state::AppState;
use warehouse::validation::{Field, Rule, Violation};

fn state() -> AppState {
    let env = Environment {
        database_url: Some("postgres://localhost/warehouse".to_string()),
        server_host: None,
        server_port: None,
        environment: None,
        enable_cors: None,
        enable_swagger: None,
        enable_request_logging: None,
        database_max_connections: None,
        database_min_connections: None,
        database_acquire_timeout: None,
        redis_url: None,
        redis_password: None,
        log_level: None,
        log_format: None,
        jwt_secret: None,
        api_key: None,
    };
    AppState::new(Database::new(), Config::from_env(env).unwrap())
}

fn payload(code: &str, name: &str) -> CreateWarehouse {
    CreateWarehouse {
        warehouse_code: code.to_string(),
        warehouse_name: name.to_string(),
        warehouse_type: None,
        address: None,
        city: None,
        state: None,
        postal_code: None,
        country: None,
        email: None,
        phone: None,
        manager_user_id: None,
        timezone: None,
    }
}

fn patch() -> UpdateWarehouse {
    UpdateWarehouse {
        warehouse_name: None,
        warehouse_type: None,
        address: None,
        city: None,
        state: None,
        postal_code: None,
        country: None,
        email: None,
        phone: None,
        manager_user_id: None,
        timezone: None,
    }
}

fn first_page() -> PaginationQuery {
    PaginationQuery { page: Some(1), limit: Some(20), search: None, sort_by: None, sort_order: None }
}

#[test]
fn banner_names_the_service() {
    assert_eq!(root(), "Warehouse Management System API v1.0");
}

#[test]
fn scenario_through_the_service() {
    let mut state = state();
    let created = create_warehouse(&mut state, payload("WH-01", "Central")).unwrap();
    assert!(created.success);
    assert_eq!(created.message, Some("Warehouse created successfully".to_string()));
    let record = created.data.unwrap();
    assert_eq!(record.warehouse_id, 1);
    assert_eq!(record.warehouse_code, "WH-01");
    assert_eq!(record.warehouse_name, "Central");
    assert!(record.is_active);
    assert!(record.created_at.is_some());

    let listed = list_warehouses(&state, first_page()).unwrap();
    assert!(listed.success);
    assert_eq!(listed.message, None);
    let page = listed.data.unwrap();
    assert_eq!(page.data, vec![record.clone()]);
    assert_eq!(
        page.pagination,
        PaginationMeta { total: 1, page: 1, limit: 20, total_pages: 1, has_next: false, has_prev: false }
    );

    let fetched = get_warehouse(&state, 1).unwrap();
    assert_eq!(fetched.data, Some(record));

    let deleted = delete_warehouse(&mut state, 1).unwrap();
    assert!(deleted.success);
    assert_eq!(deleted.data, Some("Warehouse deleted successfully".to_string()));
    assert_eq!(deleted.message, Some("Operation completed".to_string()));

    assert_eq!(get_warehouse(&state, 1), Err(AppError::NotFound { resource: "warehouse".to_string() }));
    assert_eq!(delete_warehouse(&mut state, 1), Err(AppError::NotFound { resource: "warehouse".to_string() }));
    assert!(list_warehouses(&state, first_page()).unwrap().data.unwrap().data.is_empty());
}

#[test]
fn create_refuses_an_invalid_payload_before_the_store() {
    let mut state = state();
    let mut bad = payload("", "Central");
    bad.email = Some("nope".to_string());
    assert_eq!(
        create_warehouse(&mut state, bad),
        Err(AppError::Validation("warehouse_code: length\nemail: email".to_string()))
    );
    assert_eq!(list_warehouses(&state, first_page()).unwrap().data.unwrap().pagination.total, 0);
    assert_eq!(create_warehouse(&mut state, payload("WH-01", "Central")).unwrap().data.unwrap().warehouse_id, 1);
}

#[test]
fn create_reports_a_conflict() {
    let mut state = state();
    create_warehouse(&mut state, payload("WH-01", "Central")).unwrap();
    assert_eq!(
        create_warehouse(&mut state, payload("WH-01", "Other")),
        Err(AppError::AlreadyExists { resource: "warehouse with this code".to_string() })
    );
}

#[test]
fn validation_comes_before_the_conflict() {
    let mut state = state();
    create_warehouse(&mut state, payload("WH-01", "Central")).unwrap();
    assert_eq!(
        create_warehouse(&mut state, payload("WH-01", "")),
        Err(AppError::Validation("warehouse_name: length".to_string()))
    );
}

#[test]
fn create_at_follows_the_verdict_it_is_given() {
    let mut state = state();
    let refused = create_warehouse_at(
        &mut state,
        payload("WH-01", "Central"),
        Err(vec![Violation { field: Field::Phone, rule: Rule::Length }]),
        10,
    );
    assert_eq!(refused, Err(AppError::Validation("phone: length".to_string())));
    let accepted = create_warehouse_at(&mut state, payload("WH-01", "Central"), Ok(()), 10).unwrap();
    assert_eq!(accepted.timestamp, 10);
    assert_eq!(accepted.data.as_ref().unwrap().created_at, Some(10));
    let empty_report = create_warehouse_at(&mut state, payload("WH-02", "North"), Err(vec![]), 11).unwrap();
    assert_eq!(empty_report.data.unwrap().warehouse_id, 2);
}

#[test]
fn update_through_the_service() {
    let mut state = state();
    let mut first = payload("WH-01", "Central");
    first.city = Some("Jakarta".to_string());
    create_warehouse_at(&mut state, first, Ok(()), 100).unwrap();

    let mut rename = patch();
    rename.warehouse_name = Some("Central Hub".to_string());
    let updated = update_warehouse_at(&mut state, 1, rename, Ok(()), 200).unwrap();
    assert!(updated.success);
    assert_eq!(updated.message, Some("Warehouse updated successfully".to_string()));
    assert_eq!(updated.timestamp, 200);
    let record = updated.data.unwrap();
    assert_eq!(record.warehouse_name, "Central Hub");
    assert_eq!(record.city, Some("Jakarta".to_string()));
    assert_eq!(record.updated_at, Some(200));
    assert_eq!(get_warehouse_at(&state, 1, 300), Ok(ApiResponse { success: true, data: Some(record), message: None, timestamp: 300 }));

    assert_eq!(update_warehouse(&mut state, 9, patch()), Err(AppError::NotFound { resource: "warehouse".to_string() }));
    let mut bad = patch();
    bad.phone = Some("1".repeat(21));
    assert_eq!(update_warehouse(&mut state, 1, bad), Err(AppError::Validation("phone: length".to_string())));
    let mut bad_and_missing = patch();
    bad_and_missing.email = Some("x".to_string());
    assert_eq!(update_warehouse(&mut state, 9, bad_and_missing), Err(AppError::Validation("email: email".to_string())));
    assert_eq!(
        update_warehouse_at(&mut state, 1, patch(), Err(vec![Violation { field: Field::Email, rule: Rule::Email }]), 400),
        Err(AppError::Validation("email: email".to_string()))
    );
    assert_eq!(get_warehouse_at(&state, 1, 500).unwrap().data.unwrap().updated_at, Some(200));
}

#[test]
fn delete_at_stamps_the_envelope() {
    let mut state = state();
    create_warehouse_at(&mut state, payload("WH-01", "Central"), Ok(()), 1).unwrap();
    assert_eq!(
        delete_warehouse_at(&mut state, 1, 2),
        Ok(ApiResponse {
            success: true,
            data: Some("Warehouse deleted successfully".to_string()),
            message: Some("Operation completed".to_string()),
            timestamp: 2,
        })
    );
    assert_eq!(delete_warehouse_at(&mut state, 1, 3), Err(AppError::NotFound { resource: "warehouse".to_string() }));
}

#[test]
fn list_at_stamps_the_envelope() {
    let mut state = state();
    create_warehouse_at(&mut state, payload("B", "b"), Ok(()), 1).unwrap();
    create_warehouse_at(&mut state, payload("A", "a"), Ok(()), 2).unwrap();
    let listed = list_warehouses_at(&state, first_page(), 99).unwrap();
    assert_eq!(listed.timestamp, 99);
    let names: Vec<String> = listed.data.unwrap().data.into_iter().map(|w| w.warehouse_name).collect();
    assert_eq!(names, vec!["a", "b"]);
}

#[test]
fn envelopes_have_one_shape() {
    assert_eq!(ApiResponse::success_at(7, 1), ApiResponse { success: true, data: Some(7), message: None, timestamp: 1 });
    assert_eq!(
        ApiResponse::success_with_message_at(7, "done".to_string(), 2),
        ApiResponse { success: true, data: Some(7), message: Some("done".to_string()), timestamp: 2 }
    );
    assert_eq!(
        ApiResponse::<i32>::error_at("failed".to_string(), 3),
        ApiResponse { success: false, data: None, message: Some("failed".to_string()), timestamp: 3 }
    );
    let now = ApiResponse::success("x");
    assert!(now.success && now.data == Some("x") && now.message.is_none());
    assert!(now.timestamp > 1_600_000_000_000_000);
    let with_message = ApiResponse::success_with_message(1u8, "m".to_string());
    assert_eq!(with_message.message, Some("m".to_string()));
    let failed = ApiResponse::<u8>::error("e".to_string());
    assert!(!failed.success && failed.data.is_none());
    assert_eq!(failed.message, Some("e".to_string()));
}

#[test]
fn health_reflects_the_probe() {
    let healthy = health(ProbeOutcome::Answered(true), 12, "1.0.0".to_string(), 5);
    assert_eq!(
        healthy,
        HealthStatus {
            status: "healthy".to_string(),
            timestamp: 5,
            version: "1.0.0".to_string(),
            services: warehouse::models::health::HealthServices {
                database: ServiceHealth { status: "healthy".to_string(), response_time_ms: Some(12), error: None },
                redis: ServiceHealth { status: "healthy".to_string(), response_time_ms: Some(1), error: None },
            },
            uptime: "unknown".to_string(),
        }
    );
    let wrong = health(ProbeOutcome::Answered(false), 3, "1.0.0".to_string(), 5);
    assert_eq!(wrong.status, "unhealthy");
    assert_eq!(
        wrong.services.database,
        ServiceHealth { status: "unhealthy".to_string(), response_time_ms: Some(3), error: Some("Database check returned false".to_string()) }
    );
    let failed = health(ProbeOutcome::Failed("connection refused".to_string()), 30_000, "1.0.0".to_string(), 5);
    assert_eq!(failed.status, "unhealthy");
    assert_eq!(
        failed.services.database,
        ServiceHealth { status: "error".to_string(), response_time_ms: Some(30_000), error: Some("connection refused".to_string()) }
    );
}

#[test]
fn health_needs_every_dependency() {
    let up = || ServiceHealth::assumed_healthy();
    let down = || ServiceHealth::from_probe(ProbeOutcome::Answered(false), 1);
    assert!(up().is_healthy());
    assert!(!down().is_healthy());
    assert_eq!(HealthStatus::assemble(up(), up(), "v".to_string(), 0).status, "healthy");
    assert_eq!(HealthStatus::assemble(down(), up(), "v".to_string(), 0).status, "unhealthy");
    assert_eq!(HealthStatus::assemble(up(), down(), "v".to_string(), 0).status, "unhealthy");
    assert_eq!(HealthStatus::assemble(down(), down(), "v".to_string(), 0).status, "unhealthy");
}

#[test]
fn probe_answer_must_be_one() {
    assert!(Database::health_check(1));
    assert!(!Database::health_check(0));
    assert!(!Database::health_check(-1));
}

#[test]
fn database_starts_empty() {
    let db = Database::new();
    assert_eq!(db.warehouses().code_exists("WH-01", None), Ok(false));
    assert_eq!(db.items().get_by_id(1), Ok(None));
}

#[test]
fn pool_settings_are_fixed() {
    assert_eq!(
        DatabaseManager::pool_settings(),
        PoolSettings {
            max_connections: 20,
            min_connections: 5,
            acquire_timeout: 30,
            idle_timeout: 600,
            max_lifetime: 3600,
            test_before_acquire: true,
        }
    );
}

#[test]
fn schema_check_reports_the_first_missing_table() {
    assert_eq!(DatabaseManager::required_tables(), vec!["warehouses", "items", "projects"]);
    assert_eq!(DatabaseManager::verify_database(&vec![Some(true), Some(true), Some(true)]), Ok(()));
    assert_eq!(
        DatabaseManager::verify_database(&vec![Some(true), Some(false), Some(false)]),
        Err(AppError::Internal("Required table 'items' does not exist".to_string()))
    );
    assert_eq!(
        DatabaseManager::verify_database(&vec![None, Some(true), Some(true)]),
        Err(AppError::Internal("Required table 'warehouses' does not exist".to_string()))
    );
    assert_eq!(
        DatabaseManager::verify_database(&vec![Some(true), Some(true), None]),
        Err(AppError::Internal("Required table 'projects' does not exist".to_string()))
    );
    assert_eq!(
        DatabaseManager::verify_database(&vec![Some(true), Some(true)]),
        Err(AppError::Internal("Required table 'projects' does not exist".to_string()))
    );
    assert_eq!(
        DatabaseManager::verify_database(&vec![]),
        Err(AppError::Internal("Required table 'warehouses' does not exist".to_string()))
    );
    assert_eq!(DatabaseManager::verify_database(&vec![Some(true), Some(true), Some(true), Some(false)]), Ok(()));
}
