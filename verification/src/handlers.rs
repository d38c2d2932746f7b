//! The operations of the service: what each request does to the stores and
//! what it answers, from validation to the response envelope.

use crate::clock::now_micros;
use crate::error::{AppError, AppResult};
use crate::models::health::{
    HealthStatus, ProbeOutcome, ServiceHealth, ERROR, HEALTHY, UNHEALTHY, UPTIME_UNKNOWN,
};
use crate::models::response::{ApiResponse, PaginatedResponse, PaginationQuery};
use crate::models::warehouse::{
    CreateWarehouse, CreateWarehouseView, UpdateWarehouse, UpdateWarehouseView, Warehouse,
    WarehouseChanges, WarehouseView,
};
use crate::repositories::sorting::SortColumn;
use crate::repositories::table::{
    create_outcome, delete_outcome, list_outcome, lookup_id, update_outcome, SYSTEM_USER,
};
use crate::state::AppState;
use crate::validation::{describe, described, email_verdict, lemma_reported, reported, Violation};
use vstd::prelude::*;

verus! {

/// What the service says of itself at its root.
pub const BANNER: &'static str = "Warehouse Management System API v1.0";

/// How a missing warehouse is named.
pub const WAREHOUSE: &'static str = "warehouse";

/// The message of a successful creation.
pub const CREATED: &'static str = "Warehouse created successfully";

/// The message of a successful update.
pub const UPDATED: &'static str = "Warehouse updated successfully";

/// The confirmation of a successful deletion.
pub const DELETED: &'static str = "Warehouse deleted successfully";

/// The message of a successful deletion.
pub const COMPLETED: &'static str = "Operation completed";

/// Whether `result` refuses a payload for the violations found in it.
pub open spec fn refused_for<T>(result: AppResult<T>, violations: Seq<Violation>) -> bool {
    result matches Err(AppError::Validation(msg)) && msg@ == described(
        violations,
        violations.len(),
    )
}

/// Whether `result` reports that no warehouse was found.
pub open spec fn not_found<T>(result: AppResult<T>) -> bool {
    result matches Err(AppError::NotFound { resource }) && resource@ == WAREHOUSE@
}

/// What creating a warehouse does and answers, given the violations found
/// in the payload: with any, the payload is refused and nothing changes;
/// with none, the repository's outcome, a record wrapped in a success
/// envelope with its message.
pub open spec fn create_response(
    before: Seq<WarehouseView>,
    issued_before: i32,
    payload: CreateWarehouseView,
    violations: Seq<Violation>,
    now: i64,
    result: AppResult<ApiResponse<Warehouse>>,
    after: Seq<WarehouseView>,
    issued_after: i32,
) -> bool {
    if violations.len() > 0 {
        refused_for(result, violations) && after == before && issued_after == issued_before
    } else {
        match result {
            Ok(response) => {
                &&& response.success
                &&& response.data matches Some(record)
                &&& response.message matches Some(m)
                &&& m@ == CREATED@
                &&& response.timestamp == now
                &&& create_outcome::<Warehouse, CreateWarehouse>(
                    before,
                    issued_before,
                    payload,
                    now,
                    SYSTEM_USER,
                    Ok(record),
                    after,
                    issued_after,
                )
            },
            Err(e) => create_outcome::<Warehouse, CreateWarehouse>(
                before,
                issued_before,
                payload,
                now,
                SYSTEM_USER,
                Err(e),
                after,
                issued_after,
            ),
        }
    }
}

/// What updating the warehouse `id` does and answers, given the violations
/// found in the payload: with any, the payload is refused and nothing
/// changes; with none, the merged record in a success envelope with its
/// message, or not-found where no active record has the identity.
pub open spec fn update_response(
    before: Seq<WarehouseView>,
    id: i32,
    payload: UpdateWarehouseView,
    violations: Seq<Violation>,
    now: i64,
    result: AppResult<ApiResponse<Warehouse>>,
    after: Seq<WarehouseView>,
) -> bool {
    if violations.len() > 0 {
        refused_for(result, violations) && after == before
    } else {
        match result {
            Ok(response) => {
                &&& response.success
                &&& response.data matches Some(record)
                &&& response.message matches Some(m)
                &&& m@ == UPDATED@
                &&& response.timestamp == now
                &&& update_outcome::<Warehouse, WarehouseChanges>(
                    before,
                    id,
                    payload.changes(),
                    now,
                    SYSTEM_USER,
                    Ok(Some(record)),
                    after,
                )
            },
            Err(e) => not_found::<()>(Err(e)) && update_outcome::<Warehouse, WarehouseChanges>(
                before,
                id,
                payload.changes(),
                now,
                SYSTEM_USER,
                Ok(None),
                after,
            ),
        }
    }
}

/// What deleting the warehouse `id` does and answers: a confirmation in a
/// success envelope where an active record was retired, not-found where
/// there was none.
pub open spec fn delete_response(
    before: Seq<WarehouseView>,
    id: i32,
    now: i64,
    result: AppResult<ApiResponse<String>>,
    after: Seq<WarehouseView>,
) -> bool {
    match result {
        Ok(response) => {
            &&& response.success
            &&& response.data matches Some(confirmation)
            &&& confirmation@ == DELETED@
            &&& response.message matches Some(m)
            &&& m@ == COMPLETED@
            &&& response.timestamp == now
            &&& delete_outcome::<Warehouse>(before, id, now, SYSTEM_USER, Ok(true), after)
        },
        Err(e) => not_found::<()>(Err(e)) && delete_outcome::<Warehouse>(
            before,
            id,
            now,
            SYSTEM_USER,
            Ok(false),
            after,
        ),
    }
}

/// What listing warehouses answers: the page the query obtains and its
/// figures, in a success envelope without a message.
pub open spec fn list_response(
    rows: Seq<WarehouseView>,
    query: PaginationQuery,
    result: AppResult<ApiResponse<PaginatedResponse<Warehouse>>>,
) -> bool {
    &&& result matches Ok(response)
    &&& response.success
    &&& response.message is None
    &&& response.data matches Some(page)
    &&& list_outcome::<Warehouse>(rows, query, SortColumn::Name, Ok(page))
}

/// What getting the warehouse `id` answers: the active record in a success
/// envelope without a message, or not-found where there is none.
pub open spec fn get_response(
    rows: Seq<WarehouseView>,
    id: i32,
    result: AppResult<ApiResponse<Warehouse>>,
) -> bool {
    match lookup_id::<Warehouse>(rows, id) {
        Some(record) => {
            &&& result matches Ok(response)
            &&& response.success
            &&& response.message is None
            &&& response.data matches Some(found)
            &&& found@ == record
        },
        None => not_found(result),
    }
}

/// Whether a response, if it is a success, carries the time stamp `now`.
pub open spec fn stamped<T>(result: AppResult<ApiResponse<T>>, now: i64) -> bool {
    result matches Ok(response) ==> response.timestamp == now
}

/// The banner of the service.
pub fn root() -> (banner: &'static str)
    ensures
        banner@ == BANNER@,
{
    BANNER
}

/// Whether `report` is the liveness report for the outcome of the database
/// probe, which took `elapsed_ms`: the database shows what the probe found,
/// the cache is taken to be healthy, and the service is healthy exactly when
/// the probe got the right answer.
pub open spec fn health_report(
    probe: ProbeOutcome,
    elapsed_ms: u64,
    version: String,
    timestamp: i64,
    report: HealthStatus,
) -> bool {
    &&& report.status@ == (if probe == ProbeOutcome::Answered(true) {
        HEALTHY@
    } else {
        UNHEALTHY@
    })
    &&& report.timestamp == timestamp
    &&& report.version == version
    &&& report.services.database.shows(probe, elapsed_ms)
    &&& report.services.database.error is Some <==> probe != ProbeOutcome::Answered(true)
    &&& report.services.redis.is_assumed_healthy()
    &&& report.uptime@ == UPTIME_UNKNOWN@
}

/// The liveness report for the outcome of the database probe, which took
/// `elapsed_ms`. The cache is taken to be healthy. The report never fails:
/// a dependency in trouble shows in it, with its status and its error.
pub fn health(probe: ProbeOutcome, elapsed_ms: u64, version: String, timestamp: i64) -> (report: HealthStatus)
    ensures
        health_report(probe, elapsed_ms, version, timestamp, report),
{
    let database = ServiceHealth::from_probe(probe, elapsed_ms);
    let redis = ServiceHealth::assumed_healthy();
    assert(database.status@ == HEALTHY@ <==> probe == ProbeOutcome::Answered(true)) by {
        reveal_strlit("healthy");
        reveal_strlit("unhealthy");
        reveal_strlit("error");
        assert(HEALTHY@.len() != UNHEALTHY@.len());
        assert(HEALTHY@.len() != ERROR@.len());
    }
    HealthStatus::assemble(database, redis, version, timestamp)
}

/// Lists warehouses at time `now`.
pub fn list_warehouses_at(state: &AppState, pagination: PaginationQuery, now: i64) -> (result: AppResult<
    ApiResponse<PaginatedResponse<Warehouse>>,
>)
    requires
        state.wf(),
    ensures
        list_response(state.db.warehouses@, pagination, result),
        stamped(result, now),
{
    match state.db.warehouses.list(pagination) {
        Ok(page) => Ok(ApiResponse::success_at(page, now)),
        Err(e) => Err(e),
    }
}

/// Gets the warehouse `id` at time `now`: the active record in a success
/// envelope, or not-found.
pub fn get_warehouse_at(state: &AppState, id: i32, now: i64) -> (result: AppResult<ApiResponse<Warehouse>>)
    requires
        state.wf(),
    ensures
        get_response(state.db.warehouses@, id, result),
        stamped(result, now),
{
    match state.db.warehouses.get_by_id(id) {
        Ok(Some(warehouse)) => Ok(ApiResponse::success_at(warehouse, now)),
        Ok(None) => Err(AppError::not_found(WAREHOUSE)),
        Err(e) => Err(e),
    }
}

/// Creates a warehouse at time `now`, given what validating the payload
/// returned.
pub fn create_warehouse_at(
    state: &mut AppState,
    payload: CreateWarehouse,
    checked: Result<(), Vec<Violation>>,
    now: i64,
) -> (result: AppResult<ApiResponse<Warehouse>>)
    requires
        old(state).wf(),
    ensures
        final(state).wf(),
        final(state).config == old(state).config,
        final(state).db.items == old(state).db.items,
        create_response(
            old(state).db.warehouses@,
            old(state).db.warehouses.issued(),
            payload@,
            reported(checked),
            now,
            result,
            final(state).db.warehouses@,
            final(state).db.warehouses.issued(),
        ),
{
    if let Err(found) = &checked {
        if found.len() > 0 {
            return Err(AppError::Validation(describe(found)));
        }
    }
    match state.db.warehouses.create_at(payload, now) {
        Ok(record) => Ok(
            ApiResponse::success_with_message_at(record, String::from_str(CREATED), now),
        ),
        Err(e) => Err(e),
    }
}

/// Updates the warehouse `id` at time `now`, given what validating the
/// payload returned.
pub fn update_warehouse_at(
    state: &mut AppState,
    id: i32,
    payload: UpdateWarehouse,
    checked: Result<(), Vec<Violation>>,
    now: i64,
) -> (result: AppResult<ApiResponse<Warehouse>>)
    requires
        old(state).wf(),
    ensures
        final(state).wf(),
        final(state).config == old(state).config,
        final(state).db.items == old(state).db.items,
        final(state).db.warehouses.issued() == old(state).db.warehouses.issued(),
        update_response(
            old(state).db.warehouses@,
            id,
            payload@,
            reported(checked),
            now,
            result,
            final(state).db.warehouses@,
        ),
{
    if let Err(found) = &checked {
        if found.len() > 0 {
            return Err(AppError::Validation(describe(found)));
        }
    }
    match state.db.warehouses.apply_at(id, payload.into_changes(), now) {
        Ok(Some(record)) => Ok(
            ApiResponse::success_with_message_at(record, String::from_str(UPDATED), now),
        ),
        Ok(None) => Err(AppError::not_found(WAREHOUSE)),
        Err(e) => Err(e),
    }
}

/// Deletes the warehouse `id` at time `now`.
pub fn delete_warehouse_at(state: &mut AppState, id: i32, now: i64) -> (result: AppResult<
    ApiResponse<String>,
>)
    requires
        old(state).wf(),
    ensures
        final(state).wf(),
        final(state).config == old(state).config,
        final(state).db.items == old(state).db.items,
        final(state).db.warehouses.issued() == old(state).db.warehouses.issued(),
        delete_response(old(state).db.warehouses@, id, now, result, final(state).db.warehouses@),
{
    match state.db.warehouses.delete_at(id, now) {
        Ok(true) => Ok(
            ApiResponse::success_with_message_at(
                String::from_str(DELETED),
                String::from_str(COMPLETED),
                now,
            ),
        ),
        Ok(false) => Err(AppError::not_found(WAREHOUSE)),
        Err(e) => Err(e),
    }
}

/// Lists warehouses.
pub fn list_warehouses(state: &AppState, pagination: PaginationQuery) -> (result: AppResult<
    ApiResponse<PaginatedResponse<Warehouse>>,
>)
    requires
        state.wf(),
    ensures
        list_response(state.db.warehouses@, pagination, result),
{
    list_warehouses_at(state, pagination, now_micros())
}

/// Gets the warehouse `id`: the active record in a success envelope, or
/// not-found.
pub fn get_warehouse(state: &AppState, id: i32) -> (result: AppResult<ApiResponse<Warehouse>>)
    requires
        state.wf(),
    ensures
        get_response(state.db.warehouses@, id, result),
{
    get_warehouse_at(state, id, now_micros())
}

/// Creates a warehouse: the payload is validated, then stored unless an
/// active record holds its code.
pub fn create_warehouse(state: &mut AppState, payload: CreateWarehouse) -> (result: AppResult<
    ApiResponse<Warehouse>,
>)
    requires
        old(state).wf(),
    ensures
        final(state).wf(),
        final(state).config == old(state).config,
        final(state).db.items == old(state).db.items,
        exists|now: i64|
            create_response(
                old(state).db.warehouses@,
                old(state).db.warehouses.issued(),
                payload@,
                payload@.violations(email_verdict(payload@.email)),
                now,
                result,
                final(state).db.warehouses@,
                final(state).db.warehouses.issued(),
            ),
{
    let checked = payload.validate();
    proof {
        lemma_reported(checked, payload@.violations(email_verdict(payload@.email)));
    }
    let now = now_micros();
    let result = create_warehouse_at(state, payload, checked, now);
    assert(create_response(
        old(state).db.warehouses@,
        old(state).db.warehouses.issued(),
        payload@,
        payload@.violations(email_verdict(payload@.email)),
        now,
        result,
        state.db.warehouses@,
        state.db.warehouses.issued(),
    ));
    result
}

/// Updates the warehouse `id`: the payload is validated, then merged into
/// the active record.
pub fn update_warehouse(state: &mut AppState, id: i32, payload: UpdateWarehouse) -> (result: AppResult<
    ApiResponse<Warehouse>,
>)
    requires
        old(state).wf(),
    ensures
        final(state).wf(),
        final(state).config == old(state).config,
        final(state).db.items == old(state).db.items,
        exists|now: i64|
            update_response(
                old(state).db.warehouses@,
                id,
                payload@,
                payload@.violations(email_verdict(payload@.email)),
                now,
                result,
                final(state).db.warehouses@,
            ),
{
    let checked = payload.validate();
    proof {
        lemma_reported(checked, payload@.violations(email_verdict(payload@.email)));
    }
    let now = now_micros();
    let result = update_warehouse_at(state, id, payload, checked, now);
    assert(update_response(
        old(state).db.warehouses@,
        id,
        payload@,
        payload@.violations(email_verdict(payload@.email)),
        now,
        result,
        state.db.warehouses@,
    ));
    result
}

/// Deletes the warehouse `id`: the active record is retired, not removed.
pub fn delete_warehouse(state: &mut AppState, id: i32) -> (result: AppResult<ApiResponse<String>>)
    requires
        old(state).wf(),
    ensures
        final(state).wf(),
        final(state).config == old(state).config,
        final(state).db.items == old(state).db.items,
        exists|now: i64|
            delete_response(old(state).db.warehouses@, id, now, result, final(state).db.warehouses@),
{
    let now = now_micros();
    let result = delete_warehouse_at(state, id, now);
    assert(delete_response(old(state).db.warehouses@, id, now, result, state.db.warehouses@));
    result
}

} // verus!
