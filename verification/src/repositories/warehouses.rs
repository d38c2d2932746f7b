//! Warehouse repository: the stored warehouses with their soft-delete lifecycle
//! and the uniqueness of codes among the active ones.

use crate::clock::now_micros;
use crate::error::{AppError, AppResult};
use crate::models::warehouse::{
    CreateWarehouse, CreateWarehouseView, UpdateWarehouse, UpdateWarehouseRequest, Warehouse,
    WarehouseChanges, WarehouseChangesView, WarehouseView,
};
use crate::models::response::{PaginatedResponse, PaginationQuery};
use crate::repositories::sorting::{SortColumn, SortKey, SortKeyView};
use crate::repositories::table::{
    consistent, create_outcome, delete_outcome, inconsistent_text, last_issued, list_outcome,
    loadable, lookup_code, lookup_id, opt_record_view, records_view, update_outcome, code_taken,
    Changes, Draft, Head, Record, Table, SYSTEM_USER,
};
use crate::text::{opt_as_str, strs_view};
use vstd::prelude::*;

verus! {

impl Record for Warehouse {
    open spec fn label_text() -> Seq<char> {
        "warehouse"@
    }

    open spec fn head(v: WarehouseView) -> Head {
        Head { id: v.warehouse_id, code: v.warehouse_code, active: v.is_active }
    }

    /// A search looks into the code, the name and, where present, the city.
    open spec fn searchable_of(v: WarehouseView) -> Seq<Seq<char>> {
        seq![v.warehouse_code, v.warehouse_name] + (match v.city {
            Some(text) => seq![text],
            None => Seq::empty(),
        })
    }

    open spec fn key_of(v: WarehouseView, column: SortColumn) -> SortKeyView {
        match column {
            SortColumn::Name => SortKeyView::Text(v.warehouse_name),
            SortColumn::Code => SortKeyView::Text(v.warehouse_code),
            SortColumn::CreatedAt => SortKeyView::Instant(v.created_at),
            SortColumn::UpdatedAt => SortKeyView::Instant(v.updated_at),
        }
    }

    open spec fn retired_of(v: WarehouseView, now: i64, actor: i32) -> WarehouseView {
        v.retired(now, actor)
    }

    fn label() -> (label: &'static str) {
        "warehouse"
    }

    fn id(&self) -> (id: i32) {
        self.warehouse_id
    }

    fn code(&self) -> (code: &str) {
        self.warehouse_code.as_str()
    }

    fn active(&self) -> (active: bool) {
        self.is_active
    }

    fn searchable_texts(&self) -> (texts: Vec<&str>) {
        let mut texts: Vec<&str> = Vec::new();
        texts.push(self.warehouse_code.as_str());
        texts.push(self.warehouse_name.as_str());
        if let Some(text) = &self.city {
            texts.push(text.as_str());
        }
        assert(strs_view(texts@) =~= Self::searchable_of(self@));
        texts
    }

    fn ranked_by(&self, column: SortColumn) -> (key: SortKey) {
        match column {
            SortColumn::Name => SortKey::Text(self.warehouse_name.clone()),
            SortColumn::Code => SortKey::Text(self.warehouse_code.clone()),
            SortColumn::CreatedAt => SortKey::Instant(self.created_at),
            SortColumn::UpdatedAt => SortKey::Instant(self.updated_at),
        }
    }

    fn retired(self, now: i64, actor: i32) -> (retired: Self) {
        self.retire(now, actor)
    }

    fn duplicate(&self) -> (copy: Self) {
        self.clone()
    }

    proof fn lemma_retired(v: WarehouseView, now: i64, actor: i32) {
    }
}

impl Draft<Warehouse> for CreateWarehouse {
    open spec fn code_of(v: CreateWarehouseView) -> Seq<char> {
        v.warehouse_code
    }

    open spec fn created_of(v: CreateWarehouseView, id: i32, now: i64, actor: i32) -> WarehouseView {
        v.created(id, now, actor)
    }

    fn wanted_code(&self) -> (code: &str) {
        self.warehouse_code.as_str()
    }

    fn record(self, id: i32, now: i64, actor: i32) -> (record: Warehouse) {
        self.into_record(id, now, actor)
    }

    proof fn lemma_created(v: CreateWarehouseView, id: i32, now: i64, actor: i32) {
    }
}

impl Changes<Warehouse> for WarehouseChanges {
    open spec fn new_code(v: WarehouseChangesView) -> Option<Seq<char>> {
        v.warehouse_code
    }

    open spec fn new_active(v: WarehouseChangesView) -> Option<bool> {
        v.is_active
    }

    open spec fn merged_of(stored: WarehouseView, v: WarehouseChangesView, now: i64, actor: i32) -> WarehouseView {
        stored.merged(v, now, actor)
    }

    fn wanted_code(&self) -> (code: Option<&str>) {
        opt_as_str(&self.warehouse_code)
    }

    fn apply(self, stored: Warehouse, now: i64, actor: i32) -> (merged: Warehouse) {
        stored.merge(self, now, actor)
    }

    proof fn lemma_merged(stored: WarehouseView, v: WarehouseChangesView, now: i64, actor: i32) {
    }
}

/// The stored warehouses.
pub struct WarehouseRepository {
    table: Table<Warehouse>,
}

impl View for WarehouseRepository {
    type V = Seq<WarehouseView>;

    /// Every record ever stored, retired ones included, in order of creation.
    closed spec fn view(&self) -> Seq<WarehouseView> {
        self.table@
    }
}

impl WarehouseRepository {
    /// The number of identities issued so far; the next record gets the one
    /// after.
    pub closed spec fn issued(&self) -> i32 {
        self.table.issued()
    }

    /// Whether the table is consistent.
    pub open spec fn wf(&self) -> bool {
        consistent::<Warehouse>(self@, self.issued())
    }

    /// An empty table.
    pub fn new() -> (repository: Self)
        ensures
            repository.wf(),
            repository@ == Seq::<WarehouseView>::empty(),
            repository.issued() == 0,
    {
        WarehouseRepository { table: Table::new() }
    }

    /// Takes stored rows for a table, if they are consistent: identities
    /// positive and growing, no code shared between two active records.
    /// Rows that are not are refused as a whole.
    pub fn load(rows: Vec<Warehouse>) -> (result: AppResult<Self>)
        ensures
            match result {
                Ok(repository) => {
                    &&& loadable::<Warehouse>(records_view(rows@))
                    &&& repository.wf()
                    &&& repository@ == records_view(rows@)
                    &&& repository.issued() == last_issued::<Warehouse>(records_view(rows@))
                },
                Err(e) => {
                    &&& !loadable::<Warehouse>(records_view(rows@))
                    &&& e matches AppError::Internal(detail)
                    &&& detail@ == inconsistent_text::<Warehouse>()
                },
            },
    {
        match Table::load(rows) {
            Ok(table) => Ok(WarehouseRepository { table }),
            Err(e) => Err(e),
        }
    }

    /// Get warehouse by ID: the active record with this identity, if any.
    /// Absence is a normal outcome.
    pub fn get_by_id(&self, id: i32) -> (result: AppResult<Option<Warehouse>>)
        requires
            self.wf(),
        ensures
            result matches Ok(found) && opt_record_view(found) == lookup_id::<Warehouse>(self@, id),
    {
        self.table.get_by_id(id)
    }

    /// Get warehouse by code: the active record with this code, if any.
    pub fn get_by_code(&self, code: &str) -> (result: AppResult<Option<Warehouse>>)
        requires
            self.wf(),
        ensures
            result matches Ok(found) && opt_record_view(found) == lookup_code::<Warehouse>(
                self@,
                code@,
            ),
    {
        self.table.get_by_code(code)
    }

    /// Check if warehouse code exists: whether an active record other than
    /// `exclude_id` has this code.
    pub fn code_exists(&self, code: &str, exclude_id: Option<i32>) -> (result: AppResult<bool>)
        ensures
            result matches Ok(exists) && exists == code_taken::<Warehouse>(self@, code@, exclude_id),
    {
        self.table.code_exists(code, exclude_id)
    }

    /// List warehouses with pagination, ranked by name unless the query names
    /// another column. Every input is brought into range, none is rejected.
    pub fn list(&self, pagination: PaginationQuery) -> (result: AppResult<PaginatedResponse<Warehouse>>)
        requires
            self.wf(),
        ensures
            list_outcome::<Warehouse>(self@, pagination, SortColumn::Name, result),
    {
        self.table.list(pagination, SortColumn::Name)
    }

    /// Create a new warehouse at time `now`.
    pub fn create_at(&mut self, warehouse: CreateWarehouse, now: i64) -> (result: AppResult<Warehouse>)
        requires
            old(self).wf(),
        ensures
            final(self).wf(),
            create_outcome::<Warehouse, CreateWarehouse>(
                old(self)@,
                old(self).issued(),
                warehouse@,
                now,
                SYSTEM_USER,
                result,
                final(self)@,
                final(self).issued(),
            ),
    {
        self.table.create_at(warehouse, now, SYSTEM_USER)
    }

    /// Applies `changes` to the warehouse `id` at time `now`.
    pub fn apply_at(&mut self, id: i32, changes: WarehouseChanges, now: i64) -> (result: AppResult<
        Option<Warehouse>,
    >)
        requires
            old(self).wf(),
        ensures
            final(self).wf(),
            final(self).issued() == old(self).issued(),
            update_outcome::<Warehouse, WarehouseChanges>(
                old(self)@,
                id,
                changes@,
                now,
                SYSTEM_USER,
                result,
                final(self)@,
            ),
    {
        self.table.apply_at(id, changes, now, SYSTEM_USER)
    }

    /// Update warehouse: merges the payload into the active record `id`,
    /// stamped with the current time.
    pub fn update(&mut self, id: i32, warehouse: UpdateWarehouse) -> (result: AppResult<
        Option<Warehouse>,
    >)
        requires
            old(self).wf(),
        ensures
            final(self).wf(),
            final(self).issued() == old(self).issued(),
            exists|now: i64|
                update_outcome::<Warehouse, WarehouseChanges>(
                    old(self)@,
                    id,
                    warehouse@.changes(),
                    now,
                    SYSTEM_USER,
                    result,
                    final(self)@,
                ),
    {
        let now = now_micros();
        self.apply_at(id, warehouse.into_changes(), now)
    }

    /// Update warehouse from a request that may also move its code or retire
    /// it, stamped with the current time.
    pub fn update_request(&mut self, id: i32, request: UpdateWarehouseRequest) -> (result: AppResult<
        Option<Warehouse>,
    >)
        requires
            old(self).wf(),
        ensures
            final(self).wf(),
            final(self).issued() == old(self).issued(),
            exists|now: i64|
                update_outcome::<Warehouse, WarehouseChanges>(
                    old(self)@,
                    id,
                    request@.changes(),
                    now,
                    SYSTEM_USER,
                    result,
                    final(self)@,
                ),
    {
        let now = now_micros();
        self.apply_at(id, request.into_changes(), now)
    }

    /// Soft delete warehouse at time `now`. The answer tells whether a record
    /// was retired.
    pub fn delete_at(&mut self, id: i32, now: i64) -> (result: AppResult<bool>)
        requires
            old(self).wf(),
        ensures
            final(self).wf(),
            final(self).issued() == old(self).issued(),
            delete_outcome::<Warehouse>(old(self)@, id, now, SYSTEM_USER, result, final(self)@),
    {
        self.table.delete_at(id, now, SYSTEM_USER)
    }

    /// Create a new warehouse, stamped with the current time.
    pub fn create(&mut self, warehouse: CreateWarehouse) -> (result: AppResult<Warehouse>)
        requires
            old(self).wf(),
        ensures
            final(self).wf(),
            exists|now: i64|
                create_outcome::<Warehouse, CreateWarehouse>(
                    old(self)@,
                    old(self).issued(),
                    warehouse@,
                    now,
                    SYSTEM_USER,
                    result,
                    final(self)@,
                    final(self).issued(),
                ),
    {
        let now = now_micros();
        self.create_at(warehouse, now)
    }

    /// Soft delete warehouse, stamped with the current time. The answer tells
    /// whether a record was retired.
    pub fn delete(&mut self, id: i32) -> (result: AppResult<bool>)
        requires
            old(self).wf(),
        ensures
            final(self).wf(),
            final(self).issued() == old(self).issued(),
            exists|now: i64|
                delete_outcome::<Warehouse>(old(self)@, id, now, SYSTEM_USER, result, final(self)@),
    {
        let now = now_micros();
        self.delete_at(id, now)
    }
}

} // verus!
