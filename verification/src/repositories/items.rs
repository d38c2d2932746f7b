//! Item repository: the stored items with their soft-delete lifecycle
//! and the uniqueness of codes among the active ones.

use crate::clock::now_micros;
use crate::error::{AppError, AppResult};
use crate::models::item::{CreateItem, CreateItemView, Item, ItemView, UpdateItem, UpdateItemView};
use crate::models::response::{PaginatedResponse, PaginationQuery};
use crate::repositories::sorting::{SortColumn, SortKey, SortKeyView};
use crate::repositories::table::{
    consistent, create_outcome, delete_outcome, inconsistent_text, last_issued, list_outcome,
    loadable, lookup_code, lookup_id, opt_record_view, records_view, update_outcome, code_taken,
    Changes, Draft, Head, Record, Table, SYSTEM_USER,
};
use crate::text::strs_view;
use vstd::prelude::*;

verus! {

impl Record for Item {
    open spec fn label_text() -> Seq<char> {
        "item"@
    }

    open spec fn head(v: ItemView) -> Head {
        Head { id: v.item_id, code: v.item_code, active: v.is_active() }
    }

    /// A search looks into the code, the name and, where present, the
    /// category and the brand.
    open spec fn searchable_of(v: ItemView) -> Seq<Seq<char>> {
        seq![v.item_code, v.item_name] + (match v.category {
            Some(text) => seq![text],
            None => Seq::empty(),
        }) + (match v.brand {
            Some(text) => seq![text],
            None => Seq::empty(),
        })
    }

    open spec fn key_of(v: ItemView, column: SortColumn) -> SortKeyView {
        match column {
            SortColumn::Name => SortKeyView::Text(v.item_name),
            SortColumn::Code => SortKeyView::Text(v.item_code),
            SortColumn::CreatedAt => SortKeyView::Instant(v.created_at),
            SortColumn::UpdatedAt => SortKeyView::Instant(v.updated_at),
        }
    }

    open spec fn retired_of(v: ItemView, now: i64, actor: i32) -> ItemView {
        v.retired(now, actor)
    }

    fn label() -> (label: &'static str) {
        "item"
    }

    fn id(&self) -> (id: i32) {
        self.item_id
    }

    fn code(&self) -> (code: &str) {
        self.item_code.as_str()
    }

    fn active(&self) -> (active: bool) {
        self.is_active()
    }

    fn searchable_texts(&self) -> (texts: Vec<&str>) {
        let mut texts: Vec<&str> = Vec::new();
        texts.push(self.item_code.as_str());
        texts.push(self.item_name.as_str());
        if let Some(text) = &self.category {
            texts.push(text.as_str());
        }
        if let Some(text) = &self.brand {
            texts.push(text.as_str());
        }
        assert(strs_view(texts@) =~= Self::searchable_of(self@));
        texts
    }

    fn ranked_by(&self, column: SortColumn) -> (key: SortKey) {
        match column {
            SortColumn::Name => SortKey::Text(self.item_name.clone()),
            SortColumn::Code => SortKey::Text(self.item_code.clone()),
            SortColumn::CreatedAt => SortKey::Instant(self.created_at),
            SortColumn::UpdatedAt => SortKey::Instant(self.updated_at),
        }
    }

    fn retired(self, now: i64, actor: i32) -> (retired: Self) {
        self.retire(now, actor)
    }

    fn duplicate(&self) -> (copy: Self) {
        self.clone()
    }

    proof fn lemma_retired(v: ItemView, now: i64, actor: i32) {
        reveal_strlit("ACTIVE");
        reveal_strlit("INACTIVE");
        assert("ACTIVE"@.len() != "INACTIVE"@.len());
    }
}

impl Draft<Item> for CreateItem {
    open spec fn code_of(v: CreateItemView) -> Seq<char> {
        v.item_code
    }

    open spec fn created_of(v: CreateItemView, id: i32, now: i64, actor: i32) -> ItemView {
        v.created(id, now, actor)
    }

    fn wanted_code(&self) -> (code: &str) {
        self.item_code.as_str()
    }

    fn record(self, id: i32, now: i64, actor: i32) -> (record: Item) {
        self.into_record(id, now, actor)
    }

    proof fn lemma_created(v: CreateItemView, id: i32, now: i64, actor: i32) {
    }
}

impl Changes<Item> for UpdateItem {
    /// An item's code does not move.
    open spec fn new_code(v: UpdateItemView) -> Option<Seq<char>> {
        None
    }

    /// An item is retired by deleting it, not by a change.
    open spec fn new_active(v: UpdateItemView) -> Option<bool> {
        None
    }

    open spec fn merged_of(stored: ItemView, v: UpdateItemView, now: i64, actor: i32) -> ItemView {
        stored.merged(v, now, actor)
    }

    fn wanted_code(&self) -> (code: Option<&str>) {
        None
    }

    fn apply(self, stored: Item, now: i64, actor: i32) -> (merged: Item) {
        stored.merge(self, now, actor)
    }

    proof fn lemma_merged(stored: ItemView, v: UpdateItemView, now: i64, actor: i32) {
    }
}

/// The stored items.
pub struct ItemRepository {
    table: Table<Item>,
}

impl View for ItemRepository {
    type V = Seq<ItemView>;

    /// Every record ever stored, retired ones included, in order of creation.
    closed spec fn view(&self) -> Seq<ItemView> {
        self.table@
    }
}

impl ItemRepository {
    /// The number of identities issued so far; the next record gets the one
    /// after.
    pub closed spec fn issued(&self) -> i32 {
        self.table.issued()
    }

    /// Whether the table is consistent.
    pub open spec fn wf(&self) -> bool {
        consistent::<Item>(self@, self.issued())
    }

    /// An empty table.
    pub fn new() -> (repository: Self)
        ensures
            repository.wf(),
            repository@ == Seq::<ItemView>::empty(),
            repository.issued() == 0,
    {
        ItemRepository { table: Table::new() }
    }

    /// Takes stored rows for a table, if they are consistent: identities
    /// positive and growing, no code shared between two active records.
    /// Rows that are not are refused as a whole.
    pub fn load(rows: Vec<Item>) -> (result: AppResult<Self>)
        ensures
            match result {
                Ok(repository) => {
                    &&& loadable::<Item>(records_view(rows@))
                    &&& repository.wf()
                    &&& repository@ == records_view(rows@)
                    &&& repository.issued() == last_issued::<Item>(records_view(rows@))
                },
                Err(e) => {
                    &&& !loadable::<Item>(records_view(rows@))
                    &&& e matches AppError::Internal(detail)
                    &&& detail@ == inconsistent_text::<Item>()
                },
            },
    {
        match Table::load(rows) {
            Ok(table) => Ok(ItemRepository { table }),
            Err(e) => Err(e),
        }
    }

    /// Get item by ID: the active record with this identity, if any.
    /// Absence is a normal outcome.
    pub fn get_by_id(&self, id: i32) -> (result: AppResult<Option<Item>>)
        requires
            self.wf(),
        ensures
            result matches Ok(found) && opt_record_view(found) == lookup_id::<Item>(self@, id),
    {
        self.table.get_by_id(id)
    }

    /// Get item by code: the active record with this code, if any.
    pub fn get_by_code(&self, code: &str) -> (result: AppResult<Option<Item>>)
        requires
            self.wf(),
        ensures
            result matches Ok(found) && opt_record_view(found) == lookup_code::<Item>(
                self@,
                code@,
            ),
    {
        self.table.get_by_code(code)
    }

    /// Check if item code exists: whether an active record other than
    /// `exclude_id` has this code.
    pub fn code_exists(&self, code: &str, exclude_id: Option<i32>) -> (result: AppResult<bool>)
        ensures
            result matches Ok(exists) && exists == code_taken::<Item>(self@, code@, exclude_id),
    {
        self.table.code_exists(code, exclude_id)
    }

    /// List items with pagination, ranked by name unless the query names
    /// another column. Every input is brought into range, none is rejected.
    pub fn list(&self, pagination: PaginationQuery) -> (result: AppResult<PaginatedResponse<Item>>)
        requires
            self.wf(),
        ensures
            list_outcome::<Item>(self@, pagination, SortColumn::Name, result),
    {
        self.table.list(pagination, SortColumn::Name)
    }

    /// Create a new item at time `now`.
    pub fn create_at(&mut self, item: CreateItem, now: i64) -> (result: AppResult<Item>)
        requires
            old(self).wf(),
        ensures
            final(self).wf(),
            create_outcome::<Item, CreateItem>(
                old(self)@,
                old(self).issued(),
                item@,
                now,
                SYSTEM_USER,
                result,
                final(self)@,
                final(self).issued(),
            ),
    {
        self.table.create_at(item, now, SYSTEM_USER)
    }

    /// Update item at time `now`: merges the payload into the active record
    /// `id`.
    pub fn update_at(&mut self, id: i32, changes: UpdateItem, now: i64) -> (result: AppResult<
        Option<Item>,
    >)
        requires
            old(self).wf(),
        ensures
            final(self).wf(),
            final(self).issued() == old(self).issued(),
            update_outcome::<Item, UpdateItem>(
                old(self)@,
                id,
                changes@,
                now,
                SYSTEM_USER,
                result,
                final(self)@,
            ),
    {
        self.table.apply_at(id, changes, now, SYSTEM_USER)
    }

    /// Update item: merges the payload into the active record `id`, stamped
    /// with the current time.
    pub fn update(&mut self, id: i32, item: UpdateItem) -> (result: AppResult<Option<Item>>)
        requires
            old(self).wf(),
        ensures
            final(self).wf(),
            final(self).issued() == old(self).issued(),
            exists|now: i64|
                update_outcome::<Item, UpdateItem>(
                    old(self)@,
                    id,
                    item@,
                    now,
                    SYSTEM_USER,
                    result,
                    final(self)@,
                ),
    {
        let now = now_micros();
        self.update_at(id, item, now)
    }

    /// Soft delete item at time `now`. The answer tells whether a record
    /// was retired.
    pub fn delete_at(&mut self, id: i32, now: i64) -> (result: AppResult<bool>)
        requires
            old(self).wf(),
        ensures
            final(self).wf(),
            final(self).issued() == old(self).issued(),
            delete_outcome::<Item>(old(self)@, id, now, SYSTEM_USER, result, final(self)@),
    {
        self.table.delete_at(id, now, SYSTEM_USER)
    }

    /// Create a new item, stamped with the current time.
    pub fn create(&mut self, item: CreateItem) -> (result: AppResult<Item>)
        requires
            old(self).wf(),
        ensures
            final(self).wf(),
            exists|now: i64|
                create_outcome::<Item, CreateItem>(
                    old(self)@,
                    old(self).issued(),
                    item@,
                    now,
                    SYSTEM_USER,
                    result,
                    final(self)@,
                    final(self).issued(),
                ),
    {
        let now = now_micros();
        self.create_at(item, now)
    }

    /// Soft delete item, stamped with the current time. The answer tells
    /// whether a record was retired.
    pub fn delete(&mut self, id: i32) -> (result: AppResult<bool>)
        requires
            old(self).wf(),
        ensures
            final(self).wf(),
            final(self).issued() == old(self).issued(),
            exists|now: i64|
                delete_outcome::<Item>(old(self)@, id, now, SYSTEM_USER, result, final(self)@),
    {
        let now = now_micros();
        self.delete_at(id, now)
    }
}

} // verus!
