//! Warehouses: the stored record, the payloads that create and change it,
//! and the rule by which a sparse change combines with a stored record.

use crate::merge::{keep_or, keep_or_some, or_default, pick, pick_required};
use crate::text::{clone_opt_string, opt_string_view};
use vstd::prelude::*;

verus! {

/// Country given to a warehouse created without one.
pub const DEFAULT_COUNTRY: &'static str = "Indonesia";

/// Time zone given to a warehouse created without one.
pub const DEFAULT_TIMEZONE: &'static str = "Asia/Jakarta";

/// A warehouse as stored. Timestamps are in microseconds since the Unix epoch.
#[derive(Debug, PartialEq, Eq)]
pub struct Warehouse {
    pub warehouse_id: i32,
    pub warehouse_code: String,
    pub warehouse_name: String,
    pub warehouse_type: Option<String>,
    pub address: Option<String>,
    pub city: Option<String>,
    pub state: Option<String>,
    pub postal_code: Option<String>,
    pub country: Option<String>,
    pub phone: Option<String>,
    pub email: Option<String>,
    pub manager_user_id: Option<i32>,
    pub timezone: Option<String>,
    pub is_active: bool,
    pub created_at: Option<i64>,
    pub updated_at: Option<i64>,
    pub created_by: Option<i32>,
    pub updated_by: Option<i32>,
}

/// What a `Warehouse` holds, with its texts as sequences of characters.
pub ghost struct WarehouseView {
    pub warehouse_id: i32,
    pub warehouse_code: Seq<char>,
    pub warehouse_name: Seq<char>,
    pub warehouse_type: Option<Seq<char>>,
    pub address: Option<Seq<char>>,
    pub city: Option<Seq<char>>,
    pub state: Option<Seq<char>>,
    pub postal_code: Option<Seq<char>>,
    pub country: Option<Seq<char>>,
    pub phone: Option<Seq<char>>,
    pub email: Option<Seq<char>>,
    pub manager_user_id: Option<i32>,
    pub timezone: Option<Seq<char>>,
    pub is_active: bool,
    pub created_at: Option<i64>,
    pub updated_at: Option<i64>,
    pub created_by: Option<i32>,
    pub updated_by: Option<i32>,
}

impl View for Warehouse {
    type V = WarehouseView;

    open spec fn view(&self) -> WarehouseView {
        WarehouseView {
            warehouse_id: self.warehouse_id,
            warehouse_code: self.warehouse_code@,
            warehouse_name: self.warehouse_name@,
            warehouse_type: opt_string_view(self.warehouse_type),
            address: opt_string_view(self.address),
            city: opt_string_view(self.city),
            state: opt_string_view(self.state),
            postal_code: opt_string_view(self.postal_code),
            country: opt_string_view(self.country),
            phone: opt_string_view(self.phone),
            email: opt_string_view(self.email),
            manager_user_id: self.manager_user_id,
            timezone: opt_string_view(self.timezone),
            is_active: self.is_active,
            created_at: self.created_at,
            updated_at: self.updated_at,
            created_by: self.created_by,
            updated_by: self.updated_by,
        }
    }
}

impl Clone for Warehouse {
    fn clone(&self) -> (copy: Self)
        ensures
            copy == *self,
    {
        Warehouse {
            warehouse_id: self.warehouse_id,
            warehouse_code: self.warehouse_code.clone(),
            warehouse_name: self.warehouse_name.clone(),
            warehouse_type: clone_opt_string(&self.warehouse_type),
            address: clone_opt_string(&self.address),
            city: clone_opt_string(&self.city),
            state: clone_opt_string(&self.state),
            postal_code: clone_opt_string(&self.postal_code),
            country: clone_opt_string(&self.country),
            phone: clone_opt_string(&self.phone),
            email: clone_opt_string(&self.email),
            manager_user_id: self.manager_user_id,
            timezone: clone_opt_string(&self.timezone),
            is_active: self.is_active,
            created_at: self.created_at,
            updated_at: self.updated_at,
            created_by: self.created_by,
            updated_by: self.updated_by,
        }
    }
}

/// What a caller supplies to create a warehouse.
#[derive(Debug, PartialEq, Eq)]
pub struct CreateWarehouse {
    pub warehouse_code: String,
    pub warehouse_name: String,
    pub warehouse_type: Option<String>,
    pub address: Option<String>,
    pub city: Option<String>,
    pub state: Option<String>,
    pub postal_code: Option<String>,
    pub country: Option<String>,
    pub email: Option<String>,
    pub phone: Option<String>,
    pub manager_user_id: Option<i32>,
    pub timezone: Option<String>,
}

/// What a `CreateWarehouse` holds, with its texts as sequences of characters.
pub ghost struct CreateWarehouseView {
    pub warehouse_code: Seq<char>,
    pub warehouse_name: Seq<char>,
    pub warehouse_type: Option<Seq<char>>,
    pub address: Option<Seq<char>>,
    pub city: Option<Seq<char>>,
    pub state: Option<Seq<char>>,
    pub postal_code: Option<Seq<char>>,
    pub country: Option<Seq<char>>,
    pub email: Option<Seq<char>>,
    pub phone: Option<Seq<char>>,
    pub manager_user_id: Option<i32>,
    pub timezone: Option<Seq<char>>,
}

impl View for CreateWarehouse {
    type V = CreateWarehouseView;

    open spec fn view(&self) -> CreateWarehouseView {
        CreateWarehouseView {
            warehouse_code: self.warehouse_code@,
            warehouse_name: self.warehouse_name@,
            warehouse_type: opt_string_view(self.warehouse_type),
            address: opt_string_view(self.address),
            city: opt_string_view(self.city),
            state: opt_string_view(self.state),
            postal_code: opt_string_view(self.postal_code),
            country: opt_string_view(self.country),
            email: opt_string_view(self.email),
            phone: opt_string_view(self.phone),
            manager_user_id: self.manager_user_id,
            timezone: opt_string_view(self.timezone),
        }
    }
}

impl Clone for CreateWarehouse {
    fn clone(&self) -> (copy: Self)
        ensures
            copy == *self,
    {
        CreateWarehouse {
            warehouse_code: self.warehouse_code.clone(),
            warehouse_name: self.warehouse_name.clone(),
            warehouse_type: clone_opt_string(&self.warehouse_type),
            address: clone_opt_string(&self.address),
            city: clone_opt_string(&self.city),
            state: clone_opt_string(&self.state),
            postal_code: clone_opt_string(&self.postal_code),
            country: clone_opt_string(&self.country),
            email: clone_opt_string(&self.email),
            phone: clone_opt_string(&self.phone),
            manager_user_id: self.manager_user_id,
            timezone: clone_opt_string(&self.timezone),
        }
    }
}

/// A sparse change to a warehouse: an absent field is left as stored.
#[derive(Debug, PartialEq, Eq)]
pub struct UpdateWarehouse {
    pub warehouse_name: Option<String>,
    pub warehouse_type: Option<String>,
    pub address: Option<String>,
    pub city: Option<String>,
    pub state: Option<String>,
    pub postal_code: Option<String>,
    pub country: Option<String>,
    pub email: Option<String>,
    pub phone: Option<String>,
    pub manager_user_id: Option<i32>,
    pub timezone: Option<String>,
}

/// What a `UpdateWarehouse` holds, with its texts as sequences of characters.
pub ghost struct UpdateWarehouseView {
    pub warehouse_name: Option<Seq<char>>,
    pub warehouse_type: Option<Seq<char>>,
    pub address: Option<Seq<char>>,
    pub city: Option<Seq<char>>,
    pub state: Option<Seq<char>>,
    pub postal_code: Option<Seq<char>>,
    pub country: Option<Seq<char>>,
    pub email: Option<Seq<char>>,
    pub phone: Option<Seq<char>>,
    pub manager_user_id: Option<i32>,
    pub timezone: Option<Seq<char>>,
}

impl View for UpdateWarehouse {
    type V = UpdateWarehouseView;

    open spec fn view(&self) -> UpdateWarehouseView {
        UpdateWarehouseView {
            warehouse_name: opt_string_view(self.warehouse_name),
            warehouse_type: opt_string_view(self.warehouse_type),
            address: opt_string_view(self.address),
            city: opt_string_view(self.city),
            state: opt_string_view(self.state),
            postal_code: opt_string_view(self.postal_code),
            country: opt_string_view(self.country),
            email: opt_string_view(self.email),
            phone: opt_string_view(self.phone),
            manager_user_id: self.manager_user_id,
            timezone: opt_string_view(self.timezone),
        }
    }
}

impl Clone for UpdateWarehouse {
    fn clone(&self) -> (copy: Self)
        ensures
            copy == *self,
    {
        UpdateWarehouse {
            warehouse_name: clone_opt_string(&self.warehouse_name),
            warehouse_type: clone_opt_string(&self.warehouse_type),
            address: clone_opt_string(&self.address),
            city: clone_opt_string(&self.city),
            state: clone_opt_string(&self.state),
            postal_code: clone_opt_string(&self.postal_code),
            country: clone_opt_string(&self.country),
            email: clone_opt_string(&self.email),
            phone: clone_opt_string(&self.phone),
            manager_user_id: self.manager_user_id,
            timezone: clone_opt_string(&self.timezone),
        }
    }
}

/// A sparse change to a warehouse that may also move its code or retire it.
#[derive(Debug, PartialEq, Eq)]
pub struct UpdateWarehouseRequest {
    pub warehouse_code: Option<String>,
    pub warehouse_name: Option<String>,
    pub warehouse_type: Option<String>,
    pub address: Option<String>,
    pub city: Option<String>,
    pub state: Option<String>,
    pub postal_code: Option<String>,
    pub country: Option<String>,
    pub phone: Option<String>,
    pub email: Option<String>,
    pub manager_user_id: Option<i32>,
    pub is_active: Option<bool>,
}

/// What a `UpdateWarehouseRequest` holds, with its texts as sequences of characters.
pub ghost struct UpdateWarehouseRequestView {
    pub warehouse_code: Option<Seq<char>>,
    pub warehouse_name: Option<Seq<char>>,
    pub warehouse_type: Option<Seq<char>>,
    pub address: Option<Seq<char>>,
    pub city: Option<Seq<char>>,
    pub state: Option<Seq<char>>,
    pub postal_code: Option<Seq<char>>,
    pub country: Option<Seq<char>>,
    pub phone: Option<Seq<char>>,
    pub email: Option<Seq<char>>,
    pub manager_user_id: Option<i32>,
    pub is_active: Option<bool>,
}

impl View for UpdateWarehouseRequest {
    type V = UpdateWarehouseRequestView;

    open spec fn view(&self) -> UpdateWarehouseRequestView {
        UpdateWarehouseRequestView {
            warehouse_code: opt_string_view(self.warehouse_code),
            warehouse_name: opt_string_view(self.warehouse_name),
            warehouse_type: opt_string_view(self.warehouse_type),
            address: opt_string_view(self.address),
            city: opt_string_view(self.city),
            state: opt_string_view(self.state),
            postal_code: opt_string_view(self.postal_code),
            country: opt_string_view(self.country),
            phone: opt_string_view(self.phone),
            email: opt_string_view(self.email),
            manager_user_id: self.manager_user_id,
            is_active: self.is_active,
        }
    }
}

/// Every change an update can ask of a warehouse, each field optional.
#[derive(Debug, PartialEq, Eq)]
pub struct WarehouseChanges {
    pub warehouse_code: Option<String>,
    pub warehouse_name: Option<String>,
    pub warehouse_type: Option<String>,
    pub address: Option<String>,
    pub city: Option<String>,
    pub state: Option<String>,
    pub postal_code: Option<String>,
    pub country: Option<String>,
    pub phone: Option<String>,
    pub email: Option<String>,
    pub manager_user_id: Option<i32>,
    pub timezone: Option<String>,
    pub is_active: Option<bool>,
}

/// What a `WarehouseChanges` holds, with its texts as sequences of characters.
pub ghost struct WarehouseChangesView {
    pub warehouse_code: Option<Seq<char>>,
    pub warehouse_name: Option<Seq<char>>,
    pub warehouse_type: Option<Seq<char>>,
    pub address: Option<Seq<char>>,
    pub city: Option<Seq<char>>,
    pub state: Option<Seq<char>>,
    pub postal_code: Option<Seq<char>>,
    pub country: Option<Seq<char>>,
    pub phone: Option<Seq<char>>,
    pub email: Option<Seq<char>>,
    pub manager_user_id: Option<i32>,
    pub timezone: Option<Seq<char>>,
    pub is_active: Option<bool>,
}

impl View for WarehouseChanges {
    type V = WarehouseChangesView;

    open spec fn view(&self) -> WarehouseChangesView {
        WarehouseChangesView {
            warehouse_code: opt_string_view(self.warehouse_code),
            warehouse_name: opt_string_view(self.warehouse_name),
            warehouse_type: opt_string_view(self.warehouse_type),
            address: opt_string_view(self.address),
            city: opt_string_view(self.city),
            state: opt_string_view(self.state),
            postal_code: opt_string_view(self.postal_code),
            country: opt_string_view(self.country),
            phone: opt_string_view(self.phone),
            email: opt_string_view(self.email),
            manager_user_id: self.manager_user_id,
            timezone: opt_string_view(self.timezone),
            is_active: self.is_active,
        }
    }
}

impl CreateWarehouseView {
    /// The record that creating from this payload stores under `id` at
    /// time `now` on behalf of `actor`.
    pub open spec fn created(self, id: i32, now: i64, actor: i32) -> WarehouseView {
        WarehouseView {
            warehouse_id: id,
            warehouse_code: self.warehouse_code,
            warehouse_name: self.warehouse_name,
            warehouse_type: self.warehouse_type,
            address: self.address,
            city: self.city,
            state: self.state,
            postal_code: self.postal_code,
            country: Some(or_default(self.country, DEFAULT_COUNTRY@)),
            email: self.email,
            phone: self.phone,
            manager_user_id: self.manager_user_id,
            timezone: Some(or_default(self.timezone, DEFAULT_TIMEZONE@)),
            is_active: true,
            created_at: Some(now),
            updated_at: Some(now),
            created_by: Some(actor),
            updated_by: None,
        }
    }
}

impl WarehouseView {
    /// This record after `changes` at time `now` on behalf of `actor`:
    /// field by field the changed value where one is named and the stored
    /// one otherwise, with the update stamp always refreshed.
    pub open spec fn merged(self, changes: WarehouseChangesView, now: i64, actor: i32) -> WarehouseView {
        WarehouseView {
            warehouse_id: self.warehouse_id,
            warehouse_code: keep_or(self.warehouse_code, changes.warehouse_code),
            warehouse_name: keep_or(self.warehouse_name, changes.warehouse_name),
            warehouse_type: keep_or_some(self.warehouse_type, changes.warehouse_type),
            address: keep_or_some(self.address, changes.address),
            city: keep_or_some(self.city, changes.city),
            state: keep_or_some(self.state, changes.state),
            postal_code: keep_or_some(self.postal_code, changes.postal_code),
            country: keep_or_some(self.country, changes.country),
            phone: keep_or_some(self.phone, changes.phone),
            email: keep_or_some(self.email, changes.email),
            manager_user_id: keep_or_some(self.manager_user_id, changes.manager_user_id),
            timezone: keep_or_some(self.timezone, changes.timezone),
            is_active: keep_or(self.is_active, changes.is_active),
            created_at: self.created_at,
            updated_at: Some(now),
            created_by: self.created_by,
            updated_by: Some(actor),
        }
    }
}

impl UpdateWarehouseView {
    /// The changes this payload asks for.
    pub open spec fn changes(self) -> WarehouseChangesView {
        WarehouseChangesView {
            warehouse_code: None,
            warehouse_name: self.warehouse_name,
            warehouse_type: self.warehouse_type,
            address: self.address,
            city: self.city,
            state: self.state,
            postal_code: self.postal_code,
            country: self.country,
            phone: self.phone,
            email: self.email,
            manager_user_id: self.manager_user_id,
            timezone: self.timezone,
            is_active: None,
        }
    }
}

impl UpdateWarehouseRequestView {
    /// The changes this payload asks for.
    pub open spec fn changes(self) -> WarehouseChangesView {
        WarehouseChangesView {
            warehouse_code: self.warehouse_code,
            warehouse_name: self.warehouse_name,
            warehouse_type: self.warehouse_type,
            address: self.address,
            city: self.city,
            state: self.state,
            postal_code: self.postal_code,
            country: self.country,
            phone: self.phone,
            email: self.email,
            manager_user_id: self.manager_user_id,
            timezone: None,
            is_active: self.is_active,
        }
    }
}

impl UpdateWarehouse {
    /// The changes this payload asks for.
    pub fn into_changes(self) -> (changes: WarehouseChanges)
        ensures
            changes@ == self@.changes(),
    {
        WarehouseChanges {
            warehouse_code: None,
            warehouse_name: self.warehouse_name,
            warehouse_type: self.warehouse_type,
            address: self.address,
            city: self.city,
            state: self.state,
            postal_code: self.postal_code,
            country: self.country,
            phone: self.phone,
            email: self.email,
            manager_user_id: self.manager_user_id,
            timezone: self.timezone,
            is_active: None,
        }
    }
}

impl UpdateWarehouseRequest {
    /// The changes this payload asks for.
    pub fn into_changes(self) -> (changes: WarehouseChanges)
        ensures
            changes@ == self@.changes(),
    {
        WarehouseChanges {
            warehouse_code: self.warehouse_code,
            warehouse_name: self.warehouse_name,
            warehouse_type: self.warehouse_type,
            address: self.address,
            city: self.city,
            state: self.state,
            postal_code: self.postal_code,
            country: self.country,
            phone: self.phone,
            email: self.email,
            manager_user_id: self.manager_user_id,
            timezone: None,
            is_active: self.is_active,
        }
    }
}

impl CreateWarehouse {
    /// The record to store for this payload under `id`, created at `now` on
    /// behalf of `actor`. A missing country or time zone gets its default.
    pub fn into_record(self, id: i32, now: i64, actor: i32) -> (record: Warehouse)
        ensures
            record@ == self@.created(id, now, actor),
    {
        let country = match self.country {
            Some(c) => c,
            None => String::from_str(DEFAULT_COUNTRY),
        };
        let timezone = match self.timezone {
            Some(t) => t,
            None => String::from_str(DEFAULT_TIMEZONE),
        };
        Warehouse {
            warehouse_id: id,
            warehouse_code: self.warehouse_code,
            warehouse_name: self.warehouse_name,
            warehouse_type: self.warehouse_type,
            address: self.address,
            city: self.city,
            state: self.state,
            postal_code: self.postal_code,
            country: Some(country),
            email: self.email,
            phone: self.phone,
            manager_user_id: self.manager_user_id,
            timezone: Some(timezone),
            is_active: true,
            created_at: Some(now),
            updated_at: Some(now),
            created_by: Some(actor),
            updated_by: None,
        }
    }
}

impl Warehouse {
    /// Combines this stored record with a sparse change: each field the
    /// change names is overwritten, every other field is kept, and the
    /// update stamp is set to `now` and `actor` even if nothing else moved.
    pub fn merge(self, changes: WarehouseChanges, now: i64, actor: i32) -> (merged: Warehouse)
        ensures
            merged@ == self@.merged(changes@, now, actor),
    {
        Warehouse {
            warehouse_id: self.warehouse_id,
            warehouse_code: pick_required(self.warehouse_code, changes.warehouse_code),
            warehouse_name: pick_required(self.warehouse_name, changes.warehouse_name),
            warehouse_type: pick(self.warehouse_type, changes.warehouse_type),
            address: pick(self.address, changes.address),
            city: pick(self.city, changes.city),
            state: pick(self.state, changes.state),
            postal_code: pick(self.postal_code, changes.postal_code),
            country: pick(self.country, changes.country),
            phone: pick(self.phone, changes.phone),
            email: pick(self.email, changes.email),
            manager_user_id: pick(self.manager_user_id, changes.manager_user_id),
            timezone: pick(self.timezone, changes.timezone),
            is_active: pick_required(self.is_active, changes.is_active),
            created_at: self.created_at,
            updated_at: Some(now),
            created_by: self.created_by,
            updated_by: Some(actor),
        }
    }

    /// This record retired at `now` by `actor`: inactive, with the update
    /// stamp refreshed and nothing else touched.
    pub fn retire(self, now: i64, actor: i32) -> (retired: Warehouse)
        ensures
            retired@ == self@.retired(now, actor),
    {
        Warehouse { is_active: false, updated_at: Some(now), updated_by: Some(actor), ..self }
    }
}

impl WarehouseView {
    /// This record retired at `now` by `actor`.
    pub open spec fn retired(self, now: i64, actor: i32) -> WarehouseView {
        WarehouseView { is_active: false, updated_at: Some(now), updated_by: Some(actor), ..self }
    }
}

} // verus!
