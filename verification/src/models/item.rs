//! Items: the stored record, the payloads that create and change it, and
//! the rule by which a sparse change combines with a stored record.

use crate::merge::{keep_or, keep_or_some, or_default, pick, pick_required};
use crate::text::{clone_opt_string, opt_string_view};
use vstd::prelude::*;

verus! {

/// Status of an item that listings and look-ups show.
pub const STATUS_ACTIVE: &'static str = "ACTIVE";

/// Status of an item that was retired.
pub const STATUS_INACTIVE: &'static str = "INACTIVE";

/// A decimal number: `mantissa` scaled down by ten to the power `scale`.
#[derive(Debug, Clone, Copy, PartialEq, Eq, Structural)]
pub struct Decimal {
    pub mantissa: i128,
    pub scale: u32,
}

/// An item as stored. Timestamps are in microseconds since the Unix epoch.
#[derive(Debug, PartialEq, Eq)]
pub struct Item {
    pub item_id: i32,
    pub item_code: String,
    pub item_name: String,
    pub item_description: Option<String>,
    pub item_type: String,
    pub item_usage_type: Option<String>,
    pub category: Option<String>,
    pub subcategory: Option<String>,
    pub brand: Option<String>,
    pub model: Option<String>,
    pub unit: Option<String>,
    pub weight_kg: Option<Decimal>,
    pub length_cm: Option<Decimal>,
    pub width_cm: Option<Decimal>,
    pub height_cm: Option<Decimal>,
    pub volume_cbm: Option<Decimal>,
    pub is_loanable: bool,
    pub requires_return: bool,
    pub max_loan_duration_days: Option<i32>,
    pub replacement_cost: Option<Decimal>,
    pub maintenance_required: bool,
    pub calibration_required: bool,
    pub standard_cost: Option<Decimal>,
    pub last_cost: Option<Decimal>,
    pub average_cost: Option<Decimal>,
    pub status: String,
    pub created_at: Option<i64>,
    pub updated_at: Option<i64>,
    pub created_by: Option<i32>,
    pub updated_by: Option<i32>,
}

/// What a `Item` holds, with its texts as sequences of characters.
pub ghost struct ItemView {
    pub item_id: i32,
    pub item_code: Seq<char>,
    pub item_name: Seq<char>,
    pub item_description: Option<Seq<char>>,
    pub item_type: Seq<char>,
    pub item_usage_type: Option<Seq<char>>,
    pub category: Option<Seq<char>>,
    pub subcategory: Option<Seq<char>>,
    pub brand: Option<Seq<char>>,
    pub model: Option<Seq<char>>,
    pub unit: Option<Seq<char>>,
    pub weight_kg: Option<Decimal>,
    pub length_cm: Option<Decimal>,
    pub width_cm: Option<Decimal>,
    pub height_cm: Option<Decimal>,
    pub volume_cbm: Option<Decimal>,
    pub is_loanable: bool,
    pub requires_return: bool,
    pub max_loan_duration_days: Option<i32>,
    pub replacement_cost: Option<Decimal>,
    pub maintenance_required: bool,
    pub calibration_required: bool,
    pub standard_cost: Option<Decimal>,
    pub last_cost: Option<Decimal>,
    pub average_cost: Option<Decimal>,
    pub status: Seq<char>,
    pub created_at: Option<i64>,
    pub updated_at: Option<i64>,
    pub created_by: Option<i32>,
    pub updated_by: Option<i32>,
}

impl View for Item {
    type V = ItemView;

    open spec fn view(&self) -> ItemView {
        ItemView {
            item_id: self.item_id,
            item_code: self.item_code@,
            item_name: self.item_name@,
            item_description: opt_string_view(self.item_description),
            item_type: self.item_type@,
            item_usage_type: opt_string_view(self.item_usage_type),
            category: opt_string_view(self.category),
            subcategory: opt_string_view(self.subcategory),
            brand: opt_string_view(self.brand),
            model: opt_string_view(self.model),
            unit: opt_string_view(self.unit),
            weight_kg: self.weight_kg,
            length_cm: self.length_cm,
            width_cm: self.width_cm,
            height_cm: self.height_cm,
            volume_cbm: self.volume_cbm,
            is_loanable: self.is_loanable,
            requires_return: self.requires_return,
            max_loan_duration_days: self.max_loan_duration_days,
            replacement_cost: self.replacement_cost,
            maintenance_required: self.maintenance_required,
            calibration_required: self.calibration_required,
            standard_cost: self.standard_cost,
            last_cost: self.last_cost,
            average_cost: self.average_cost,
            status: self.status@,
            created_at: self.created_at,
            updated_at: self.updated_at,
            created_by: self.created_by,
            updated_by: self.updated_by,
        }
    }
}

impl Clone for Item {
    fn clone(&self) -> (copy: Self)
        ensures
            copy == *self,
    {
        Item {
            item_id: self.item_id,
            item_code: self.item_code.clone(),
            item_name: self.item_name.clone(),
            item_description: clone_opt_string(&self.item_description),
            item_type: self.item_type.clone(),
            item_usage_type: clone_opt_string(&self.item_usage_type),
            category: clone_opt_string(&self.category),
            subcategory: clone_opt_string(&self.subcategory),
            brand: clone_opt_string(&self.brand),
            model: clone_opt_string(&self.model),
            unit: clone_opt_string(&self.unit),
            weight_kg: self.weight_kg,
            length_cm: self.length_cm,
            width_cm: self.width_cm,
            height_cm: self.height_cm,
            volume_cbm: self.volume_cbm,
            is_loanable: self.is_loanable,
            requires_return: self.requires_return,
            max_loan_duration_days: self.max_loan_duration_days,
            replacement_cost: self.replacement_cost,
            maintenance_required: self.maintenance_required,
            calibration_required: self.calibration_required,
            standard_cost: self.standard_cost,
            last_cost: self.last_cost,
            average_cost: self.average_cost,
            status: self.status.clone(),
            created_at: self.created_at,
            updated_at: self.updated_at,
            created_by: self.created_by,
            updated_by: self.updated_by,
        }
    }
}

/// What a caller supplies to create an item.
#[derive(Debug, PartialEq, Eq)]
pub struct CreateItem {
    pub item_code: String,
    pub item_name: String,
    pub item_description: Option<String>,
    pub item_type: String,
    pub item_usage_type: Option<String>,
    pub category: Option<String>,
    pub subcategory: Option<String>,
    pub brand: Option<String>,
    pub model: Option<String>,
    pub unit: Option<String>,
    pub is_loanable: Option<bool>,
    pub maintenance_required: Option<bool>,
    pub calibration_required: Option<bool>,
    pub replacement_cost: Option<Decimal>,
}

/// What a `CreateItem` holds, with its texts as sequences of characters.
pub ghost struct CreateItemView {
    pub item_code: Seq<char>,
    pub item_name: Seq<char>,
    pub item_description: Option<Seq<char>>,
    pub item_type: Seq<char>,
    pub item_usage_type: Option<Seq<char>>,
    pub category: Option<Seq<char>>,
    pub subcategory: Option<Seq<char>>,
    pub brand: Option<Seq<char>>,
    pub model: Option<Seq<char>>,
    pub unit: Option<Seq<char>>,
    pub is_loanable: Option<bool>,
    pub maintenance_required: Option<bool>,
    pub calibration_required: Option<bool>,
    pub replacement_cost: Option<Decimal>,
}

impl View for CreateItem {
    type V = CreateItemView;

    open spec fn view(&self) -> CreateItemView {
        CreateItemView {
            item_code: self.item_code@,
            item_name: self.item_name@,
            item_description: opt_string_view(self.item_description),
            item_type: self.item_type@,
            item_usage_type: opt_string_view(self.item_usage_type),
            category: opt_string_view(self.category),
            subcategory: opt_string_view(self.subcategory),
            brand: opt_string_view(self.brand),
            model: opt_string_view(self.model),
            unit: opt_string_view(self.unit),
            is_loanable: self.is_loanable,
            maintenance_required: self.maintenance_required,
            calibration_required: self.calibration_required,
            replacement_cost: self.replacement_cost,
        }
    }
}

impl Clone for CreateItem {
    fn clone(&self) -> (copy: Self)
        ensures
            copy == *self,
    {
        CreateItem {
            item_code: self.item_code.clone(),
            item_name: self.item_name.clone(),
            item_description: clone_opt_string(&self.item_description),
            item_type: self.item_type.clone(),
            item_usage_type: clone_opt_string(&self.item_usage_type),
            category: clone_opt_string(&self.category),
            subcategory: clone_opt_string(&self.subcategory),
            brand: clone_opt_string(&self.brand),
            model: clone_opt_string(&self.model),
            unit: clone_opt_string(&self.unit),
            is_loanable: self.is_loanable,
            maintenance_required: self.maintenance_required,
            calibration_required: self.calibration_required,
            replacement_cost: self.replacement_cost,
        }
    }
}

/// A sparse change to an item: an absent field is left as stored.
#[derive(Debug, PartialEq, Eq)]
pub struct UpdateItem {
    pub item_name: Option<String>,
    pub item_description: Option<String>,
    pub item_type: Option<String>,
    pub category: Option<String>,
    pub subcategory: Option<String>,
    pub brand: Option<String>,
    pub model: Option<String>,
    pub unit: Option<String>,
    pub replacement_cost: Option<Decimal>,
}

/// What a `UpdateItem` holds, with its texts as sequences of characters.
pub ghost struct UpdateItemView {
    pub item_name: Option<Seq<char>>,
    pub item_description: Option<Seq<char>>,
    pub item_type: Option<Seq<char>>,
    pub category: Option<Seq<char>>,
    pub subcategory: Option<Seq<char>>,
    pub brand: Option<Seq<char>>,
    pub model: Option<Seq<char>>,
    pub unit: Option<Seq<char>>,
    pub replacement_cost: Option<Decimal>,
}

impl View for UpdateItem {
    type V = UpdateItemView;

    open spec fn view(&self) -> UpdateItemView {
        UpdateItemView {
            item_name: opt_string_view(self.item_name),
            item_description: opt_string_view(self.item_description),
            item_type: opt_string_view(self.item_type),
            category: opt_string_view(self.category),
            subcategory: opt_string_view(self.subcategory),
            brand: opt_string_view(self.brand),
            model: opt_string_view(self.model),
            unit: opt_string_view(self.unit),
            replacement_cost: self.replacement_cost,
        }
    }
}

impl Clone for UpdateItem {
    fn clone(&self) -> (copy: Self)
        ensures
            copy == *self,
    {
        UpdateItem {
            item_name: clone_opt_string(&self.item_name),
            item_description: clone_opt_string(&self.item_description),
            item_type: clone_opt_string(&self.item_type),
            category: clone_opt_string(&self.category),
            subcategory: clone_opt_string(&self.subcategory),
            brand: clone_opt_string(&self.brand),
            model: clone_opt_string(&self.model),
            unit: clone_opt_string(&self.unit),
            replacement_cost: self.replacement_cost,
        }
    }
}

impl CreateItemView {
    /// The record that creating from this payload stores under `id` at
    /// time `now` on behalf of `actor`.
    pub open spec fn created(self, id: i32, now: i64, actor: i32) -> ItemView {
        ItemView {
            item_id: id,
            item_code: self.item_code,
            item_name: self.item_name,
            item_description: self.item_description,
            item_type: self.item_type,
            item_usage_type: self.item_usage_type,
            category: self.category,
            subcategory: self.subcategory,
            brand: self.brand,
            model: self.model,
            unit: self.unit,
            weight_kg: None,
            length_cm: None,
            width_cm: None,
            height_cm: None,
            volume_cbm: None,
            is_loanable: or_default(self.is_loanable, false),
            requires_return: false,
            max_loan_duration_days: None,
            replacement_cost: self.replacement_cost,
            maintenance_required: or_default(self.maintenance_required, false),
            calibration_required: or_default(self.calibration_required, false),
            standard_cost: None,
            last_cost: None,
            average_cost: None,
            status: STATUS_ACTIVE@,
            created_at: Some(now),
            updated_at: Some(now),
            created_by: Some(actor),
            updated_by: Some(actor),
        }
    }
}

impl ItemView {
    /// Whether listings and look-ups show the record.
    pub open spec fn is_active(self) -> bool {
        self.status == STATUS_ACTIVE@
    }

    /// This record after `changes` at time `now` on behalf of `actor`:
    /// field by field the changed value where one is named and the stored
    /// one otherwise, with the update stamp always refreshed.
    pub open spec fn merged(self, changes: UpdateItemView, now: i64, actor: i32) -> ItemView {
        ItemView {
            item_id: self.item_id,
            item_code: self.item_code,
            item_name: keep_or(self.item_name, changes.item_name),
            item_description: keep_or_some(self.item_description, changes.item_description),
            item_type: keep_or(self.item_type, changes.item_type),
            item_usage_type: self.item_usage_type,
            category: keep_or_some(self.category, changes.category),
            subcategory: keep_or_some(self.subcategory, changes.subcategory),
            brand: keep_or_some(self.brand, changes.brand),
            model: keep_or_some(self.model, changes.model),
            unit: keep_or_some(self.unit, changes.unit),
            weight_kg: self.weight_kg,
            length_cm: self.length_cm,
            width_cm: self.width_cm,
            height_cm: self.height_cm,
            volume_cbm: self.volume_cbm,
            is_loanable: self.is_loanable,
            requires_return: self.requires_return,
            max_loan_duration_days: self.max_loan_duration_days,
            replacement_cost: keep_or_some(self.replacement_cost, changes.replacement_cost),
            maintenance_required: self.maintenance_required,
            calibration_required: self.calibration_required,
            standard_cost: self.standard_cost,
            last_cost: self.last_cost,
            average_cost: self.average_cost,
            status: self.status,
            created_at: self.created_at,
            updated_at: Some(now),
            created_by: self.created_by,
            updated_by: Some(actor),
        }
    }

    /// This record retired at `now` by `actor`.
    pub open spec fn retired(self, now: i64, actor: i32) -> ItemView {
        ItemView { status: STATUS_INACTIVE@, updated_at: Some(now), updated_by: Some(actor), ..self }
    }
}

impl CreateItem {
    /// The record to store for this payload under `id`, created at `now` on
    /// behalf of `actor`. A flag the payload leaves out is off.
    pub fn into_record(self, id: i32, now: i64, actor: i32) -> (record: Item)
        ensures
            record@ == self@.created(id, now, actor),
    {
        Item {
            item_id: id,
            item_code: self.item_code,
            item_name: self.item_name,
            item_description: self.item_description,
            item_type: self.item_type,
            item_usage_type: self.item_usage_type,
            category: self.category,
            subcategory: self.subcategory,
            brand: self.brand,
            model: self.model,
            unit: self.unit,
            weight_kg: None,
            length_cm: None,
            width_cm: None,
            height_cm: None,
            volume_cbm: None,
            is_loanable: match self.is_loanable { Some(b) => b, None => false },
            requires_return: false,
            max_loan_duration_days: None,
            replacement_cost: self.replacement_cost,
            maintenance_required: match self.maintenance_required { Some(b) => b, None => false },
            calibration_required: match self.calibration_required { Some(b) => b, None => false },
            standard_cost: None,
            last_cost: None,
            average_cost: None,
            status: String::from_str(STATUS_ACTIVE),
            created_at: Some(now),
            updated_at: Some(now),
            created_by: Some(actor),
            updated_by: Some(actor),
        }
    }
}

impl Item {
    /// Whether listings and look-ups show the record.
    pub fn is_active(&self) -> (active: bool)
        ensures
            active == self@.is_active(),
    {
        crate::text::same_text(self.status.as_str(), STATUS_ACTIVE)
    }

    /// Combines this stored record with a sparse change: each field the
    /// change names is overwritten, every other field is kept, and the
    /// update stamp is set to `now` and `actor` even if nothing else moved.
    pub fn merge(self, changes: UpdateItem, now: i64, actor: i32) -> (merged: Item)
        ensures
            merged@ == self@.merged(changes@, now, actor),
    {
        Item {
            item_id: self.item_id,
            item_code: self.item_code,
            item_name: pick_required(self.item_name, changes.item_name),
            item_description: pick(self.item_description, changes.item_description),
            item_type: pick_required(self.item_type, changes.item_type),
            item_usage_type: self.item_usage_type,
            category: pick(self.category, changes.category),
            subcategory: pick(self.subcategory, changes.subcategory),
            brand: pick(self.brand, changes.brand),
            model: pick(self.model, changes.model),
            unit: pick(self.unit, changes.unit),
            weight_kg: self.weight_kg,
            length_cm: self.length_cm,
            width_cm: self.width_cm,
            height_cm: self.height_cm,
            volume_cbm: self.volume_cbm,
            is_loanable: self.is_loanable,
            requires_return: self.requires_return,
            max_loan_duration_days: self.max_loan_duration_days,
            replacement_cost: pick(self.replacement_cost, changes.replacement_cost),
            maintenance_required: self.maintenance_required,
            calibration_required: self.calibration_required,
            standard_cost: self.standard_cost,
            last_cost: self.last_cost,
            average_cost: self.average_cost,
            status: self.status,
            created_at: self.created_at,
            updated_at: Some(now),
            created_by: self.created_by,
            updated_by: Some(actor),
        }
    }

    /// This record retired at `now` by `actor`: no longer active, with the
    /// update stamp refreshed and nothing else touched.
    pub fn retire(self, now: i64, actor: i32) -> (retired: Item)
        ensures
            retired@ == self@.retired(now, actor),
    {
        Item {
            status: String::from_str(STATUS_INACTIVE),
            updated_at: Some(now),
            updated_by: Some(actor),
            ..self
        }
    }
}

} // verus!
