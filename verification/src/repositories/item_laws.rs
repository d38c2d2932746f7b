//! What holds of items as they are created and changed.

use crate::models::item::{CreateItemView, ItemView, UpdateItemView};
use vstd::prelude::*;

verus! {

/// A created record equals its payload on every field the payload supplies,
/// with identity, activity and both time stamps assigned.
pub proof fn created_record_keeps_payload(payload: CreateItemView, id: i32, now: i64, actor: i32)
    ensures
        ({
            let record = payload.created(id, now, actor);
            &&& record.item_id == id
            &&& record.item_code == payload.item_code
            &&& record.item_name == payload.item_name
            &&& record.item_description == payload.item_description
            &&& record.item_type == payload.item_type
            &&& record.item_usage_type == payload.item_usage_type
            &&& record.category == payload.category
            &&& record.subcategory == payload.subcategory
            &&& record.brand == payload.brand
            &&& record.model == payload.model
            &&& record.unit == payload.unit
            &&& payload.is_loanable matches Some(flag) ==> record.is_loanable == flag
            &&& payload.maintenance_required matches Some(flag) ==> record.maintenance_required
                == flag
            &&& payload.calibration_required matches Some(flag) ==> record.calibration_required
                == flag
            &&& record.replacement_cost == payload.replacement_cost
            &&& record.is_active()
            &&& record.created_at == Some(now)
            &&& record.updated_at == Some(now)
            &&& record.created_by == Some(actor)
        }),
{
}

/// A merge keeps every field that the changes leave out, and refreshes the
/// update stamp whether or not anything else moved.
pub proof fn merge_keeps_absent_fields(stored: ItemView, changes: UpdateItemView, now: i64, actor: i32)
    ensures
        ({
            let merged = stored.merged(changes, now, actor);
            &&& merged.item_id == stored.item_id
            &&& merged.item_code == stored.item_code
            &&& merged.status == stored.status
            &&& merged.created_at == stored.created_at
            &&& merged.created_by == stored.created_by
            &&& merged.updated_at == Some(now)
            &&& merged.updated_by == Some(actor)
            &&& changes.item_name is None ==> merged.item_name == stored.item_name
            &&& changes.item_description is None ==> merged.item_description
                == stored.item_description
            &&& changes.item_type is None ==> merged.item_type == stored.item_type
            &&& changes.category is None ==> merged.category == stored.category
            &&& changes.subcategory is None ==> merged.subcategory == stored.subcategory
            &&& changes.brand is None ==> merged.brand == stored.brand
            &&& changes.model is None ==> merged.model == stored.model
            &&& changes.unit is None ==> merged.unit == stored.unit
            &&& changes.replacement_cost is None ==> merged.replacement_cost
                == stored.replacement_cost
            &&& changes.item_name matches Some(name) ==> merged.item_name == name
        }),
{
}

} // verus!
