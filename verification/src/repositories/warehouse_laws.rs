//! What holds of warehouses as they are created and changed.

use crate::models::warehouse::{CreateWarehouseView, WarehouseChangesView, WarehouseView};
use vstd::prelude::*;

verus! {

/// A created record equals its payload on every field the payload supplies,
/// with identity, activity and both time stamps assigned.
pub proof fn created_record_keeps_payload(payload: CreateWarehouseView, id: i32, now: i64, actor: i32)
    ensures
        ({
            let record = payload.created(id, now, actor);
            &&& record.warehouse_id == id
            &&& record.warehouse_code == payload.warehouse_code
            &&& record.warehouse_name == payload.warehouse_name
            &&& record.warehouse_type == payload.warehouse_type
            &&& record.address == payload.address
            &&& record.city == payload.city
            &&& record.state == payload.state
            &&& record.postal_code == payload.postal_code
            &&& payload.country is Some ==> record.country == payload.country
            &&& record.phone == payload.phone
            &&& record.email == payload.email
            &&& record.manager_user_id == payload.manager_user_id
            &&& payload.timezone is Some ==> record.timezone == payload.timezone
            &&& record.is_active
            &&& record.created_at == Some(now)
            &&& record.updated_at == Some(now)
            &&& record.created_by == Some(actor)
        }),
{
}

/// A merge keeps every field that the changes leave out, and refreshes the
/// update stamp whether or not anything else moved.
pub proof fn merge_keeps_absent_fields(
    stored: WarehouseView,
    changes: WarehouseChangesView,
    now: i64,
    actor: i32,
)
    ensures
        ({
            let merged = stored.merged(changes, now, actor);
            &&& merged.warehouse_id == stored.warehouse_id
            &&& merged.created_at == stored.created_at
            &&& merged.created_by == stored.created_by
            &&& merged.updated_at == Some(now)
            &&& merged.updated_by == Some(actor)
            &&& changes.warehouse_code is None ==> merged.warehouse_code == stored.warehouse_code
            &&& changes.warehouse_name is None ==> merged.warehouse_name == stored.warehouse_name
            &&& changes.warehouse_type is None ==> merged.warehouse_type == stored.warehouse_type
            &&& changes.address is None ==> merged.address == stored.address
            &&& changes.city is None ==> merged.city == stored.city
            &&& changes.state is None ==> merged.state == stored.state
            &&& changes.postal_code is None ==> merged.postal_code == stored.postal_code
            &&& changes.country is None ==> merged.country == stored.country
            &&& changes.phone is None ==> merged.phone == stored.phone
            &&& changes.email is None ==> merged.email == stored.email
            &&& changes.manager_user_id is None ==> merged.manager_user_id
                == stored.manager_user_id
            &&& changes.timezone is None ==> merged.timezone == stored.timezone
            &&& changes.is_active is None ==> merged.is_active == stored.is_active
            &&& changes.warehouse_name matches Some(name) ==> merged.warehouse_name == name
            &&& changes.city is Some ==> merged.city == changes.city
        }),
{
}

} // verus!
