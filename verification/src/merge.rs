//! Partial-update merging, field by field: a change that names a value
//! overwrites, a change that names none leaves the stored value alone.

use vstd::prelude::*;

verus! {

/// The value a field holds after a change: the new one where the change
/// names one, the stored one otherwise.
pub open spec fn keep_or<T>(stored: T, change: Option<T>) -> T {
    match change {
        Some(value) => value,
        None => stored,
    }
}

/// The value a nullable field holds after a change: the new one where the
/// change names one, the stored one otherwise.
pub open spec fn keep_or_some<T>(stored: Option<T>, change: Option<T>) -> Option<T> {
    match change {
        Some(value) => Some(value),
        None => stored,
    }
}

/// The value a defaulted field gets at creation.
pub open spec fn or_default<T>(given: Option<T>, default: T) -> T {
    match given {
        Some(value) => value,
        None => default,
    }
}

/// Picks the changed value of a nullable field, or keeps the stored one.
pub fn pick<T>(stored: Option<T>, change: Option<T>) -> (kept: Option<T>)
    ensures
        kept == keep_or_some(stored, change),
{
    match change {
        Some(value) => Some(value),
        None => stored,
    }
}

/// Picks the changed value of a required field, or keeps the stored one.
pub fn pick_required<T>(stored: T, change: Option<T>) -> (kept: T)
    ensures
        kept == keep_or(stored, change),
{
    match change {
        Some(value) => value,
        None => stored,
    }
}

} // verus!
