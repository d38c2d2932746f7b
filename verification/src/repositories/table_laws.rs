//! What holds of every table across its operations, whatever the kind of
//! record it stores.

use crate::error::{AppError, AppResult};
use crate::models::response::PaginationQuery;
use crate::repositories::search::needle_of;
use crate::repositories::sorting::{
    column_of, lemma_ranking_shape, ranking, ranking_is_distinct, SortColumn,
};
use crate::repositories::table::{
    code_taken, consistent, create_outcome, delete_outcome, holds_code, holds_id, is_listed,
    keys_at, lemma_lookup_code, lemma_position_of_id, listed_positions, listing, lookup_code,
    lookup_id, position_of_id, update_outcome, Changes, Draft, Record,
};
use crate::text::opt_string_view;
use crate::utils::{is_descending, limit_of, page_of, window_end, window_start};
use vstd::prelude::*;

verus! {

/// A record that was just created is found under the identity it was given,
/// which is the next one, and under the code its payload asked for.
pub proof fn created_record_is_found<R: Record, D: Draft<R>>(
    rows: Seq<R::V>,
    issued: i32,
    payload: D::V,
    now: i64,
    actor: i32,
)
    requires
        consistent::<R>(rows, issued),
        issued < i32::MAX,
        !code_taken::<R>(rows, D::code_of(payload), None),
    ensures
        ({
            let record = D::created_of(payload, (issued + 1) as i32, now, actor);
            let after = rows.push(record);
            &&& R::head(record).id == issued + 1
            &&& R::head(record).code == D::code_of(payload)
            &&& R::head(record).active
            &&& lookup_id::<R>(after, (issued + 1) as i32) == Some(record)
            &&& lookup_code::<R>(after, D::code_of(payload)) == Some(record)
        }),
{
    let id = (issued + 1) as i32;
    let record = D::created_of(payload, id, now, actor);
    let after = rows.push(record);
    let last = rows.len() as int;
    D::lemma_created(payload, id, now, actor);
    assert(after[last] == record);
    assert(holds_id::<R>(after, last, id));
    let c = choose|c: int| holds_id::<R>(after, c, id);
    assert(holds_id::<R>(after, c, id));
    if c != last {
        assert(after[c] == rows[c]);
        assert(R::head(rows[c]).id <= issued);
    }
    assert(holds_code::<R>(after, last, D::code_of(payload), None));
    let d = choose|d: int| holds_code::<R>(after, d, D::code_of(payload), None);
    assert(holds_code::<R>(after, d, D::code_of(payload), None));
    if d != last {
        assert(after[d] == rows[d]);
        assert(holds_code::<R>(rows, d, D::code_of(payload), None));
    }
}

/// Create-then-get round trip: after a successful create, fetching by the
/// identity of the record that came back yields that record, and so does
/// fetching by its code.
pub proof fn create_then_get<R: Record, D: Draft<R>>(
    before: Seq<R::V>,
    issued_before: i32,
    payload: D::V,
    now: i64,
    actor: i32,
    result: AppResult<R>,
    after: Seq<R::V>,
    issued_after: i32,
)
    requires
        consistent::<R>(before, issued_before),
        consistent::<R>(after, issued_after),
        create_outcome::<R, D>(before, issued_before, payload, now, actor, result, after, issued_after),
        result is Ok,
    ensures
        lookup_id::<R>(after, R::head(result->Ok_0@).id) == Some(result->Ok_0@),
        lookup_code::<R>(after, D::code_of(payload)) == Some(result->Ok_0@),
        R::head(result->Ok_0@).id == issued_before + 1,
        R::head(result->Ok_0@).active,
{
    let record = result->Ok_0@;
    let last = before.len() as int;
    D::lemma_created(payload, (issued_before + 1) as i32, now, actor);
    assert(after[last] == record);
    assert(holds_id::<R>(after, last, R::head(record).id));
    lemma_position_of_id::<R>(after, issued_after, last, R::head(record).id);
    assert(holds_code::<R>(after, last, D::code_of(payload), None));
    lemma_lookup_code::<R>(after, issued_after, last, D::code_of(payload));
}

/// Soft-delete idempotence: deleting an active record answers yes and
/// retires it; from then on no active record has its identity, so a second
/// delete answers no and changes nothing, a look-up finds nothing, and the
/// code it held is free for a new record.
pub proof fn retired_record_is_gone<R: Record>(
    rows: Seq<R::V>,
    issued: i32,
    id: i32,
    at: int,
    now: i64,
    later: i64,
    actor: i32,
    again: AppResult<bool>,
    after_again: Seq<R::V>,
)
    requires
        consistent::<R>(rows, issued),
        holds_id::<R>(rows, at, id),
        delete_outcome::<R>(
            rows.update(at, R::retired_of(rows[at], now, actor)),
            id,
            later,
            actor,
            again,
            after_again,
        ),
    ensures
        delete_outcome::<R>(
            rows,
            id,
            now,
            actor,
            Ok(true),
            rows.update(at, R::retired_of(rows[at], now, actor)),
        ),
        again == Ok::<bool, AppError>(false),
        after_again == rows.update(at, R::retired_of(rows[at], now, actor)),
        lookup_id::<R>(after_again, id) is None,
        !code_taken::<R>(after_again, R::head(rows[at]).code, None),
        lookup_code::<R>(after_again, R::head(rows[at]).code) is None,
{
    let after = rows.update(at, R::retired_of(rows[at], now, actor));
    lemma_position_of_id::<R>(rows, issued, at, id);
    R::lemma_retired(rows[at], now, actor);
    assert forall|i: int| !holds_id::<R>(after, i, id) by {
        if holds_id::<R>(after, i, id) {
            assert(i != at);
            assert(after[i] == rows[i]);
            if i < at {
                assert(R::head(rows[i]).id < R::head(rows[at]).id);
            } else {
                assert(R::head(rows[at]).id < R::head(rows[i]).id);
            }
        }
    }
    assert(position_of_id::<R>(after, id) is None);
    assert forall|i: int| !holds_code::<R>(after, i, R::head(rows[at]).code, None) by {
        if holds_code::<R>(after, i, R::head(rows[at]).code, None) {
            assert(i != at);
            assert(after[i] == rows[i]);
            assert(R::head(rows[i]).code != R::head(rows[at]).code);
        }
    }
}

/// Every position among the listed ones lies below `n` and holds a record
/// that the search shows.
pub proof fn lemma_listed_are_listed<R: Record>(rows: Seq<R::V>, needle: Option<Seq<char>>, n: nat)
    requires
        n <= rows.len() <= usize::MAX,
    ensures
        listed_positions::<R>(rows, needle, n).len() <= n,
        forall|k: int|
            0 <= k < listed_positions::<R>(rows, needle, n).len() ==> {
                &&& (#[trigger] listed_positions::<R>(rows, needle, n)[k]) < n
                &&& is_listed::<R>(rows[listed_positions::<R>(rows, needle, n)[k] as int], needle)
            },
    decreases n,
{
    if n > 0 {
        lemma_listed_are_listed::<R>(rows, needle, (n - 1) as nat);
    }
}

/// A listing shows only active records of the table: a retired record
/// appears on no page of any query.
pub proof fn listing_shows_only_active<R: Record>(
    rows: Seq<R::V>,
    query: PaginationQuery,
    default: SortColumn,
    k: int,
)
    requires
        rows.len() <= usize::MAX,
        0 <= k < listing::<R>(rows, query, default).len(),
    ensures
        R::head(listing::<R>(rows, query, default)[k]).active,
        exists|i: int| 0 <= i < rows.len() && rows[i] == listing::<R>(rows, query, default)[k],
{
    let needle = needle_of(opt_string_view(query.search));
    let positions = listed_positions::<R>(rows, needle, rows.len());
    let keys = keys_at::<R>(rows, positions, column_of(opt_string_view(query.sort_by), default));
    let descending = is_descending(opt_string_view(query.sort_order));
    let order = ranking(keys, descending);
    let start = window_start(positions.len() as int, page_of(query.page), limit_of(query.limit));
    let end = window_end(positions.len() as int, page_of(query.page), limit_of(query.limit));
    lemma_listed_are_listed::<R>(rows, needle, rows.len());
    lemma_ranking_shape(keys, descending);
    assert(0 <= start + k < positions.len());
    let p = order[start + k];
    assert(p < positions.len());
    let i = positions[p as int] as int;
    assert(is_listed::<R>(rows[i], needle));
    assert(listing::<R>(rows, query, default)[k] == rows[i]);
}

/// The listed positions grow: a later entry names a later row.
pub proof fn lemma_listed_grow<R: Record>(rows: Seq<R::V>, needle: Option<Seq<char>>, n: nat)
    requires
        n <= rows.len() <= usize::MAX,
    ensures
        forall|i: int, j: int|
            0 <= i < j < listed_positions::<R>(rows, needle, n).len() ==> (
            #[trigger] listed_positions::<R>(rows, needle, n)[i]) < (#[trigger] listed_positions::<R>(
                rows,
                needle,
                n,
            )[j]),
    decreases n,
{
    if n > 0 {
        lemma_listed_grow::<R>(rows, needle, (n - 1) as nat);
        lemma_listed_are_listed::<R>(rows, needle, (n - 1) as nat);
    }
}

/// A page holds no record twice: two places on a page show records of
/// different identities.
pub proof fn listing_shows_no_record_twice<R: Record>(
    rows: Seq<R::V>,
    issued: i32,
    query: PaginationQuery,
    default: SortColumn,
    k: int,
    m: int,
)
    requires
        consistent::<R>(rows, issued),
        0 <= k < m < listing::<R>(rows, query, default).len(),
    ensures
        R::head(listing::<R>(rows, query, default)[k]).id != R::head(
            listing::<R>(rows, query, default)[m],
        ).id,
{
    let needle = needle_of(opt_string_view(query.search));
    let positions = listed_positions::<R>(rows, needle, rows.len());
    let keys = keys_at::<R>(rows, positions, column_of(opt_string_view(query.sort_by), default));
    let descending = is_descending(opt_string_view(query.sort_order));
    let order = ranking(keys, descending);
    let start = window_start(positions.len() as int, page_of(query.page), limit_of(query.limit));
    lemma_listed_are_listed::<R>(rows, needle, rows.len());
    lemma_listed_grow::<R>(rows, needle, rows.len());
    lemma_ranking_shape(keys, descending);
    ranking_is_distinct(keys, descending);
    let p = order[start + k];
    let q = order[start + m];
    assert(p != q);
    assert(p < positions.len() && q < positions.len());
    let i = positions[p as int] as int;
    let j = positions[q as int] as int;
    if p < q {
        assert(positions[p as int] < positions[q as int]);
        assert(R::head(rows[i]).id < R::head(rows[j]).id);
    } else {
        assert(positions[q as int] < positions[p as int]);
        assert(R::head(rows[j]).id < R::head(rows[i]).id);
    }
    assert(listing::<R>(rows, query, default)[k] == rows[i]);
    assert(listing::<R>(rows, query, default)[m] == rows[j]);
}

/// The code of a retired record is free: on a table that has an identity
/// left, creating a record with that code succeeds and stores it. (A table
/// whose identities are used up refuses every create as a storage failure.)
pub proof fn retired_code_can_be_reused<R: Record, D: Draft<R>>(
    rows: Seq<R::V>,
    issued: i32,
    id: i32,
    at: int,
    now: i64,
    later: i64,
    actor: i32,
    payload: D::V,
    result: AppResult<R>,
    after: Seq<R::V>,
    issued_after: i32,
)
    requires
        consistent::<R>(rows, issued),
        issued < i32::MAX,
        holds_id::<R>(rows, at, id),
        D::code_of(payload) == R::head(rows[at]).code,
        create_outcome::<R, D>(
            rows.update(at, R::retired_of(rows[at], now, actor)),
            issued,
            payload,
            later,
            actor,
            result,
            after,
            issued_after,
        ),
    ensures
        result matches Ok(record) && R::head(record@).code == R::head(rows[at]).code && R::head(
            record@,
        ).active && R::head(record@).id == issued + 1,
        after == rows.update(at, R::retired_of(rows[at], now, actor)).push(result->Ok_0@),
{
    let retired = rows.update(at, R::retired_of(rows[at], now, actor));
    R::lemma_retired(rows[at], now, actor);
    assert forall|i: int| !holds_code::<R>(retired, i, R::head(rows[at]).code, None) by {
        if holds_code::<R>(retired, i, R::head(rows[at]).code, None) {
            assert(i != at);
            assert(retired[i] == rows[i]);
            assert(R::head(rows[i]).code != R::head(rows[at]).code);
        }
    }
    D::lemma_created(payload, (issued + 1) as i32, later, actor);
}

/// A page holds no more records than the page size the query obtains, which
/// is at most the largest page size.
pub proof fn listing_fits_the_page<R: Record>(rows: Seq<R::V>, query: PaginationQuery, default: SortColumn)
    ensures
        listing::<R>(rows, query, default).len() <= limit_of(query.limit) <= crate::utils::MAX_LIMIT,
{
}

/// A retired record appears on no page of any listing.
pub proof fn retired_record_is_not_listed<R: Record>(
    rows: Seq<R::V>,
    issued: i32,
    id: i32,
    at: int,
    now: i64,
    actor: i32,
    query: PaginationQuery,
    default: SortColumn,
    k: int,
)
    requires
        consistent::<R>(rows, issued),
        holds_id::<R>(rows, at, id),
        0 <= k < listing::<R>(rows.update(at, R::retired_of(rows[at], now, actor)), query, default).len(),
    ensures
        R::head(
            listing::<R>(rows.update(at, R::retired_of(rows[at], now, actor)), query, default)[k],
        ).id != id,
{
    let after = rows.update(at, R::retired_of(rows[at], now, actor));
    let shown = listing::<R>(after, query, default)[k];
    listing_shows_only_active::<R>(after, query, default, k);
    let i = choose|i: int| 0 <= i < after.len() && after[i] == shown;
    R::lemma_retired(rows[at], now, actor);
    if R::head(shown).id == id {
        assert(i != at);
        assert(after[i] == rows[i]);
        if i < at {
            assert(R::head(rows[i]).id < R::head(rows[at]).id);
        } else {
            assert(R::head(rows[at]).id < R::head(rows[i]).id);
        }
    }
}

/// Uniqueness on create: while an active record holds a code, creating
/// another record with that code fails with a conflict and stores nothing.
pub proof fn second_create_conflicts<R: Record, D: Draft<R>>(
    rows: Seq<R::V>,
    issued: i32,
    at: int,
    payload: D::V,
    now: i64,
    actor: i32,
    result: AppResult<R>,
    after: Seq<R::V>,
    issued_after: i32,
)
    requires
        holds_code::<R>(rows, at, D::code_of(payload), None),
        create_outcome::<R, D>(rows, issued, payload, now, actor, result, after, issued_after),
    ensures
        result matches Err(AppError::AlreadyExists { .. }),
        after == rows,
        issued_after == issued,
{
}

/// Creating twice with one code: once the first record is stored, the
/// second create fails with a conflict.
pub proof fn create_twice_conflicts<R: Record, D: Draft<R>>(
    rows: Seq<R::V>,
    issued: i32,
    first: D::V,
    second: D::V,
    now: i64,
    later: i64,
    actor: i32,
    result: AppResult<R>,
    after: Seq<R::V>,
    issued_after: i32,
)
    requires
        issued < i32::MAX,
        D::code_of(first) == D::code_of(second),
        create_outcome::<R, D>(
            rows.push(D::created_of(first, (issued + 1) as i32, now, actor)),
            (issued + 1) as i32,
            second,
            later,
            actor,
            result,
            after,
            issued_after,
        ),
    ensures
        result matches Err(AppError::AlreadyExists { .. }),
        after == rows.push(D::created_of(first, (issued + 1) as i32, now, actor)),
{
    let stored = rows.push(D::created_of(first, (issued + 1) as i32, now, actor));
    D::lemma_created(first, (issued + 1) as i32, now, actor);
    assert(holds_code::<R>(stored, rows.len() as int, D::code_of(second), None));
}

/// Uniqueness on update: moving a record to a code that another active
/// record holds fails with a conflict and changes nothing.
pub proof fn update_to_taken_code_conflicts<R: Record, C: Changes<R>>(
    rows: Seq<R::V>,
    issued: i32,
    at: int,
    other: int,
    changes: C::V,
    now: i64,
    actor: i32,
    result: AppResult<Option<R>>,
    after: Seq<R::V>,
)
    requires
        consistent::<R>(rows, issued),
        holds_id::<R>(rows, at, R::head(rows[at]).id),
        other != at,
        C::new_code(changes) is Some,
        holds_code::<R>(rows, other, C::new_code(changes)->0, None),
        update_outcome::<R, C>(rows, R::head(rows[at]).id, changes, now, actor, result, after),
    ensures
        result matches Err(AppError::AlreadyExists { .. }),
        after == rows,
{
    let id = R::head(rows[at]).id;
    lemma_position_of_id::<R>(rows, issued, at, id);
    if other < at {
        assert(R::head(rows[other]).id < R::head(rows[at]).id);
    } else {
        assert(R::head(rows[at]).id < R::head(rows[other]).id);
    }
    assert(holds_code::<R>(rows, other, C::new_code(changes)->0, Some(id)));
}

/// Self-exclusion on update: moving a record to the code it already has
/// succeeds, for a record does not conflict with itself.
pub proof fn update_to_own_code_succeeds<R: Record, C: Changes<R>>(
    rows: Seq<R::V>,
    issued: i32,
    at: int,
    changes: C::V,
    now: i64,
    actor: i32,
    result: AppResult<Option<R>>,
    after: Seq<R::V>,
)
    requires
        consistent::<R>(rows, issued),
        holds_id::<R>(rows, at, R::head(rows[at]).id),
        C::new_code(changes) == Some(R::head(rows[at]).code),
        update_outcome::<R, C>(rows, R::head(rows[at]).id, changes, now, actor, result, after),
    ensures
        result matches Ok(Some(record)) && record@ == C::merged_of(rows[at], changes, now, actor)
            && R::head(record@).code == R::head(rows[at]).code,
        after == rows.update(at, C::merged_of(rows[at], changes, now, actor)),
{
    let id = R::head(rows[at]).id;
    lemma_position_of_id::<R>(rows, issued, at, id);
    C::lemma_merged(rows[at], changes, now, actor);
    assert forall|i: int| !holds_code::<R>(rows, i, R::head(rows[at]).code, Some(id)) by {
        if holds_code::<R>(rows, i, R::head(rows[at]).code, Some(id)) {
            assert(i != at);
            assert(R::head(rows[i]).code != R::head(rows[at]).code);
        }
    }
}

} // verus!
