//! The table behind every repository: stored records of one kind with
//! server-assigned identities, a soft-delete lifecycle, codes that are unique
//! among the active records, and listings that search, rank and page.

use crate::error::{AppError, AppResult};
use crate::models::response::{PaginatedResponse, PaginationMeta, PaginationQuery};
use crate::merge::keep_or;
use crate::repositories::search::{meets, meets_search, needle, needle_of};
use crate::repositories::sorting::{
    column_of, keys_view, positions_below, rank, ranking, SortColumn, SortKey, SortKeyView,
};
use crate::text::{opt_as_str, opt_str_view, opt_string_view, same_text, strs_view};
use crate::utils::{
    is_descending, limit_of, page_of, page_window, validate_pagination, window_end, window_start,
};
use vstd::prelude::*;

verus! {

/// The principal on whose behalf the repositories write.
pub const SYSTEM_USER: i32 = 1;

/// What a table needs to know of a record to keep it: its identity, its
/// code, and whether it is active.
pub ghost struct Head {
    pub id: i32,
    pub code: Seq<char>,
    pub active: bool,
}

/// A kind of record that a table can store.
pub trait Record: View + Sized {
    /// The word for one record of this kind.
    spec fn label_text() -> Seq<char>;

    /// What the table needs to know of the record.
    spec fn head(v: Self::V) -> Head;

    /// The texts a search looks into.
    spec fn searchable_of(v: Self::V) -> Seq<Seq<char>>;

    /// The value by which `column` ranks the record.
    spec fn key_of(v: Self::V, column: SortColumn) -> SortKeyView;

    /// The record retired at `now` by `actor`.
    spec fn retired_of(v: Self::V, now: i64, actor: i32) -> Self::V;

    /// The word for one record of this kind.
    fn label() -> (label: &'static str)
        ensures
            label@ == Self::label_text(),
    ;

    /// The record's identity.
    fn id(&self) -> (id: i32)
        ensures
            id == Self::head(self@).id,
    ;

    /// The record's code.
    fn code(&self) -> (code: &str)
        ensures
            code@ == Self::head(self@).code,
    ;

    /// Whether listings and look-ups show the record.
    fn active(&self) -> (active: bool)
        ensures
            active == Self::head(self@).active,
    ;

    /// The texts a search looks into.
    fn searchable_texts(&self) -> (texts: Vec<&str>)
        ensures
            strs_view(texts@) == Self::searchable_of(self@),
    ;

    /// The value by which `column` ranks the record.
    fn ranked_by(&self, column: SortColumn) -> (key: SortKey)
        ensures
            key@ == Self::key_of(self@, column),
    ;

    /// The record retired at `now` by `actor`.
    fn retired(self, now: i64, actor: i32) -> (retired: Self)
        ensures
            retired@ == Self::retired_of(self@, now, actor),
    ;

    /// A copy of the record.
    fn duplicate(&self) -> (copy: Self)
        ensures
            copy@ == self@,
    ;

    /// Retiring keeps identity and code and ends activity.
    proof fn lemma_retired(v: Self::V, now: i64, actor: i32)
        ensures
            Self::head(Self::retired_of(v, now, actor)) == (Head {
                active: false,
                ..Self::head(v)
            }),
    ;
}

/// A payload from which a record of kind `R` is created.
pub trait Draft<R: Record>: View + Sized {
    /// The code the payload asks for.
    spec fn code_of(v: Self::V) -> Seq<char>;

    /// The record that creating from the payload stores under `id` at time
    /// `now` on behalf of `actor`.
    spec fn created_of(v: Self::V, id: i32, now: i64, actor: i32) -> R::V;

    /// The code the payload asks for.
    fn wanted_code(&self) -> (code: &str)
        ensures
            code@ == Self::code_of(self@),
    ;

    /// The record to store for the payload.
    fn record(self, id: i32, now: i64, actor: i32) -> (record: R)
        ensures
            record@ == Self::created_of(self@, id, now, actor),
    ;

    /// A created record is active under the identity it was given and the
    /// code its payload asked for.
    proof fn lemma_created(v: Self::V, id: i32, now: i64, actor: i32)
        ensures
            R::head(Self::created_of(v, id, now, actor)) == (Head {
                id,
                code: Self::code_of(v),
                active: true,
            }),
    ;
}

/// A sparse change to a record of kind `R`.
pub trait Changes<R: Record>: View + Sized {
    /// The code the change moves the record to, if it moves it.
    spec fn new_code(v: Self::V) -> Option<Seq<char>>;

    /// The activity the change gives the record, if it sets it.
    spec fn new_active(v: Self::V) -> Option<bool>;

    /// The record after the change at time `now` on behalf of `actor`.
    spec fn merged_of(stored: R::V, v: Self::V, now: i64, actor: i32) -> R::V;

    /// The code the change moves the record to, if it moves it.
    fn wanted_code(&self) -> (code: Option<&str>)
        ensures
            opt_str_view(code) == Self::new_code(self@),
    ;

    /// The record after the change.
    fn apply(self, stored: R, now: i64, actor: i32) -> (merged: R)
        ensures
            merged@ == Self::merged_of(stored@, self@, now, actor),
    ;

    /// A change keeps the identity, and keeps code and activity unless it
    /// names new ones.
    proof fn lemma_merged(stored: R::V, v: Self::V, now: i64, actor: i32)
        ensures
            R::head(Self::merged_of(stored, v, now, actor)) == (Head {
                id: R::head(stored).id,
                code: keep_or(R::head(stored).code, Self::new_code(v)),
                active: keep_or(R::head(stored).active, Self::new_active(v)),
            }),
    ;
}

/// Views of a list of records, in order.
pub open spec fn records_view<R: View>(records: Seq<R>) -> Seq<R::V> {
    records.map_values(|r: R| r@)
}

/// View of an optional record.
pub open spec fn opt_record_view<R: View>(record: Option<R>) -> Option<R::V> {
    match record {
        Some(r) => Some(r@),
        None => None,
    }
}

/// How a conflict over a code names what already exists.
pub open spec fn conflict_text<R: Record>() -> Seq<char> {
    R::label_text() + " with this code"@
}

/// What a storage failure over exhausted identities reports.
pub open spec fn exhausted_text<R: Record>() -> Seq<char> {
    R::label_text() + " identities are exhausted"@
}

/// What a storage failure over inconsistent rows reports.
pub open spec fn inconsistent_text<R: Record>() -> Seq<char> {
    "stored rows are inconsistent: "@ + R::label_text()
}

/// Whether row `i` is an active record with identity `id`.
pub open spec fn holds_id<R: Record>(rows: Seq<R::V>, i: int, id: i32) -> bool {
    &&& 0 <= i < rows.len()
    &&& R::head(rows[i]).active
    &&& R::head(rows[i]).id == id
}

/// Whether row `i` is an active record with code `code`, other than the
/// record `exclude`, if one is named.
pub open spec fn holds_code<R: Record>(
    rows: Seq<R::V>,
    i: int,
    code: Seq<char>,
    exclude: Option<i32>,
) -> bool {
    &&& 0 <= i < rows.len()
    &&& R::head(rows[i]).active
    &&& R::head(rows[i]).code == code
    &&& exclude matches Some(id) ==> R::head(rows[i]).id != id
}

/// Where the active record with identity `id` lies, if there is one.
pub open spec fn position_of_id<R: Record>(rows: Seq<R::V>, id: i32) -> Option<int> {
    if exists|i: int| holds_id::<R>(rows, i, id) {
        Some(choose|i: int| holds_id::<R>(rows, i, id))
    } else {
        None
    }
}

/// The active record with identity `id`, if there is one.
pub open spec fn lookup_id<R: Record>(rows: Seq<R::V>, id: i32) -> Option<R::V> {
    match position_of_id::<R>(rows, id) {
        Some(i) => Some(rows[i]),
        None => None,
    }
}

/// Whether an active record other than `exclude` has code `code`.
pub open spec fn code_taken<R: Record>(rows: Seq<R::V>, code: Seq<char>, exclude: Option<i32>) -> bool {
    exists|i: int| holds_code::<R>(rows, i, code, exclude)
}

/// The active record with code `code`, if there is one.
pub open spec fn lookup_code<R: Record>(rows: Seq<R::V>, code: Seq<char>) -> Option<R::V> {
    if code_taken::<R>(rows, code, None) {
        Some(rows[choose|i: int| holds_code::<R>(rows, i, code, None)])
    } else {
        None
    }
}

/// What holds of every table: identities are positive, were issued, and
/// grow with the position; no two active records share a code.
pub open spec fn consistent<R: Record>(rows: Seq<R::V>, issued: i32) -> bool {
    &&& 0 <= issued
    &&& rows.len() <= issued
    &&& forall|i: int| 0 <= i < rows.len() ==> 1 <= R::head(#[trigger] rows[i]).id <= issued
    &&& forall|i: int, j: int|
        0 <= i < j < rows.len() ==> R::head(#[trigger] rows[i]).id < R::head(#[trigger] rows[j]).id
    &&& forall|i: int, j: int|
        0 <= i < rows.len() && 0 <= j < rows.len() && i != j && R::head(#[trigger] rows[i]).active
            && R::head(#[trigger] rows[j]).active ==> R::head(rows[i]).code != R::head(
            rows[j],
        ).code
}

/// The number of identities that a table's rows show as issued: the
/// identity of its last row.
pub open spec fn last_issued<R: Record>(rows: Seq<R::V>) -> i32 {
    if rows.len() == 0 {
        0
    } else {
        R::head(rows.last()).id
    }
}

/// Whether rows can be taken for a table as they stand.
pub open spec fn loadable<R: Record>(rows: Seq<R::V>) -> bool {
    consistent::<R>(rows, last_issued::<R>(rows))
}

/// Whether a listing under this search shows the record.
pub open spec fn is_listed<R: Record>(v: R::V, needle: Option<Seq<char>>) -> bool {
    R::head(v).active && meets(R::searchable_of(v), needle)
}

/// The positions below `n` of the records that a listing under this search
/// shows, in order of creation.
pub open spec fn listed_positions<R: Record>(rows: Seq<R::V>, needle: Option<Seq<char>>, n: nat) -> Seq<
    usize,
>
    decreases n,
{
    if n == 0 {
        Seq::empty()
    } else if is_listed::<R>(rows[n - 1], needle) {
        listed_positions::<R>(rows, needle, (n - 1) as nat).push((n - 1) as usize)
    } else {
        listed_positions::<R>(rows, needle, (n - 1) as nat)
    }
}

/// The sort keys of the records at `positions`.
pub open spec fn keys_at<R: Record>(rows: Seq<R::V>, positions: Seq<usize>, column: SortColumn) -> Seq<
    SortKeyView,
> {
    Seq::new(positions.len(), |k: int| R::key_of(rows[positions[k] as int], column))
}

/// How many records a listing under `query` ranges over: the active ones
/// that meet its search.
pub open spec fn listed_total<R: Record>(rows: Seq<R::V>, query: PaginationQuery) -> nat {
    listed_positions::<R>(rows, needle_of(opt_string_view(query.search)), rows.len()).len()
}

/// The page of records that `query` obtains: the active records that meet
/// its search, ranked by its column (by `default` unless it names one) in
/// its direction, cut to the stretch of its page.
pub open spec fn listing<R: Record>(rows: Seq<R::V>, query: PaginationQuery, default: SortColumn) -> Seq<
    R::V,
> {
    let positions = listed_positions::<R>(
        rows,
        needle_of(opt_string_view(query.search)),
        rows.len(),
    );
    let order = ranking(
        keys_at::<R>(rows, positions, column_of(opt_string_view(query.sort_by), default)),
        is_descending(opt_string_view(query.sort_order)),
    );
    let start = window_start(positions.len() as int, page_of(query.page), limit_of(query.limit));
    let end = window_end(positions.len() as int, page_of(query.page), limit_of(query.limit));
    Seq::new((end - start) as nat, |k: int| rows[positions[order[start + k] as int] as int])
}

/// What listing under `query` answers: the page it obtains, with the
/// figures that locate the page in the whole listing.
pub open spec fn list_outcome<R: Record>(
    rows: Seq<R::V>,
    query: PaginationQuery,
    default: SortColumn,
    result: AppResult<PaginatedResponse<R>>,
) -> bool {
    &&& result matches Ok(page)
    &&& records_view(page.data@) == listing::<R>(rows, query, default)
    &&& page.pagination == PaginationMeta::of(
        listed_total::<R>(rows, query) as i64,
        page_of(query.page) as i64,
        limit_of(query.limit) as i64,
    )
}

/// What creating from `payload` at `now` does to a table and returns: a
/// conflict if an active record has the code, a storage failure if no
/// identity is left, and otherwise the new record, stored last under the next
/// identity.
pub open spec fn create_outcome<R: Record, D: Draft<R>>(
    before: Seq<R::V>,
    issued_before: i32,
    payload: D::V,
    now: i64,
    actor: i32,
    result: AppResult<R>,
    after: Seq<R::V>,
    issued_after: i32,
) -> bool {
    if code_taken::<R>(before, D::code_of(payload), None) {
        &&& result matches Err(AppError::AlreadyExists { resource })
        &&& resource@ == conflict_text::<R>()
        &&& after == before
        &&& issued_after == issued_before
    } else if issued_before == i32::MAX {
        &&& result matches Err(AppError::Database(detail))
        &&& detail@ == exhausted_text::<R>()
        &&& after == before
        &&& issued_after == issued_before
    } else {
        &&& result matches Ok(record)
        &&& record@ == D::created_of(payload, (issued_before + 1) as i32, now, actor)
        &&& after == before.push(record@)
        &&& issued_after == issued_before + 1
    }
}

/// What applying `changes` to the record `id` at `now` does to a table and
/// returns: nothing where no active record has the identity, a conflict
/// where the changes name a code that another active record holds, and
/// otherwise the merged record, stored in place of the old one.
pub open spec fn update_outcome<R: Record, C: Changes<R>>(
    before: Seq<R::V>,
    id: i32,
    changes: C::V,
    now: i64,
    actor: i32,
    result: AppResult<Option<R>>,
    after: Seq<R::V>,
) -> bool {
    match position_of_id::<R>(before, id) {
        None => result matches Ok(None) && after == before,
        Some(i) => if C::new_code(changes) matches Some(code) && code_taken::<R>(
            before,
            code,
            Some(id),
        ) {
            &&& result matches Err(AppError::AlreadyExists { resource })
            &&& resource@ == conflict_text::<R>()
            &&& after == before
        } else {
            &&& result matches Ok(Some(record))
            &&& record@ == C::merged_of(before[i], changes, now, actor)
            &&& after == before.update(i, record@)
        },
    }
}

/// What deleting the record `id` at `now` does to a table and returns:
/// the active record with that identity is retired in place and the answer
/// is yes; where there is none, nothing changes and the answer is no.
pub open spec fn delete_outcome<R: Record>(
    before: Seq<R::V>,
    id: i32,
    now: i64,
    actor: i32,
    result: AppResult<bool>,
    after: Seq<R::V>,
) -> bool {
    match position_of_id::<R>(before, id) {
        None => result matches Ok(false) && after == before,
        Some(i) => result matches Ok(true) && after == before.update(
            i,
            R::retired_of(before[i], now, actor),
        ),
    }
}

/// What taking stored rows for a table returns: the table that holds them,
/// if they are consistent, and a refusal of them all otherwise.
pub open spec fn load_outcome<R: Record>(rows: Seq<R::V>, result: AppResult<Table<R>>) -> bool {
    match result {
        Ok(table) => {
            &&& loadable::<R>(rows)
            &&& table.wf()
            &&& table@ == rows
            &&& table.issued() == last_issued::<R>(rows)
        },
        Err(e) => {
            &&& !loadable::<R>(rows)
            &&& e matches AppError::Internal(detail)
            &&& detail@ == inconsistent_text::<R>()
        },
    }
}

/// In a consistent table at most one row is the active record of an
/// identity.
pub proof fn lemma_position_of_id<R: Record>(rows: Seq<R::V>, issued: i32, i: int, id: i32)
    requires
        consistent::<R>(rows, issued),
        holds_id::<R>(rows, i, id),
    ensures
        position_of_id::<R>(rows, id) == Some(i),
        lookup_id::<R>(rows, id) == Some(rows[i]),
{
    let c = choose|c: int| holds_id::<R>(rows, c, id);
    assert(holds_id::<R>(rows, c, id));
    if c < i {
        assert(R::head(rows[c]).id < R::head(rows[i]).id);
    } else if i < c {
        assert(R::head(rows[i]).id < R::head(rows[c]).id);
    }
}

/// In a consistent table at most one row is the active record of a code.
pub proof fn lemma_lookup_code<R: Record>(rows: Seq<R::V>, issued: i32, i: int, code: Seq<char>)
    requires
        consistent::<R>(rows, issued),
        holds_code::<R>(rows, i, code, None),
    ensures
        lookup_code::<R>(rows, code) == Some(rows[i]),
{
    let c = choose|c: int| holds_code::<R>(rows, c, code, None);
    assert(holds_code::<R>(rows, c, code, None));
    if c != i {
        assert(R::head(rows[c]).code != R::head(rows[i]).code);
    }
}

/// Replacing one row by a row with the same identity, and with a code that
/// no other active row holds, keeps a table consistent.
pub proof fn lemma_update_consistent<R: Record>(rows: Seq<R::V>, issued: i32, at: int, row: R::V)
    requires
        consistent::<R>(rows, issued),
        0 <= at < rows.len(),
        R::head(row).id == R::head(rows[at]).id,
        R::head(row).active ==> forall|j: int|
            0 <= j < rows.len() && j != at && R::head(#[trigger] rows[j]).active ==> R::head(
                rows[j],
            ).code != R::head(row).code,
    ensures
        consistent::<R>(rows.update(at, row), issued),
{
    let after = rows.update(at, row);
    assert forall|i: int| 0 <= i < after.len() implies 1 <= R::head(#[trigger] after[i]).id
        <= issued by {
        assert(1 <= R::head(rows[i]).id <= issued);
    }
    assert forall|i: int, j: int| 0 <= i < j < after.len() implies R::head(
        #[trigger] after[i],
    ).id < R::head(#[trigger] after[j]).id by {
        assert(R::head(rows[i]).id < R::head(rows[j]).id);
    }
    assert forall|i: int, j: int|
        0 <= i < after.len() && 0 <= j < after.len() && i != j && R::head(
            #[trigger] after[i],
        ).active && R::head(#[trigger] after[j]).active implies R::head(after[i]).code != R::head(
        after[j],
    ).code by {
        if i == at {
            assert(R::head(rows[j]).active);
        } else if j == at {
            assert(R::head(rows[i]).active);
        } else {
            assert(R::head(rows[i]).code != R::head(rows[j]).code);
        }
    }
}

/// The stored records of one kind.
pub struct Table<R> {
    rows: Vec<R>,
    issued: i32,
}

impl<R: Record> View for Table<R> {
    type V = Seq<R::V>;

    /// Every record ever stored, retired ones included, in order of creation.
    closed spec fn view(&self) -> Seq<R::V> {
        records_view(self.rows@)
    }
}

impl<R: Record> Table<R> {
    /// The number of identities issued so far; the next record gets the one
    /// after.
    pub closed spec fn issued(&self) -> i32 {
        self.issued
    }

    /// Whether the table is consistent.
    pub open spec fn wf(&self) -> bool {
        consistent::<R>(self@, self.issued())
    }

    /// An empty table.
    pub fn new() -> (table: Self)
        ensures
            table.wf(),
            table@ == Seq::<R::V>::empty(),
            table.issued() == 0,
    {
        let table = Table { rows: Vec::new(), issued: 0 };
        assert(table@ =~= Seq::<R::V>::empty());
        table
    }

    /// Takes stored rows for a table, if they are consistent: identities
    /// positive and growing, no code shared between two active records.
    /// Rows that are not are refused as a whole.
    pub fn load(rows: Vec<R>) -> (result: AppResult<Self>)
        ensures
            load_outcome::<R>(records_view(rows@), result),
    {
        let ghost view = records_view(rows@);
        let mut b: usize = 0;
        while b < rows.len()
            invariant
                b <= rows.len(),
                view == records_view(rows@),
                forall|k: int| 0 <= k < b ==> R::head(#[trigger] view[k]).id >= k + 1,
                forall|i: int, j: int|
                    0 <= i < j < b ==> R::head(#[trigger] view[i]).id < R::head(
                        #[trigger] view[j],
                    ).id,
                forall|i: int, j: int|
                    0 <= i < b && 0 <= j < b && i != j && R::head(#[trigger] view[i]).active
                        && R::head(#[trigger] view[j]).active ==> R::head(view[i]).code != R::head(
                        view[j],
                    ).code,
            decreases rows.len() - b,
        {
            assert(view[b as int] == rows[b as int]@);
            let grows = if b == 0 {
                rows[b].id() >= 1
            } else {
                assert(view[b - 1] == rows[b - 1]@);
                rows[b].id() > rows[b - 1].id()
            };
            if !grows {
                proof {
                    if loadable::<R>(view) {
                        if b == 0 {
                            assert(1 <= R::head(view[0]).id);
                        } else {
                            assert(R::head(view[b - 1]).id < R::head(view[b as int]).id);
                        }
                    }
                }
                return Err(AppError::Internal(Self::inconsistent()));
            }
            if rows[b].active() {
                let mut a: usize = 0;
                while a < b
                    invariant
                        a <= b < rows.len(),
                        view == records_view(rows@),
                        R::head(view[b as int]).active,
                        forall|i: int|
                            0 <= i < a && R::head(#[trigger] view[i]).active ==> R::head(
                                view[i],
                            ).code != R::head(view[b as int]).code,
                    decreases b - a,
                {
                    assert(view[a as int] == rows[a as int]@);
                    assert(view[b as int] == rows[b as int]@);
                    if rows[a].active() && same_text(rows[a].code(), rows[b].code()) {
                        proof {
                            if loadable::<R>(view) {
                                assert(R::head(view[a as int]).code != R::head(
                                    view[b as int],
                                ).code);
                            }
                        }
                        return Err(AppError::Internal(Self::inconsistent()));
                    }
                    a += 1;
                }
            }
            proof {
                assert forall|i: int, j: int| 0 <= i < j < b + 1 implies R::head(
                    #[trigger] view[i],
                ).id < R::head(#[trigger] view[j]).id by {
                    if j == b && i < b - 1 {
                        assert(R::head(view[i]).id < R::head(view[b - 1]).id);
                    }
                }
            }
            b += 1;
        }
        let issued: i32 = if rows.len() == 0 {
            0
        } else {
            rows[rows.len() - 1].id()
        };
        proof {
            if rows.len() > 0 {
                assert(view[rows.len() - 1] == rows[rows.len() - 1]@);
                assert(view.last() == view[rows.len() - 1]);
                assert forall|i: int| 0 <= i < view.len() implies 1 <= R::head(
                    #[trigger] view[i],
                ).id <= issued by {
                    assert(R::head(view[i]).id >= i + 1);
                    if i < rows.len() - 1 {
                        assert(R::head(view[i]).id < R::head(view[rows.len() - 1]).id);
                    }
                }
            }
        }
        Ok(Table { rows, issued })
    }

    /// How a conflict over a code names what already exists.
    pub fn conflict() -> (text: String)
        ensures
            text@ == conflict_text::<R>(),
    {
        String::from_str(R::label()).concat(" with this code")
    }

    fn inconsistent() -> (text: String)
        ensures
            text@ == inconsistent_text::<R>(),
    {
        String::from_str("stored rows are inconsistent: ").concat(R::label())
    }

    fn find_id(&self, id: i32) -> (at: Option<usize>)
        requires
            self.wf(),
        ensures
            match at {
                Some(i) => holds_id::<R>(self@, i as int, id) && position_of_id::<R>(self@, id)
                    == Some(i as int),
                None => position_of_id::<R>(self@, id) is None,
            },
    {
        let mut i: usize = 0;
        while i < self.rows.len()
            invariant
                i <= self.rows.len(),
                self.wf(),
                forall|k: int| 0 <= k < i ==> !holds_id::<R>(self@, k, id),
            decreases self.rows.len() - i,
        {
            assert(self@[i as int] == self.rows[i as int]@);
            if self.rows[i].active() && self.rows[i].id() == id {
                proof {
                    lemma_position_of_id::<R>(self@, self.issued(), i as int, id);
                }
                return Some(i);
            }
            i += 1;
        }
        None
    }

    fn find_code(&self, code: &str, exclude: Option<i32>) -> (at: Option<usize>)
        ensures
            match at {
                Some(i) => holds_code::<R>(self@, i as int, code@, exclude),
                None => !code_taken::<R>(self@, code@, exclude),
            },
    {
        let mut i: usize = 0;
        while i < self.rows.len()
            invariant
                i <= self.rows.len(),
                forall|k: int| 0 <= k < i ==> !holds_code::<R>(self@, k, code@, exclude),
            decreases self.rows.len() - i,
        {
            assert(self@[i as int] == self.rows[i as int]@);
            let other = match exclude {
                Some(id) => self.rows[i].id() != id,
                None => true,
            };
            if self.rows[i].active() && other && same_text(self.rows[i].code(), code) {
                return Some(i);
            }
            i += 1;
        }
        None
    }

    /// The active record with identity `id`, if any. Absence is a normal
    /// outcome.
    pub fn get_by_id(&self, id: i32) -> (result: AppResult<Option<R>>)
        requires
            self.wf(),
        ensures
            result matches Ok(found) && opt_record_view(found) == lookup_id::<R>(self@, id),
    {
        match self.find_id(id) {
            Some(i) => {
                assert(self@[i as int] == self.rows[i as int]@);
                Ok(Some(self.rows[i].duplicate()))
            },
            None => Ok(None),
        }
    }

    /// The active record with code `code`, if any.
    pub fn get_by_code(&self, code: &str) -> (result: AppResult<Option<R>>)
        requires
            self.wf(),
        ensures
            result matches Ok(found) && opt_record_view(found) == lookup_code::<R>(self@, code@),
    {
        match self.find_code(code, None) {
            Some(i) => {
                proof {
                    assert(self@[i as int] == self.rows[i as int]@);
                    lemma_lookup_code::<R>(self@, self.issued(), i as int, code@);
                }
                Ok(Some(self.rows[i].duplicate()))
            },
            None => Ok(None),
        }
    }

    /// Whether an active record other than `exclude_id` has this code.
    pub fn code_exists(&self, code: &str, exclude_id: Option<i32>) -> (result: AppResult<bool>)
        ensures
            result matches Ok(exists) && exists == code_taken::<R>(self@, code@, exclude_id),
    {
        Ok(self.find_code(code, exclude_id).is_some())
    }

    /// Lists records with pagination, ranked by `default` unless the query
    /// names a column. Every input is brought into range, none is rejected.
    pub fn list(&self, pagination: PaginationQuery, default: SortColumn) -> (result: AppResult<
        PaginatedResponse<R>,
    >)
        requires
            self.wf(),
        ensures
            list_outcome::<R>(self@, pagination, default, result),
    {
        let (page, limit) = validate_pagination(&pagination);
        let wanted = needle(&pagination.search);
        let column = SortColumn::parse(opt_as_str(&pagination.sort_by), default);
        let descending = match &pagination.sort_order {
            Some(o) => same_text(o.as_str(), "DESC") || same_text(o.as_str(), "desc"),
            None => false,
        };
        let ghost rows = self@;
        let ghost nv = opt_string_view(wanted);
        let mut positions: Vec<usize> = Vec::new();
        let mut keys: Vec<SortKey> = Vec::new();
        let mut i: usize = 0;
        while i < self.rows.len()
            invariant
                i <= self.rows.len(),
                rows == self@,
                nv == opt_string_view(wanted),
                positions@ == listed_positions::<R>(rows, nv, i as nat),
                positions.len() <= i,
                keys.len() == positions.len(),
                forall|k: int| 0 <= k < positions.len() ==> (#[trigger] positions[k]) < i,
                forall|k: int|
                    0 <= k < keys.len() ==> (#[trigger] keys[k])@ == R::key_of(
                        rows[positions[k] as int],
                        column,
                    ),
            decreases self.rows.len() - i,
        {
            assert(rows[i as int] == self.rows[i as int]@);
            if self.rows[i].active() {
                let texts = self.rows[i].searchable_texts();
                if meets_search(&texts, &wanted) {
                    positions.push(i);
                    keys.push(self.rows[i].ranked_by(column));
                }
            }
            i += 1;
        }
        assert(keys_view(keys@) =~= keys_at::<R>(rows, positions@, column));
        let order = rank(&keys, descending);
        let total = positions.len();
        let (start, end) = page_window(total, page, limit);
        let mut data: Vec<R> = Vec::new();
        let mut k: usize = start;
        while k < end
            invariant
                start <= k <= end <= total,
                total == positions.len(),
                order.len() == total,
                rows == self@,
                rows.len() == self.rows.len(),
                positions_below(order@, total as int),
                forall|m: int| 0 <= m < positions.len() ==> (#[trigger] positions[m]) < rows.len(),
                data.len() == k - start,
                forall|m: int|
                    0 <= m < data.len() ==> (#[trigger] data[m])@ == rows[positions[order[start
                        + m] as int] as int],
            decreases end - k,
        {
            let at = positions[order[k]];
            assert(rows[at as int] == self.rows[at as int]@);
            data.push(self.rows[at].duplicate());
            k += 1;
        }
        assert(records_view(data@) =~= listing::<R>(rows, pagination, default));
        Ok(PaginatedResponse::new(data, total as i64, page, limit))
    }

    /// Creates a record from `payload` at time `now` on behalf of `actor`.
    pub fn create_at<D: Draft<R>>(&mut self, payload: D, now: i64, actor: i32) -> (result: AppResult<R>)
        requires
            old(self).wf(),
        ensures
            final(self).wf(),
            create_outcome::<R, D>(
                old(self)@,
                old(self).issued(),
                payload@,
                now,
                actor,
                result,
                final(self)@,
                final(self).issued(),
            ),
    {
        if self.find_code(payload.wanted_code(), None).is_some() {
            return Err(AppError::AlreadyExists { resource: Self::conflict() });
        }
        if self.issued == i32::MAX {
            return Err(
                AppError::Database(String::from_str(R::label()).concat(" identities are exhausted")),
            );
        }
        let id: i32 = self.issued + 1;
        let ghost before = self@;
        let ghost draft = payload@;
        let record = payload.record(id, now, actor);
        let stored = record.duplicate();
        self.rows.push(stored);
        self.issued = id;
        proof {
            D::lemma_created(draft, id, now, actor);
            assert(self@ =~= before.push(record@));
            assert forall|i: int, j: int|
                0 <= i < self@.len() && 0 <= j < self@.len() && i != j && R::head(
                    #[trigger] self@[i],
                ).active && R::head(#[trigger] self@[j]).active implies R::head(self@[i]).code
                != R::head(self@[j]).code by {
                if i == before.len() {
                    assert(!holds_code::<R>(before, j, D::code_of(draft), None));
                } else if j == before.len() {
                    assert(!holds_code::<R>(before, i, D::code_of(draft), None));
                } else {
                    assert(R::head(before[i]).code != R::head(before[j]).code);
                }
            }
            assert forall|i: int, j: int| 0 <= i < j < self@.len() implies R::head(
                #[trigger] self@[i],
            ).id < R::head(#[trigger] self@[j]).id by {
                if j == before.len() {
                    assert(1 <= R::head(before[i]).id <= id - 1);
                } else {
                    assert(R::head(before[i]).id < R::head(before[j]).id);
                }
            }
            assert forall|i: int| 0 <= i < self@.len() implies 1 <= R::head(
                #[trigger] self@[i],
            ).id <= id by {
                if i < before.len() {
                    assert(1 <= R::head(before[i]).id <= id - 1);
                }
            }
        }
        Ok(record)
    }

    /// Applies `changes` to the record `id` at time `now` on behalf of
    /// `actor`.
    pub fn apply_at<C: Changes<R>>(&mut self, id: i32, changes: C, now: i64, actor: i32) -> (result: AppResult<
        Option<R>,
    >)
        requires
            old(self).wf(),
        ensures
            final(self).wf(),
            final(self).issued() == old(self).issued(),
            update_outcome::<R, C>(old(self)@, id, changes@, now, actor, result, final(self)@),
    {
        let at = match self.find_id(id) {
            Some(i) => i,
            None => {
                return Ok(None);
            },
        };
        let taken = match changes.wanted_code() {
            Some(code) => self.find_code(code, Some(id)).is_some(),
            None => false,
        };
        if taken {
            return Err(AppError::AlreadyExists { resource: Self::conflict() });
        }
        let ghost before = self@;
        let ghost asked = changes@;
        assert(before[at as int] == self.rows[at as int]@);
        let merged = changes.apply(self.rows[at].duplicate(), now, actor);
        let stored = merged.duplicate();
        self.rows.set(at, stored);
        proof {
            C::lemma_merged(before[at as int], asked, now, actor);
            assert(self@ =~= before.update(at as int, merged@));
            assert forall|j: int|
                0 <= j < before.len() && j != at && R::head(
                    #[trigger] before[j],
                ).active implies R::head(before[j]).code != R::head(merged@).code by {
                if at < j {
                    assert(R::head(before[at as int]).id < R::head(before[j]).id);
                } else {
                    assert(R::head(before[j]).id < R::head(before[at as int]).id);
                }
                match C::new_code(asked) {
                    Some(code) => {
                        assert(!holds_code::<R>(before, j, code, Some(id)));
                    },
                    None => {
                        assert(R::head(before[at as int]).code != R::head(before[j]).code);
                    },
                }
            }
            lemma_update_consistent::<R>(before, self.issued(), at as int, merged@);
        }
        Ok(Some(merged))
    }

    /// Retires the record `id` at time `now` on behalf of `actor`. The
    /// answer tells whether a record was retired.
    pub fn delete_at(&mut self, id: i32, now: i64, actor: i32) -> (result: AppResult<bool>)
        requires
            old(self).wf(),
        ensures
            final(self).wf(),
            final(self).issued() == old(self).issued(),
            delete_outcome::<R>(old(self)@, id, now, actor, result, final(self)@),
    {
        let at = match self.find_id(id) {
            Some(i) => i,
            None => {
                return Ok(false);
            },
        };
        let ghost before = self@;
        assert(before[at as int] == self.rows[at as int]@);
        let retired = self.rows[at].duplicate().retired(now, actor);
        proof {
            R::lemma_retired(before[at as int], now, actor);
            lemma_update_consistent::<R>(before, self.issued(), at as int, retired@);
        }
        self.rows.set(at, retired);
        assert(self@ =~= before.update(at as int, R::retired_of(before[at as int], now, actor)));
        Ok(true)
    }
}

} // verus!
