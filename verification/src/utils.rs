//! Pagination: the arithmetic of pages shared by every repository, and the
//! clauses that put a sort and a search to the database.

use crate::models::response::PaginationQuery;
use crate::text::{decimal, decimal_text, opt_str_view, same_text, strings_view, strs_view, trim, trimmed};
use vstd::prelude::*;

verus! {

/// Largest page size a caller can obtain.
pub const MAX_LIMIT: i64 = 100;

/// Page size used when the caller names none.
pub const DEFAULT_LIMIT: i64 = 20;

/// The larger of `value` and one.
pub open spec fn at_least_one(value: int) -> int {
    if value < 1 {
        1
    } else {
        value
    }
}

/// The page a query asks for: the one it names, or the first, and never
/// below the first.
pub open spec fn page_of(page: Option<i64>) -> int {
    at_least_one(
        match page {
            Some(p) => p as int,
            None => 1,
        },
    )
}

/// The page size a query obtains: the one it names, or the default, brought
/// into the range from one to the maximum.
pub open spec fn limit_of(limit: Option<i64>) -> int {
    let wanted = at_least_one(
        match limit {
            Some(l) => l as int,
            None => DEFAULT_LIMIT as int,
        },
    );
    if wanted > MAX_LIMIT {
        MAX_LIMIT as int
    } else {
        wanted
    }
}

/// The column a sort request selects: the requested one if it is on the
/// whitelist, the default otherwise.
pub open spec fn sort_column_of(sort_by: Option<Seq<char>>, default_sort: Seq<char>) -> Seq<char> {
    match sort_by {
        Some(s) => if s == "name"@ || s == "code"@ || s == "created_at"@ || s == "updated_at"@ {
            s
        } else {
            default_sort
        },
        None => default_sort,
    }
}

/// Whether a sort request asks for descending order.
pub open spec fn is_descending(sort_order: Option<Seq<char>>) -> bool {
    sort_order == Some("DESC"@) || sort_order == Some("desc"@)
}

/// The direction keyword of a sort request.
pub open spec fn sort_direction_of(sort_order: Option<Seq<char>>) -> Seq<char> {
    if is_descending(sort_order) {
        "DESC"@
    } else {
        "ASC"@
    }
}

/// The ordering clause for a sort request.
pub open spec fn sort_clause_of(
    sort_by: Option<Seq<char>>,
    sort_order: Option<Seq<char>>,
    default_sort: Seq<char>,
) -> Seq<char> {
    "ORDER BY "@ + sort_column_of(sort_by, default_sort) + " "@ + sort_direction_of(sort_order)
}

/// The term a search request looks for: its text without surrounding
/// whitespace, if anything is left.
pub open spec fn search_term_of(search: Option<Seq<char>>) -> Option<Seq<char>> {
    match search {
        Some(s) => if trimmed(s).len() == 0 {
            None
        } else {
            Some(trimmed(s))
        },
        None => None,
    }
}

/// The pattern that matches every text containing `term`.
pub open spec fn search_pattern_of(term: Seq<char>) -> Seq<char> {
    "%"@ + term + "%"@
}

/// The test of one field against the placeholder numbered `position`.
pub open spec fn field_condition_of(field: Seq<char>, position: nat) -> Seq<char> {
    field + " ILIKE $"@ + decimal_text(position)
}

/// The tests of the first `n` fields, joined by `OR`, each against the
/// placeholder of its own position.
pub open spec fn joined_conditions_of(fields: Seq<Seq<char>>, n: nat) -> Seq<char>
    decreases n,
{
    if n == 0 {
        Seq::empty()
    } else if n == 1 {
        field_condition_of(fields[0], 1)
    } else {
        joined_conditions_of(fields, (n - 1) as nat) + " OR "@ + field_condition_of(
            fields[n - 1],
            n,
        )
    }
}

/// The condition a search request puts on `fields`: always true without a
/// term, otherwise the bracketed disjunction of the fields' tests.
pub open spec fn search_clause_of(search: Option<Seq<char>>, fields: Seq<Seq<char>>) -> Seq<char> {
    match search_term_of(search) {
        Some(_) => "("@ + joined_conditions_of(fields, fields.len()) + ")"@,
        None => "TRUE"@,
    }
}

/// The values bound to the placeholders of a search condition: the pattern,
/// once per field, or nothing without a term.
pub open spec fn search_params_of(search: Option<Seq<char>>, fields: Seq<Seq<char>>) -> Seq<
    Seq<char>,
> {
    match search_term_of(search) {
        Some(term) => Seq::new(fields.len(), |i: int| search_pattern_of(term)),
        None => Seq::empty(),
    }
}

/// Number of rows that precede page `page` when pages hold `limit` rows.
/// Pages and limits below one count as one.
pub open spec fn offset_of(page: int, limit: int) -> int {
    if page < 1 {
        0
    } else if limit < 1 {
        page - 1
    } else {
        (page - 1) * limit
    }
}

/// Quotient of `n` by a positive `d`, rounded towards zero.
pub open spec fn quotient_towards_zero(n: int, d: int) -> int {
    if n >= 0 {
        n / d
    } else {
        -((-n) / d)
    }
}

/// Number of pages needed for `total` rows at `limit` rows per page: zero
/// for a limit below one, otherwise `total + limit - 1` divided by `limit`,
/// which is the ceiling of `total / limit` whenever `total` is not negative.
pub open spec fn total_pages_of(total: int, limit: int) -> int {
    if limit <= 0 {
        0
    } else {
        quotient_towards_zero(total + limit - 1, limit)
    }
}

/// Where page `page` starts among `total` rows at `limit` rows per page:
/// at its offset, or at the end if the offset lies beyond.
pub open spec fn window_start(total: int, page: int, limit: int) -> int {
    if offset_of(page, limit) < total {
        offset_of(page, limit)
    } else {
        total
    }
}

/// Where page `page` ends among `total` rows at `limit` rows per page:
/// `limit` rows after its start, or at the end if fewer are left.
pub open spec fn window_end(total: int, page: int, limit: int) -> int {
    if window_start(total, page, limit) + at_least_one(limit) < total {
        window_start(total, page, limit) + at_least_one(limit)
    } else {
        total
    }
}

/// The stretch of a listing of `total` rows that page `page` shows, as the
/// position of its first row and the position after its last.
pub fn page_window(total: usize, page: i64, limit: i64) -> (window: (usize, usize))
    ensures
        window.0 == window_start(total as int, page as int, limit as int),
        window.1 == window_end(total as int, page as int, limit as int),
        window.0 <= window.1 <= total,
{
    let p: u64 = if page < 1 { 0 } else { (page - 1) as u64 };
    let l: u64 = if limit < 1 { 1 } else { limit as u64 };
    let t: u64 = total as u64;
    assert(offset_of(page as int, limit as int) == p * l);
    if p >= t {
        assert(p * l >= t) by (nonlinear_arith)
            requires
                p >= t,
                l >= 1,
        ;
        (total, total)
    } else {
        assert(p * l <= 0xFFFF_FFFF_FFFF_FFFF * 0xFFFF_FFFF_FFFF_FFFF) by (nonlinear_arith)
            requires
                0 <= p <= 0xFFFF_FFFF_FFFF_FFFF,
                0 <= l <= 0xFFFF_FFFF_FFFF_FFFF,
        ;
        let start: u128 = (p as u128) * (l as u128);
        if start >= t as u128 {
            (total, total)
        } else {
            let end: u128 = start + l as u128;
            if end >= t as u128 {
                (start as usize, total)
            } else {
                (start as usize, end as usize)
            }
        }
    }
}

/// Calculate pagination offset.
pub fn calculate_offset(page: i64, limit: i64) -> (offset: i64)
    requires
        offset_of(page as int, limit as int) <= i64::MAX,
    ensures
        offset == offset_of(page as int, limit as int),
        offset >= 0,
{
    let p: i64 = if page < 1 { 1 } else { page };
    let l: i64 = if limit < 1 { 1 } else { limit };
    assert(0 <= (p - 1) * l) by (nonlinear_arith)
        requires
            p >= 1,
            l >= 1,
    ;
    assert((p - 1) * l == offset_of(page as int, limit as int)) by (nonlinear_arith)
        requires
            p == at_least_one(page as int),
            l == at_least_one(limit as int),
            offset_of(page as int, limit as int) == if page < 1 {
                0
            } else if limit < 1 {
                page - 1
            } else {
                (page - 1) * limit
            },
    ;
    (p - 1) * l
}

/// Calculate total pages.
pub fn calculate_total_pages(total: i64, limit: i64) -> (pages: i64)
    ensures
        pages == total_pages_of(total as int, limit as int),
        limit <= 0 ==> pages == 0,
{
    if limit <= 0 {
        0
    } else {
        let n: i128 = total as i128 + limit as i128 - 1;
        let d: i128 = limit as i128;
        proof {
            lemma_quotient_bounds(n as int, d as int);
            lemma_pages_at_most_total(total as int, limit as int);
        }
        if n >= 0 {
            let q: i128 = n / d;
            q as i64
        } else {
            let q: i128 = -((-n) / d);
            q as i64
        }
    }
}

/// Validate pagination parameters: the page and the page size that a query
/// obtains, whatever it asked for.
pub fn validate_pagination(query: &PaginationQuery) -> (normal: (i64, i64))
    ensures
        normal.0 == page_of(query.page),
        normal.1 == limit_of(query.limit),
        normal.0 >= 1,
        1 <= normal.1 <= MAX_LIMIT,
{
    let asked_page: i64 = match query.page {
        Some(p) => p,
        None => 1,
    };
    let asked_limit: i64 = match query.limit {
        Some(l) => l,
        None => DEFAULT_LIMIT,
    };
    let page: i64 = if asked_page < 1 { 1 } else { asked_page };
    let at_least: i64 = if asked_limit < 1 { 1 } else { asked_limit };
    let limit: i64 = if at_least > MAX_LIMIT { MAX_LIMIT } else { at_least };
    (page, limit)
}

/// Build dynamic sort clause for queries.
pub fn build_sort_clause(sort_by: Option<&str>, sort_order: Option<&str>, default_sort: &str) -> (clause: String)
    ensures
        clause@ == sort_clause_of(opt_str_view(sort_by), opt_str_view(sort_order), default_sort@),
{
    let sort_column: &str = match sort_by {
        Some(s) => if same_text(s, "name") || same_text(s, "code") || same_text(s, "created_at")
            || same_text(s, "updated_at") {
            s
        } else {
            default_sort
        },
        None => default_sort,
    };
    let order: &str = match sort_order {
        Some(s) => if same_text(s, "DESC") || same_text(s, "desc") {
            "DESC"
        } else {
            "ASC"
        },
        None => "ASC",
    };
    String::from_str("ORDER BY ").concat(sort_column).concat(" ").concat(order)
}

/// Build search condition for text fields.
pub fn build_search_condition(search: Option<&str>, fields: &[&str]) -> (built: (String, Vec<String>))
    ensures
        built.0@ == search_clause_of(opt_str_view(search), strs_view(fields@)),
        strings_view(built.1@) == search_params_of(opt_str_view(search), strs_view(fields@)),
{
    let term: &str = match search {
        Some(s) => trim(s),
        None => "",
    };
    if search.is_none() || term.is_empty() {
        let params: Vec<String> = Vec::new();
        assert(strings_view(params@) =~= Seq::<Seq<char>>::empty());
        return (String::from_str("TRUE"), params);
    }
    let search_term = String::from_str("%").concat(term).concat("%");
    let ghost names = strs_view(fields@);
    let mut conditions = String::new();
    let mut params: Vec<String> = Vec::new();
    let mut i: usize = 0;
    while i < fields.len()
        invariant
            i <= fields.len(),
            names == strs_view(fields@),
            conditions@ == joined_conditions_of(names, i as nat),
            params.len() == i,
            search_term@ == search_pattern_of(term@),
            forall|k: int| 0 <= k < i ==> (#[trigger] params[k])@ == search_pattern_of(term@),
        decreases fields.len() - i,
    {
        if i > 0 {
            conditions.append(" OR ");
        }
        conditions.append(fields[i]);
        conditions.append(" ILIKE $");
        let number = decimal(i + 1);
        conditions.append(number.as_str());
        params.push(search_term.clone());
        assert(names[i as int] == fields[i as int]@);
        assert(conditions@ == joined_conditions_of(names, (i + 1) as nat));
        i += 1;
    }
    let where_clause = String::from_str("(").concat(conditions.as_str()).concat(")");
    assert(strings_view(params@) =~= search_params_of(opt_str_view(search), names));
    (where_clause, params)
}

/// A quotient rounded towards zero lies between zero and the numerator.
pub proof fn lemma_quotient_bounds(n: int, d: int)
    requires
        d > 0,
    ensures
        n >= 0 ==> 0 <= quotient_towards_zero(n, d) <= n,
        n < 0 ==> n <= quotient_towards_zero(n, d) <= 0,
{
    if n >= 0 {
        assert(0 <= n / d <= n) by (nonlinear_arith)
            requires
                n >= 0,
                d > 0,
        ;
    } else {
        let m = -n;
        assert(0 <= m / d <= m) by (nonlinear_arith)
            requires
                m >= 0,
                d > 0,
        ;
    }
}

/// For a count of rows and a positive page size, the number of pages is the
/// ceiling of their quotient: the pages hold every row, and one page fewer
/// would not.
pub proof fn total_pages_is_ceiling(total: int, limit: int)
    requires
        total >= 0,
        limit >= 1,
    ensures
        total_pages_of(total, limit) * limit >= total,
        (total_pages_of(total, limit) - 1) * limit < total,
        total_pages_of(total, limit) >= 0,
{
    let n = total + limit - 1;
    let q = n / limit;
    assert(q * limit <= n < (q + 1) * limit && q >= 0) by (nonlinear_arith)
        requires
            n >= 0,
            limit >= 1,
            q == n / limit,
    ;
    assert((q - 1) * limit == q * limit - limit) by (nonlinear_arith);
    assert((q + 1) * limit == q * limit + limit) by (nonlinear_arith);
}

/// With a positive limit, no more pages are needed than there are rows.
pub proof fn lemma_pages_at_most_total(total: int, limit: int)
    requires
        limit > 0,
    ensures
        total >= 0 ==> 0 <= total_pages_of(total, limit) <= total,
        total < 0 ==> total <= total_pages_of(total, limit) <= 0,
{
    let n = total + limit - 1;
    lemma_quotient_bounds(n, limit);
    if total >= 1 {
        assert(n / limit <= total) by (nonlinear_arith)
            requires
                n == total + limit - 1,
                total >= 1,
                limit >= 1,
        ;
    } else if n >= 0 {
        assert(n / limit == 0) by (nonlinear_arith)
            requires
                0 <= n < limit,
        ;
    } else {
        assert(total <= n);
    }
}

} // verus!
