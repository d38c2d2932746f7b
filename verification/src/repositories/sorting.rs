//! Ordering of a listing: the columns a caller may sort by, the keys they
//! yield, and the stable ranking of a list of keys.

use crate::text::{opt_str_view, same_text, sorts_no_later, text_le};
use vstd::prelude::*;

verus! {

/// A column a listing can be sorted by.
#[derive(Debug, Clone, Copy, PartialEq, Eq, Structural)]
pub enum SortColumn {
    Name,
    Code,
    CreatedAt,
    UpdatedAt,
}

/// The value by which one record is ranked: a text, or an instant that may
/// be missing.
#[derive(Debug, PartialEq, Eq)]
pub enum SortKey {
    Text(String),
    Instant(Option<i64>),
}

/// What a `SortKey` holds, with its text as a sequence of characters.
pub ghost enum SortKeyView {
    Text(Seq<char>),
    Instant(Option<i64>),
}

impl View for SortKey {
    type V = SortKeyView;

    open spec fn view(&self) -> SortKeyView {
        match self {
            SortKey::Text(t) => SortKeyView::Text(t@),
            SortKey::Instant(i) => SortKeyView::Instant(*i),
        }
    }
}

/// Views of a list of keys, in order.
pub open spec fn keys_view(keys: Seq<SortKey>) -> Seq<SortKeyView> {
    keys.map_values(|k: SortKey| k@)
}

/// The column a sort request selects: the requested one if it is known, the
/// default otherwise.
pub open spec fn column_of(sort_by: Option<Seq<char>>, default: SortColumn) -> SortColumn {
    if sort_by == Some("name"@) {
        SortColumn::Name
    } else if sort_by == Some("code"@) {
        SortColumn::Code
    } else if sort_by == Some("created_at"@) {
        SortColumn::CreatedAt
    } else if sort_by == Some("updated_at"@) {
        SortColumn::UpdatedAt
    } else {
        default
    }
}

/// Whether an instant sorts no later than another. A missing instant sorts
/// after every present one.
pub open spec fn instant_le(a: Option<i64>, b: Option<i64>) -> bool {
    match (a, b) {
        (_, None) => true,
        (None, Some(_)) => false,
        (Some(x), Some(y)) => x <= y,
    }
}

/// Whether key `a` ranks no later than key `b`: texts by code point,
/// instants by time, and any text before any instant.
pub open spec fn key_le(a: SortKeyView, b: SortKeyView) -> bool {
    match (a, b) {
        (SortKeyView::Text(x), SortKeyView::Text(y)) => text_le(x, y),
        (SortKeyView::Text(_), SortKeyView::Instant(_)) => true,
        (SortKeyView::Instant(_), SortKeyView::Text(_)) => false,
        (SortKeyView::Instant(x), SortKeyView::Instant(y)) => instant_le(x, y),
    }
}

/// The ranking `order` with position `p` put in its place: after every
/// position whose key ranks no later than its own.
pub open spec fn inserted(keys: Seq<SortKeyView>, order: Seq<usize>, p: usize) -> Seq<usize>
    decreases order.len(),
{
    if order.len() == 0 {
        seq![p]
    } else if key_le(keys[order.last() as int], keys[p as int]) {
        order.push(p)
    } else {
        inserted(keys, order.drop_last(), p).push(order.last())
    }
}

/// The first `n` positions of `keys` in ascending order of their keys,
/// positions with equal keys in the order in which they stand.
pub open spec fn ascending(keys: Seq<SortKeyView>, n: nat) -> Seq<usize>
    decreases n,
{
    if n == 0 {
        Seq::empty()
    } else {
        inserted(keys, ascending(keys, (n - 1) as nat), (n - 1) as usize)
    }
}

/// The positions of `keys` in the order a listing shows them: ascending, or
/// the exact reverse of that.
pub open spec fn ranking(keys: Seq<SortKeyView>, descending: bool) -> Seq<usize> {
    if descending {
        ascending(keys, keys.len()).reverse()
    } else {
        ascending(keys, keys.len())
    }
}

impl SortColumn {
    /// Reads the column from a sort request; an unknown or missing name
    /// selects the default.
    pub fn parse(sort_by: Option<&str>, default: SortColumn) -> (column: SortColumn)
        ensures
            column == column_of(opt_str_view(sort_by), default),
    {
        match sort_by {
            Some(s) => if same_text(s, "name") {
                SortColumn::Name
            } else if same_text(s, "code") {
                SortColumn::Code
            } else if same_text(s, "created_at") {
                SortColumn::CreatedAt
            } else if same_text(s, "updated_at") {
                SortColumn::UpdatedAt
            } else {
                default
            },
            None => default,
        }
    }
}

impl SortKey {
    /// Whether this key ranks no later than `other`.
    pub fn ranks_no_later(&self, other: &SortKey) -> (le: bool)
        ensures
            le == key_le(self@, other@),
    {
        match self {
            SortKey::Text(x) => match other {
                SortKey::Text(y) => sorts_no_later(x.as_str(), y.as_str()),
                SortKey::Instant(_) => true,
            },
            SortKey::Instant(x) => match other {
                SortKey::Text(_) => false,
                SortKey::Instant(y) => match y {
                    None => true,
                    Some(q) => match x {
                        None => false,
                        Some(p) => *p <= *q,
                    },
                },
            },
        }
    }
}

/// Every position in `order` lies below `bound`.
pub open spec fn positions_below(order: Seq<usize>, bound: int) -> bool {
    forall|i: int| 0 <= i < order.len() ==> (#[trigger] order[i]) < bound
}

/// Putting a position in its place adds one entry and keeps the bound.
pub proof fn lemma_inserted_shape(keys: Seq<SortKeyView>, order: Seq<usize>, p: usize, bound: int)
    requires
        positions_below(order, bound),
        p < bound,
    ensures
        inserted(keys, order, p).len() == order.len() + 1,
        positions_below(inserted(keys, order, p), bound),
    decreases order.len(),
{
    if order.len() == 0 {
    } else if key_le(keys[order.last() as int], keys[p as int]) {
    } else {
        lemma_inserted_shape(keys, order.drop_last(), p, bound);
    }
}

/// The ascending order of the first `n` positions has `n` entries, all of
/// them below `n`.
pub proof fn lemma_ascending_shape(keys: Seq<SortKeyView>, n: nat)
    requires
        n <= usize::MAX,
    ensures
        ascending(keys, n).len() == n,
        positions_below(ascending(keys, n), n as int),
    decreases n,
{
    if n > 0 {
        lemma_ascending_shape(keys, (n - 1) as nat);
        let before = ascending(keys, (n - 1) as nat);
        assert(positions_below(before, n as int));
        lemma_inserted_shape(keys, before, (n - 1) as usize, n as int);
    }
}

/// A ranking has one entry for each key, each of them a position of a key.
pub proof fn lemma_ranking_shape(keys: Seq<SortKeyView>, descending: bool)
    requires
        keys.len() <= usize::MAX,
    ensures
        ranking(keys, descending).len() == keys.len(),
        positions_below(ranking(keys, descending), keys.len() as int),
{
    lemma_ascending_shape(keys, keys.len());
}

/// Of two texts one sorts no later than the other.
pub proof fn lemma_text_le_total(a: Seq<char>, b: Seq<char>)
    ensures
        text_le(a, b) || text_le(b, a),
    decreases a.len(),
{
    if a.len() > 0 && b.len() > 0 {
        if a[0] == b[0] {
            lemma_text_le_total(a.drop_first(), b.drop_first());
        } else {
            assert(a[0] as int != b[0] as int);
        }
    }
}

/// The order of texts is transitive.
pub proof fn lemma_text_le_transitive(a: Seq<char>, b: Seq<char>, c: Seq<char>)
    requires
        text_le(a, b),
        text_le(b, c),
    ensures
        text_le(a, c),
    decreases a.len(),
{
    if a.len() > 0 && b.len() > 0 && c.len() > 0 && a[0] == b[0] && b[0] == c[0] {
        lemma_text_le_transitive(a.drop_first(), b.drop_first(), c.drop_first());
    }
}

/// Of two keys one ranks no later than the other.
pub proof fn lemma_key_le_total(a: SortKeyView, b: SortKeyView)
    ensures
        key_le(a, b) || key_le(b, a),
{
    match (a, b) {
        (SortKeyView::Text(x), SortKeyView::Text(y)) => lemma_text_le_total(x, y),
        _ => {},
    }
}

/// The order of keys is transitive.
pub proof fn lemma_key_le_transitive(a: SortKeyView, b: SortKeyView, c: SortKeyView)
    requires
        key_le(a, b),
        key_le(b, c),
    ensures
        key_le(a, c),
{
    match (a, b, c) {
        (SortKeyView::Text(x), SortKeyView::Text(y), SortKeyView::Text(z)) => {
            lemma_text_le_transitive(x, y, z)
        },
        _ => {},
    }
}

/// Whether `order` lists positions in ascending order of their keys.
pub open spec fn is_ascending(keys: Seq<SortKeyView>, order: Seq<usize>) -> bool {
    forall|i: int, j: int|
        0 <= i < j < order.len() ==> key_le(
            keys[(#[trigger] order[i]) as int],
            keys[(#[trigger] order[j]) as int],
        )
}

/// Whether `order` lists positions in descending order of their keys.
pub open spec fn is_descending_order(keys: Seq<SortKeyView>, order: Seq<usize>) -> bool {
    forall|i: int, j: int|
        0 <= i < j < order.len() ==> key_le(
            keys[(#[trigger] order[j]) as int],
            keys[(#[trigger] order[i]) as int],
        )
}

/// Whether every position in `order` has a key that ranks no later than
/// `top`.
pub open spec fn all_no_later(keys: Seq<SortKeyView>, order: Seq<usize>, top: SortKeyView) -> bool {
    forall|i: int| 0 <= i < order.len() ==> key_le(keys[(#[trigger] order[i]) as int], top)
}

/// Putting a position in its place keeps every key at or before a bound
/// that its own key respects.
pub proof fn lemma_inserted_no_later(
    keys: Seq<SortKeyView>,
    order: Seq<usize>,
    p: usize,
    top: SortKeyView,
)
    requires
        all_no_later(keys, order, top),
        key_le(keys[p as int], top),
    ensures
        all_no_later(keys, inserted(keys, order, p), top),
    decreases order.len(),
{
    if order.len() == 0 {
    } else if key_le(keys[order.last() as int], keys[p as int]) {
    } else {
        let rest = order.drop_last();
        assert forall|i: int| 0 <= i < rest.len() implies key_le(
            keys[(#[trigger] rest[i]) as int],
            top,
        ) by {
            assert(rest[i] == order[i]);
        }
        lemma_inserted_no_later(keys, rest, p, top);
    }
}

/// Putting a position in its place keeps an ascending order ascending.
pub proof fn lemma_inserted_ascending(keys: Seq<SortKeyView>, order: Seq<usize>, p: usize)
    requires
        is_ascending(keys, order),
    ensures
        is_ascending(keys, inserted(keys, order, p)),
    decreases order.len(),
{
    let result = inserted(keys, order, p);
    if order.len() == 0 {
    } else if key_le(keys[order.last() as int], keys[p as int]) {
        assert forall|i: int, j: int| 0 <= i < j < result.len() implies key_le(
            keys[(#[trigger] result[i]) as int],
            keys[(#[trigger] result[j]) as int],
        ) by {
            if j == order.len() {
                if i < order.len() - 1 {
                    assert(key_le(keys[order[i] as int], keys[order[order.len() - 1] as int]));
                    lemma_key_le_transitive(
                        keys[order[i] as int],
                        keys[order.last() as int],
                        keys[p as int],
                    );
                }
            }
        }
    } else {
        let rest = order.drop_last();
        let last = order.last();
        assert(is_ascending(keys, rest)) by {
            assert forall|i: int, j: int| 0 <= i < j < rest.len() implies key_le(
                keys[(#[trigger] rest[i]) as int],
                keys[(#[trigger] rest[j]) as int],
            ) by {
                assert(rest[i] == order[i] && rest[j] == order[j]);
            }
        }
        lemma_inserted_ascending(keys, rest, p);
        lemma_key_le_total(keys[last as int], keys[p as int]);
        assert(all_no_later(keys, rest, keys[last as int])) by {
            assert forall|i: int| 0 <= i < rest.len() implies key_le(
                keys[(#[trigger] rest[i]) as int],
                keys[last as int],
            ) by {
                assert(rest[i] == order[i]);
                assert(key_le(keys[order[i] as int], keys[order[order.len() - 1] as int]));
            }
        }
        lemma_inserted_no_later(keys, rest, p, keys[last as int]);
        let head = inserted(keys, rest, p);
        assert forall|i: int, j: int| 0 <= i < j < result.len() implies key_le(
            keys[(#[trigger] result[i]) as int],
            keys[(#[trigger] result[j]) as int],
        ) by {
            if j == head.len() {
                assert(result[i] == head[i]);
            } else {
                assert(result[i] == head[i] && result[j] == head[j]);
            }
        }
    }
}

/// Putting a position in its place adds that position and no other.
pub proof fn lemma_inserted_holds(keys: Seq<SortKeyView>, order: Seq<usize>, p: usize, x: usize)
    ensures
        inserted(keys, order, p).contains(x) <==> (order.contains(x) || x == p),
    decreases order.len(),
{
    let result = inserted(keys, order, p);
    if order.len() == 0 {
        assert(result[0] == p);
        if result.contains(x) {
            let i = choose|i: int| 0 <= i < result.len() && result[i] == x;
            assert(result[i] == p);
        }
        if order.contains(x) {
            let i = choose|i: int| 0 <= i < order.len() && order[i] == x;
        }
    } else if key_le(keys[order.last() as int], keys[p as int]) {
        if result.contains(x) {
            let i = choose|i: int| 0 <= i < result.len() && result[i] == x;
            if i < order.len() {
                assert(order[i] == x);
            }
        }
        if order.contains(x) {
            let i = choose|i: int| 0 <= i < order.len() && order[i] == x;
            assert(result[i] == x);
        }
        assert(result[order.len() as int] == p);
    } else {
        let rest = order.drop_last();
        let head = inserted(keys, rest, p);
        lemma_inserted_holds(keys, rest, p, x);
        if result.contains(x) {
            let i = choose|i: int| 0 <= i < result.len() && result[i] == x;
            if i < head.len() {
                assert(head[i] == x);
                if rest.contains(x) {
                    let k = choose|k: int| 0 <= k < rest.len() && rest[k] == x;
                    assert(order[k] == x);
                }
            } else {
                assert(order[order.len() - 1] == x);
            }
        }
        if order.contains(x) {
            let i = choose|i: int| 0 <= i < order.len() && order[i] == x;
            if i < rest.len() {
                assert(rest[i] == x);
                let k = choose|k: int| 0 <= k < head.len() && head[k] == x;
                assert(result[k] == x);
            } else {
                assert(result[head.len() as int] == x);
            }
        }
        if x == p {
            let k = choose|k: int| 0 <= k < head.len() && head[k] == x;
            assert(result[k] == x);
        }
    }
}

/// Whether no position stands twice in `order`.
pub open spec fn is_distinct(order: Seq<usize>) -> bool {
    forall|i: int, j: int|
        0 <= i < order.len() && 0 <= j < order.len() && i != j ==> (#[trigger] order[i]) != (
        #[trigger] order[j])
}

/// Putting a new position in its place keeps an order free of repeats.
pub proof fn lemma_inserted_distinct(keys: Seq<SortKeyView>, order: Seq<usize>, p: usize)
    requires
        is_distinct(order),
        !order.contains(p),
    ensures
        is_distinct(inserted(keys, order, p)),
    decreases order.len(),
{
    let result = inserted(keys, order, p);
    if order.len() == 0 {
    } else if key_le(keys[order.last() as int], keys[p as int]) {
        assert forall|i: int, j: int|
            0 <= i < result.len() && 0 <= j < result.len() && i != j implies (
        #[trigger] result[i]) != (#[trigger] result[j]) by {
            if i == order.len() {
                assert(order[j] == result[j]);
                assert(order.contains(order[j]));
            } else if j == order.len() {
                assert(order[i] == result[i]);
                assert(order.contains(order[i]));
            } else {
                assert(order[i] == result[i] && order[j] == result[j]);
            }
        }
    } else {
        let rest = order.drop_last();
        let last = order.last();
        let head = inserted(keys, rest, p);
        assert(is_distinct(rest)) by {
            assert forall|i: int, j: int|
                0 <= i < rest.len() && 0 <= j < rest.len() && i != j implies (#[trigger] rest[i])
                != (#[trigger] rest[j]) by {
                assert(rest[i] == order[i] && rest[j] == order[j]);
            }
        }
        assert(!rest.contains(p)) by {
            if rest.contains(p) {
                let k = choose|k: int| 0 <= k < rest.len() && rest[k] == p;
                assert(order[k] == p);
            }
        }
        lemma_inserted_distinct(keys, rest, p);
        lemma_inserted_holds(keys, rest, p, last);
        assert(!head.contains(last)) by {
            if rest.contains(last) {
                let k = choose|k: int| 0 <= k < rest.len() && rest[k] == last;
                assert(order[k] == order[order.len() - 1]);
            }
            if last == p {
                assert(order[order.len() - 1] == p);
            }
        }
        assert forall|i: int, j: int|
            0 <= i < result.len() && 0 <= j < result.len() && i != j implies (
        #[trigger] result[i]) != (#[trigger] result[j]) by {
            if i == head.len() {
                assert(result[j] == head[j]);
                assert(head.contains(head[j]));
            } else if j == head.len() {
                assert(result[i] == head[i]);
                assert(head.contains(head[i]));
            } else {
                assert(result[i] == head[i] && result[j] == head[j]);
            }
        }
    }
}

/// No position stands twice in a ranking.
pub proof fn ranking_is_distinct(keys: Seq<SortKeyView>, descending: bool)
    requires
        keys.len() <= usize::MAX,
    ensures
        is_distinct(ranking(keys, descending)),
{
    lemma_ascending_distinct(keys, keys.len());
    let up = ascending(keys, keys.len());
    if descending {
        let down = up.reverse();
        assert forall|i: int, j: int|
            0 <= i < down.len() && 0 <= j < down.len() && i != j implies (#[trigger] down[i]) != (
        #[trigger] down[j]) by {
            assert(down[i] == up[up.len() - 1 - i]);
            assert(down[j] == up[up.len() - 1 - j]);
        }
    }
}

/// No position stands twice in the ascending order of the first `n`.
pub proof fn lemma_ascending_distinct(keys: Seq<SortKeyView>, n: nat)
    requires
        n <= usize::MAX,
    ensures
        is_distinct(ascending(keys, n)),
    decreases n,
{
    if n > 0 {
        let before = ascending(keys, (n - 1) as nat);
        lemma_ascending_distinct(keys, (n - 1) as nat);
        lemma_ascending_shape(keys, (n - 1) as nat);
        assert(!before.contains((n - 1) as usize)) by {
            if before.contains((n - 1) as usize) {
                let k = choose|k: int| 0 <= k < before.len() && before[k] == (n - 1) as usize;
                assert(before[k] < n - 1);
            }
        }
        lemma_inserted_distinct(keys, before, (n - 1) as usize);
    }
}

/// The ascending order of the first `n` positions is in ascending order of
/// the keys and holds each of those positions.
pub proof fn ascending_is_sorted(keys: Seq<SortKeyView>, n: nat)
    requires
        n <= usize::MAX,
    ensures
        is_ascending(keys, ascending(keys, n)),
        forall|p: usize| p < n ==> ascending(keys, n).contains(p),
    decreases n,
{
    if n > 0 {
        let before = ascending(keys, (n - 1) as nat);
        ascending_is_sorted(keys, (n - 1) as nat);
        lemma_inserted_ascending(keys, before, (n - 1) as usize);
        assert forall|p: usize| p < n implies ascending(keys, n).contains(p) by {
            lemma_inserted_holds(keys, before, (n - 1) as usize, p);
        }
    }
}

/// A ranking orders the keys: it has one entry for each key, holds the
/// position of every key, and runs in ascending order of the keys, or in
/// descending order where that is asked.
pub proof fn ranking_is_sorted(keys: Seq<SortKeyView>, descending: bool)
    requires
        keys.len() <= usize::MAX,
    ensures
        ranking(keys, descending).len() == keys.len(),
        forall|p: usize| p < keys.len() ==> ranking(keys, descending).contains(p),
        !descending ==> is_ascending(keys, ranking(keys, descending)),
        descending ==> is_descending_order(keys, ranking(keys, descending)),
{
    let up = ascending(keys, keys.len());
    lemma_ascending_shape(keys, keys.len());
    ascending_is_sorted(keys, keys.len());
    if descending {
        let down = up.reverse();
        assert forall|i: int, j: int| 0 <= i < j < down.len() implies key_le(
            keys[(#[trigger] down[j]) as int],
            keys[(#[trigger] down[i]) as int],
        ) by {
            assert(down[i] == up[up.len() - 1 - i]);
            assert(down[j] == up[up.len() - 1 - j]);
        }
        assert forall|p: usize| p < keys.len() implies down.contains(p) by {
            assert(up.contains(p));
            let i = choose|i: int| 0 <= i < up.len() && up[i] == p;
            assert(down[up.len() - 1 - i] == p);
        }
    }
}

/// Ranks the keys: the positions of `keys` in ascending order of their keys,
/// equal keys in the order in which they stand, or the reverse of that.
pub fn rank(keys: &Vec<SortKey>, descending: bool) -> (order: Vec<usize>)
    ensures
        order@ == ranking(keys_view(keys@), descending),
        order.len() == keys.len(),
        positions_below(order@, keys.len() as int),
{
    let ghost kv = keys_view(keys@);
    let mut order: Vec<usize> = Vec::new();
    let mut p: usize = 0;
    while p < keys.len()
        invariant
            p <= keys.len(),
            kv == keys_view(keys@),
            order@ == ascending(kv, p as nat),
            order.len() == p,
            positions_below(order@, p as int),
        decreases keys.len() - p,
    {
        let ghost before = order@;
        let mut j: usize = order.len();
        proof {
            assert(before.take(j as int) == before);
            assert(before.skip(j as int) == Seq::<usize>::empty());
            assert(inserted(kv, before, p) + Seq::<usize>::empty() == inserted(kv, before, p));
        }
        while j > 0 &&!keys[order[j - 1]].ranks_no_later(&keys[p])
            invariant
                j <= order.len(),
                order@ == before,
                p < keys.len(),
                kv == keys_view(keys@),
                positions_below(order@, p as int),
                inserted(kv, before, p) == inserted(kv, before.take(j as int), p) + before.skip(
                    j as int,
                ),
            decreases j,
        {
            proof {
                let head = before.take(j as int);
                assert(head.last() == before[j - 1]);
                assert(head.drop_last() == before.take(j - 1));
                assert(kv[before[j - 1] as int] == keys[before[j - 1] as int]@);
                assert(kv[p as int] == keys[p as int]@);
                assert(inserted(kv, head, p) == inserted(kv, head.drop_last(), p).push(
                    head.last(),
                ));
                assert(inserted(kv, head.drop_last(), p).push(head.last()) + before.skip(
                    j as int,
                ) == inserted(kv, before.take(j - 1), p) + before.skip(j - 1));
            }
            j -= 1;
        }
        proof {
            let head = before.take(j as int);
            if j > 0 {
                assert(head.last() == before[j - 1]);
                assert(kv[before[j - 1] as int] == keys[before[j - 1] as int]@);
                assert(kv[p as int] == keys[p as int]@);
            }
            assert(inserted(kv, head, p) == head.push(p));
            assert(head.push(p) + before.skip(j as int) == before.insert(j as int, p));
            lemma_inserted_shape(kv, before, p, p + 1);
        }
        order.insert(j, p);
        p += 1;
    }
    if descending {
        let mut reversed: Vec<usize> = Vec::new();
        let mut k: usize = order.len();
        while k > 0
            invariant
                k <= order.len(),
                reversed.len() == order.len() - k,
                forall|i: int| 0 <= i < reversed.len() ==> reversed[i] == order[order.len() - 1 - i],
            decreases k,
        {
            k -= 1;
            reversed.push(order[k]);
        }
        assert(reversed@ == order@.reverse());
        reversed
    } else {
        order
    }
}

} // verus!
