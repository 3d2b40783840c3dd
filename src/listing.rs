use vstd::prelude::*;
use crate::message::ListQuery;
use crate::row::RowView;
use crate::table::{row_key, row_value, TableView};

verus! {

/// The most rows that one listing returns.
pub const LIST_LIMIT: usize = 10;

/// A key that a listing may return: in the channel, above the offset.
pub open spec fn selected(k: (i64, i64), q: ListQuery) -> bool {
    k.0 == q.channel_id && k.1 > q.message_id_offset
}

/// Some row of `s` has key `k`.
pub open spec fn listed(s: Seq<RowView>, k: (i64, i64)) -> bool {
    exists|i: int| 0 <= i < s.len() && row_key(#[trigger] s[i]) == k
}

/// Message ids strictly decrease along `s`.
pub open spec fn descending(s: Seq<RowView>) -> bool {
    forall|i: int, j: int| 0 <= i < j < s.len() ==> (#[trigger] s[i]).1 > (#[trigger] s[j]).1
}

/// Every row of `s` is a selected row of `t`, as stored.
pub open spec fn drawn_from(t: TableView, q: ListQuery, s: Seq<RowView>) -> bool {
    forall|i: int|
        0 <= i < s.len() ==> selected(row_key(#[trigger] s[i]), q) && t.contains_key(row_key(s[i]))
            && t[row_key(s[i])] == row_value(s[i])
}

/// `s` is what listing `t` for `q` returns: the selected rows with the
/// greatest message ids, at most `LIST_LIMIT` of them, greatest first.
pub open spec fn is_listing(t: TableView, q: ListQuery, s: Seq<RowView>) -> bool {
    &&& s.len() <= LIST_LIMIT
    &&& drawn_from(t, q, s)
    &&& descending(s)
    &&& forall|k: (i64, i64)|
        #![trigger t.contains_key(k), selected(k, q)]
        t.contains_key(k) && selected(k, q) && (s.len() < LIST_LIMIT || k.1 > s[s.len() - 1].1)
            ==> listed(s, k)
}

/// Where two listings agree below `i`, the first cannot hold a greater
/// message id at `i` than the second.
proof fn lemma_listing_step(t: TableView, q: ListQuery, a: Seq<RowView>, b: Seq<RowView>, i: int)
    requires
        is_listing(t, q, a),
        is_listing(t, q, b),
        0 <= i < a.len(),
        0 <= i < b.len(),
        forall|j: int| 0 <= j < i ==> a[j] == b[j],
    ensures
        a[i].1 <= b[i].1,
{
    if a[i].1 > b[i].1 {
        let k = row_key(a[i]);
        assert(t.contains_key(k) && selected(k, q));
        assert(b[b.len() - 1].1 <= b[i].1);
        assert(listed(b, k));
        let j = choose|j: int| 0 <= j < b.len() && row_key(#[trigger] b[j]) == k;
        if j < i {
            assert(a[j] == b[j]);
            assert(a[j].1 > a[i].1);
        } else if j > i {
            assert(b[i].1 > b[j].1);
        }
    }
}

/// There is one listing of a table for a query: the rows it returns are
/// determined.
pub proof fn lemma_listing_unique(t: TableView, q: ListQuery, a: Seq<RowView>, b: Seq<RowView>)
    requires
        is_listing(t, q, a),
        is_listing(t, q, b),
    ensures
        a == b,
{
    lemma_listing_prefix(t, q, a, b, if a.len() < b.len() {
        a.len() as int
    } else {
        b.len() as int
    });
    if a.len() != b.len() {
        let (x, y) = if a.len() < b.len() {
            (a, b)
        } else {
            (b, a)
        };
        let n = x.len() as int;
        let k = row_key(y[n]);
        assert(t.contains_key(k) && selected(k, q));
        assert(listed(x, k));
        let j = choose|j: int| 0 <= j < x.len() && row_key(#[trigger] x[j]) == k;
        assert(x[j] == y[j]);
        assert(y[j].1 > y[n].1);
    }
    assert(a =~= b);
}

proof fn lemma_listing_prefix(t: TableView, q: ListQuery, a: Seq<RowView>, b: Seq<RowView>, i: int)
    requires
        is_listing(t, q, a),
        is_listing(t, q, b),
        0 <= i <= a.len(),
        i <= b.len(),
    ensures
        forall|j: int| 0 <= j < i ==> a[j] == b[j],
    decreases i,
{
    if i > 0 {
        lemma_listing_prefix(t, q, a, b, i - 1);
        lemma_listing_step(t, q, a, b, i - 1);
        lemma_listing_step(t, q, b, a, i - 1);
        let (ka, kb) = (row_key(a[i - 1]), row_key(b[i - 1]));
        assert(ka == kb);
        assert(t[ka] == row_value(a[i - 1]) && t[kb] == row_value(b[i - 1]));
    }
}

} // verus!
