use vstd::prelude::*;
use crate::listing::{descending, drawn_from, is_listing, listed, selected, LIST_LIMIT};
use crate::message::{ContentUpdate, ListQuery, MessageKey, NewMessage};
use crate::row::{rows_view, Row, RowView};

verus! {

/// The non-key columns of a stored row: author and content, each possibly
/// null.
pub type StoredValue = (Option<i64>, Option<Seq<char>>);

/// The contents of the messages table: primary key (channel, message) to the
/// other columns.
pub type TableView = Map<(i64, i64), StoredValue>;

pub open spec fn row_key(r: RowView) -> (i64, i64) {
    (r.0, r.1)
}

pub open spec fn row_value(r: RowView) -> StoredValue {
    (r.2, r.3)
}

/// The table after an upsert of a full row.
pub open spec fn after_insert(
    t: TableView,
    channel_id: i64,
    message_id: i64,
    author_id: i64,
    content: Seq<char>,
) -> TableView {
    t.insert((channel_id, message_id), (Some(author_id), Some(content)))
}

/// The table after a delete by key; a missing key is no failure.
pub open spec fn after_delete(t: TableView, channel_id: i64, message_id: i64) -> TableView {
    t.remove((channel_id, message_id))
}

/// The table after setting the content at a key: the author stays as it was,
/// and a missing key gets a row whose author is null.
pub open spec fn after_update(
    t: TableView,
    channel_id: i64,
    message_id: i64,
    content: Seq<char>,
) -> TableView {
    let k = (channel_id, message_id);
    let author = if t.contains_key(k) {
        t[k].0
    } else {
        None
    };
    t.insert(k, (author, Some(content)))
}

/// A row that the next step of a listing may take: selected, and below the
/// last row taken, if any.
pub open spec fn candidate(r: RowView, q: ListQuery, bound: Option<i64>) -> bool {
    selected(row_key(r), q) && match bound {
        Some(b) => r.1 < b,
        None => true,
    }
}

fn copy_row(r: &Row) -> (c: Row)
    ensures
        c@ == r@,
{
    let content = match &r.content {
        Some(s) => Some(s.clone()),
        None => None,
    };
    Row { channel_id: r.channel_id, message_id: r.message_id, author_id: r.author_id, content }
}

/// An in-memory table with the semantics of the messages table of the
/// store: one row per primary key, last write wins.
pub struct MessageTable {
    rows: Vec<Row>,
    contents: Ghost<TableView>,
}

impl View for MessageTable {
    type V = TableView;

    closed spec fn view(&self) -> TableView {
        self.contents@
    }
}

impl MessageTable {
    /// The rows are those of the view, each key once.
    pub closed spec fn wf(&self) -> bool {
        &&& forall|i: int, j: int|
            0 <= i < j < self.rows.len() ==> row_key(#[trigger] self.rows@[i]@) != row_key(
                #[trigger] self.rows@[j]@,
            )
        &&& forall|i: int|
            0 <= i < self.rows.len() ==> self.contents@.contains_key(row_key(#[trigger] self.rows@[i]@))
                && self.contents@[row_key(self.rows@[i]@)] == row_value(self.rows@[i]@)
        &&& forall|k: (i64, i64)|
            #[trigger] self.contents@.contains_key(k) ==> exists|i: int|
                0 <= i < self.rows.len() && row_key(#[trigger] self.rows@[i]@) == k
    }

    /// An empty table.
    pub fn new() -> (r: MessageTable)
        ensures
            r.wf(),
            r@ == Map::<(i64, i64), StoredValue>::empty(),
    {
        MessageTable { rows: Vec::new(), contents: Ghost(Map::empty()) }
    }

    /// The position of the row with the given key, if there is one.
    fn find(&self, channel_id: i64, message_id: i64) -> (r: Option<usize>)
        requires
            self.wf(),
        ensures
            r is None <==> !self@.contains_key((channel_id, message_id)),
            r matches Some(i) ==> i < self.rows.len() && row_key(self.rows@[i as int]@) == (
                channel_id,
                message_id,
            ),
    {
        let mut i: usize = 0;
        while i < self.rows.len()
            invariant
                self.wf(),
                i <= self.rows.len(),
                forall|j: int| 0 <= j < i ==> row_key(#[trigger] self.rows@[j]@) != (channel_id, message_id),
            decreases self.rows.len() - i,
        {
            if self.rows[i].channel_id == channel_id && self.rows[i].message_id == message_id {
                assert(row_key(self.rows@[i as int]@) == (channel_id, message_id));
                return Some(i);
            }
            i = i + 1;
        }
        None
    }

    /// Puts `row` in place of the row at `i`, or after the others if `i` is
    /// `None`; the view gets the row's key mapped to its columns.
    fn put(&mut self, at: Option<usize>, row: Row)
        requires
            old(self).wf(),
            at is None <==> !old(self)@.contains_key(row_key(row@)),
            at matches Some(i) ==> i < old(self).rows.len() && row_key(old(self).rows@[i as int]@)
                == row_key(row@),
        ensures
            final(self).wf(),
            final(self)@ == old(self)@.insert(row_key(row@), row_value(row@)),
    {
        let ghost k = row_key(row@);
        let ghost v = row_value(row@);
        let ghost old_rows = self.rows@;
        match at {
            Some(i) => {
                self.rows.set(i, row);
            },
            None => {
                self.rows.push(row);
            },
        }
        self.contents = Ghost(self.contents@.insert(k, v));
        assert forall|key: (i64, i64)| #[trigger] self.contents@.contains_key(key) implies exists|i: int|
            0 <= i < self.rows.len() && row_key(#[trigger] self.rows@[i]@) == key by {
            if key == k {
                match at {
                    Some(i) => assert(row_key(self.rows@[i as int]@) == key),
                    None => assert(row_key(self.rows@[old_rows.len() as int]@) == key),
                }
            } else {
                let i = choose|i: int| 0 <= i < old_rows.len() && row_key(#[trigger] old_rows[i]@) == key;
                assert(row_key(self.rows@[i]@) == key);
            }
        }
    }

    /// Writes a full row at its key, replacing any row there.
    pub fn insert(&mut self, m: &NewMessage)
        requires
            old(self).wf(),
        ensures
            final(self).wf(),
            final(self)@ == after_insert(old(self)@, m.channel_id, m.message_id, m.author_id, m.content@),
    {
        let at = self.find(m.channel_id, m.message_id);
        let row = Row {
            channel_id: m.channel_id,
            message_id: m.message_id,
            author_id: Some(m.author_id),
            content: Some(m.content.clone()),
        };
        self.put(at, row);
    }

    /// Sets the content at a key. The author of an existing row is kept; a
    /// missing key gets a new row with a null author.
    pub fn update(&mut self, u: &ContentUpdate)
        requires
            old(self).wf(),
        ensures
            final(self).wf(),
            final(self)@ == after_update(old(self)@, u.channel_id, u.message_id, u.content@),
    {
        let at = self.find(u.channel_id, u.message_id);
        let author_id = match at {
            Some(i) => self.rows[i].author_id,
            None => None,
        };
        let row = Row {
            channel_id: u.channel_id,
            message_id: u.message_id,
            author_id,
            content: Some(u.content.clone()),
        };
        self.put(at, row);
    }

    /// Removes the row at a key, if there is one.
    pub fn delete(&mut self, k: MessageKey)
        requires
            old(self).wf(),
        ensures
            final(self).wf(),
            final(self)@ == after_delete(old(self)@, k.channel_id, k.message_id),
    {
        let at = self.find(k.channel_id, k.message_id);
        let ghost old_rows = self.rows@;
        let ghost key = (k.channel_id, k.message_id);
        match at {
            Some(i) => {
                self.rows.remove(i);
                self.contents = Ghost(self.contents@.remove(key));
                assert forall|j: int|
                    0 <= j < self.rows.len() implies self.contents@.contains_key(
                    row_key(#[trigger] self.rows@[j]@),
                ) && self.contents@[row_key(self.rows@[j]@)] == row_value(self.rows@[j]@) by {
                    if j < i {
                        assert(self.rows@[j] == old_rows[j]);
                    } else {
                        assert(self.rows@[j] == old_rows[j + 1]);
                    }
                }
                assert forall|a: int, b: int|
                    0 <= a < b < self.rows.len() implies row_key(#[trigger] self.rows@[a]@)
                    != row_key(#[trigger] self.rows@[b]@) by {
                    let a0 = if a < i { a } else { a + 1 };
                    let b0 = if b < i { b } else { b + 1 };
                    assert(self.rows@[a] == old_rows[a0]);
                    assert(self.rows@[b] == old_rows[b0]);
                }
                assert forall|kk: (i64, i64)| #[trigger] self.contents@.contains_key(kk) implies exists|j: int|
                    0 <= j < self.rows.len() && row_key(#[trigger] self.rows@[j]@) == kk by {
                    let j0 = choose|j: int| 0 <= j < old_rows.len() && row_key(#[trigger] old_rows[j]@) == kk;
                    if j0 < i {
                        assert(row_key(self.rows@[j0]@) == kk);
                    } else {
                        assert(j0 != i);
                        assert(row_key(self.rows@[j0 - 1]@) == kk);
                    }
                }
            },
            None => {
                assert(self.contents@.remove(key) =~= self.contents@);
                self.contents = Ghost(self.contents@.remove(key));
            },
        }
    }

    /// The position of the candidate row with the greatest message id.
    fn best_candidate(&self, q: ListQuery, bound: Option<i64>) -> (r: Option<usize>)
        requires
            self.wf(),
        ensures
            r matches Some(b) ==> b < self.rows.len() && candidate(self.rows@[b as int]@, q, bound),
            forall|j: int|
                0 <= j < self.rows.len() && candidate(#[trigger] self.rows@[j]@, q, bound) ==> (
                r matches Some(b) && self.rows@[j]@.1 <= self.rows@[b as int]@.1),
    {
        let mut best: Option<usize> = None;
        let mut i: usize = 0;
        while i < self.rows.len()
            invariant
                i <= self.rows.len(),
                best matches Some(b) ==> b < self.rows.len() && candidate(self.rows@[b as int]@, q, bound),
                forall|j: int|
                    0 <= j < i && candidate(#[trigger] self.rows@[j]@, q, bound) ==> (
                    best matches Some(b) && self.rows@[j]@.1 <= self.rows@[b as int]@.1),
            decreases self.rows.len() - i,
        {
            let r = &self.rows[i];
            let below = match bound {
                Some(b) => r.message_id < b,
                None => true,
            };
            if r.channel_id == q.channel_id && r.message_id > q.message_id_offset && below {
                let better = match best {
                    Some(b) => r.message_id > self.rows[b].message_id,
                    None => true,
                };
                if better {
                    best = Some(i);
                }
            }
            i = i + 1;
        }
        best
    }

    /// The rows that a listing for `q` returns.
    pub fn select(&self, q: ListQuery) -> (r: Vec<Row>)
        requires
            self.wf(),
        ensures
            is_listing(self@, q, rows_view(r@)),
    {
        let mut out: Vec<Row> = Vec::new();
        let mut bound: Option<i64> = None;
        let mut exhausted = false;
        while out.len() < LIST_LIMIT && !exhausted
            invariant
                exhausted ==> forall|k: (i64, i64)|
                    #![trigger self@.contains_key(k), selected(k, q)]
                    self@.contains_key(k) && selected(k, q) ==> listed(rows_view(out@), k),
                self.wf(),
                out.len() <= LIST_LIMIT,
                bound is None <==> out.len() == 0,
                bound matches Some(b) ==> out@[out.len() - 1]@.1 == b,
                drawn_from(self@, q, rows_view(out@)),
                descending(rows_view(out@)),
                forall|k: (i64, i64)|
                    #![trigger self@.contains_key(k), selected(k, q)]
                    self@.contains_key(k) && selected(k, q) && (bound matches Some(b) && k.1 > b)
                        ==> listed(rows_view(out@), k),
            decreases LIST_LIMIT - out.len() + if exhausted {
                0int
            } else {
                1int
            },
        {
            let ghost old_out = rows_view(out@);
            let ghost old_bound = bound;
            match self.best_candidate(q, bound) {
                None => {
                    assert forall|k: (i64, i64)|
                        self@.contains_key(k) && selected(k, q) implies listed(rows_view(out@), k) by {
                        let j = choose|j: int|
                            0 <= j < self.rows.len() && row_key(#[trigger] self.rows@[j]@) == k;
                        assert(!candidate(self.rows@[j]@, q, bound));
                        if let Some(b) = bound {
                            if k.1 <= b {
                                assert(row_key(rows_view(out@)[out.len() - 1]) == k);
                            }
                        }
                    }
                    exhausted = true;
                },
                Some(b) => {
                    let row = copy_row(&self.rows[b]);
                    let mid = row.message_id;
                    let ghost rv = row@;
                    assert(self@.contains_key(row_key(rv)));
                    out.push(row);
                    bound = Some(mid);
                    let ghost nv = rows_view(out@);
                    assert(nv =~= old_out.push(rv));
                    assert forall|i: int, j: int|
                        0 <= i < j < nv.len() implies (#[trigger] nv[i]).1 > (#[trigger] nv[j]).1 by {
                        if j == old_out.len() {
                            assert(old_out[i].1 >= old_out[old_out.len() - 1].1);
                        }
                    }
                    assert forall|k: (i64, i64)|
                        #![trigger self@.contains_key(k), selected(k, q)]
                        self@.contains_key(k) && selected(k, q) && k.1 > mid implies listed(nv, k) by {
                        match old_bound {
                            Some(ob) => {
                                if k.1 > ob {
                                    let i = choose|i: int|
                                        0 <= i < old_out.len() && row_key(#[trigger] old_out[i]) == k;
                                    assert(row_key(nv[i]) == k);
                                } else if k.1 == ob {
                                    assert(row_key(nv[old_out.len() - 1]) == k);
                                } else {
                                    let j = choose|j: int|
                                        0 <= j < self.rows.len() && row_key(#[trigger] self.rows@[j]@) == k;
                                    assert(candidate(self.rows@[j]@, q, old_bound));
                                }
                            },
                            None => {
                                let j = choose|j: int|
                                    0 <= j < self.rows.len() && row_key(#[trigger] self.rows@[j]@) == k;
                                assert(candidate(self.rows@[j]@, q, old_bound));
                            },
                        }
                    }
                },
            }
        }
        out
    }
}

} // verus!
