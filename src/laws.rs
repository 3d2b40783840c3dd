use vstd::prelude::*;
use crate::listing::{is_listing, listed, selected, LIST_LIMIT};
use crate::message::ListQuery;
use crate::row::RowView;
use crate::schema::{bootstrap_seq, run, Schema};
use crate::table::{after_delete, after_insert, after_update, row_key, TableView};

verus! {

/// Creating a message and then listing its channel from just below its id
/// returns exactly that row, provided no row of the channel has a greater id
/// (those would be listed too) and the id has a predecessor.
pub proof fn lemma_create_then_list(
    t: TableView,
    channel_id: i64,
    message_id: i64,
    author_id: i64,
    content: Seq<char>,
    s: Seq<RowView>,
)
    requires
        message_id > i64::MIN,
        forall|k: (i64, i64)|
            #[trigger] t.contains_key(k) && k.0 == channel_id ==> k.1 <= message_id,
        is_listing(
            after_insert(t, channel_id, message_id, author_id, content),
            ListQuery { channel_id, message_id_offset: (message_id - 1) as i64 },
            s,
        ),
    ensures
        s == seq![(channel_id, message_id, Some(author_id), Some(content))],
{
    let t2 = after_insert(t, channel_id, message_id, author_id, content);
    let q = ListQuery { channel_id, message_id_offset: (message_id - 1) as i64 };
    let k = (channel_id, message_id);
    assert(t2.contains_key(k) && selected(k, q));
    assert forall|i: int| 0 <= i < s.len() implies row_key(#[trigger] s[i]) == k by {
        let ki = row_key(s[i]);
        assert(t2.contains_key(ki) && selected(ki, q));
        if ki != k {
            assert(t.contains_key(ki));
        }
    }
    if s.len() == LIST_LIMIT {
        assert(row_key(s[s.len() - 1]) == k);
        assert(listed(s, k));
    } else {
        assert(listed(s, k));
    }
    if s.len() >= 2 {
        assert(s[0].1 > s[1].1);
        assert(row_key(s[0]) == k && row_key(s[1]) == k);
    }
    assert(s.len() == 1);
    assert(s[0] == (channel_id, message_id, Some(author_id), Some(content)));
    assert(s =~= seq![(channel_id, message_id, Some(author_id), Some(content))]);
}

/// Deleting is idempotent: afterwards the key is absent whether or not it was
/// present, and a second delete changes nothing.
pub proof fn lemma_delete_idempotent(t: TableView, channel_id: i64, message_id: i64)
    ensures
        !after_delete(t, channel_id, message_id).contains_key((channel_id, message_id)),
        after_delete(after_delete(t, channel_id, message_id), channel_id, message_id) == after_delete(
            t,
            channel_id,
            message_id,
        ),
{
    assert(after_delete(after_delete(t, channel_id, message_id), channel_id, message_id) =~= after_delete(
        t,
        channel_id,
        message_id,
    ));
}

/// An update of an existing row changes its content only: the row keeps its
/// key and author, every other row is untouched, and every listing that shows
/// the row shows the old author with the new content.
pub proof fn lemma_update_changes_content_only(
    t: TableView,
    channel_id: i64,
    message_id: i64,
    content: Seq<char>,
    q: ListQuery,
    s: Seq<RowView>,
)
    requires
        t.contains_key((channel_id, message_id)),
        is_listing(after_update(t, channel_id, message_id, content), q, s),
    ensures
        after_update(t, channel_id, message_id, content).dom() == t.dom(),
        after_update(t, channel_id, message_id, content)[(channel_id, message_id)] == (
            t[(channel_id, message_id)].0,
            Some(content),
        ),
        forall|k: (i64, i64)|
            k != (channel_id, message_id) && #[trigger] t.contains_key(k) ==> after_update(
                t,
                channel_id,
                message_id,
                content,
            )[k] == t[k],
        forall|i: int|
            0 <= i < s.len() && row_key(#[trigger] s[i]) == (channel_id, message_id) ==> s[i].2
                == t[(channel_id, message_id)].0 && s[i].3 == Some(content),
{
    let t2 = after_update(t, channel_id, message_id, content);
    assert(t2.dom() =~= t.dom());
    assert forall|i: int|
        0 <= i < s.len() && row_key(#[trigger] s[i]) == (channel_id, message_id) implies s[i].2
        == t[(channel_id, message_id)].0 && s[i].3 == Some(content) by {
        assert(t2[row_key(s[i])] == (s[i].2, s[i].3));
    }
}

/// No listing holds more than `LIST_LIMIT` rows, however many the channel
/// holds.
pub proof fn lemma_listing_bounded(t: TableView, q: ListQuery, s: Seq<RowView>)
    requires
        is_listing(t, q, s),
    ensures
        s.len() <= 10,
{
}

/// The bootstrap succeeds from any schema, leaves keyspace and table in
/// place, and running it again succeeds and changes nothing.
pub proof fn lemma_bootstrap_idempotent(s: Schema)
    ensures
        run(s, bootstrap_seq()) matches Ok(s1) && s1.keyspace && s1.table && run(s1, bootstrap_seq())
            == Ok::<Schema, crate::schema::SchemaError>(s1),
{
    let b = bootstrap_seq();
    assert(b.drop_first() =~= seq![crate::schema::SchemaStatement::CreateTable]);
    assert(b.drop_first().drop_first() =~= Seq::<crate::schema::SchemaStatement>::empty());
    reveal_with_fuel(run, 3);
}

} // verus!
