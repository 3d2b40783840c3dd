use vstd::prelude::*;
use crate::error::ServiceError;
use crate::listing::is_listing;
use crate::message::{id_or_zero, text_or_empty, ListQuery, MessageRequest, MessageResponse};
use crate::reply::Outcome;
use crate::row::{messages_from_rows, result_complete, row_complete, rows_view, shows_row, RowView};
use crate::table::{after_delete, after_insert, after_update, MessageTable, TableView};

verus! {

/// The listing that a request selects, after defaulting.
pub open spec fn requested_listing(req: MessageRequest) -> ListQuery {
    ListQuery {
        channel_id: id_or_zero(req.channel_id),
        message_id_offset: id_or_zero(req.message_id_offset),
    }
}

/// `ms` is the reply to a listing whose rows are `s`: an error where a row
/// has a null column, else one message per row, in order.
pub open spec fn reply_shows(s: Seq<RowView>, r: Result<Vec<MessageResponse>, ServiceError>) -> bool {
    &&& (r is Ok <==> forall|i: int| 0 <= i < s.len() ==> #[trigger] row_complete(s[i]))
    &&& (r matches Err(e) ==> e == ServiceError::Internal)
    &&& (r matches Ok(ms) ==> ms.len() == s.len() && forall|i: int|
        0 <= i < s.len() ==> #[trigger] shows_row(ms[i], s[i]))
}

/// The request handlers, run against an in-memory table.
impl MessageTable {
    /// Lists the channel of the request above its offset.
    pub fn get_messages(&self, req: &MessageRequest) -> (r: Result<Vec<MessageResponse>, ServiceError>)
        requires
            self.wf(),
        ensures
            exists|s: Seq<RowView>|
                is_listing(self@, requested_listing(*req), s) && #[trigger] reply_shows(s, r),
    {
        let q = req.list_query();
        let rows = self.select(q);
        let ghost s = rows_view(rows@);
        let ghost v = rows;
        let r = messages_from_rows(Some(rows));
        assert(forall|i: int| 0 <= i < s.len() ==> s[i] == #[trigger] v[i]@);
        assert((forall|i: int| 0 <= i < s.len() ==> #[trigger] row_complete(s[i])) <==> result_complete(
            Some(v),
        ));
        assert(reply_shows(s, r));
        r
    }

    /// Writes the row of a create request, replacing any row at its key.
    pub fn add_message(&mut self, req: &MessageRequest) -> (r: Outcome)
        requires
            old(self).wf(),
        ensures
            final(self).wf(),
            final(self)@ == after_insert(
                old(self)@,
                id_or_zero(req.channel_id),
                id_or_zero(req.message_id),
                id_or_zero(req.author_id),
                text_or_empty(req.content),
            ),
            r == Outcome::Created,
    {
        let m = req.new_message();
        self.insert(&m);
        Outcome::Created
    }

    /// Removes the row at the key of a delete request; the outcome is the
    /// same whether or not a row was there.
    pub fn delete_message(&mut self, req: &MessageRequest) -> (r: Outcome)
        requires
            old(self).wf(),
        ensures
            final(self).wf(),
            final(self)@ == after_delete(old(self)@, id_or_zero(req.channel_id), id_or_zero(req.message_id)),
            r == Outcome::Deleted,
    {
        let k = req.message_key();
        self.delete(k);
        Outcome::Deleted
    }

    /// Sets the content at the key of an update request.
    pub fn edit_message(&mut self, req: &MessageRequest) -> (r: Outcome)
        requires
            old(self).wf(),
        ensures
            final(self).wf(),
            final(self)@ == after_update(
                old(self)@,
                id_or_zero(req.channel_id),
                id_or_zero(req.message_id),
                text_or_empty(req.content),
            ),
            r == Outcome::Updated,
    {
        let u = req.content_update();
        self.update(&u);
        Outcome::Updated
    }
}

} // verus!
