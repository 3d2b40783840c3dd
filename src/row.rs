use vstd::prelude::*;
use crate::error::ServiceError;
use crate::message::MessageResponse;

verus! {

/// A row as the store returns it: any non-key column may be null.
pub struct Row {
    pub channel_id: i64,
    pub message_id: i64,
    pub author_id: Option<i64>,
    pub content: Option<String>,
}

/// What a row holds, as plain values.
pub type RowView = (i64, i64, Option<i64>, Option<Seq<char>>);

pub open spec fn text_view(o: Option<String>) -> Option<Seq<char>> {
    match o {
        Some(s) => Some(s@),
        None => None,
    }
}

impl View for Row {
    type V = RowView;

    open spec fn view(&self) -> RowView {
        (self.channel_id, self.message_id, self.author_id, text_view(self.content))
    }
}

/// A row that can be shown as a message: no column is null.
pub open spec fn row_complete(r: RowView) -> bool {
    r.2 is Some && r.3 is Some
}

/// The message that shows a complete row.
pub open spec fn shows_row(m: MessageResponse, r: RowView) -> bool {
    &&& m.channel_id == r.0
    &&& m.message_id == r.1
    &&& r.2 == Some(m.author_id)
    &&& r.3 == Some(m.content@)
}

/// A result in which every row can be shown.
pub open spec fn result_complete(rows: Option<Vec<Row>>) -> bool {
    match rows {
        None => true,
        Some(v) => forall|i: int| 0 <= i < v.len() ==> #[trigger] row_complete(v[i]@),
    }
}

pub open spec fn rows_view(rows: Seq<Row>) -> Seq<RowView> {
    rows.map_values(|r: Row| r@)
}

/// The message that shows `row`, if no column of it is null.
pub fn message_from_row(row: &Row) -> (r: Option<MessageResponse>)
    ensures
        r is Some <==> row_complete(row@),
        r matches Some(m) ==> shows_row(m, row@),
{
    match (row.author_id, &row.content) {
        (Some(author_id), Some(content)) => Some(
            MessageResponse {
                channel_id: row.channel_id,
                message_id: row.message_id,
                author_id,
                content: content.clone(),
            },
        ),
        _ => None,
    }
}

/// The messages that show the rows of a result, in their order. A result
/// without rows shows as no messages; a row with a null column is an internal
/// failure.
pub fn messages_from_rows(rows: Option<Vec<Row>>) -> (r: Result<Vec<MessageResponse>, ServiceError>)
    ensures
        r is Ok <==> result_complete(rows),
        r matches Err(e) ==> e == ServiceError::Internal,
        r matches Ok(ms) ==> match rows {
            None => ms.len() == 0,
            Some(v) => ms.len() == v.len() && forall|i: int|
                0 <= i < v.len() ==> #[trigger] shows_row(ms[i], v[i]@),
        },
{
    match rows {
        None => Ok(Vec::new()),
        Some(v) => {
            let mut ms: Vec<MessageResponse> = Vec::new();
            let mut i: usize = 0;
            while i < v.len()
                invariant
                    rows == Some(v),
                    i <= v.len(),
                    ms.len() == i,
                    forall|j: int| 0 <= j < i ==> row_complete(v[j]@),
                    forall|j: int| 0 <= j < i ==> #[trigger] shows_row(ms[j], v[j]@),
                decreases v.len() - i,
            {
                match message_from_row(&v[i]) {
                    Some(m) => {
                        ms.push(m);
                    },
                    None => {
                        assert(!row_complete(v[i as int]@));
                        return Err(ServiceError::Internal);
                    },
                }
                i = i + 1;
            }
            Ok(ms)
        },
    }
}

} // verus!
