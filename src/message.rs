use vstd::prelude::*;

verus! {

/// An inbound request: every field is optional.
#[derive(Debug)]
pub struct MessageRequest {
    pub channel_id: Option<i64>,
    pub message_id: Option<i64>,
    pub author_id: Option<i64>,
    pub content: Option<String>,
    pub message_id_offset: Option<i64>,
}

/// An outbound message record.
#[derive(Debug, PartialEq, Eq)]
pub struct MessageResponse {
    pub channel_id: i64,
    pub message_id: i64,
    pub author_id: i64,
    pub content: String,
}

/// The selection of a listing: a channel and an exclusive lower bound on the
/// message id.
#[derive(Clone, Copy, Debug, PartialEq, Eq, Structural)]
pub struct ListQuery {
    pub channel_id: i64,
    pub message_id_offset: i64,
}

/// The primary key of a stored message.
#[derive(Clone, Copy, Debug, PartialEq, Eq, Structural)]
pub struct MessageKey {
    pub channel_id: i64,
    pub message_id: i64,
}

/// A full row to be written by an upsert.
pub struct NewMessage {
    pub channel_id: i64,
    pub message_id: i64,
    pub author_id: i64,
    pub content: String,
}

/// A change of content at one key.
pub struct ContentUpdate {
    pub channel_id: i64,
    pub message_id: i64,
    pub content: String,
}

/// An identifier field after defaulting: absent means zero.
pub open spec fn id_or_zero(o: Option<i64>) -> i64 {
    match o {
        Some(v) => v,
        None => 0,
    }
}

/// A text field after defaulting: absent means the empty string.
pub open spec fn text_or_empty(o: Option<String>) -> Seq<char> {
    match o {
        Some(s) => s@,
        None => Seq::empty(),
    }
}

fn id_field(o: Option<i64>) -> (r: i64)
    ensures
        r == id_or_zero(o),
{
    o.unwrap_or(0)
}

fn text_field(o: &Option<String>) -> (r: String)
    ensures
        r@ == text_or_empty(*o),
{
    match o {
        Some(s) => s.clone(),
        None => String::new(),
    }
}

impl MessageRequest {
    /// The listing that a list request asks for; other fields are ignored.
    pub fn list_query(&self) -> (r: ListQuery)
        ensures
            r.channel_id == id_or_zero(self.channel_id),
            r.message_id_offset == id_or_zero(self.message_id_offset),
    {
        ListQuery {
            channel_id: id_field(self.channel_id),
            message_id_offset: id_field(self.message_id_offset),
        }
    }

    /// The row that a create request writes.
    pub fn new_message(&self) -> (r: NewMessage)
        ensures
            r.channel_id == id_or_zero(self.channel_id),
            r.message_id == id_or_zero(self.message_id),
            r.author_id == id_or_zero(self.author_id),
            r.content@ == text_or_empty(self.content),
    {
        NewMessage {
            channel_id: id_field(self.channel_id),
            message_id: id_field(self.message_id),
            author_id: id_field(self.author_id),
            content: text_field(&self.content),
        }
    }

    /// The key that a delete request removes.
    pub fn message_key(&self) -> (r: MessageKey)
        ensures
            r.channel_id == id_or_zero(self.channel_id),
            r.message_id == id_or_zero(self.message_id),
    {
        MessageKey { channel_id: id_field(self.channel_id), message_id: id_field(self.message_id) }
    }

    /// The change that an update request makes; the author is not part of it.
    pub fn content_update(&self) -> (r: ContentUpdate)
        ensures
            r.channel_id == id_or_zero(self.channel_id),
            r.message_id == id_or_zero(self.message_id),
            r.content@ == text_or_empty(self.content),
    {
        ContentUpdate {
            channel_id: id_field(self.channel_id),
            message_id: id_field(self.message_id),
            content: text_field(&self.content),
        }
    }
}

} // verus!
