use vstd::prelude::*;
use crate::message::{text_or_empty, MessageRequest, MessageResponse};

verus! {

/// The channel that the startup fixture fills.
pub const TEST_CHANNEL: i64 = 1;

/// The listing request that reads the fixture channel from the start.
pub fn initial_test_request() -> (r: MessageRequest)
    ensures
        r.channel_id == Some(TEST_CHANNEL),
        r.message_id_offset == Some(0i64),
        r.message_id is None,
        r.author_id is None,
        r.content is None,
{
    MessageRequest {
        channel_id: Some(TEST_CHANNEL),
        message_id: None,
        author_id: None,
        content: None,
        message_id_offset: Some(0),
    }
}

/// The content of the fixture message at position `i`.
pub open spec fn fixture_text(i: int) -> Seq<char> {
    if i == 0 {
        "Hello"@
    } else if i == 1 {
        "World"@
    } else {
        "!"@
    }
}

/// `r` creates the fixture message at position `i`.
pub open spec fn is_fixture(r: MessageRequest, i: int) -> bool {
    &&& r.channel_id == Some(TEST_CHANNEL)
    &&& r.message_id == Some((i + 1) as i64)
    &&& r.author_id == Some(1i64)
    &&& r.content is Some
    &&& text_or_empty(r.content) == fixture_text(i)
    &&& r.message_id_offset is None
}

fn fixture(message_id: i64, content: &str) -> (r: MessageRequest)
    ensures
        r.channel_id == Some(TEST_CHANNEL),
        r.message_id == Some(message_id),
        r.author_id == Some(1i64),
        r.content is Some,
        text_or_empty(r.content) == content@,
        r.message_id_offset is None,
{
    MessageRequest {
        channel_id: Some(TEST_CHANNEL),
        message_id: Some(message_id),
        author_id: Some(1),
        content: Some(content.to_owned()),
        message_id_offset: None,
    }
}

/// The create requests of the fixture: messages 1, 2 and 3 of the fixture
/// channel, all by author 1.
pub fn initial_test_data() -> (r: Vec<MessageRequest>)
    ensures
        r.len() == 3,
        forall|i: int| 0 <= i < 3 ==> is_fixture(#[trigger] r[i], i),
{
    proof {
        reveal_strlit("Hello");
        reveal_strlit("World");
        reveal_strlit("!");
    }
    let r = vec![fixture(1, "Hello"), fixture(2, "World"), fixture(3, "!")];
    r
}

/// Whether the fixture has to be written: the fixture channel lists nothing.
pub fn needs_seed(listed: &Vec<MessageResponse>) -> (r: bool)
    ensures
        r == (listed.len() == 0),
{
    listed.len() == 0
}

} // verus!
