use vstd::prelude::*;

verus! {

/// Lists a channel above an offset; bound to (channel_id, message_id_offset).
pub const SELECT_MESSAGES: &'static str = "SELECT channel_id, message_id, author_id, content FROM messages.messages WHERE channel_id = ? AND message_id > ? LIMIT 10";

/// Upserts a full row; bound to (channel_id, message_id, author_id, content).
pub const INSERT_MESSAGE: &'static str = "INSERT INTO messages.messages (channel_id, message_id, author_id, content) VALUES (?, ?, ?, ?)";

/// Deletes by key; bound to (channel_id, message_id).
pub const DELETE_MESSAGE: &'static str = "DELETE FROM messages.messages WHERE channel_id = ? AND message_id = ?";

/// Sets the content at a key; bound to (content, channel_id, message_id).
pub const UPDATE_MESSAGE: &'static str = "UPDATE messages.messages SET content = ? WHERE channel_id = ? AND message_id = ?";

/// Creates the keyspace unless it exists.
pub const CREATE_KEYSPACE: &'static str = "CREATE KEYSPACE IF NOT EXISTS messages WITH REPLICATION = {'class': 'SimpleStrategy', 'replication_factor': 1}";

/// Creates the table unless it exists, newest message first in a channel.
pub const CREATE_TABLE: &'static str = "CREATE TABLE IF NOT EXISTS messages.messages (channel_id BIGINT, message_id BIGINT, author_id BIGINT, content TEXT, PRIMARY KEY (channel_id, message_id)) WITH CLUSTERING ORDER BY (message_id DESC)";

} // verus!
