//! Requests to the remote service and what comes back from it.

use crate::chat::Cursor;
use crate::message::Message;
use vstd::prelude::*;

verus! {

/// The most messages that one page load asks for.
pub const PAGE_LIMIT: usize = 30;

/// A unit of background work against the remote service.
#[derive(Clone, Copy, Debug, PartialEq, Eq, Structural)]
pub enum ApiJob {
    /// Load one page of the messages of the conversation `chat`, going back
    /// from `from`.
    LoadMessages { chat: i64, from: Cursor },
    /// Load the list of conversations.
    LoadDialogs,
}

/// What the remote side reports: results of jobs and live updates.
#[derive(Debug)]
pub enum ApiEvent {
    /// A listing reported a conversation.
    ConversationDiscovered { id: i64, name: String, preview: String },
    /// A page load delivered one message of the conversation `chat`.
    MessagePageItem { chat: i64, message: Message },
    /// A message arrived in the conversation `chat`.
    LiveMessageNew { chat: i64, message: Message },
    /// A message of the conversation `chat` was edited.
    MessageEdited { chat: i64, message: Message },
    /// Messages were deleted: their identifiers, and the identifier that the
    /// remote service gives their channel, where it names one.
    MessageDeleted { channel: Option<i64>, messages: Vec<u64> },
    /// A job ran to its end, having delivered so many items.
    JobCompleted { job: ApiJob, delivered: usize },
    /// A job failed.
    JobFailed { job: ApiJob, reason: String },
    /// The stream of live updates ended or broke.
    Disconnected,
}

} // verus!
