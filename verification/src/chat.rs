//! One conversation as the client holds it.

use crate::message::{ordered, Message, MessageCache};
use vstd::prelude::*;

verus! {

/// How much of a conversation's history has been fetched.
#[derive(Clone, Copy, Debug, PartialEq, Eq, Structural)]
pub enum Cursor {
    /// No page was fetched yet.
    NotFetched,
    /// History was fetched back to the message with this identifier.
    Before(u64),
    /// The remote service has no older message.
    Exhausted,
}

/// The mathematical value of a [`ChatState`].
pub struct ChatView {
    pub id: i64,
    pub name: Seq<char>,
    pub preview: Seq<char>,
    pub messages: Seq<Message>,
    pub cursor: Cursor,
    pub loading: bool,
    pub error: Option<Seq<char>>,
    pub placeholder: bool,
}

/// The text of an optional string.
pub open spec fn text_of(o: Option<String>) -> Option<Seq<char>> {
    match o {
        Some(s) => Some(s@),
        None => None,
    }
}

/// A conversation: who it is with, what was last said, the messages cached
/// so far, and the state of the background load of its history.
pub struct ChatState {
    /// The identifier by which the remote service knows the conversation.
    pub id: i64,
    /// The name shown in the conversation list.
    pub name: String,
    /// The text of the most recent message.
    pub preview: String,
    /// The cached messages, oldest first.
    pub messages: MessageCache,
    /// How far back the history was fetched.
    pub cursor: Cursor,
    /// Whether a load of a message page is in flight.
    pub loading: bool,
    /// Why the last load failed, if it did.
    pub error: Option<String>,
    /// Whether the entry was made up for a live message of a conversation
    /// that no listing had reported.
    pub placeholder: bool,
}

impl View for ChatState {
    type V = ChatView;

    open spec fn view(&self) -> ChatView {
        ChatView {
            id: self.id,
            name: self.name@,
            preview: self.preview@,
            messages: self.messages@,
            cursor: self.cursor,
            loading: self.loading,
            error: text_of(self.error),
            placeholder: self.placeholder,
        }
    }
}

/// A conversation as a listing reports it: nothing cached, nothing in flight.
pub open spec fn discovered_chat(id: i64, name: Seq<char>, preview: Seq<char>) -> ChatView {
    ChatView {
        id,
        name,
        preview,
        messages: Seq::empty(),
        cursor: Cursor::NotFetched,
        loading: false,
        error: None,
        placeholder: false,
    }
}

/// The entry made up for a live message of an unknown conversation: it has
/// no name yet and holds that one message.
pub open spec fn placeholder_chat(id: i64, m: Message) -> ChatView {
    ChatView {
        id,
        name: Seq::empty(),
        preview: m.body@,
        messages: seq![m],
        cursor: Cursor::NotFetched,
        loading: false,
        error: None,
        placeholder: true,
    }
}

impl ChatState {
    /// The message cache is in order.
    pub open spec fn wf(&self) -> bool {
        ordered(self.messages@)
    }

    /// The entry for a conversation that a listing reported.
    pub fn new(id: i64, name: String, preview: String) -> (c: ChatState)
        ensures
            c@ == discovered_chat(id, name@, preview@),
            c.wf(),
    {
        ChatState {
            id,
            name,
            preview,
            messages: MessageCache::new(),
            cursor: Cursor::NotFetched,
            loading: false,
            error: None,
            placeholder: false,
        }
    }

    /// The entry for a conversation of which only a live message is known.
    pub fn placeholder(id: i64, m: Message) -> (c: ChatState)
        ensures
            c@ == placeholder_chat(id, m),
            c.wf(),
    {
        let preview = m.body.clone();
        let mut messages = MessageCache::new();
        let _ = messages.insert(m);
        proof {
            assert(Seq::<Message>::empty().insert(0, m) =~= seq![m]);
        }
        ChatState {
            id,
            name: String::new(),
            preview,
            messages,
            cursor: Cursor::NotFetched,
            loading: false,
            error: None,
            placeholder: true,
        }
    }
}

} // verus!
