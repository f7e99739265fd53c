//! The mathematical model of the application state and of the reducer: what
//! each event makes of a state, as functions on values.

use crate::chat::{discovered_chat, placeholder_chat, ChatView, Cursor};
use crate::job::{ApiEvent, ApiJob, PAGE_LIMIT};
use crate::message::{contains_seq, merged, ordered, Message};
use crate::screen::{key_action_spec, Action, ScreenEvent};
use vstd::prelude::*;

verus! {

/// The mathematical value of the application state.
pub struct AppView {
    /// The conversations, in the order in which they were discovered.
    pub chats: Seq<ChatView>,
    /// The place of the selected conversation in `chats`, if one is selected.
    pub selected: Option<usize>,
    /// The client is shutting down.
    pub quit: bool,
    /// The stream of live updates is gone; no load job is issued any more.
    pub disconnected: bool,
    /// A load of the conversation list is in flight.
    pub listing: bool,
    /// How many events named a conversation that is not known, and were dropped.
    pub anomalies: u64,
    /// The reason of the last failed job, for display.
    pub failure: Option<Seq<char>>,
}

/// An event of either source.
pub enum Event {
    Screen(ScreenEvent),
    Api(ApiEvent),
}

/// What one step of the reducer yields: the next state, the jobs to hand to
/// the dispatcher, and whether the renderer is to draw the state.
pub struct Step {
    pub state: AppView,
    pub jobs: Seq<ApiJob>,
    pub redraw: bool,
}

/// A conversation with the identifier `id` is known.
pub open spec fn has_chat(chats: Seq<ChatView>, id: i64) -> bool {
    exists|i: int| 0 <= i < chats.len() && (#[trigger] chats[i]).id == id
}

/// The place of the conversation with the identifier `id`, where one is known.
pub open spec fn chat_at(chats: Seq<ChatView>, id: i64) -> int {
    choose|i: int| 0 <= i < chats.len() && (#[trigger] chats[i]).id == id
}

/// No two conversations share an identifier.
pub open spec fn distinct_ids(chats: Seq<ChatView>) -> bool {
    forall|i: int, j: int|
        0 <= i < j < chats.len() ==> (#[trigger] chats[i]).id != (#[trigger] chats[j]).id
}

/// The invariant of the application state: identifiers are distinct, every
/// cache is in chronological order without a repeated message identifier,
/// and the selection points into the list.
pub open spec fn valid(s: AppView) -> bool {
    &&& distinct_ids(s.chats)
    &&& forall|i: int| 0 <= i < s.chats.len() ==> ordered((#[trigger] s.chats[i]).messages)
    &&& s.selected matches Some(k) ==> k < s.chats.len()
}

/// The state at the start of a session: no conversation, no selection.
pub open spec fn initial() -> AppView {
    AppView {
        chats: Seq::empty(),
        selected: None,
        quit: false,
        disconnected: false,
        listing: false,
        anomalies: 0,
        failure: None,
    }
}

/// A step that changes nothing but the state.
pub open spec fn quiet(s: AppView) -> Step {
    Step { state: s, jobs: Seq::empty(), redraw: false }
}

/// One more dropped event; the count stops at the largest number it can hold.
pub open spec fn count_anomaly(s: AppView) -> AppView {
    AppView {
        anomalies: if s.anomalies < u64::MAX {
            (s.anomalies + 1) as u64
        } else {
            s.anomalies
        },
        ..s
    }
}

/// A listing reported a conversation: it joins the end of the list unless its
/// identifier is known already.
pub open spec fn discover(s: AppView, id: i64, name: Seq<char>, preview: Seq<char>) -> AppView {
    if has_chat(s.chats, id) {
        s
    } else {
        AppView { chats: s.chats.push(discovered_chat(id, name, preview)), ..s }
    }
}

/// A page load delivered a message: it goes to its chronological place in
/// the conversation's cache; where the conversation is unknown the event is
/// dropped and counted.
pub open spec fn page_item(s: AppView, chat: i64, m: Message) -> AppView {
    if has_chat(s.chats, chat) {
        let i = chat_at(s.chats, chat);
        let c = s.chats[i];
        AppView { chats: s.chats.update(i, ChatView { messages: merged(c.messages, m), ..c }), ..s }
    } else {
        count_anomaly(s)
    }
}

/// A live message arrived: it joins the conversation's cache and becomes its
/// preview, unless its identifier is cached already; for an unknown
/// conversation an entry is made up that holds it.
pub open spec fn live_message(s: AppView, chat: i64, m: Message) -> AppView {
    if has_chat(s.chats, chat) {
        let i = chat_at(s.chats, chat);
        let c = s.chats[i];
        if contains_seq(c.messages, m.seq) {
            s
        } else {
            AppView {
                chats: s.chats.update(
                    i,
                    ChatView { messages: merged(c.messages, m), preview: m.body@, ..c },
                ),
                ..s
            }
        }
    } else {
        AppView { chats: s.chats.push(placeholder_chat(chat, m)), ..s }
    }
}

/// The cursor of a conversation after a page load that delivered `delivered`
/// messages: a short page means that the history is exhausted; a full one
/// moves the cursor to the oldest cached message.
pub open spec fn next_cursor(messages: Seq<Message>, cursor: Cursor, delivered: usize) -> Cursor {
    if delivered < PAGE_LIMIT {
        Cursor::Exhausted
    } else if messages.len() > 0 {
        Cursor::Before(messages[0].seq)
    } else {
        cursor
    }
}

/// A job ran to its end: its in-flight mark is cleared. A page load also
/// clears the conversation's error and moves its cursor.
pub open spec fn job_completed(s: AppView, job: ApiJob, delivered: usize) -> AppView {
    match job {
        ApiJob::LoadDialogs => AppView { listing: false, ..s },
        ApiJob::LoadMessages { chat, from } => if has_chat(s.chats, chat) {
            let i = chat_at(s.chats, chat);
            let c = s.chats[i];
            AppView {
                chats: s.chats.update(
                    i,
                    ChatView {
                        loading: false,
                        error: None,
                        cursor: next_cursor(c.messages, c.cursor, delivered),
                        ..c
                    },
                ),
                ..s
            }
        } else {
            count_anomaly(s)
        },
    }
}

/// A job failed: the reason is kept for display and the in-flight mark is
/// cleared, so that the load can be asked for again. A failed page load marks
/// its conversation with the reason and leaves the cache as it is.
pub open spec fn job_failed(s: AppView, job: ApiJob, reason: Seq<char>) -> AppView {
    let s1 = AppView { failure: Some(reason), ..s };
    match job {
        ApiJob::LoadDialogs => AppView { listing: false, ..s1 },
        ApiJob::LoadMessages { chat, from } => if has_chat(s.chats, chat) {
            let i = chat_at(s.chats, chat);
            let c = s.chats[i];
            AppView {
                chats: s.chats.update(i, ChatView { loading: false, error: Some(reason), ..c }),
                ..s1
            }
        } else {
            count_anomaly(s1)
        },
    }
}

/// What an event of the remote side makes of the state. No such event
/// issues a job or asks for a redraw.
pub open spec fn apply_api(s: AppView, e: ApiEvent) -> Step {
    match e {
        ApiEvent::ConversationDiscovered { id, name, preview } => quiet(
            discover(s, id, name@, preview@),
        ),
        ApiEvent::MessagePageItem { chat, message } => quiet(page_item(s, chat, message)),
        ApiEvent::LiveMessageNew { chat, message } => quiet(live_message(s, chat, message)),
        ApiEvent::MessageEdited { chat, message } => quiet(s),
        ApiEvent::MessageDeleted { channel, messages } => quiet(s),
        ApiEvent::JobCompleted { job, delivered } => quiet(job_completed(s, job, delivered)),
        ApiEvent::JobFailed { job, reason } => quiet(job_failed(s, job, reason@)),
        ApiEvent::Disconnected => quiet(AppView { disconnected: true, ..s }),
    }
}

/// A page load for the conversation at place `i` may be issued: none is in
/// flight for it and the client is connected.
pub open spec fn admissible(s: AppView, i: int) -> bool {
    !s.disconnected && !s.chats[i].loading
}

/// The admission rule: a page load for the conversation at place `i` is
/// issued and marked as in flight where it is admissible, and turned down
/// otherwise.
pub open spec fn grant(s: AppView, i: int) -> Step {
    if admissible(s, i) {
        let c = s.chats[i];
        Step {
            state: AppView { chats: s.chats.update(i, ChatView { loading: true, ..c }), ..s },
            jobs: seq![page_job(c)],
            redraw: false,
        }
    } else {
        quiet(s)
    }
}

/// A request for a page of the conversation `chat`: admitted by the rule of
/// [`grant`] where the conversation is known.
pub open spec fn request_page(s: AppView, chat: i64) -> Step {
    if has_chat(s.chats, chat) {
        grant(s, chat_at(s.chats, chat))
    } else {
        quiet(s)
    }
}

/// The selection moves to the conversation at place `i`; where nothing of it
/// is cached yet, a page load is asked for.
pub open spec fn select(s: AppView, i: usize) -> Step {
    let s1 = AppView { selected: Some(i), ..s };
    if s.chats[i as int].messages.len() == 0 {
        grant(s1, i as int)
    } else {
        quiet(s1)
    }
}

/// The place one below the selection, or the first where nothing is
/// selected; the last conversation has nothing below it.
pub open spec fn next_index(s: AppView) -> usize {
    match s.selected {
        Some(i) => if i + 1 < s.chats.len() {
            (i + 1) as usize
        } else {
            (s.chats.len() - 1) as usize
        },
        None => 0,
    }
}

/// The place one above the selection, or the first where nothing is
/// selected; the first conversation has nothing above it.
pub open spec fn previous_index(s: AppView) -> usize {
    match s.selected {
        Some(i) => if i > 0 {
            (i - 1) as usize
        } else {
            0
        },
        None => 0,
    }
}

/// What an action of the user makes of the state. With no conversation in
/// the list the selection cannot move.
pub open spec fn apply_action(s: AppView, a: Action) -> Step {
    match a {
        Action::Quit => quiet(AppView { quit: true, ..s }),
        Action::SelectNext => if s.chats.len() == 0 {
            quiet(s)
        } else {
            select(s, next_index(s))
        },
        Action::SelectPrevious => if s.chats.len() == 0 {
            quiet(s)
        } else {
            select(s, previous_index(s))
        },
        Action::Ignore => quiet(s),
    }
}

/// What an event of the terminal makes of the state: a key acts by its
/// binding, a quit request or a terminal fault shuts the client down, the
/// render timer asks for a redraw, and nothing else changes anything.
pub open spec fn apply_screen(s: AppView, e: ScreenEvent) -> Step {
    match e {
        ScreenEvent::Key(key) => apply_action(s, key_action_spec(key)),
        ScreenEvent::Quit => quiet(AppView { quit: true, ..s }),
        ScreenEvent::Error => quiet(AppView { quit: true, ..s }),
        ScreenEvent::Render => Step { state: s, jobs: Seq::empty(), redraw: true },
        _ => quiet(s),
    }
}

/// One step of the reducer.
pub open spec fn apply(s: AppView, e: Event) -> Step {
    match e {
        Event::Screen(e) => apply_screen(s, e),
        Event::Api(e) => apply_api(s, e),
    }
}

/// A request for the conversation list, as a session makes at its
/// beginning: the list is asked for unless a listing is in flight already or
/// the client is disconnected.
pub open spec fn request_dialogs(s: AppView) -> Step {
    if !s.listing && !s.disconnected {
        Step {
            state: AppView { listing: true, ..s },
            jobs: seq![ApiJob::LoadDialogs],
            redraw: false,
        }
    } else {
        quiet(s)
    }
}

/// The page load of the conversation `c`, going back from its cursor.
pub open spec fn page_job(c: ChatView) -> ApiJob {
    ApiJob::LoadMessages { chat: c.id, from: c.cursor }
}

/// The page loads in flight, one for each conversation that is marked as
/// loading, in the order of the list.
pub open spec fn page_jobs(chats: Seq<ChatView>) -> Seq<ApiJob>
    decreases chats.len(),
{
    if chats.len() == 0 {
        Seq::empty()
    } else if chats.last().loading {
        page_jobs(chats.drop_last()).push(page_job(chats.last()))
    } else {
        page_jobs(chats.drop_last())
    }
}

/// The jobs that were handed to the dispatcher and are not resolved yet: the
/// listing, where one is in flight, and then the page loads.
pub open spec fn pending_jobs(s: AppView) -> Seq<ApiJob> {
    if s.listing {
        seq![ApiJob::LoadDialogs] + page_jobs(s.chats)
    } else {
        page_jobs(s.chats)
    }
}

/// The state after the events of `events` were applied in turn.
pub open spec fn replay(s: AppView, events: Seq<Event>) -> AppView
    decreases events.len(),
{
    if events.len() == 0 {
        s
    } else {
        apply(replay(s, events.drop_last()), events.last()).state
    }
}

/// With distinct identifiers, the conversation found under an identifier is
/// the one that carries it.
pub proof fn lemma_chat_at(chats: Seq<ChatView>, id: i64, i: int)
    requires
        distinct_ids(chats),
        0 <= i < chats.len(),
        chats[i].id == id,
    ensures
        has_chat(chats, id),
        chat_at(chats, id) == i,
{
}

} // verus!
