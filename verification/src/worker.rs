//! The decisions of the worker that talks to the remote service: what to do
//! when a job or a live update arrives, and which event reports each item
//! that a job fetches.

use crate::chat::Cursor;
use crate::job::{ApiEvent, ApiJob, PAGE_LIMIT};
use crate::message::Message;
use vstd::prelude::*;

verus! {

/// A live update as the remote service reports it.
pub enum Update {
    /// A message was sent in the conversation `chat`; `outgoing` where this
    /// client's user sent it.
    NewMessage { chat: i64, message: Message, outgoing: bool },
    /// A message of the conversation `chat` was edited.
    MessageEdited { chat: i64, message: Message },
    /// Messages were deleted: their identifiers, and the identifier that the
    /// remote service gives their channel, where it names one.
    MessageDeleted { channel: Option<i64>, messages: Vec<u64> },
    /// Any other update.
    Other,
}

/// What woke the worker.
pub enum Wake {
    /// The reducer submitted a job.
    Job(ApiJob),
    /// The reducer is gone: no job will come any more.
    JobsClosed,
    /// The remote service reported a live update.
    Update(Update),
    /// Waiting for a live update failed.
    UpdateFailed,
    /// The stream of live updates ended.
    UpdatesEnded,
}

/// What the worker does next.
pub enum WorkerAction {
    /// Run the job as a concurrent operation of its own, and go on.
    Run(ApiJob),
    /// Send the event to the reducer, and go on.
    Emit(ApiEvent),
    /// Send the event to the reducer, and stop.
    EmitAndStop(ApiEvent),
    /// Go on.
    Continue,
    /// Stop.
    Stop,
}

/// The worker's rule: a job is run; a new message of somebody else is
/// reported as a live message, and no other update is reported; when the
/// stream of updates breaks or ends the reducer is told and the worker stops;
/// when the reducer is gone the worker stops.
pub open spec fn worker_action(w: Wake) -> WorkerAction {
    match w {
        Wake::Job(job) => WorkerAction::Run(job),
        Wake::JobsClosed => WorkerAction::Stop,
        Wake::Update(Update::NewMessage { chat, message, outgoing }) => if outgoing {
            WorkerAction::Continue
        } else {
            WorkerAction::Emit(ApiEvent::LiveMessageNew { chat, message })
        },
        Wake::Update(_) => WorkerAction::Continue,
        Wake::UpdateFailed => WorkerAction::EmitAndStop(ApiEvent::Disconnected),
        Wake::UpdatesEnded => WorkerAction::EmitAndStop(ApiEvent::Disconnected),
    }
}

/// Decides what the worker does for a wakeup.
pub fn worker_step(w: Wake) -> (a: WorkerAction)
    ensures
        a == worker_action(w),
{
    match w {
        Wake::Job(job) => WorkerAction::Run(job),
        Wake::JobsClosed => WorkerAction::Stop,
        Wake::Update(Update::NewMessage { chat, message, outgoing }) => {
            if outgoing {
                WorkerAction::Continue
            } else {
                WorkerAction::Emit(ApiEvent::LiveMessageNew { chat, message })
            }
        },
        Wake::Update(_) => WorkerAction::Continue,
        Wake::UpdateFailed => WorkerAction::EmitAndStop(ApiEvent::Disconnected),
        Wake::UpdatesEnded => WorkerAction::EmitAndStop(ApiEvent::Disconnected),
    }
}

/// One unit of what a running job gets from the remote service.
pub enum Fetched {
    /// A conversation of the listing.
    Dialog { id: i64, name: String, preview: String },
    /// A message of the page.
    Message(Message),
    /// The remote service has nothing more for this job.
    End,
    /// The remote operation failed.
    Failed(String),
}

/// A running job: the job, how many items it has delivered, and whether it
/// has reported its end.
pub struct Fetch {
    pub job: ApiJob,
    pub delivered: usize,
    pub done: bool,
}

/// The event that reports the item `item` of the running job `f`, if one
/// does: a conversation for a listing, a message for a page load, the
/// completion or the failure for either. An item of the wrong kind, or one
/// that comes after the end, is reported by nothing.
pub open spec fn fetch_event(f: Fetch, item: Fetched) -> Option<ApiEvent> {
    if f.done {
        None
    } else {
        match item {
            Fetched::Dialog { id, name, preview } => match f.job {
                ApiJob::LoadDialogs => Some(ApiEvent::ConversationDiscovered { id, name, preview }),
                _ => None,
            },
            Fetched::Message(message) => match f.job {
                ApiJob::LoadMessages { chat, from } => Some(
                    ApiEvent::MessagePageItem { chat, message },
                ),
                _ => None,
            },
            Fetched::End => Some(ApiEvent::JobCompleted { job: f.job, delivered: f.delivered }),
            Fetched::Failed(reason) => Some(ApiEvent::JobFailed { job: f.job, reason }),
        }
    }
}

/// The running job `f` after the item `item`: every reported conversation or
/// message counts as delivered, and the completion or the failure ends the
/// job.
pub open spec fn fetch_next(f: Fetch, item: Fetched) -> Fetch {
    match fetch_event(f, item) {
        Some(ApiEvent::JobCompleted { job, delivered }) => Fetch { done: true, ..f },
        Some(ApiEvent::JobFailed { job, reason }) => Fetch { done: true, ..f },
        Some(_) => Fetch {
            delivered: if f.delivered < usize::MAX {
                (f.delivered + 1) as usize
            } else {
                f.delivered
            },
            ..f
        },
        None => f,
    }
}

impl Fetch {
    /// A job that is about to run.
    pub fn new(job: ApiJob) -> (f: Fetch)
        ensures
            f == (Fetch { job, delivered: 0, done: false }),
    {
        Fetch { job, delivered: 0, done: false }
    }

    /// Takes the next item that the remote service gave, and returns the
    /// event to send to the reducer for it.
    pub fn on_item(&mut self, item: Fetched) -> (event: Option<ApiEvent>)
        ensures
            event == fetch_event(*old(self), item),
            *final(self) == fetch_next(*old(self), item),
    {
        if self.done {
            return None;
        }
        match item {
            Fetched::Dialog { id, name, preview } => {
                match self.job {
                    ApiJob::LoadDialogs => {
                        self.count();
                        Some(ApiEvent::ConversationDiscovered { id, name, preview })
                    },
                    _ => None,
                }
            },
            Fetched::Message(message) => {
                match self.job {
                    ApiJob::LoadMessages { chat, from: _ } => {
                        self.count();
                        Some(ApiEvent::MessagePageItem { chat, message })
                    },
                    _ => None,
                }
            },
            Fetched::End => {
                self.done = true;
                Some(ApiEvent::JobCompleted { job: self.job, delivered: self.delivered })
            },
            Fetched::Failed(reason) => {
                self.done = true;
                Some(ApiEvent::JobFailed { job: self.job, reason })
            },
        }
    }

    fn count(&mut self)
        ensures
            *final(self) == (Fetch {
                delivered: if old(self).delivered < usize::MAX {
                    (old(self).delivered + 1) as usize
                } else {
                    old(self).delivered
                },
                ..*old(self)
            }),
    {
        if self.delivered < usize::MAX {
            self.delivered = self.delivered + 1;
        }
    }
}

/// What a page load asks of the remote service.
#[derive(Clone, Copy, Debug, PartialEq, Eq, Structural)]
pub enum PageRequest {
    /// The newest messages, at most `limit` of them.
    Newest { limit: usize },
    /// The messages older than the one that the remote service numbers
    /// `before`, at most `limit` of them.
    Older { before: i32, limit: usize },
    /// Nothing: the history is exhausted.
    Nothing,
}

/// The number by which the remote service knows the message `seq`; an
/// identifier beyond the service's numbers stands for its largest number.
pub open spec fn seq_to_id(seq: u64) -> i32 {
    if seq > i32::MAX {
        i32::MAX
    } else {
        seq as i32
    }
}

/// The request that continues a history from the cursor `from`, one page at
/// a time.
pub open spec fn page_request_of(from: Cursor) -> PageRequest {
    match from {
        Cursor::NotFetched => PageRequest::Newest { limit: PAGE_LIMIT },
        Cursor::Before(seq) => PageRequest::Older { before: seq_to_id(seq), limit: PAGE_LIMIT },
        Cursor::Exhausted => PageRequest::Nothing,
    }
}

/// Decides what a page load that goes back from `from` asks for.
pub fn page_request(from: Cursor) -> (r: PageRequest)
    ensures
        r == page_request_of(from),
{
    match from {
        Cursor::NotFetched => PageRequest::Newest { limit: PAGE_LIMIT },
        Cursor::Before(seq) => {
            let before: i32 = if seq > 2147483647 {
                i32::MAX
            } else {
                seq as i32
            };
            PageRequest::Older { before, limit: PAGE_LIMIT }
        },
        Cursor::Exhausted => PageRequest::Nothing,
    }
}

} // verus!
