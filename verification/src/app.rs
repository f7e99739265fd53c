//! The application state and the reducer that applies one event at a time to it.

use crate::chat::{discovered_chat, placeholder_chat, text_of, ChatState, ChatView, Cursor};
use crate::job::{ApiEvent, ApiJob, PAGE_LIMIT};
use crate::message::{ordered, Message};
use crate::model::{
    apply, apply_action, apply_api, apply_screen, chat_at, count_anomaly, discover, grant,
    has_chat, initial, job_completed, job_failed, lemma_chat_at, live_message, page_item,
    page_jobs, pending_jobs, request_dialogs, request_page, select, valid, AppView, Event, Step,
};
use crate::screen::{key_action, Action, ScreenEvent};
use std::collections::HashMap;
use vstd::prelude::*;

verus! {

broadcast use vstd::std_specs::hash::group_hash_axioms;

/// What the event loop has to do after a step: hand the jobs to the
/// dispatcher, in their order, and draw the state if `redraw` is set.
pub struct Effects {
    pub jobs: Vec<ApiJob>,
    pub redraw: bool,
}

impl Effects {
    /// The effects are those of the step `step`.
    pub open spec fn matches_step(&self, step: Step) -> bool {
        self.jobs@ == step.jobs && self.redraw == step.redraw
    }
}

/// The application state: the conversations in the order of their discovery,
/// an index from identifier to place in that order, the selection, and the
/// condition of the session. Only the reducer changes it. The list is a
/// `Vec`: conversations are only ever appended to it and changed in place.
pub struct App {
    quit: bool,
    disconnected: bool,
    listing: bool,
    chat_states: Vec<ChatState>,
    index: HashMap<i64, usize>,
    dialog_idx: Option<usize>,
    anomalies: u64,
    failure: Option<String>,
}

impl View for App {
    type V = AppView;

    closed spec fn view(&self) -> AppView {
        AppView {
            chats: Seq::new(self.chat_states@.len(), |i: int| self.chat_states@[i]@),
            selected: self.dialog_idx,
            quit: self.quit,
            disconnected: self.disconnected,
            listing: self.listing,
            anomalies: self.anomalies,
            failure: text_of(self.failure),
        }
    }
}

impl App {
    /// The state is valid, and the index holds exactly the place of each
    /// conversation under its identifier.
    pub closed spec fn wf(&self) -> bool {
        &&& valid(self@)
        &&& forall|id: i64| #[trigger]
            self.index@.contains_key(id) ==> self.index@[id] < self.chat_states@.len()
                && self.chat_states@[self.index@[id] as int].id == id
        &&& forall|i: int|
            0 <= i < self.chat_states@.len() ==> self.index@.contains_key(
                (#[trigger] self.chat_states@[i]).id,
            ) && self.index@[self.chat_states@[i].id] == i
    }

    /// A well-formed state is a valid one.
    pub proof fn lemma_wf_valid(&self)
        requires
            self.wf(),
        ensures
            valid(self@),
    {
    }

    /// The state at the start of a session.
    pub fn new() -> (app: App)
        ensures
            app.wf(),
            app@ == initial(),
    {
        let app = App {
            quit: false,
            disconnected: false,
            listing: false,
            chat_states: Vec::new(),
            index: HashMap::new(),
            dialog_idx: None,
            anomalies: 0,
            failure: None,
        };
        proof {
            assert(app@.chats =~= Seq::<ChatView>::empty());
        }
        app
    }

    /// The place of the conversation with the identifier `id`, found through
    /// the index.
    pub fn find(&self, id: i64) -> (r: Option<usize>)
        requires
            self.wf(),
        ensures
            r is Some <==> has_chat(self@.chats, id),
            r matches Some(i) ==> i == chat_at(self@.chats, id) && i < self@.chats.len(),
    {
        match self.index.get(&id) {
            Some(i) => {
                proof {
                    lemma_chat_at(self@.chats, id, *i as int);
                }
                Some(*i)
            },
            None => None,
        }
    }

    fn count_anomaly(&mut self)
        requires
            old(self).wf(),
        ensures
            final(self).wf(),
            final(self)@ == count_anomaly(old(self)@),
    {
        if self.anomalies < u64::MAX {
            self.anomalies = self.anomalies + 1;
        }
    }

    fn discover(&mut self, id: i64, name: String, preview: String)
        requires
            old(self).wf(),
        ensures
            final(self).wf(),
            final(self)@ == discover(old(self)@, id, name@, preview@),
    {
        if self.find(id).is_none() {
            let i: usize = self.chat_states.len();
            self.chat_states.push(ChatState::new(id, name, preview));
            let _ = self.index.insert(id, i);
            proof {
                assert(self@.chats =~= old(self)@.chats.push(discovered_chat(id, name@, preview@)));
                assert(self.chat_states@.drop_last() =~= old(self).chat_states@);
                self.lemma_appended(*old(self), i);
            }
        }
    }

    /// Appending a conversation with a new identifier, and its place to the
    /// index, keeps the state well-formed.
    proof fn lemma_appended(&self, before: App, place: usize)
        requires
            before.wf(),
            place == before.chat_states@.len(),
            self.chat_states@.len() == before.chat_states@.len() + 1,
            self.chat_states@.drop_last() == before.chat_states@,
            self.chat_states@.last().wf(),
            !has_chat(before@.chats, self.chat_states@.last().id),
            self.index@ == before.index@.insert(self.chat_states@.last().id, place),
            self.dialog_idx == before.dialog_idx,
        ensures
            self.wf(),
    {
        let n = before.chat_states@.len() as int;
        let id = self.chat_states@.last().id;
        assert forall|i: int| 0 <= i < n implies self.chat_states@[i] == before.chat_states@[i]
            && self.chat_states@[i].id != id by {
            assert(before@.chats[i].id == before.chat_states@[i].id);
        }
        assert forall|i: int| 0 <= i < self@.chats.len() implies ordered(
            (#[trigger] self@.chats[i]).messages,
        ) by {
            if i < n {
                assert(self@.chats[i] == before@.chats[i]);
            }
        }
    }

    /// Changing one conversation in place, without touching its identifier or
    /// the order of its cache, keeps the state well-formed.
    proof fn lemma_updated(&self, before: App, i: int)
        requires
            before.wf(),
            0 <= i < before.chat_states@.len(),
            self.chat_states@.len() == before.chat_states@.len(),
            forall|j: int|
                0 <= j < before.chat_states@.len() && j != i ==> self.chat_states@[j]
                    == before.chat_states@[j],
            self.chat_states@[i].id == before.chat_states@[i].id,
            self.chat_states@[i].wf(),
            self.index@ == before.index@,
            self.dialog_idx == before.dialog_idx,
        ensures
            self.wf(),
            self@.chats == before@.chats.update(i, self.chat_states@[i]@),
    {
        assert forall|j: int| 0 <= j < self@.chats.len() implies (#[trigger] self@.chats[j]).id
            == before@.chats[j].id by {}
    }

    fn page_item(&mut self, chat: i64, m: Message)
        requires
            old(self).wf(),
        ensures
            final(self).wf(),
            final(self)@ == page_item(old(self)@, chat, m),
    {
        match self.find(chat) {
            Some(i) => {
                let _ = self.chat_states[i].messages.insert(m);
                proof {
                    self.lemma_updated(*old(self), i as int);
                }
            },
            None => {
                self.count_anomaly();
            },
        }
    }

    fn live_message(&mut self, chat: i64, m: Message)
        requires
            old(self).wf(),
        ensures
            final(self).wf(),
            final(self)@ == live_message(old(self)@, chat, m),
    {
        match self.find(chat) {
            Some(i) => {
                if !self.chat_states[i].messages.contains(m.seq) {
                    let preview = m.body.clone();
                    let _ = self.chat_states[i].messages.insert(m);
                    self.chat_states[i].preview = preview;
                    proof {
                        self.lemma_updated(*old(self), i as int);
                    }
                }
            },
            None => {
                let i: usize = self.chat_states.len();
                self.chat_states.push(ChatState::placeholder(chat, m));
                let _ = self.index.insert(chat, i);
                proof {
                    assert(self@.chats =~= old(self)@.chats.push(placeholder_chat(chat, m)));
                    assert(self.chat_states@.drop_last() =~= old(self).chat_states@);
                    self.lemma_appended(*old(self), i);
                }
            },
        }
    }

    fn job_completed(&mut self, job: ApiJob, delivered: usize)
        requires
            old(self).wf(),
        ensures
            final(self).wf(),
            final(self)@ == job_completed(old(self)@, job, delivered),
    {
        match job {
            ApiJob::LoadDialogs => {
                self.listing = false;
            },
            ApiJob::LoadMessages { chat, from: _ } => {
                match self.find(chat) {
                    Some(i) => {
                        self.chat_states[i].loading = false;
                        self.chat_states[i].error = None;
                        if delivered < PAGE_LIMIT {
                            self.chat_states[i].cursor = Cursor::Exhausted;
                        } else if !self.chat_states[i].messages.is_empty() {
                            let oldest: u64 = self.chat_states[i].messages.get(0).seq;
                            self.chat_states[i].cursor = Cursor::Before(oldest);
                        }
                        proof {
                            self.lemma_updated(*old(self), i as int);
                        }
                    },
                    None => {
                        self.count_anomaly();
                    },
                }
            },
        }
    }

    fn job_failed(&mut self, job: ApiJob, reason: String)
        requires
            old(self).wf(),
        ensures
            final(self).wf(),
            final(self)@ == job_failed(old(self)@, job, reason@),
    {
        match job {
            ApiJob::LoadDialogs => {
                self.listing = false;
                self.failure = Some(reason);
            },
            ApiJob::LoadMessages { chat, from: _ } => {
                match self.find(chat) {
                    Some(i) => {
                        self.failure = Some(reason.clone());
                        self.chat_states[i].loading = false;
                        self.chat_states[i].error = Some(reason);
                        proof {
                            self.lemma_updated(*old(self), i as int);
                        }
                    },
                    None => {
                        self.failure = Some(reason);
                        self.count_anomaly();
                    },
                }
            },
        }
    }

    /// Applies one event of the remote side.
    pub fn on_api_event(&mut self, event: ApiEvent) -> (out: Effects)
        requires
            old(self).wf(),
        ensures
            final(self).wf(),
            final(self)@ == apply_api(old(self)@, event).state,
            out.matches_step(apply_api(old(self)@, event)),
    {
        match event {
            ApiEvent::ConversationDiscovered { id, name, preview } => {
                self.discover(id, name, preview);
            },
            ApiEvent::MessagePageItem { chat, message } => {
                self.page_item(chat, message);
            },
            ApiEvent::LiveMessageNew { chat, message } => {
                self.live_message(chat, message);
            },
            ApiEvent::MessageEdited { chat: _, message: _ } => {},
            ApiEvent::MessageDeleted { channel: _, messages: _ } => {},
            ApiEvent::JobCompleted { job, delivered } => {
                self.job_completed(job, delivered);
            },
            ApiEvent::JobFailed { job, reason } => {
                self.job_failed(job, reason);
            },
            ApiEvent::Disconnected => {
                self.disconnected = true;
            },
        }
        Effects { jobs: Vec::new(), redraw: false }
    }

    fn grant(&mut self, i: usize) -> (jobs: Vec<ApiJob>)
        requires
            old(self).wf(),
            i < old(self)@.chats.len(),
        ensures
            final(self).wf(),
            final(self)@ == grant(old(self)@, i as int).state,
            jobs@ == grant(old(self)@, i as int).jobs,
    {
        let mut jobs: Vec<ApiJob> = Vec::new();
        if !self.disconnected && !self.chat_states[i].loading {
            let job = ApiJob::LoadMessages {
                chat: self.chat_states[i].id,
                from: self.chat_states[i].cursor,
            };
            self.chat_states[i].loading = true;
            jobs.push(job);
            proof {
                self.lemma_updated(*old(self), i as int);
            }
        }
        jobs
    }

    fn select(&mut self, i: usize) -> (jobs: Vec<ApiJob>)
        requires
            old(self).wf(),
            i < old(self)@.chats.len(),
        ensures
            final(self).wf(),
            final(self)@ == select(old(self)@, i).state,
            jobs@ == select(old(self)@, i).jobs,
    {
        self.dialog_idx = Some(i);
        if self.chat_states[i].messages.is_empty() {
            self.grant(i)
        } else {
            Vec::new()
        }
    }

    fn act(&mut self, action: Action) -> (jobs: Vec<ApiJob>)
        requires
            old(self).wf(),
        ensures
            final(self).wf(),
            final(self)@ == apply_action(old(self)@, action).state,
            jobs@ == apply_action(old(self)@, action).jobs,
    {
        let n: usize = self.chat_states.len();
        match action {
            Action::Quit => {
                self.quit = true;
                Vec::new()
            },
            Action::SelectNext => {
                if n == 0 {
                    Vec::new()
                } else {
                    let i: usize = match self.dialog_idx {
                        Some(i) => if i + 1 < n {
                            i + 1
                        } else {
                            n - 1
                        },
                        None => 0,
                    };
                    self.select(i)
                }
            },
            Action::SelectPrevious => {
                if n == 0 {
                    Vec::new()
                } else {
                    let i: usize = match self.dialog_idx {
                        Some(i) => if i > 0 {
                            i - 1
                        } else {
                            0
                        },
                        None => 0,
                    };
                    self.select(i)
                }
            },
            Action::Ignore => Vec::new(),
        }
    }

    /// Applies one event of the terminal.
    pub fn on_screen_event(&mut self, event: ScreenEvent) -> (out: Effects)
        requires
            old(self).wf(),
        ensures
            final(self).wf(),
            final(self)@ == apply_screen(old(self)@, event).state,
            out.matches_step(apply_screen(old(self)@, event)),
    {
        match event {
            ScreenEvent::Key(key) => {
                let jobs = self.act(key_action(&key));
                Effects { jobs, redraw: false }
            },
            ScreenEvent::Quit => {
                self.quit = true;
                Effects { jobs: Vec::new(), redraw: false }
            },
            ScreenEvent::Error => {
                self.quit = true;
                Effects { jobs: Vec::new(), redraw: false }
            },
            ScreenEvent::Render => Effects { jobs: Vec::new(), redraw: true },
            _ => Effects { jobs: Vec::new(), redraw: false },
        }
    }

    /// One step of the reducer: applies `event` to the state and says what
    /// the event loop has to do for it.
    pub fn step(&mut self, event: Event) -> (out: Effects)
        requires
            old(self).wf(),
        ensures
            final(self).wf(),
            final(self)@ == apply(old(self)@, event).state,
            out.matches_step(apply(old(self)@, event)),
    {
        match event {
            Event::Screen(e) => self.on_screen_event(e),
            Event::Api(e) => self.on_api_event(e),
        }
    }

    /// Starts the session: asks for the conversation list, unless a listing
    /// is in flight already or the client is disconnected.
    pub fn request_dialogs(&mut self) -> (jobs: Vec<ApiJob>)
        requires
            old(self).wf(),
        ensures
            final(self).wf(),
            final(self)@ == request_dialogs(old(self)@).state,
            jobs@ == request_dialogs(old(self)@).jobs,
    {
        let mut jobs: Vec<ApiJob> = Vec::new();
        if !self.listing && !self.disconnected {
            self.listing = true;
            jobs.push(ApiJob::LoadDialogs);
        }
        jobs
    }

    /// Asks for a page of the conversation `chat`. The request is admitted,
    /// and the job to submit returned, only where the conversation is known,
    /// no page load is in flight for it and the client is connected.
    pub fn request_page(&mut self, chat: i64) -> (jobs: Vec<ApiJob>)
        requires
            old(self).wf(),
        ensures
            final(self).wf(),
            final(self)@ == request_page(old(self)@, chat).state,
            jobs@ == request_page(old(self)@, chat).jobs,
    {
        match self.find(chat) {
            Some(i) => self.grant(i),
            None => Vec::new(),
        }
    }

    /// The jobs that were handed out and are not resolved yet.
    pub fn pending_jobs(&self) -> (jobs: Vec<ApiJob>)
        ensures
            jobs@ == pending_jobs(self@),
    {
        let mut jobs: Vec<ApiJob> = Vec::new();
        if self.listing {
            jobs.push(ApiJob::LoadDialogs);
        }
        let ghost head = jobs@;
        let n: usize = self.chat_states.len();
        let mut i: usize = 0;
        while i < n
            invariant
                0 <= i <= n,
                n == self.chat_states@.len(),
                n == self@.chats.len(),
                jobs@ == head + page_jobs(self@.chats.take(i as int)),
            decreases n - i,
        {
            proof {
                let next = self@.chats.take(i + 1);
                assert(next.drop_last() =~= self@.chats.take(i as int));
            }
            if self.chat_states[i].loading {
                jobs.push(
                    ApiJob::LoadMessages {
                        chat: self.chat_states[i].id,
                        from: self.chat_states[i].cursor,
                    },
                );
            }
            i = i + 1;
        }
        proof {
            assert(self@.chats.take(n as int) =~= self@.chats);
        }
        jobs
    }

    /// Whether the client is shutting down.
    pub fn quit(&self) -> (b: bool)
        ensures
            b == self@.quit,
    {
        self.quit
    }

    /// Whether the stream of live updates is gone.
    pub fn disconnected(&self) -> (b: bool)
        ensures
            b == self@.disconnected,
    {
        self.disconnected
    }

    /// Whether a load of the conversation list is in flight.
    pub fn listing(&self) -> (b: bool)
        ensures
            b == self@.listing,
    {
        self.listing
    }

    /// How many events were dropped for naming an unknown conversation.
    pub fn anomalies(&self) -> (n: u64)
        ensures
            n == self@.anomalies,
    {
        self.anomalies
    }

    /// The reason of the last failed job.
    pub fn failure(&self) -> (r: &Option<String>)
        ensures
            text_of(*r) == self@.failure,
    {
        &self.failure
    }

    /// The place of the selected conversation.
    pub fn selected(&self) -> (r: Option<usize>)
        ensures
            r == self@.selected,
    {
        self.dialog_idx
    }

    /// The number of conversations.
    pub fn chat_count(&self) -> (n: usize)
        ensures
            n == self@.chats.len(),
    {
        self.chat_states.len()
    }

    /// The conversation at place `i` of the list.
    pub fn chat(&self, i: usize) -> (c: &ChatState)
        requires
            i < self@.chats.len(),
        ensures
            c@ == self@.chats[i as int],
    {
        &self.chat_states[i]
    }
}

} // verus!
