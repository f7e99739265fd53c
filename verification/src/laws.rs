//! What holds of the reducer in every state and for every event.

use crate::chat::{placeholder_chat, ChatView};
use crate::job::{ApiEvent, ApiJob};
use crate::message::{
    contains_seq, lemma_merged_ordered, lemma_rank_splits, merged, ordered, rank, Message,
};
use crate::model::{
    apply, apply_action, apply_api, chat_at, grant, has_chat, initial, lemma_chat_at,
    live_message, next_index, page_job, page_jobs, pending_jobs, previous_index, replay,
    request_dialogs, request_page, select, valid, AppView, Event,
};
use crate::screen::{key_action_spec, Action, ScreenEvent};
use vstd::prelude::*;

verus! {

/// A known identifier is found at a place of the list that carries it.
pub proof fn lemma_has_chat(chats: Seq<ChatView>, id: i64)
    requires
        has_chat(chats, id),
    ensures
        0 <= chat_at(chats, id) < chats.len(),
        chats[chat_at(chats, id)].id == id,
{
}

/// Replacing a conversation by one with the same identifier and an ordered
/// cache keeps a state valid.
pub proof fn lemma_update_valid(s: AppView, t: AppView, i: int, c: ChatView)
    requires
        valid(s),
        0 <= i < s.chats.len(),
        c.id == s.chats[i].id,
        ordered(c.messages),
        t.chats == s.chats.update(i, c),
        t.selected == s.selected,
    ensures
        valid(t),
{
}

/// Appending a conversation with a new identifier and an ordered cache keeps
/// a state valid.
pub proof fn lemma_push_valid(s: AppView, t: AppView, c: ChatView)
    requires
        valid(s),
        !has_chat(s.chats, c.id),
        ordered(c.messages),
        t.chats == s.chats.push(c),
        t.selected == s.selected,
    ensures
        valid(t),
{
}

/// An event of the remote side keeps a valid state valid.
pub proof fn lemma_apply_api_valid(s: AppView, e: ApiEvent)
    requires
        valid(s),
    ensures
        valid(apply_api(s, e).state),
{
    let t = apply_api(s, e).state;
    match e {
        ApiEvent::ConversationDiscovered { id, name, preview } => {
            if !has_chat(s.chats, id) {
                lemma_push_valid(s, t, t.chats.last());
            }
        },
        ApiEvent::MessagePageItem { chat, message } => {
            if has_chat(s.chats, chat) {
                let i = chat_at(s.chats, chat);
                lemma_has_chat(s.chats, chat);
                lemma_merged_ordered(s.chats[i].messages, message);
                lemma_update_valid(s, t, i, t.chats[i]);
            }
        },
        ApiEvent::LiveMessageNew { chat, message } => {
            if has_chat(s.chats, chat) {
                let i = chat_at(s.chats, chat);
                lemma_has_chat(s.chats, chat);
                lemma_merged_ordered(s.chats[i].messages, message);
                if !contains_seq(s.chats[i].messages, message.seq) {
                    lemma_update_valid(s, t, i, t.chats[i]);
                }
            } else {
                lemma_push_valid(s, t, placeholder_chat(chat, message));
            }
        },
        ApiEvent::MessageEdited { chat, message } => {},
        ApiEvent::MessageDeleted { channel, messages } => {},
        ApiEvent::JobCompleted { job, delivered } => {
            match job {
                ApiJob::LoadDialogs => {},
                ApiJob::LoadMessages { chat, from } => {
                    if has_chat(s.chats, chat) {
                        let i = chat_at(s.chats, chat);
                        lemma_has_chat(s.chats, chat);
                        lemma_update_valid(s, t, i, t.chats[i]);
                    }
                },
            }
        },
        ApiEvent::JobFailed { job, reason } => {
            match job {
                ApiJob::LoadDialogs => {},
                ApiJob::LoadMessages { chat, from } => {
                    if has_chat(s.chats, chat) {
                        let i = chat_at(s.chats, chat);
                        lemma_has_chat(s.chats, chat);
                        lemma_update_valid(s, t, i, t.chats[i]);
                    }
                },
            }
        },
        ApiEvent::Disconnected => {},
    }
}

/// Granting or turning down a page load keeps a valid state valid.
pub proof fn lemma_grant_valid(s: AppView, i: int)
    requires
        valid(s),
        0 <= i < s.chats.len(),
    ensures
        valid(grant(s, i).state),
{
    let t = grant(s, i).state;
    if t != s {
        lemma_update_valid(s, t, i, t.chats[i]);
    }
}

/// An action of the user keeps a valid state valid.
pub proof fn lemma_apply_action_valid(s: AppView, a: Action)
    requires
        valid(s),
    ensures
        valid(apply_action(s, a).state),
{
    if s.chats.len() > 0 {
        match a {
            Action::SelectNext => {
                let s1 = AppView { selected: Some(next_index(s)), ..s };
                lemma_grant_valid(s1, next_index(s) as int);
            },
            Action::SelectPrevious => {
                let s1 = AppView { selected: Some(previous_index(s)), ..s };
                lemma_grant_valid(s1, previous_index(s) as int);
            },
            _ => {},
        }
    }
}

/// Every step of the reducer keeps a valid state valid.
pub proof fn lemma_apply_valid(s: AppView, e: Event)
    requires
        valid(s),
    ensures
        valid(apply(s, e).state),
{
    match e {
        Event::Screen(e) => {
            match e {
                ScreenEvent::Key(key) => {
                    lemma_apply_action_valid(s, key_action_spec(key));
                },
                _ => {},
            }
        },
        Event::Api(e) => {
            lemma_apply_api_valid(s, e);
        },
    }
}

/// Whatever events arrive, in whatever order, a valid state stays valid.
pub proof fn lemma_replay_valid(s: AppView, events: Seq<Event>)
    requires
        valid(s),
    ensures
        valid(replay(s, events)),
    decreases events.len(),
{
    if events.len() > 0 {
        lemma_replay_valid(s, events.drop_last());
        lemma_apply_valid(replay(s, events.drop_last()), events.last());
    }
}

/// Discovery is idempotent: the same conversation reported twice leaves the
/// state as the first report made it, with exactly one entry under the
/// identifier.
pub proof fn law_discovery_idempotent(s: AppView, id: i64, name: String, preview: String)
    requires
        valid(s),
    ensures
        ({
            let e = ApiEvent::ConversationDiscovered { id, name, preview };
            let once = apply_api(s, e).state;
            let twice = apply_api(once, e).state;
            &&& twice == once
            &&& has_chat(once.chats, id)
            &&& forall|i: int, j: int|
                0 <= i < once.chats.len() && 0 <= j < once.chats.len() && (
                #[trigger] once.chats[i]).id == id && (#[trigger] once.chats[j]).id == id ==> i
                    == j
        }),
{
    let e = ApiEvent::ConversationDiscovered { id, name, preview };
    let once = apply_api(s, e).state;
    lemma_apply_api_valid(s, e);
    if !has_chat(s.chats, id) {
        assert(once.chats[s.chats.len() as int].id == id);
    }
}

/// Cache ordering: after any events, in any interleaving, every
/// conversation's cache is strictly ordered by the messages' identifiers.
pub proof fn law_cache_ordered(events: Seq<Event>, i: int, a: int, b: int)
    requires
        0 <= i < replay(initial(), events).chats.len(),
        0 <= a < b < replay(initial(), events).chats[i].messages.len(),
    ensures
        replay(initial(), events).chats[i].messages[a].seq < replay(
            initial(),
            events,
        ).chats[i].messages[b].seq,
{
    lemma_replay_valid(initial(), events);
}

/// No message with a new identifier is lost or displaced: offered to an
/// ordered cache, by a page load or as a live message, it stands in the cache
/// afterwards, and so does every message that was cached before.
pub proof fn law_merge_keeps_messages(s: Seq<Message>, m: Message, k: int)
    requires
        ordered(s),
        !contains_seq(s, m.seq),
        0 <= k < s.len(),
    ensures
        merged(s, m).contains(m),
        merged(s, m).contains(s[k]),
{
    lemma_merged_ordered(s, m);
    lemma_rank_splits(s, m.seq);
    let p = rank(s, m.seq);
    let r = merged(s, m);
    if k < p {
        assert(r[k] == s[k]);
    } else {
        assert(r[k + 1] == s[k]);
    }
}

/// The merge is idempotent: a message that is delivered twice is cached once,
/// and the second delivery leaves the cache as the first made it.
pub proof fn law_merge_idempotent(s: Seq<Message>, m: Message)
    requires
        ordered(s),
    ensures
        merged(merged(s, m), m) == merged(s, m),
{
    lemma_merged_ordered(s, m);
}

/// No live message is lost: after a live message the conversation is known
/// and its cache holds the message's identifier, and the event is not counted
/// as dropped. For an unknown conversation an entry is made up at the end of
/// the list that holds just that message.
pub proof fn law_live_message_kept(s: AppView, chat: i64, m: Message)
    requires
        valid(s),
    ensures
        ({
            let t = live_message(s, chat, m);
            &&& valid(t)
            &&& has_chat(t.chats, chat)
            &&& contains_seq(t.chats[chat_at(t.chats, chat)].messages, m.seq)
            &&& t.anomalies == s.anomalies
            &&& !has_chat(s.chats, chat) ==> t.chats == s.chats.push(placeholder_chat(chat, m))
                && chat_at(t.chats, chat) == s.chats.len() && t.chats[chat_at(
                t.chats,
                chat,
            )].messages == seq![m]
            &&& has_chat(s.chats, chat) && !contains_seq(
                s.chats[chat_at(s.chats, chat)].messages,
                m.seq,
            ) ==> t.chats[chat_at(t.chats, chat)].messages.contains(m)
        }),
{
    let e = ApiEvent::LiveMessageNew { chat, message: m };
    let t = live_message(s, chat, m);
    lemma_apply_api_valid(s, e);
    if has_chat(s.chats, chat) {
        let i = chat_at(s.chats, chat);
        lemma_has_chat(s.chats, chat);
        lemma_merged_ordered(s.chats[i].messages, m);
        lemma_chat_at(t.chats, chat, i);
        if !contains_seq(s.chats[i].messages, m.seq) {
            lemma_rank_splits(s.chats[i].messages, m.seq);
        }
    } else {
        let n = s.chats.len() as int;
        lemma_chat_at(t.chats, chat, n);
        assert(seq![m][0].seq == m.seq);
    }
}

/// The identifiers of the conversations with a page load in flight.
pub open spec fn in_flight(s: AppView) -> Set<i64> {
    Set::new(|id: i64| has_chat(s.chats, id) && s.chats[chat_at(s.chats, id)].loading)
}

/// The conversation whose page load the event `e` resolves, by completion or
/// by failure.
pub open spec fn resolved(e: Event) -> Set<i64> {
    match e {
        Event::Api(ApiEvent::JobCompleted { job: ApiJob::LoadMessages { chat, from }, delivered }) => set![chat],
        Event::Api(ApiEvent::JobFailed { job: ApiJob::LoadMessages { chat, from }, reason }) => set![chat],
        _ => Set::empty(),
    }
}

/// The conversations for which `jobs` asks for a page.
pub open spec fn issued(jobs: Seq<ApiJob>) -> Set<i64> {
    Set::new(
        |id: i64|
            exists|k: int|
                0 <= k < jobs.len() && (#[trigger] jobs[k] matches ApiJob::LoadMessages {
                    chat,
                    from,
                } && chat == id),
    )
}

/// In a valid state a conversation is in flight exactly where some entry
/// carries its identifier and is marked as loading.
pub proof fn lemma_in_flight(s: AppView, id: i64)
    requires
        valid(s),
    ensures
        in_flight(s).contains(id) <==> exists|i: int|
            0 <= i < s.chats.len() && (#[trigger] s.chats[i]).id == id && s.chats[i].loading,
{
    if exists|i: int| 0 <= i < s.chats.len() && (#[trigger] s.chats[i]).id == id && s.chats[i].loading {
        let i = choose|i: int|
            0 <= i < s.chats.len() && (#[trigger] s.chats[i]).id == id && s.chats[i].loading;
        lemma_chat_at(s.chats, id, i);
    }
    if in_flight(s).contains(id) {
        lemma_has_chat(s.chats, id);
    }
}

/// Replacing the conversation at one place changes the in-flight set at most
/// in that conversation's identifier.
proof fn lemma_in_flight_update(s: AppView, t: AppView, i: int)
    requires
        valid(s),
        0 <= i < s.chats.len(),
        t.chats == s.chats.update(i, t.chats[i]),
        t.chats[i].id == s.chats[i].id,
        ordered(t.chats[i].messages),
        t.selected == s.selected,
    ensures
        valid(t),
        forall|id: i64|
            in_flight(t).contains(id) <==> (if id == s.chats[i].id {
                t.chats[i].loading
            } else {
                in_flight(s).contains(id)
            }),
{
    lemma_update_valid(s, t, i, t.chats[i]);
    assert forall|id: i64|
        in_flight(t).contains(id) <==> (if id == s.chats[i].id {
            t.chats[i].loading
        } else {
            in_flight(s).contains(id)
        }) by {
        lemma_in_flight(s, id);
        lemma_in_flight(t, id);
        if id == s.chats[i].id {
            lemma_chat_at(t.chats, id, i);
        } else {
            if in_flight(s).contains(id) {
                let k = chat_at(s.chats, id);
                lemma_has_chat(s.chats, id);
                assert(t.chats[k] == s.chats[k]);
            }
            if in_flight(t).contains(id) {
                lemma_has_chat(t.chats, id);
            }
        }
    }
}

/// Appending a conversation that is not loading leaves the in-flight set as
/// it is.
proof fn lemma_in_flight_push(s: AppView, t: AppView, c: ChatView)
    requires
        valid(s),
        !has_chat(s.chats, c.id),
        ordered(c.messages),
        !c.loading,
        t.chats == s.chats.push(c),
        t.selected == s.selected,
    ensures
        valid(t),
        in_flight(t) == in_flight(s),
{
    lemma_push_valid(s, t, c);
    assert forall|id: i64| in_flight(t).contains(id) <==> in_flight(s).contains(id) by {
        lemma_in_flight(s, id);
        lemma_in_flight(t, id);
        if in_flight(s).contains(id) {
            let k = chat_at(s.chats, id);
            lemma_has_chat(s.chats, id);
            assert(t.chats[k] == s.chats[k]);
        }
        if in_flight(t).contains(id) {
            lemma_has_chat(t.chats, id);
        }
    }
}

/// What granting a page load does to the in-flight set: a granted load is
/// for a conversation that had none in flight, and puts it in flight.
proof fn lemma_grant_in_flight(s: AppView, i: int)
    requires
        valid(s),
        0 <= i < s.chats.len(),
    ensures
        grant(s, i).jobs.len() <= 1,
        issued(grant(s, i).jobs).disjoint(in_flight(s)),
        in_flight(grant(s, i).state) == in_flight(s).union(issued(grant(s, i).jobs)),
{
    let step = grant(s, i);
    let t = step.state;
    let id = s.chats[i].id;
    if step.jobs.len() > 0 {
        lemma_in_flight_update(s, t, i);
        lemma_in_flight(s, id);
        lemma_chat_at(s.chats, id, i);
        assert(step.jobs[0] == page_job(s.chats[i]));
    }
}

/// De-duplication: the in-flight marks are exactly the page loads that the
/// dispatcher has been handed and that have not been resolved. A step hands
/// it at most one job, never a page load for a conversation that has one in
/// flight, and a mark goes away only when a completion or a failure of that
/// conversation's load arrives.
pub proof fn law_one_fetch_per_chat(s: AppView, e: Event)
    requires
        valid(s),
    ensures
        apply(s, e).jobs.len() <= 1,
        issued(apply(s, e).jobs).disjoint(in_flight(s)),
        in_flight(apply(s, e).state) == in_flight(s).difference(resolved(e)).union(
            issued(apply(s, e).jobs),
        ),
{
    let step = apply(s, e);
    let t = step.state;
    lemma_apply_valid(s, e);
    match e {
        Event::Screen(ScreenEvent::Key(key)) => {
            let a = key_action_spec(key);
            if s.chats.len() > 0 && (a == Action::SelectNext || a == Action::SelectPrevious) {
                let i = if a == Action::SelectNext {
                    next_index(s)
                } else {
                    previous_index(s)
                };
                let s1 = AppView { selected: Some(i), ..s };
                if s.chats[i as int].messages.len() == 0 {
                    lemma_grant_in_flight(s1, i as int);
                }
            }
            assert(in_flight(t) =~= in_flight(s).difference(resolved(e)).union(
                issued(step.jobs),
            ));
        },
        Event::Screen(_) => {
            assert(in_flight(t) =~= in_flight(s).difference(resolved(e)).union(
                issued(step.jobs),
            ));
        },
        Event::Api(a) => {
            lemma_api_in_flight(s, a);
            assert(in_flight(t) =~= in_flight(s).difference(resolved(e)).union(
                issued(step.jobs),
            ));
        },
    }
}

/// What an event of the remote side does to the in-flight set: only the
/// completion or the failure of a page load takes a conversation out of it,
/// and nothing puts one in.
proof fn lemma_api_in_flight(s: AppView, e: ApiEvent)
    requires
        valid(s),
    ensures
        in_flight(apply_api(s, e).state) == in_flight(s).difference(resolved(Event::Api(e))),
{
    let t = apply_api(s, e).state;
    match e {
        ApiEvent::ConversationDiscovered { id, name, preview } => {
            if !has_chat(s.chats, id) {
                lemma_in_flight_push(s, t, t.chats.last());
            }
        },
        ApiEvent::MessagePageItem { chat, message } => {
            if has_chat(s.chats, chat) {
                let i = chat_at(s.chats, chat);
                lemma_has_chat(s.chats, chat);
                lemma_merged_ordered(s.chats[i].messages, message);
                lemma_in_flight_update(s, t, i);
                lemma_in_flight(s, chat);
            }
        },
        ApiEvent::LiveMessageNew { chat, message } => {
            if has_chat(s.chats, chat) {
                let i = chat_at(s.chats, chat);
                lemma_has_chat(s.chats, chat);
                lemma_merged_ordered(s.chats[i].messages, message);
                if !contains_seq(s.chats[i].messages, message.seq) {
                    lemma_in_flight_update(s, t, i);
                    lemma_in_flight(s, chat);
                }
            } else {
                lemma_in_flight_push(s, t, placeholder_chat(chat, message));
            }
        },
        ApiEvent::MessageEdited { chat, message } => {},
        ApiEvent::MessageDeleted { channel, messages } => {},
        ApiEvent::JobCompleted { job, delivered } => {
            match job {
                ApiJob::LoadDialogs => {},
                ApiJob::LoadMessages { chat, from } => {
                    if has_chat(s.chats, chat) {
                        let i = chat_at(s.chats, chat);
                        lemma_has_chat(s.chats, chat);
                        lemma_in_flight_update(s, t, i);
                    }
                },
            }
        },
        ApiEvent::JobFailed { job, reason } => {
            match job {
                ApiJob::LoadDialogs => {},
                ApiJob::LoadMessages { chat, from } => {
                    if has_chat(s.chats, chat) {
                        let i = chat_at(s.chats, chat);
                        lemma_has_chat(s.chats, chat);
                        lemma_in_flight_update(s, t, i);
                    }
                },
            }
        },
        ApiEvent::Disconnected => {},
    }
}

/// A second request for a page of a conversation, made while the first is
/// unresolved, is turned down: it issues no job and changes nothing.
pub proof fn law_second_request_turned_down(s: AppView, chat: i64)
    requires
        valid(s),
    ensures
        request_page(request_page(s, chat).state, chat).jobs == Seq::<ApiJob>::empty(),
        request_page(request_page(s, chat).state, chat).state == request_page(s, chat).state,
{
    if has_chat(s.chats, chat) {
        let i = chat_at(s.chats, chat);
        lemma_has_chat(s.chats, chat);
        let t = request_page(s, chat).state;
        lemma_grant_valid(s, i);
        lemma_chat_at(t.chats, chat, i);
    }
}

/// Selecting the selected conversation again while its page load is
/// unresolved issues no second job.
pub proof fn law_reselect_issues_nothing(s: AppView, i: usize)
    requires
        valid(s),
        i < s.chats.len(),
    ensures
        select(select(s, i).state, i).jobs == Seq::<ApiJob>::empty(),
{
}

/// Every page load in flight belongs to a conversation of the list that is
/// marked as loading.
pub proof fn lemma_page_jobs(chats: Seq<ChatView>, k: int)
    requires
        0 <= k < page_jobs(chats).len(),
    ensures
        exists|i: int|
            0 <= i < chats.len() && (#[trigger] chats[i]).loading && page_jobs(chats)[k]
                == page_job(chats[i]),
    decreases chats.len(),
{
    let rest = chats.drop_last();
    if chats.last().loading && k == page_jobs(rest).len() {
    } else {
        lemma_page_jobs(rest, k);
        let i = choose|i: int|
            0 <= i < rest.len() && (#[trigger] rest[i]).loading && page_jobs(rest)[k] == page_job(
                rest[i],
            );
    }
}

/// Where the identifiers are distinct, no two page loads in flight are for
/// the same conversation.
pub proof fn lemma_page_jobs_distinct(chats: Seq<ChatView>, a: int, b: int)
    requires
        forall|i: int, j: int|
            0 <= i < j < chats.len() ==> (#[trigger] chats[i]).id != (#[trigger] chats[j]).id,
        0 <= a < b < page_jobs(chats).len(),
    ensures
        page_jobs(chats)[a]->chat != page_jobs(chats)[b]->chat,
    decreases chats.len(),
{
    let rest = chats.drop_last();
    if chats.last().loading && b == page_jobs(rest).len() {
        lemma_page_jobs(rest, a);
        let i = choose|i: int|
            0 <= i < rest.len() && (#[trigger] rest[i]).loading && page_jobs(rest)[a] == page_job(
                rest[i],
            );
    } else {
        lemma_page_jobs_distinct(rest, a, b);
    }
}

/// At most one pending job per conversation: among the jobs that are in
/// flight in a valid state no two are the same, and no two page loads are
/// for the same conversation.
pub proof fn law_pending_jobs_distinct(s: AppView, a: int, b: int)
    requires
        valid(s),
        0 <= a < b < pending_jobs(s).len(),
    ensures
        pending_jobs(s)[a] != pending_jobs(s)[b],
        pending_jobs(s)[b] is LoadMessages,
        pending_jobs(s)[a] is LoadMessages ==> pending_jobs(s)[a]->chat != pending_jobs(s)[b]->chat,
{
    let shift: int = if s.listing {
        1
    } else {
        0
    };
    lemma_page_jobs(s.chats, b - shift);
    if a >= shift {
        lemma_page_jobs(s.chats, a - shift);
        lemma_page_jobs_distinct(s.chats, a - shift, b - shift);
    }
}

/// Conversations are never destroyed nor moved: a step keeps every
/// conversation at its place in the list, under its identifier, and adds at
/// most one at the end. A failed job leaves every cache as it was.
pub proof fn law_list_only_grows(s: AppView, e: Event, i: int)
    requires
        valid(s),
        0 <= i < s.chats.len(),
    ensures
        s.chats.len() <= apply(s, e).state.chats.len() <= s.chats.len() + 1,
        apply(s, e).state.chats[i].id == s.chats[i].id,
        apply(s, e).state.chats[i].name == s.chats[i].name,
        e matches Event::Api(ApiEvent::JobFailed { .. }) ==> apply(s, e).state.chats[i].messages
            == s.chats[i].messages,
{
    match e {
        Event::Api(ApiEvent::MessagePageItem { chat, message }) => {
            if has_chat(s.chats, chat) {
                lemma_has_chat(s.chats, chat);
            }
        },
        Event::Api(ApiEvent::LiveMessageNew { chat, message }) => {
            if has_chat(s.chats, chat) {
                lemma_has_chat(s.chats, chat);
            }
        },
        Event::Api(ApiEvent::JobCompleted { job: ApiJob::LoadMessages { chat, from }, delivered }) => {
            if has_chat(s.chats, chat) {
                lemma_has_chat(s.chats, chat);
            }
        },
        Event::Api(ApiEvent::JobFailed { job: ApiJob::LoadMessages { chat, from }, reason }) => {
            if has_chat(s.chats, chat) {
                lemma_has_chat(s.chats, chat);
            }
        },
        _ => {},
    }
}

/// Once the stream of live updates is gone the client stays disconnected and
/// no step or request issues a job any more.
pub proof fn law_disconnected_issues_nothing(s: AppView, e: Event, chat: i64)
    requires
        s.disconnected,
    ensures
        apply(s, e).state.disconnected,
        apply(s, e).jobs == Seq::<ApiJob>::empty(),
        request_dialogs(s).jobs == Seq::<ApiJob>::empty(),
        request_page(s, chat).jobs == Seq::<ApiJob>::empty(),
{
}

/// A client that is shutting down stays so, whatever arrives.
pub proof fn law_quit_is_final(s: AppView, e: Event)
    requires
        s.quit,
    ensures
        apply(s, e).state.quit,
{
}

} // verus!
