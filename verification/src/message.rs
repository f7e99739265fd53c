//! Messages and the per-conversation message cache.

use std::collections::VecDeque;
use vstd::prelude::*;

verus! {

/// One chat message. `seq` identifies the message within its conversation and
/// orders it in time.
#[derive(Debug, PartialEq, Eq)]
pub struct Message {
    pub seq: u64,
    pub sender: String,
    pub body: String,
    pub timestamp: i64,
}

/// The identifier of the message that the remote service numbers `id`. The
/// service counts from one; a number below zero stands for no message and
/// gives zero.
pub open spec fn id_to_seq(id: i32) -> u64 {
    if id >= 0 {
        id as u64
    } else {
        0
    }
}

/// Turns the number that the remote service gives a message into its
/// identifier.
pub fn seq_of_id(id: i32) -> (seq: u64)
    ensures
        seq == id_to_seq(id),
{
    if id >= 0 {
        id as u64
    } else {
        0
    }
}

/// The messages stand oldest first, and no identifier occurs twice.
pub open spec fn ordered(s: Seq<Message>) -> bool {
    forall|i: int, j: int| 0 <= i < j < s.len() ==> s[i].seq < s[j].seq
}

/// Some message of `s` carries the identifier `seq`.
pub open spec fn contains_seq(s: Seq<Message>, seq: u64) -> bool {
    exists|i: int| 0 <= i < s.len() && (#[trigger] s[i]).seq == seq
}

/// The number of messages of `s` that are older than `seq`.
pub open spec fn rank(s: Seq<Message>, seq: u64) -> int
    decreases s.len(),
{
    if s.len() == 0 {
        0
    } else if s.last().seq < seq {
        rank(s.drop_last(), seq) + 1
    } else {
        rank(s.drop_last(), seq)
    }
}

/// The cache `s` after `m` was offered to it: unchanged where the identifier
/// is already present, else with `m` at its chronological place.
pub open spec fn merged(s: Seq<Message>, m: Message) -> Seq<Message> {
    if contains_seq(s, m.seq) {
        s
    } else {
        s.insert(rank(s, m.seq), m)
    }
}

/// In an ordered cache the rank of `seq` splits the older messages from the rest.
pub proof fn lemma_rank_splits(s: Seq<Message>, seq: u64)
    requires
        ordered(s),
    ensures
        0 <= rank(s, seq) <= s.len(),
        forall|j: int| 0 <= j < rank(s, seq) ==> (#[trigger] s[j]).seq < seq,
        forall|j: int| rank(s, seq) <= j < s.len() ==> (#[trigger] s[j]).seq >= seq,
    decreases s.len(),
{
    if s.len() > 0 {
        let t = s.drop_last();
        lemma_rank_splits(t, seq);
        assert forall|j: int| 0 <= j < t.len() implies t[j] == s[j] by {}
    }
}

/// Only the rank splits an ordered cache into the older messages and the rest.
pub proof fn lemma_rank_unique(s: Seq<Message>, seq: u64, p: int)
    requires
        ordered(s),
        0 <= p <= s.len(),
        forall|j: int| 0 <= j < p ==> (#[trigger] s[j]).seq < seq,
        forall|j: int| p <= j < s.len() ==> (#[trigger] s[j]).seq >= seq,
    ensures
        p == rank(s, seq),
{
    lemma_rank_splits(s, seq);
    let r = rank(s, seq);
    if p < r {
        assert(s[p].seq >= seq);
    } else if r < p {
        assert(s[r].seq >= seq);
    }
}

/// An ordered cache holds the identifier `seq` exactly where the message at
/// the rank of `seq` carries it.
pub proof fn lemma_rank_finds(s: Seq<Message>, seq: u64)
    requires
        ordered(s),
    ensures
        contains_seq(s, seq) <==> (rank(s, seq) < s.len() && s[rank(s, seq)].seq == seq),
{
    lemma_rank_splits(s, seq);
}

/// Offering a message to an ordered cache leaves it ordered, and the cache
/// then holds the identifier.
pub proof fn lemma_merged_ordered(s: Seq<Message>, m: Message)
    requires
        ordered(s),
    ensures
        ordered(merged(s, m)),
        contains_seq(merged(s, m), m.seq),
        !contains_seq(s, m.seq) ==> merged(s, m).len() == s.len() + 1 && merged(s, m)[rank(
            s,
            m.seq,
        )] == m,
{
    lemma_rank_splits(s, m.seq);
    if !contains_seq(s, m.seq) {
        let p = rank(s, m.seq);
        let r = s.insert(p, m);
        assert(r[p] == m);
    }
}

/// The message cache of one conversation: a partial view of its history,
/// oldest message first, that takes a message at either end in constant time.
pub struct MessageCache {
    items: VecDeque<Message>,
}

impl View for MessageCache {
    type V = Seq<Message>;

    closed spec fn view(&self) -> Seq<Message> {
        self.items@
    }
}

impl MessageCache {
    /// The cache is in chronological order without a repeated identifier.
    pub open spec fn wf(&self) -> bool {
        ordered(self@)
    }

    /// A cache that holds nothing yet.
    pub fn new() -> (c: Self)
        ensures
            c@ == Seq::<Message>::empty(),
            c.wf(),
    {
        MessageCache { items: VecDeque::new() }
    }

    /// The number of cached messages.
    pub fn len(&self) -> (n: usize)
        ensures
            n == self@.len(),
    {
        self.items.len()
    }

    /// Whether nothing is cached.
    pub fn is_empty(&self) -> (b: bool)
        ensures
            b == (self@.len() == 0),
    {
        self.items.len() == 0
    }

    /// The message at place `i`, counted from the oldest.
    pub fn get(&self, i: usize) -> (m: &Message)
        requires
            i < self@.len(),
        ensures
            *m == self@[i as int],
    {
        &self.items[i]
    }

    /// The place of the first message that is not older than `seq`.
    pub fn lower_bound(&self, seq: u64) -> (p: usize)
        requires
            self.wf(),
        ensures
            p == rank(self@, seq),
    {
        let mut lo: usize = 0;
        let mut hi: usize = self.items.len();
        while lo < hi
            invariant
                0 <= lo <= hi <= self@.len(),
                self.wf(),
                forall|j: int| 0 <= j < lo ==> (#[trigger] self@[j]).seq < seq,
                forall|j: int| hi <= j < self@.len() ==> (#[trigger] self@[j]).seq >= seq,
            decreases hi - lo,
        {
            let mid: usize = lo + (hi - lo) / 2;
            if self.items[mid].seq < seq {
                lo = mid + 1;
            } else {
                hi = mid;
            }
        }
        proof {
            lemma_rank_unique(self@, seq, lo as int);
        }
        lo
    }

    /// Whether a message with the identifier `seq` is cached.
    pub fn contains(&self, seq: u64) -> (b: bool)
        requires
            self.wf(),
        ensures
            b == contains_seq(self@, seq),
    {
        let p: usize = self.lower_bound(seq);
        proof {
            lemma_rank_finds(self@, seq);
        }
        p < self.items.len() && self.items[p].seq == seq
    }

    /// Offers `m` to the cache. A message whose identifier is already cached
    /// is turned down and the cache stays as it is; any other is put at its
    /// chronological place, in constant time where that is either end.
    pub fn insert(&mut self, m: Message) -> (accepted: bool)
        requires
            old(self).wf(),
        ensures
            final(self).wf(),
            accepted == !contains_seq(old(self)@, m.seq),
            final(self)@ == merged(old(self)@, m),
    {
        let n: usize = self.items.len();
        proof {
            lemma_rank_splits(self@, m.seq);
            lemma_merged_ordered(self@, m);
        }
        if n == 0 || self.items[n - 1].seq < m.seq {
            proof {
                lemma_rank_unique(self@, m.seq, n as int);
            }
            self.items.push_back(m);
            true
        } else if m.seq < self.items[0].seq {
            proof {
                lemma_rank_unique(self@, m.seq, 0);
            }
            self.items.push_front(m);
            true
        } else {
            let p: usize = self.lower_bound(m.seq);
            proof {
                lemma_rank_finds(self@, m.seq);
            }
            if self.items[p].seq == m.seq {
                false
            } else {
                self.items.insert(p, m);
                true
            }
        }
    }
}

} // verus!
