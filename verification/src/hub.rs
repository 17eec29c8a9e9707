//! The broadcast hub: the single ordered ingestion point for all messages.
//!
//! Every message — process output and viewer input alike — is published
//! here. The hub appends it to the bounded [`History`] buffer and fans it
//! out to every live subscription. Each subscription has a bounded pending
//! buffer; a subscriber that falls behind is marked broken (fail-fast)
//! rather than buffered without bound, and unrelated subscribers are not
//! affected.
//!
//! The ghost `log` records every message ever published, in publish order.
//! All ordering guarantees are stated against it: the history buffer is
//! always the most recent suffix of the log, and each subscription's
//! deliveries are a contiguous window of the log starting at the position
//! where it joined.

use crate::history::History;
use vstd::prelude::*;

verus! {

/// One viewer's live position in the hub's delivery stream.
///
/// The pending buffer holds messages published but not yet taken by the
/// consumer, oldest first. `joined` is the log position at which live
/// delivery began (the log length at subscribe time), `taken` counts the
/// messages the consumer has already taken, and `snap_len` is how many
/// messages the snapshot handed out at subscribe time held.
pub struct Subscription {
    pub pending: std::collections::VecDeque<String>,
    pub broken: bool,
    pub live: bool,
    pub joined: Ghost<nat>,
    pub taken: Ghost<nat>,
    pub snap_len: Ghost<nat>,
}

impl Subscription {
    /// The pending messages, oldest first.
    pub open spec fn pending_view(&self) -> Seq<Seq<char>> {
        self.pending@.map_values(|m: String| m@)
    }

    /// Log position of the next message the consumer will take.
    pub open spec fn cursor(&self) -> int {
        self.joined@ + self.taken@ as int
    }

    /// One past the last log position delivered into this subscription.
    pub open spec fn live_end(&self) -> int {
        self.joined@ + self.taken@ + self.pending@.len() as int
    }

    /// The messages this subscription has taken or has pending, in order:
    /// the contiguous log window starting where it joined.
    pub open spec fn live_window(&self, log: Seq<Seq<char>>) -> Seq<Seq<char>> {
        log.subrange(self.joined@ as int, self.live_end())
    }

    /// The log window that the snapshot handed out at subscribe time held.
    pub open spec fn snap_window(&self, log: Seq<Seq<char>>) -> Seq<Seq<char>> {
        log.subrange(self.joined@ - self.snap_len@, self.joined@ as int)
    }

    pub open spec fn wf(&self, log: Seq<Seq<char>>, sub_cap: nat) -> bool {
        &&& self.snap_len@ <= self.joined@ <= log.len()
        &&& self.live_end() <= log.len()
        &&& self.pending@.len() <= sub_cap
        &&& (self.live && !self.broken ==> self.live_end() == log.len())
        &&& (!self.live ==> self.pending@.len() == 0)
        &&& self.pending_view() == log.subrange(self.cursor(), self.live_end())
    }
}

/// What one publish does to one subscription: a live subscription with room
/// gets the message appended to its pending buffer; a live one without room
/// is marked broken with its buffer left as it was (fail-fast); a broken or
/// closed one is untouched. Nothing else about the subscription changes.
pub open spec fn publish_effect(
    s0: Subscription,
    s1: Subscription,
    m: Seq<char>,
    sub_cap: nat,
) -> bool {
    &&& s1.joined@ == s0.joined@
    &&& s1.taken@ == s0.taken@
    &&& s1.snap_len@ == s0.snap_len@
    &&& s1.live == s0.live
    &&& if s0.live && !s0.broken && s0.pending@.len() < sub_cap {
        &&& !s1.broken
        &&& s1.pending_view() == s0.pending_view().push(m)
    } else if s0.live && !s0.broken {
        &&& s1.broken
        &&& s1.pending_view() == s0.pending_view()
    } else {
        &&& s1.broken == s0.broken
        &&& s1.pending_view() == s0.pending_view()
    }
}

/// What a read from a subscription returns.
pub enum RecvOutcome {
    /// The next message, in publish order.
    Received(String),
    /// Nothing is pending right now; the consumer would wait.
    Empty,
    /// The subscription is broken or closed; reads from it terminate.
    Closed,
}

/// The hub: bounded history plus the set of subscriptions, mutated only as
/// one atomic unit (publish, subscribe, recv, unsubscribe).
pub struct Hub {
    pub history: History,
    pub subs: Vec<Subscription>,
    /// Bound on each subscription's pending buffer (fail-fast threshold).
    pub sub_cap: usize,
    /// Every message ever published, in publish order.
    pub log: Ghost<Seq<Seq<char>>>,
}

impl Hub {
    pub open spec fn wf(&self) -> bool {
        &&& self.history.wf()
        &&& self.history.pushed@ == self.log@
        &&& self.sub_cap >= 1
        &&& forall|i: int|
            #![trigger self.subs@[i]]
            0 <= i < self.subs@.len() ==> self.subs@[i].wf(self.log@, self.sub_cap as nat)
    }

    pub fn new(history_cap: usize, sub_cap: usize) -> (h: Hub)
        requires
            history_cap >= 1,
            sub_cap >= 1,
        ensures
            h.wf(),
            h.log@ == Seq::<Seq<char>>::empty(),
            h.subs@.len() == 0,
            h.sub_cap == sub_cap,
            h.history.cap == history_cap,
    {
        Hub {
            history: History::new(history_cap),
            subs: Vec::new(),
            sub_cap,
            log: Ghost(Seq::empty()),
        }
    }

    /// Publish one message: append it to the history (evicting the oldest
    /// entry if full), then attempt delivery to every subscription. A live
    /// subscription whose pending buffer is full is marked broken and gets
    /// nothing; every other live subscription gets the message appended.
    /// No subscription is added, removed, or otherwise changed.
    pub fn publish(&mut self, msg: String)
        requires
            old(self).wf(),
        ensures
            final(self).wf(),
            final(self).sub_cap == old(self).sub_cap,
            final(self).history.cap == old(self).history.cap,
            final(self).log@ == old(self).log@.push(msg@),
            final(self).subs@.len() == old(self).subs@.len(),
            forall|i: int|
                #![trigger final(self).subs@[i]]
                0 <= i < old(self).subs@.len() ==> publish_effect(
                    old(self).subs@[i],
                    final(self).subs@[i],
                    msg@,
                    old(self).sub_cap as nat,
                ),
    {
        self.history.push(msg.clone());
        proof {
            self.log@ = self.log@.push(msg@);
        }
        let ghost log1 = self.log@;
        let ghost cap = self.sub_cap as nat;
        let mut i: usize = 0;
        while i < self.subs.len()
            invariant
                old(self).wf(),
                cap == old(self).sub_cap as nat,
                i <= self.subs@.len(),
                self.subs@.len() == old(self).subs@.len(),
                self.sub_cap == old(self).sub_cap,
                self.log@ == log1,
                log1 == old(self).log@.push(msg@),
                cap == self.sub_cap as nat,
                self.history.wf(),
                self.history.pushed@ == self.log@,
                self.history.cap == old(self).history.cap,
                self.sub_cap >= 1,
                forall|k: int|
                    #![trigger self.subs@[k]]
                    0 <= k < i ==> publish_effect(
                        old(self).subs@[k],
                        self.subs@[k],
                        msg@,
                        cap,
                    ) && self.subs@[k].wf(log1, cap),
                forall|k: int|
                    #![trigger self.subs@[k]]
                    i <= k < self.subs@.len() ==> self.subs@[k] == old(self).subs@[k],
            decreases self.subs@.len() - i,
        {
            let ghost s0 = self.subs@[i as int];
            proof {
                assert(s0.wf(old(self).log@, cap));
            }
            if self.subs[i].live && !self.subs[i].broken {
                if self.subs[i].pending.len() < self.sub_cap {
                    let m = msg.clone();
                    self.subs[i].pending.push_back(m);
                    proof {
                        let s1 = self.subs@[i as int];
                        assert(s1.pending_view() =~= s0.pending_view().push(msg@));
                        assert(s1.pending_view() =~= log1.subrange(s1.cursor(), s1.live_end()));
                        assert(s1.wf(log1, cap));
                    }
                } else {
                    self.subs[i].broken = true;
                    proof {
                        let s1 = self.subs@[i as int];
                        assert(s1.pending_view() =~= s0.pending_view());
                        assert(s1.pending_view() =~= log1.subrange(s1.cursor(), s1.live_end()));
                        assert(s1.wf(log1, cap));
                    }
                }
            } else {
                proof {
                    let s1 = self.subs@[i as int];
                    assert(s1.pending_view() =~= log1.subrange(s1.cursor(), s1.live_end()));
                    assert(s1.wf(log1, cap));
                }
            }
            i += 1;
        }
    }

    /// Attach a new subscriber: returns its identifier and a consistent
    /// snapshot of the current history, oldest first. The new subscription
    /// starts exactly at the current end of the log, so a message published
    /// before this call is in the snapshot and one published after it is
    /// delivered live — never both, never neither.
    pub fn subscribe(&mut self) -> (r: (usize, Vec<String>))
        requires
            old(self).wf(),
        ensures
            final(self).wf(),
            final(self).log@ == old(self).log@,
            final(self).history == old(self).history,
            final(self).sub_cap == old(self).sub_cap,
            final(self).subs@.len() == old(self).subs@.len() + 1,
            forall|k: int|
                #![trigger final(self).subs@[k]]
                0 <= k < old(self).subs@.len() ==> final(self).subs@[k] == old(self).subs@[k],
            r.0 == old(self).subs@.len(),
            r.1@.map_values(|m: String| m@) == old(self).history.contents(),
            ({
                let s = final(self).subs@[r.0 as int];
                &&& s.joined@ == old(self).log@.len()
                &&& s.taken@ == 0
                &&& s.pending@.len() == 0
                &&& !s.broken
                &&& s.live
                &&& s.snap_len@ == old(self).history.contents().len()
                &&& r.1@.map_values(|m: String| m@) == s.snap_window(final(self).log@)
            }),
    {
        let snap = self.history.snapshot();
        let sub = Subscription {
            pending: std::collections::VecDeque::new(),
            broken: false,
            live: true,
            joined: Ghost(self.log@.len()),
            taken: Ghost(0 as nat),
            snap_len: Ghost(self.history.contents().len()),
        };
        self.subs.push(sub);
        let id = self.subs.len() - 1;
        proof {
            let s = self.subs@[id as int];
            assert(s.pending_view() =~= Seq::<Seq<char>>::empty());
            assert(s.pending_view() =~= self.log@.subrange(s.cursor(), s.live_end()));
            assert(snap@.map_values(|m: String| m@) =~= s.snap_window(self.log@));
            assert(s.wf(self.log@, self.sub_cap as nat));
        }
        (id, snap)
    }

    /// Take the next pending message from subscription `id`, if any.
    /// A broken or closed subscription yields `Closed`: reads from it
    /// terminate. Messages come out in publish order, each at most once.
    pub fn recv(&mut self, id: usize) -> (r: RecvOutcome)
        requires
            old(self).wf(),
            id < old(self).subs@.len(),
        ensures
            final(self).wf(),
            final(self).log@ == old(self).log@,
            final(self).history == old(self).history,
            final(self).sub_cap == old(self).sub_cap,
            final(self).subs@.len() == old(self).subs@.len(),
            forall|k: int|
                #![trigger final(self).subs@[k]]
                0 <= k < old(self).subs@.len() && k != id ==> final(self).subs@[k] == old(
                    self,
                ).subs@[k],
            ({
                let s0 = old(self).subs@[id as int];
                let s1 = final(self).subs@[id as int];
                if s0.broken || !s0.live {
                    &&& r is Closed
                    &&& s1 == s0
                } else if s0.pending@.len() == 0 {
                    &&& r is Empty
                    &&& s1.pending@ == s0.pending@
                    &&& s1.broken == s0.broken
                    &&& s1.live == s0.live
                    &&& s1.joined@ == s0.joined@
                    &&& s1.taken@ == s0.taken@
                    &&& s1.snap_len@ == s0.snap_len@
                } else {
                    &&& r matches RecvOutcome::Received(m) && m@ == old(self).log@[s0.cursor()]
                    &&& s1.taken@ == s0.taken@ + 1
                    &&& s1.pending_view() == s0.pending_view().drop_first()
                    &&& s1.joined@ == s0.joined@
                    &&& s1.snap_len@ == s0.snap_len@
                    &&& s1.live
                    &&& s1.broken == s0.broken
                }
            }),
    {
        let ghost s0 = self.subs@[id as int];
        if self.subs[id].broken || !self.subs[id].live {
            return RecvOutcome::Closed;
        }
        match self.subs[id].pending.pop_front() {
            None => RecvOutcome::Empty,
            Some(m) => {
                self.subs[id].taken = Ghost((s0.taken@ + 1) as nat);
                proof {
                    let s1 = self.subs@[id as int];
                    assert(s1.pending_view() =~= s0.pending_view().drop_first());
                    assert(m@ == s0.pending_view()[0]);
                    assert(s0.pending_view()[0] == self.log@.subrange(s0.cursor(), s0.live_end())[0]);
                    assert(m@ == old(self).log@[s0.cursor()]);
                    assert(s1.pending_view() =~= self.log@.subrange(s1.cursor(), s1.live_end()));
                    assert(s1.wf(self.log@, self.sub_cap as nat));
                }
                RecvOutcome::Received(m)
            },
        }
    }

    /// Detach subscription `id`: it is closed and its pending buffer is
    /// freed. Other subscriptions and the history are untouched.
    pub fn unsubscribe(&mut self, id: usize)
        requires
            old(self).wf(),
            id < old(self).subs@.len(),
        ensures
            final(self).wf(),
            final(self).log@ == old(self).log@,
            final(self).history == old(self).history,
            final(self).sub_cap == old(self).sub_cap,
            final(self).subs@.len() == old(self).subs@.len(),
            forall|k: int|
                #![trigger final(self).subs@[k]]
                0 <= k < old(self).subs@.len() && k != id ==> final(self).subs@[k] == old(
                    self,
                ).subs@[k],
            !final(self).subs@[id as int].live,
            final(self).subs@[id as int].pending@.len() == 0,
    {
        self.subs[id].live = false;
        self.subs[id].pending.clear();
        proof {
            let s = self.subs@[id as int];
            assert(s.pending_view() =~= self.log@.subrange(s.cursor(), s.cursor()));
            assert(s.wf(self.log@, self.sub_cap as nat));
        }
    }
}

/// Snapshot consistency: the snapshot a subscriber was handed at subscribe
/// time and its live deliveries form adjacent, non-overlapping windows of
/// the publish log. A message published before the subscribe call lies in
/// the snapshot window; one published after it lies in the live window; no
/// log position is in both and none in between is missed.
pub proof fn lemma_snapshot_consistency(h: &Hub, i: int)
    requires
        h.wf(),
        0 <= i < h.subs@.len(),
    ensures
        ({
            let s = h.subs@[i];
            &&& s.snap_window(h.log@).len() == s.snap_len@
            &&& s.live_window(h.log@).len() == s.taken@ + s.pending@.len()
            &&& s.snap_window(h.log@) + s.live_window(h.log@) == h.log@.subrange(
                s.joined@ - s.snap_len@,
                s.live_end(),
            )
        }),
{
    let s = h.subs@[i];
    assert(s.snap_window(h.log@) + s.live_window(h.log@) =~= h.log@.subrange(
        s.joined@ - s.snap_len@,
        s.live_end(),
    ));
}

/// Loopback delivery: when a publish reaches a live subscription with room
/// — in particular when a viewer's own input is published — that
/// subscription's stream of live messages grows by exactly that message,
/// once, at its end.
pub proof fn lemma_live_window_extends(
    s0: Subscription,
    s1: Subscription,
    log0: Seq<Seq<char>>,
    m: Seq<char>,
    cap: nat,
)
    requires
        s0.wf(log0, cap),
        publish_effect(s0, s1, m, cap),
        s0.live,
        !s0.broken,
        s0.pending@.len() < cap,
    ensures
        s1.live_window(log0.push(m)) == s0.live_window(log0).push(m),
{
    assert(s0.pending_view().len() == s0.pending@.len());
    assert(s1.pending_view().len() == s1.pending@.len());
    assert(s1.pending@.len() == s0.pending@.len() + 1);
    assert(s0.live_end() == log0.len());
    assert(s1.live_end() == log0.len() + 1);
    assert(s1.live_window(log0.push(m)) =~= s0.live_window(log0).push(m));
}

/// Fan-out ordering: two subscribers that both receive the messages at log
/// positions `p` and `q` hold them at offsets that preserve the publish
/// order — the relative order of any two messages is the same for every
/// live subscriber.
pub proof fn lemma_fanout_order(h: &Hub, i: int, j: int, p: int, q: int)
    requires
        h.wf(),
        0 <= i < h.subs@.len(),
        0 <= j < h.subs@.len(),
        h.subs@[i].joined@ <= p < q < h.subs@[i].live_end(),
        h.subs@[j].joined@ <= p < q < h.subs@[j].live_end(),
    ensures
        ({
            let a = h.subs@[i];
            let b = h.subs@[j];
            &&& a.live_window(h.log@)[p - a.joined@] == h.log@[p]
            &&& a.live_window(h.log@)[q - a.joined@] == h.log@[q]
            &&& b.live_window(h.log@)[p - b.joined@] == h.log@[p]
            &&& b.live_window(h.log@)[q - b.joined@] == h.log@[q]
            &&& p - a.joined@ < q - a.joined@
            &&& p - b.joined@ < q - b.joined@
        }),
{
}

} // verus!
