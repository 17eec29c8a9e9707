//! The bounded FIFO history buffer.
//!
//! The hub keeps the most recent messages here so that a newly attaching
//! viewer can be caught up before it starts receiving live deliveries.
//! Inserting past capacity evicts the oldest entry.

use vstd::prelude::*;

verus! {

/// A size-bounded, oldest-first log of messages.
///
/// `pushed` is the ghost record of every message ever pushed, oldest first;
/// the buffer itself always holds exactly the most recent `cap` of them
/// (or all of them, while fewer have been pushed).
pub struct History {
    pub items: std::collections::VecDeque<String>,
    pub cap: usize,
    /// Every message ever pushed through this buffer, oldest first.
    pub pushed: Ghost<Seq<Seq<char>>>,
}

impl History {
    /// The messages currently held, oldest first.
    pub open spec fn contents(&self) -> Seq<Seq<char>> {
        self.items@.map_values(|m: String| m@)
    }

    pub open spec fn wf(&self) -> bool {
        &&& self.cap >= 1
        &&& self.items@.len() == if self.pushed@.len() < self.cap {
            self.pushed@.len()
        } else {
            self.cap as nat
        }
        &&& self.contents() == self.pushed@.subrange(
            self.pushed@.len() - self.items@.len(),
            self.pushed@.len() as int,
        )
    }

    pub fn new(cap: usize) -> (h: History)
        requires
            cap >= 1,
        ensures
            h.wf(),
            h.cap == cap,
            h.pushed@ == Seq::<Seq<char>>::empty(),
            h.contents() == Seq::<Seq<char>>::empty(),
    {
        let h = History {
            items: std::collections::VecDeque::new(),
            cap,
            pushed: Ghost(Seq::empty()),
        };
        proof {
            assert(h.contents() =~= Seq::<Seq<char>>::empty());
            assert(h.pushed@.subrange(0, 0) =~= Seq::<Seq<char>>::empty());
        }
        h
    }

    /// Number of messages currently held.
    pub fn len(&self) -> (n: usize)
        ensures
            n == self.contents().len(),
    {
        self.items.len()
    }

    /// Append a message, evicting the oldest entry if the buffer is full.
    pub fn push(&mut self, m: String)
        requires
            old(self).wf(),
        ensures
            final(self).wf(),
            final(self).cap == old(self).cap,
            final(self).pushed@ == old(self).pushed@.push(m@),
            final(self).contents() == if old(self).contents().len() < old(self).cap {
                old(self).contents().push(m@)
            } else {
                old(self).contents().subrange(1, old(self).cap as int).push(m@)
            },
    {
        if self.items.len() >= self.cap {
            let _evicted = self.items.pop_front();
        }
        self.items.push_back(m);
        proof {
            self.pushed@ = self.pushed@.push(m@);
            let p0 = old(self).pushed@;
            let n0 = old(self).items@.len() as int;
            let p1 = self.pushed@;
            let n1 = self.items@.len() as int;
            let target = p1.subrange(p1.len() - n1, p1.len() as int);
            assert forall|k: int| 0 <= k < n1 implies self.contents()[k] == target[k] by {
                if k == n1 - 1 {
                    assert(self.items@[k] == m);
                } else {
                    let shift: int = if n0 < old(self).cap { 0 } else { 1 };
                    assert(self.items@[k] == old(self).items@[k + shift]);
                    assert(old(self).contents()[k + shift] == old(self).items@[k + shift]@);
                    assert(old(self).contents()[k + shift] == p0[p0.len() - n0 + k + shift]);
                    assert(target[k] == p0[p0.len() - n0 + k + shift]);
                }
            }
            assert(self.contents() =~= target);
            if old(self).contents().len() < old(self).cap {
                assert(self.contents() =~= old(self).contents().push(m@));
            } else {
                assert(self.contents() =~= old(self).contents().subrange(
                    1,
                    old(self).cap as int,
                ).push(m@));
            }
        }
    }

    /// A copy of the current contents, oldest first.
    pub fn snapshot(&self) -> (s: Vec<String>)
        ensures
            s@.map_values(|m: String| m@) == self.contents(),
    {
        let mut s: Vec<String> = Vec::new();
        let mut i: usize = 0;
        while i < self.items.len()
            invariant
                i <= self.items@.len(),
                s@.len() == i,
                forall|k: int| 0 <= k < i ==> s@[k]@ == self.items@[k]@,
            decreases self.items@.len() - i,
        {
            s.push(self.items[i].clone());
            i += 1;
        }
        proof {
            assert(s@.map_values(|m: String| m@) =~= self.contents());
        }
        s
    }
}

/// History bound: once at least `cap` messages have been pushed, the buffer
/// holds exactly the last `cap` pushed messages, in publish order.
pub proof fn lemma_history_bound(h: &History)
    requires
        h.wf(),
        h.pushed@.len() >= h.cap,
    ensures
        h.contents().len() == h.cap,
        h.contents() == h.pushed@.subrange(
            h.pushed@.len() - h.cap,
            h.pushed@.len() as int,
        ),
{
}

} // verus!
