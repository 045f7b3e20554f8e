//! Registry of live log-tailing sessions.
//!
//! The registry maps a stream identifier to a liveness flag.  A tailing
//! session inserts its identifier with the flag set when it starts, an
//! external stop request flips the flag to false, and the session erases the
//! entry when its task exits.  A missing identifier means the same as a false
//! flag: the session is not running.  The surrounding application guards one
//! shared registry instance with a mutual-exclusion lock; each operation here
//! is one critical section over the whole table.

use vstd::prelude::*;

verus! {

/// Table of tailing sessions: one entry per stream identifier, holding the
/// session's liveness flag.  Keys are unique.
pub struct StreamRegistry {
    entries: Vec<(String, bool)>,
}

impl StreamRegistry {
    /// Well-formedness: no stream identifier occurs twice.
    pub closed spec fn wf(&self) -> bool {
        forall|i: int, j: int|
            0 <= i < j < self.entries@.len() ==> self.entries@[i].0@ != self.entries@[j].0@
    }

    /// The identifier has an entry in the table.
    pub closed spec fn known(&self, k: Seq<char>) -> bool {
        exists|i: int| 0 <= i < self.entries@.len() && self.entries@[i].0@ == k
    }

    /// The identifier has an entry and its flag is set: the session should
    /// keep running.  An absent identifier is never live.
    pub closed spec fn live(&self, k: Seq<char>) -> bool {
        exists|i: int| 0 <= i < self.entries@.len() && (self.entries@[i].0@ == k && self.entries@[i].1)
    }

    /// An empty registry: nothing is known, nothing is live.
    pub fn new() -> (r: StreamRegistry)
        ensures
            r.wf(),
            forall|k: Seq<char>| !r.known(k),
            forall|k: Seq<char>| !r.live(k),
    {
        StreamRegistry { entries: Vec::new() }
    }

    /// Index of the entry holding `id`, if any.
    fn index_of(&self, id: &String) -> (r: Option<usize>)
        ensures
            match r {
                Some(i) => i < self.entries@.len() && self.entries@[i as int].0@ == id@,
                None => !self.known(id@),
            },
    {
        let mut i: usize = 0;
        while i < self.entries.len()
            invariant
                i <= self.entries@.len(),
                forall|j: int| 0 <= j < i ==> self.entries@[j].0@ != id@,
            decreases self.entries@.len() - i,
        {
            if self.entries[i].0 == *id {
                return Some(i);
            }
            i = i + 1;
        }
        None
    }

    /// Marks a session live, overwriting any prior entry under the same
    /// identifier: restarting a session under an identifier silently adopts
    /// the new session.  No other identifier is affected.
    pub fn start(&mut self, id: String)
        requires
            old(self).wf(),
        ensures
            final(self).wf(),
            final(self).known(id@),
            final(self).live(id@),
            forall|k: Seq<char>| k != id@ ==> final(self).known(k) == old(self).known(k),
            forall|k: Seq<char>| k != id@ ==> final(self).live(k) == old(self).live(k),
    {
        match self.index_of(&id) {
            Some(i) => {
                self.entries[i] = (id, true);
                proof {
                    assert(self.entries@[i as int].0@ == id@ && self.entries@[i as int].1);
                    assert(forall|j: int|
                        0 <= j < self.entries@.len() && j != i ==> self.entries@[j]
                            == old(self).entries@[j]);
                }
            },
            None => {
                let ghost n = self.entries@.len();
                self.entries.push((id, true));
                proof {
                    assert(self.entries@[n as int].0@ == id@ && self.entries@[n as int].1);
                    assert(forall|j: int|
                        0 <= j < n ==> self.entries@[j] == old(self).entries@[j]);
                }
            },
        }
    }

    /// Requests that a session stop: clears the flag if the identifier is
    /// present, and does nothing at all otherwise.  Stopping an unknown or
    /// already-finished identifier is not an error, leaves the set of known
    /// identifiers as it was, and never affects any other stream.
    pub fn stop(&mut self, id: &String)
        requires
            old(self).wf(),
        ensures
            final(self).wf(),
            !final(self).live(id@),
            forall|k: Seq<char>| final(self).known(k) == old(self).known(k),
            forall|k: Seq<char>| k != id@ ==> final(self).live(k) == old(self).live(k),
    {
        match self.index_of(id) {
            Some(i) => {
                let key = self.entries[i].0.clone();
                self.entries[i] = (key, false);
                assert(forall|j: int|
                    0 <= j < self.entries@.len() && j != i ==> self.entries@[j]
                        == old(self).entries@[j]);
                assert(self.entries@[i as int].0@ == old(self).entries@[i as int].0@);
            },
            None => {},
        }
    }

    /// Reports the stored flag, or false when the identifier is absent: a
    /// missing entry means the session is not running.
    pub fn is_live(&self, id: &String) -> (r: bool)
        requires
            self.wf(),
        ensures
            r == self.live(id@),
    {
        match self.index_of(id) {
            Some(i) => self.entries[i].1,
            None => false,
        }
    }

    /// Erases the entry for a finished session; idempotent.  No other
    /// identifier is affected.
    pub fn remove(&mut self, id: &String)
        requires
            old(self).wf(),
        ensures
            final(self).wf(),
            !final(self).known(id@),
            !final(self).live(id@),
            forall|k: Seq<char>| k != id@ ==> final(self).known(k) == old(self).known(k),
            forall|k: Seq<char>| k != id@ ==> final(self).live(k) == old(self).live(k),
    {
        match self.index_of(id) {
            Some(i) => {
                self.entries.remove(i);
                proof {
                    assert(forall|j: int|
                        0 <= j < self.entries@.len() ==> self.entries@[j] == (if j < i {
                            old(self).entries@[j]
                        } else {
                            old(self).entries@[j + 1]
                        }));
                    assert forall|k: Seq<char>| k != id@ && old(self).known(k) implies self.known(
                        k,
                    ) by {
                        let j = choose|j: int|
                            0 <= j < old(self).entries@.len() && old(self).entries@[j].0@ == k;
                        if j < i {
                            assert(self.entries@[j].0@ == k);
                        } else {
                            assert(self.entries@[j - 1].0@ == k);
                        }
                    }
                    assert forall|k: Seq<char>| k != id@ && old(self).live(k) implies self.live(
                        k,
                    ) by {
                        let j = choose|j: int|
                            0 <= j < old(self).entries@.len() && (old(self).entries@[j].0@ == k
                                && old(self).entries@[j].1);
                        if j < i {
                            assert(self.entries@[j].0@ == k && self.entries@[j].1);
                        } else {
                            assert(self.entries@[j - 1].0@ == k && self.entries@[j - 1].1);
                        }
                    }
                    assert forall|k: Seq<char>| self.known(k) implies old(self).known(k) by {
                        let j = choose|j: int|
                            0 <= j < self.entries@.len() && self.entries@[j].0@ == k;
                        if j < i {
                            assert(old(self).entries@[j].0@ == k);
                        } else {
                            assert(old(self).entries@[j + 1].0@ == k);
                        }
                    }
                    assert forall|k: Seq<char>| self.live(k) implies old(self).live(k) by {
                        let j = choose|j: int|
                            0 <= j < self.entries@.len() && (self.entries@[j].0@ == k
                                && self.entries@[j].1);
                        if j < i {
                            assert(old(self).entries@[j].0@ == k && old(self).entries@[j].1);
                        } else {
                            assert(old(self).entries@[j + 1].0@ == k && old(self).entries@[j
                                + 1].1);
                        }
                    }
                    assert forall|a: int, b: int|
                        0 <= a < b < self.entries@.len() implies self.entries@[a].0@
                        != self.entries@[b].0@ by {
                        if b < i {
                        } else if a < i {
                            assert(self.entries@[b] == old(self).entries@[b + 1]);
                        } else {
                            assert(self.entries@[a] == old(self).entries@[a + 1]);
                            assert(self.entries@[b] == old(self).entries@[b + 1]);
                        }
                    }
                    assert forall|j: int|
                        0 <= j < self.entries@.len() implies self.entries@[j].0@ != id@ by {
                        if j < i {
                            assert(old(self).entries@[j].0@ != old(self).entries@[i as int].0@);
                        } else {
                            assert(old(self).entries@[j + 1].0@ != old(self).entries@[i as int].0@);
                        }
                    }
                }
            },
            None => {},
        }
    }
}

} // verus!
