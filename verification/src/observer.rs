//! A subject that keeps an ordered registry of observers. Observers are
//! identified by caller-chosen ids: registration appends an id, removal
//! deletes every entry carrying the id, and a notification round yields the
//! recipients in registration order.

use vstd::prelude::*;

verus! {

/// The observer list with every entry equal to `o` removed, relative order
/// of the rest kept.
pub open spec fn without_observer(s: Seq<u64>, o: u64) -> Seq<u64>
    decreases s.len(),
{
    if s.len() == 0 {
        s
    } else {
        let rest = without_observer(s.drop_last(), o);
        if s.last() == o {
            rest
        } else {
            rest.push(s.last())
        }
    }
}

/// A subject holding the ids of its registered observers, in registration
/// order. The same id may be registered more than once.
pub struct ConcreteSubject {
    pub observers: Vec<u64>,
}

impl ConcreteSubject {
    pub fn new() -> (s: ConcreteSubject)
        ensures
            s.observers@.len() == 0,
    {
        ConcreteSubject { observers: Vec::new() }
    }

    /// Register an observer: appended at the end, nothing else moves.
    pub fn register_observer(&mut self, observer: u64)
        ensures
            final(self).observers@ == old(self).observers@.push(observer),
    {
        self.observers.push(observer);
    }

    /// Remove an observer: every entry with this id goes, the others keep
    /// their relative order.
    pub fn remove_observer(&mut self, observer: u64)
        ensures
            final(self).observers@ == without_observer(old(self).observers@, observer),
    {
        let n = self.observers.len();
        let mut kept: Vec<u64> = Vec::new();
        let mut i: usize = 0;
        while i < n
            invariant
                i <= n,
                n == self.observers@.len(),
                self.observers@ == old(self).observers@,
                kept@ == without_observer(self.observers@.subrange(0, i as int), observer),
            decreases n - i,
        {
            let x = self.observers[i];
            if x != observer {
                kept.push(x);
            }
            proof {
                assert(self.observers@.subrange(0, i + 1).drop_last() =~= self.observers@.subrange(
                    0,
                    i as int,
                ));
            }
            i = i + 1;
        }
        proof {
            assert(self.observers@.subrange(0, n as int) =~= self.observers@);
        }
        self.observers = kept;
    }

    /// One notification round: every registered observer is to be told, in
    /// registration order. The returned ids are the recipients.
    pub fn notify_observers(&self) -> (recipients: Vec<u64>)
        ensures
            recipients@ == self.observers@,
    {
        let n = self.observers.len();
        let mut recipients: Vec<u64> = Vec::new();
        let mut i: usize = 0;
        while i < n
            invariant
                i <= n,
                n == self.observers@.len(),
                recipients@ == self.observers@.subrange(0, i as int),
            decreases n - i,
        {
            recipients.push(self.observers[i]);
            proof {
                assert(self.observers@.subrange(0, i + 1) =~= self.observers@.subrange(
                    0,
                    i as int,
                ).push(self.observers@[i as int]));
            }
            i = i + 1;
        }
        proof {
            assert(self.observers@.subrange(0, n as int) =~= self.observers@);
        }
        recipients
    }
}

} // verus!
