use vstd::prelude::*;

use crate::model::{AuditEvent, Policy};

verus! {

/// The stored audit records of one policy, oldest first.
///
/// Records are appended in sequence order and may be purged to reclaim
/// storage; purging never renumbers the records that remain.
pub struct AuditLog {
    pub events: Vec<AuditEvent>,
}

/// Sequence numbers strictly increase along `events`.
pub open spec fn ordered(events: Seq<AuditEvent>) -> bool {
    forall|i: int, j: int|
        #![trigger events[i], events[j]]
        0 <= i < j < events.len() ==> events[i].sequence < events[j].sequence
}

/// `events` are ordered and were all numbered before the policy's next sequence.
pub open spec fn consistent_with(events: Seq<AuditEvent>, p: Policy) -> bool {
    ordered(events) && forall|i: int| 0 <= i < events.len() ==> #[trigger] events[i].sequence < p.next_sequence
}

impl AuditLog {
    /// Sequence numbers strictly increase along the log.
    pub open spec fn wf(&self) -> bool {
        ordered(self.events@)
    }

    /// An empty log.
    pub fn new() -> (r: AuditLog)
        ensures
            r.events@ == Seq::<AuditEvent>::empty(),
            r.wf(),
    {
        AuditLog { events: Vec::new() }
    }

    /// Appends a record numbered after every stored one.
    pub fn append(&mut self, event: AuditEvent)
        requires
            old(self).wf(),
            forall|i: int|
                0 <= i < old(self).events@.len() ==> #[trigger] old(self).events@[i].sequence
                    < event.sequence,
        ensures
            final(self).events@ == old(self).events@.push(event),
            final(self).wf(),
    {
        self.events.push(event);
    }

    /// The stored record numbered `sequence`, if it has not been purged.
    pub fn get(&self, sequence: u64) -> (r: Option<AuditEvent>)
        ensures
            r is None ==> forall|i: int|
                0 <= i < self.events@.len() ==> #[trigger] self.events@[i].sequence != sequence,
            r is Some ==> exists|i: int|
                0 <= i < self.events@.len() && #[trigger] self.events@[i] == r->0
                    && self.events@[i].sequence == sequence,
    {
        let mut i: usize = 0;
        while i < self.events.len()
            invariant
                0 <= i <= self.events@.len(),
                forall|j: int| 0 <= j < i ==> #[trigger] self.events@[j].sequence != sequence,
            decreases self.events@.len() - i,
        {
            if self.events[i].sequence == sequence {
                return Some(self.events[i]);
            }
            i = i + 1;
        }
        None
    }

    /// Purges the record numbered `sequence`, returning it; the others keep
    /// their order and numbers.
    pub fn purge(&mut self, sequence: u64) -> (r: Option<AuditEvent>)
        requires
            old(self).wf(),
        ensures
            final(self).wf(),
            r is None ==> final(self).events@ == old(self).events@ && forall|i: int|
                0 <= i < old(self).events@.len() ==> #[trigger] old(self).events@[i].sequence
                    != sequence,
            r is Some ==> exists|i: int|
                0 <= i < old(self).events@.len() && #[trigger] old(self).events@[i] == r->0
                    && old(self).events@[i].sequence == sequence && final(self).events@ == old(
                    self,
                ).events@.remove(i),
    {
        let mut i: usize = 0;
        while i < self.events.len()
            invariant
                0 <= i <= self.events@.len(),
                self.wf(),
                self.events@ == old(self).events@,
                forall|j: int| 0 <= j < i ==> #[trigger] self.events@[j].sequence != sequence,
            decreases self.events@.len() - i,
        {
            if self.events[i].sequence == sequence {
                let ghost before = self.events@;
                let e = self.events.remove(i);
                assert forall|a: int, b: int|
                    #![trigger self.events@[a], self.events@[b]]
                    0 <= a < b < self.events@.len() implies self.events@[a].sequence
                        < self.events@[b].sequence by {
                    let a0 = if a < i { a } else { a + 1 };
                    let b0 = if b < i { b } else { b + 1 };
                    assert(before[a0].sequence < before[b0].sequence);
                }
                assert(before[i as int] == e && self.events@ == before.remove(i as int));
                return Some(e);
            }
            i = i + 1;
        }
        None
    }
}

} // verus!
