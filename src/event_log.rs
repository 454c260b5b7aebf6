use vstd::prelude::*;

verus! {

/// A predicate over events that names a slice of the log.
pub trait StreamFilter<E> {
    spec fn selects(&self, e: E) -> bool;

    fn matches(&self, e: &E) -> (r: bool)
        ensures
            r == self.selects(*e);
}

/// The largest sequence number among the events of `log` that `f` selects, or 0.
pub open spec fn slice_version<E, F: StreamFilter<E>>(events: Seq<E>, seqs: Seq<u64>, f: F) -> u64
    decreases events.len(),
{
    if events.len() == 0 || seqs.len() != events.len() {
        0
    } else {
        let v = slice_version(events.drop_last(), seqs.drop_last(), f);
        if f.selects(events.last()) {
            seqs.last()
        } else {
            v
        }
    }
}

/// The `n` sequence numbers that follow version `v`: v + 1, ..., v + n.
pub open spec fn fresh_sequences(v: u64, n: nat) -> Seq<u64> {
    Seq::new(n, |k: int| (v + k + 1) as u64)
}

pub open spec fn strictly_increasing(s: Seq<u64>) -> bool {
    forall|i: int, j: int| 0 <= i < j < s.len() ==> s[i] < s[j]
}

/// Why an append was refused.
#[derive(Debug, Clone, Copy, PartialEq, Eq, Structural)]
pub enum AppendError {
    /// An event of the slice was recorded after the version the caller read.
    Conflict,
    /// Sequence numbers are used up.
    Exhausted,
}

/// An append-only log of events, each with its sequence number.
#[derive(Debug)]
pub struct EventLog<E> {
    events: Vec<E>,
    sequences: Vec<u64>,
    last_sequence: u64,
}

impl<E> EventLog<E> {
    pub closed spec fn spec_events(&self) -> Seq<E> {
        self.events@
    }

    pub closed spec fn spec_sequences(&self) -> Seq<u64> {
        self.sequences@
    }

    /// The sequence number of the last event, or 0 for an empty log.
    pub closed spec fn spec_version(&self) -> u64 {
        self.last_sequence
    }

    pub closed spec fn wf(&self) -> bool {
        &&& self.events@.len() == self.sequences@.len()
        &&& strictly_increasing(self.sequences@)
        &&& forall|i: int| 0 <= i < self.sequences@.len() ==> 0 < #[trigger] self.sequences@[i] <= self.last_sequence
        &&& self.sequences@.len() > 0 ==> self.sequences@.last() == self.last_sequence
    }

    pub fn new() -> (r: Self)
        ensures
            r.wf(),
            r.spec_events().len() == 0,
            r.spec_version() == 0,
    {
        EventLog { events: Vec::new(), sequences: Vec::new(), last_sequence: 0 }
    }

    pub fn events(&self) -> (r: &Vec<E>)
        ensures
            r@ == self.spec_events(),
    {
        &self.events
    }

    pub fn sequences(&self) -> (r: &Vec<u64>)
        ensures
            r@ == self.spec_sequences(),
    {
        &self.sequences
    }

    pub fn version(&self) -> (r: u64)
        ensures
            r == self.spec_version(),
    {
        self.last_sequence
    }

    /// The version of the slice `filter` names: the largest sequence number among
    /// its events, or 0.
    pub fn slice_version<F: StreamFilter<E>>(&self, filter: &F) -> (r: u64)
        requires
            self.wf(),
        ensures
            r == slice_version(self.spec_events(), self.spec_sequences(), *filter),
    {
        let mut v: u64 = 0;
        let mut i: usize = 0;
        while i < self.events.len()
            invariant
                self.wf(),
                i <= self.events.len(),
                v == slice_version(self.events@.take(i as int), self.sequences@.take(i as int), *filter),
            decreases self.events.len() - i,
        {
            assert(self.events@.take(i + 1).drop_last() =~= self.events@.take(i as int));
            assert(self.sequences@.take(i + 1).drop_last() =~= self.sequences@.take(i as int));
            if filter.matches(&self.events[i]) {
                v = self.sequences[i];
            }
            i = i + 1;
        }
        assert(self.events@.take(i as int) =~= self.events@);
        assert(self.sequences@.take(i as int) =~= self.sequences@);
        v
    }

    /// Appends `events` atomically, iff no event of the slice `filter` names has a
    /// sequence number past `expected_version`. New events get the next sequence
    /// numbers in order; the result is the log's new version.
    pub fn append<F: StreamFilter<E>>(&mut self, filter: &F, expected_version: u64, events: Vec<E>) -> (r: Result<
        u64,
        AppendError,
    >)
        requires
            old(self).wf(),
        ensures
            final(self).wf(),
            slice_version(old(self).spec_events(), old(self).spec_sequences(), *filter) > expected_version
                ==> r == Err::<u64, AppendError>(AppendError::Conflict),
            slice_version(old(self).spec_events(), old(self).spec_sequences(), *filter) <= expected_version
                && r is Err ==> r == Err::<u64, AppendError>(AppendError::Exhausted),
            r is Ok <==> (slice_version(old(self).spec_events(), old(self).spec_sequences(), *filter)
                <= expected_version && old(self).spec_version() as int + events@.len() <= u64::MAX),
            r is Err ==> *final(self) == *old(self),
            r is Ok ==> {
                &&& final(self).spec_events() == old(self).spec_events() + events@
                &&& r->Ok_0 == final(self).spec_version()
                &&& final(self).spec_version() == old(self).spec_version() + events@.len()
                &&& forall|k: int| 0 <= k < events@.len()
                    ==> #[trigger] final(self).spec_sequences()[old(self).spec_sequences().len() + k]
                        == old(self).spec_version() + k + 1
                &&& final(self).spec_sequences().subrange(0, old(self).spec_sequences().len() as int)
                    == old(self).spec_sequences()
                &&& final(self).spec_sequences() == old(self).spec_sequences() + fresh_sequences(
                    old(self).spec_version(),
                    events@.len(),
                )
            },
    {
        if self.slice_version(filter) > expected_version {
            return Err(AppendError::Conflict);
        }
        if events.len() as u64 > u64::MAX - self.last_sequence {
            return Err(AppendError::Exhausted);
        }
        let ghost old_events = self.events@;
        let ghost old_seqs = self.sequences@;
        let ghost old_version = self.last_sequence;
        let mut rest = events;
        let ghost all = rest@;
        let n = rest.len();
        self.events.append(&mut rest);
        let mut k: usize = 0;
        while k < n
            invariant
                k <= n,
                n == all.len(),
                old_version as int + n <= u64::MAX,
                self.events@ == old_events + all,
                self.sequences@.len() == old_seqs.len() + k,
                self.sequences@.subrange(0, old_seqs.len() as int) == old_seqs,
                forall|j: int| 0 <= j < k ==> #[trigger] self.sequences@[old_seqs.len() + j] == old_version + j + 1,
                self.last_sequence == old_version + k,
                strictly_increasing(old_seqs),
                forall|i: int| 0 <= i < old_seqs.len() ==> 0 < #[trigger] old_seqs[i] <= old_version,
            decreases n - k,
        {
            self.last_sequence = self.last_sequence + 1;
            self.sequences.push(self.last_sequence);
            assert(self.sequences@.subrange(0, old_seqs.len() as int) =~= old_seqs);
            k = k + 1;
        }
        assert(strictly_increasing(self.sequences@)) by {
            assert forall|i: int, j: int| 0 <= i < j < self.sequences@.len() implies self.sequences@[i] < self.sequences@[j] by {
                if j < old_seqs.len() {
                    assert(self.sequences@[i] == self.sequences@.subrange(0, old_seqs.len() as int)[i]);
                    assert(self.sequences@[j] == self.sequences@.subrange(0, old_seqs.len() as int)[j]);
                } else if i < old_seqs.len() {
                    assert(self.sequences@[i] == self.sequences@.subrange(0, old_seqs.len() as int)[i]);
                    assert(self.sequences@[old_seqs.len() + (j - old_seqs.len())] == old_version + (j - old_seqs.len()) + 1);
                } else {
                    assert(self.sequences@[old_seqs.len() + (i - old_seqs.len())] == old_version + (i - old_seqs.len()) + 1);
                    assert(self.sequences@[old_seqs.len() + (j - old_seqs.len())] == old_version + (j - old_seqs.len()) + 1);
                }
            }
        }
        assert forall|i: int| 0 <= i < self.sequences@.len() implies 0 < #[trigger] self.sequences@[i] <= self.last_sequence by {
            if i < old_seqs.len() {
                assert(self.sequences@[i] == self.sequences@.subrange(0, old_seqs.len() as int)[i]);
            } else {
                assert(self.sequences@[old_seqs.len() + (i - old_seqs.len())] == old_version + (i - old_seqs.len()) + 1);
            }
        }
        proof {
            if self.sequences@.len() > 0 {
                if n == 0 {
                    assert(self.sequences@ =~= old_seqs);
                } else {
                    assert(self.sequences@[old_seqs.len() + (n - 1)] == old_version + (n - 1) + 1);
                }
            }
            assert forall|i: int| 0 <= i < self.sequences@.len() implies #[trigger] self.sequences@[i] == (old_seqs
                + fresh_sequences(old_version, n as nat))[i] by {
                if i < old_seqs.len() {
                    assert(self.sequences@[i] == self.sequences@.subrange(0, old_seqs.len() as int)[i]);
                } else {
                    assert(self.sequences@[old_seqs.len() + (i - old_seqs.len())] == old_version + (i - old_seqs.len()) + 1);
                }
            }
            assert(self.sequences@ =~= old_seqs + fresh_sequences(old_version, n as nat));
        }
        Ok(self.last_sequence)
    }
}

/// Append monotonicity: in a well-formed log, sequence numbers strictly increase
/// along the log, and events appended later get larger numbers than all earlier ones.
pub proof fn lemma_sequences_increase<E>(log: EventLog<E>)
    requires
        log.wf(),
    ensures
        strictly_increasing(log.spec_sequences()),
        forall|i: int| 0 <= i < log.spec_sequences().len() ==> #[trigger] log.spec_sequences()[i] <= log.spec_version(),
{
}

} // verus!
