//! The transaction manager: the requests that are in flight, each under its
//! transaction identifier, and the one step that takes a request out again.

use crate::japrotocol::JaResponse;
use crate::tgenerator::GenerateTransaction;
use vstd::prelude::*;

verus! {

/// One request in flight, as contracts see it.
pub struct PendingView<S> {
    /// The transaction identifier that labels the request.
    pub id: Seq<char>,
    /// Where the response is owed.
    pub sink: S,
    /// When the request was registered, on the caller's clock.
    pub created_at: u64,
}

/// The requests in flight, oldest first.
pub struct TransactionsView<S> {
    pub entries: Seq<PendingView<S>>,
}

impl<S> TransactionsView<S> {
    pub open spec fn empty() -> Self {
        TransactionsView { entries: Seq::empty() }
    }

    /// No identifier labels two requests.
    pub open spec fn wf(self) -> bool {
        forall|i: int, j: int|
            0 <= i < j < self.entries.len() ==> self.entries[i].id != self.entries[j].id
    }

    /// Whether a request is in flight under `id`.
    pub open spec fn contains(self, id: Seq<char>) -> bool {
        exists|i: int| 0 <= i < self.entries.len() && #[trigger] self.entries[i].id == id
    }

    /// Where the request labelled `id` stands, if one is in flight.
    pub open spec fn index_of(self, id: Seq<char>) -> int {
        choose|i: int| 0 <= i < self.entries.len() && #[trigger] self.entries[i].id == id
    }

    /// The sink of the request labelled `id`.
    pub open spec fn sink(self, id: Seq<char>) -> Option<S> {
        if self.contains(id) {
            Some(self.entries[self.index_of(id)].sink)
        } else {
            None
        }
    }

    /// When the request labelled `id` was registered.
    pub open spec fn created_at(self, id: Seq<char>) -> Option<u64> {
        if self.contains(id) {
            Some(self.entries[self.index_of(id)].created_at)
        } else {
            None
        }
    }

    /// The moment from which the request labelled `id` counts as late for a
    /// caller that waits `timeout` for it: that long after it was
    /// registered, or the end of the clock where that does not fit.
    pub open spec fn deadline(self, id: Seq<char>, timeout: u64) -> Option<u64> {
        match self.created_at(id) {
            Some(at) => Some(
                if at + timeout > u64::MAX {
                    u64::MAX
                } else {
                    (at + timeout) as u64
                },
            ),
            None => None,
        }
    }

    /// The requests in flight once one more is registered.
    pub open spec fn insert(self, id: Seq<char>, sink: S, created_at: u64) -> Self {
        TransactionsView { entries: self.entries.push(PendingView { id, sink, created_at }) }
    }

    /// The requests in flight once the one labelled `id`, if any, is taken out.
    pub open spec fn remove(self, id: Seq<char>) -> Self {
        if self.contains(id) {
            TransactionsView { entries: self.entries.remove(self.index_of(id)) }
        } else {
            self
        }
    }

    /// The sinks of all requests in flight, oldest first.
    pub open spec fn sinks(self) -> Seq<S> {
        self.entries.map_values(|e: PendingView<S>| e.sink)
    }

    /// Whether `message` answers a request in flight.
    pub open spec fn answers(self, message: JaResponse) -> bool {
        message.transaction matches Some(t) && self.contains(t@)
    }

    /// What resolving `message` yields.
    pub open spec fn resolution(self, message: JaResponse) -> Resolution<S> {
        if self.answers(message) {
            Resolution::Delivered {
                sink: self.sink(message.transaction->0@)->0,
                message,
            }
        } else {
            Resolution::Unmatched(message)
        }
    }

    /// The requests in flight once `message` has been resolved.
    pub open spec fn resolved(self, message: JaResponse) -> Self {
        if self.answers(message) {
            self.remove(message.transaction->0@)
        } else {
            self
        }
    }
}

/// In a well-formed set, the request at a position is the one its identifier finds.
pub proof fn lemma_index_of<S>(pending: TransactionsView<S>, k: int)
    requires
        pending.wf(),
        0 <= k < pending.entries.len(),
    ensures
        pending.contains(pending.entries[k].id),
        pending.index_of(pending.entries[k].id) == k,
{
    let id = pending.entries[k].id;
    assert(pending.entries[k].id == id);
    let c = pending.index_of(id);
    assert(0 <= c < pending.entries.len() && pending.entries[c].id == id);
    if c < k {
        assert(pending.entries[c].id != pending.entries[k].id);
    } else if k < c {
        assert(pending.entries[k].id != pending.entries[c].id);
    }
}

/// Taking a request out of a well-formed set leaves a well-formed set in
/// which its identifier is free and every other request stands as before.
pub proof fn lemma_remove<S>(pending: TransactionsView<S>, id: Seq<char>)
    requires
        pending.wf(),
    ensures
        pending.remove(id).wf(),
        !pending.remove(id).contains(id),
        forall|other: Seq<char>|
            other != id ==> pending.remove(id).contains(other) == pending.contains(other)
                && pending.remove(id).sink(other) == pending.sink(other)
                && pending.remove(id).created_at(other) == pending.created_at(other),
{
    let after = pending.remove(id);
    if pending.contains(id) {
        let k = pending.index_of(id);
        assert(after.entries =~= pending.entries.remove(k));
        assert forall|i: int| 0 <= i < after.entries.len() implies #[trigger] after.entries[i]
            == pending.entries[if i < k { i } else { i + 1 }] by {}
        assert(after.wf()) by {
            assert forall|i: int, j: int| 0 <= i < j < after.entries.len() implies after.entries[i].id
                != after.entries[j].id by {
                let pi = if i < k { i } else { i + 1 };
                let pj = if j < k { j } else { j + 1 };
                assert(pending.entries[pi].id != pending.entries[pj].id);
            }
        }
        if after.contains(id) {
            let i = after.index_of(id);
            let pi = if i < k { i } else { i + 1 };
            assert(after.entries[i] == pending.entries[pi]);
            if pi < k {
                assert(pending.entries[pi].id != pending.entries[k].id);
            } else {
                assert(pending.entries[k].id != pending.entries[pi].id);
            }
        }
        assert forall|other: Seq<char>| other != id implies after.contains(other)
            == pending.contains(other) && after.sink(other) == pending.sink(other)
            && after.created_at(other) == pending.created_at(other) by {
            if pending.contains(other) {
                let p = pending.index_of(other);
                let a = if p < k { p } else { p - 1 };
                assert(after.entries[a] == pending.entries[p]);
                assert(after.entries[a].id == other);
                lemma_index_of(after, a);
                lemma_index_of(pending, p);
            }
            if after.contains(other) {
                let a = after.index_of(other);
                let p = if a < k { a } else { a + 1 };
                assert(after.entries[a] == pending.entries[p]);
                assert(pending.entries[p].id == other);
                lemma_index_of(pending, p);
                lemma_index_of(after, a);
            }
        }
    }
}

/// Registering a request under a free identifier leaves a well-formed set
/// in which that identifier finds the new request and every other request
/// stands as before.
pub proof fn lemma_insert<S>(pending: TransactionsView<S>, id: Seq<char>, sink: S, created_at: u64)
    requires
        pending.wf(),
        !pending.contains(id),
    ensures
        pending.insert(id, sink, created_at).wf(),
        pending.insert(id, sink, created_at).contains(id),
        pending.insert(id, sink, created_at).sink(id) == Some(sink),
        pending.insert(id, sink, created_at).created_at(id) == Some(created_at),
        forall|other: Seq<char>|
            other != id ==> pending.insert(id, sink, created_at).contains(other)
                == pending.contains(other) && pending.insert(id, sink, created_at).sink(other)
                == pending.sink(other),
{
    let after = pending.insert(id, sink, created_at);
    let n = pending.entries.len() as int;
    assert(after.entries[n].id == id);
    assert(after.wf()) by {
        assert forall|i: int, j: int| 0 <= i < j < after.entries.len() implies after.entries[i].id
            != after.entries[j].id by {
            if j == n {
                assert(after.entries[i] == pending.entries[i]);
                if pending.entries[i].id == id {
                    assert(pending.contains(id));
                }
            } else {
                assert(pending.entries[i].id != pending.entries[j].id);
            }
        }
    }
    lemma_index_of(after, n);
    assert forall|other: Seq<char>| other != id implies after.contains(other) == pending.contains(
        other,
    ) && after.sink(other) == pending.sink(other) by {
        if pending.contains(other) {
            let p = pending.index_of(other);
            assert(after.entries[p] == pending.entries[p]);
            assert(after.entries[p].id == other);
            lemma_index_of(after, p);
            lemma_index_of(pending, p);
        }
        if after.contains(other) {
            let a = after.index_of(other);
            assert(a != n);
            assert(after.entries[a] == pending.entries[a]);
            assert(pending.entries[a].id == other);
            lemma_index_of(pending, a);
            lemma_index_of(after, a);
        }
    }
}

/// What became of an inbound message that was offered to the manager.
#[derive(Debug, PartialEq)]
pub enum Resolution<S> {
    /// The message answers a request in flight: it is owed to `sink`.
    Delivered { sink: S, message: JaResponse },
    /// No request in flight carries the message's transaction: it is an event.
    Unmatched(JaResponse),
}

struct PendingTransaction<S> {
    id: String,
    sink: S,
    created_at: u64,
}

impl<S> PendingTransaction<S> {
    spec fn view(self) -> PendingView<S> {
        PendingView { id: self.id@, sink: self.sink, created_at: self.created_at }
    }
}

/// Owns the requests in flight. Every change goes through `&mut self`, so a
/// request leaves the set in one step, whether a response or a deadline
/// takes it out.
pub struct TransactionManager<S> {
    pending: Vec<PendingTransaction<S>>,
}

impl<S> TransactionManager<S> {
    #[verifier::type_invariant]
    spec fn well_formed(self) -> bool {
        self@.wf()
    }

    /// The requests in flight, oldest first.
    pub closed spec fn view(self) -> TransactionsView<S> {
        TransactionsView { entries: self.pending@.map_values(|e: PendingTransaction<S>| e@) }
    }

    pub fn new() -> (manager: Self)
        ensures
            manager@ == TransactionsView::<S>::empty(),
    {
        let manager = TransactionManager { pending: Vec::new() };
        assert(manager@.entries =~= Seq::empty());
        manager
    }

    /// States what every manager satisfies: no identifier labels two requests.
    pub fn size(&self) -> (n: usize)
        ensures
            n == self@.entries.len(),
            self@.wf(),
    {
        proof {
            use_type_invariant(self);
        }
        self.pending.len()
    }

    fn find(&self, id: &String) -> (found: Option<usize>)
        ensures
            self@.wf(),
            found matches Some(i) ==> i < self@.entries.len() && self@.entries[i as int].id == id@
                && self@.contains(id@) && self@.index_of(id@) == i,
            found is None ==> !self@.contains(id@),
    {
        proof {
            use_type_invariant(self);
        }
        let mut i: usize = 0;
        while i < self.pending.len()
            invariant
                i <= self.pending.len(),
                self@.wf(),
                forall|j: int| 0 <= j < i ==> self@.entries[j].id != id@,
            decreases self.pending.len() - i,
        {
            if self.pending[i].id == *id {
                proof {
                    lemma_index_of(self@, i as int);
                }
                return Some(i);
            }
            i += 1;
        }
        None
    }

    /// Whether a request is in flight under `id`.
    pub fn contains(&self, id: &String) -> (found: bool)
        ensures
            found == self@.contains(id@),
    {
        self.find(id).is_some()
    }

    /// When the request labelled `id` was registered, if it is in flight.
    pub fn created_at(&self, id: &String) -> (at: Option<u64>)
        ensures
            at == self@.created_at(id@),
    {
        match self.find(id) {
            Some(i) => Some(self.pending[i].created_at),
            None => None,
        }
    }

    /// The moment from which the request labelled `id` counts as late for a
    /// caller that waits `timeout` for it.
    pub fn deadline(&self, id: &String, timeout: u64) -> (at: Option<u64>)
        ensures
            at == self@.deadline(id@, timeout),
    {
        match self.created_at(id) {
            Some(at) => Some(at.saturating_add(timeout)),
            None => None,
        }
    }

    /// Registers a request under `id`. An identifier that is in flight is
    /// refused: the sink comes back and nothing changes.
    pub fn insert(&mut self, id: String, sink: S, now: u64) -> (r: Result<(), S>)
        ensures
            final(self)@.wf(),
            match r {
                Ok(()) => !old(self)@.contains(id@) && final(self)@ == old(self)@.insert(
                    id@,
                    sink,
                    now,
                ),
                Err(returned) => old(self)@.contains(id@) && returned == sink && final(self)@
                    == old(self)@,
            },
    {
        match self.find(&id) {
            Some(_) => Err(sink),
            None => {
                proof {
                    lemma_insert(self@, id@, sink, now);
                }
                let mut pending: Vec<PendingTransaction<S>> = Vec::new();
                core::mem::swap(&mut self.pending, &mut pending);
                pending.push(PendingTransaction { id, sink, created_at: now });
                assert(pending@.map_values(|e: PendingTransaction<S>| e@) =~= old(self)@.insert(
                    id@,
                    sink,
                    now,
                ).entries);
                self.pending = pending;
                Ok(())
            },
        }
    }

    /// Asks `generator` for an identifier and registers a request under it,
    /// as [`TransactionManager::insert`] does. Where what the generator made
    /// is free, the request is registered under it and the identifier comes
    /// back. Where it labels a request in flight, the sink comes back and
    /// nothing changes. While no request is in flight, every identifier is
    /// free, so the request is always registered.
    pub fn register<G: GenerateTransaction>(&mut self, generator: &G, sink: S, now: u64) -> (r:
        Result<String, S>)
        ensures
            final(self)@.wf(),
            match r {
                Ok(id) => !old(self)@.contains(id@) && final(self)@ == old(self)@.insert(
                    id@,
                    sink,
                    now,
                ),
                Err(returned) => returned == sink && final(self)@ == old(self)@,
            },
            exists|candidate: String|
                call_ensures(G::generate_transaction, (generator,), candidate) && match r {
                    Ok(id) => id@ == candidate@ && !old(self)@.contains(candidate@),
                    Err(_) => old(self)@.contains(candidate@),
                },
            old(self)@.entries.len() == 0 ==> r is Ok,
    {
        let id = generator.generate_transaction();
        let ghost made = id;
        let label = id.clone();
        let r = match self.insert(id, sink, now) {
            Ok(()) => Ok(label),
            Err(sink) => Err(sink),
        };
        assert(call_ensures(G::generate_transaction, (generator,), made) && match r {
            Ok(id) => id@ == made@ && !old(self)@.contains(made@),
            Err(_) => old(self)@.contains(made@),
        });
        r
    }

    /// Takes the request labelled `id` out and hands back its sink. This is
    /// the only way a request leaves the set one at a time.
    pub fn take(&mut self, id: &String) -> (sink: Option<S>)
        ensures
            final(self)@.wf(),
            sink == old(self)@.sink(id@),
            final(self)@ == old(self)@.remove(id@),
    {
        match self.find(id) {
            Some(i) => {
                proof {
                    lemma_remove(self@, id@);
                }
                let mut pending: Vec<PendingTransaction<S>> = Vec::new();
                core::mem::swap(&mut self.pending, &mut pending);
                let entry = pending.remove(i);
                assert(pending@.map_values(|e: PendingTransaction<S>| e@) =~= old(self)@.remove(
                    id@,
                ).entries);
                self.pending = pending;
                Some(entry.sink)
            },
            None => None,
        }
    }

    /// Offers an inbound message. If it answers a request in flight, that
    /// request is taken out and the message is owed to its sink; otherwise
    /// the message comes back untouched.
    pub fn resolve(&mut self, message: JaResponse) -> (r: Resolution<S>)
        ensures
            final(self)@.wf(),
            r == old(self)@.resolution(message),
            final(self)@ == old(self)@.resolved(message),
    {
        let found = match &message.transaction {
            Some(id) => self.take(id),
            None => {
                proof {
                    use_type_invariant(&*self);
                }
                None
            },
        };
        match found {
            Some(sink) => Resolution::Delivered { sink, message },
            None => Resolution::Unmatched(message),
        }
    }

    /// A deadline elapsed for the request labelled `id`. If it is still in
    /// flight it is taken out and its sink comes back, to be failed with a
    /// timeout; if a response got there first, nothing is handed back.
    pub fn expire(&mut self, id: &String) -> (sink: Option<S>)
        ensures
            final(self)@.wf(),
            sink == old(self)@.sink(id@),
            final(self)@ == old(self)@.remove(id@),
            !final(self)@.contains(id@),
    {
        proof {
            use_type_invariant(&*self);
            lemma_remove(self@, id@);
        }
        self.take(id)
    }

    /// Takes every request out and hands back their sinks, oldest first.
    pub fn fail_all(&mut self) -> (sinks: Vec<S>)
        ensures
            sinks@ == old(self)@.sinks(),
            final(self)@ == TransactionsView::<S>::empty(),
    {
        let mut sinks: Vec<S> = Vec::new();
        let mut pending: Vec<PendingTransaction<S>> = Vec::new();
        core::mem::swap(&mut self.pending, &mut pending);
        assert(self@.entries =~= Seq::empty());
        let ghost all = old(self)@.entries;
        while pending.len() > 0
            invariant
                sinks@.len() + pending@.len() == all.len(),
                forall|i: int| 0 <= i < sinks@.len() ==> sinks@[i] == all[i].sink,
                forall|i: int| 0 <= i < pending@.len() ==> pending@[i]@ == all[sinks@.len() + i],
            decreases pending.len(),
        {
            let entry = pending.remove(0);
            sinks.push(entry.sink);
        }
        assert(sinks@ =~= old(self)@.sinks());
        sinks
    }
}

} // verus!
