//! The namespace registry: one mailbox per attached handle, keyed by
//! (session, handle), into which the dispatch loop files the events that
//! answer no request.

use crate::japrotocol::JaResponse;
use std::collections::VecDeque;
use vstd::prelude::*;

verus! {

/// One subscriber, as contracts see it.
pub struct SubscriptionView {
    pub session_id: u64,
    pub handle_id: u64,
    /// The events filed and not yet received, oldest first.
    pub queue: Seq<JaResponse>,
}

/// The subscribers in the order they registered, and whether the registry
/// has been closed.
pub struct RegistryView {
    pub subscriptions: Seq<SubscriptionView>,
    pub closed: bool,
}

impl RegistryView {
    pub open spec fn empty() -> Self {
        RegistryView { subscriptions: Seq::empty(), closed: false }
    }

    /// No (session, handle) pair has two subscribers.
    pub open spec fn wf(self) -> bool {
        forall|i: int, j: int|
            0 <= i < j < self.subscriptions.len() ==> !(self.subscriptions[i].session_id
                == self.subscriptions[j].session_id && self.subscriptions[i].handle_id
                == self.subscriptions[j].handle_id)
    }

    /// Whether `index` holds the subscriber for (`session_id`, `handle_id`).
    pub open spec fn at(self, index: int, session_id: u64, handle_id: u64) -> bool {
        0 <= index < self.subscriptions.len() && self.subscriptions[index].session_id == session_id
            && self.subscriptions[index].handle_id == handle_id
    }

    /// Whether the pair has a subscriber.
    pub open spec fn contains(self, session_id: u64, handle_id: u64) -> bool {
        exists|i: int| self.at(i, session_id, handle_id)
    }

    /// Where the pair's subscriber stands, if it has one.
    pub open spec fn index_of(self, session_id: u64, handle_id: u64) -> int {
        choose|i: int| self.at(i, session_id, handle_id)
    }

    /// The events waiting for the pair's receiver; none if it has no subscriber.
    pub open spec fn mailbox(self, session_id: u64, handle_id: u64) -> Seq<JaResponse> {
        if self.contains(session_id, handle_id) {
            self.subscriptions[self.index_of(session_id, handle_id)].queue
        } else {
            Seq::empty()
        }
    }

    /// Whether a new subscriber for the pair would be admitted.
    pub open spec fn admits(self, session_id: u64, handle_id: u64) -> bool {
        !self.closed && !self.contains(session_id, handle_id)
    }

    /// The registry after the pair subscribed, where it was admitted.
    pub open spec fn register(self, session_id: u64, handle_id: u64) -> Self {
        if self.admits(session_id, handle_id) {
            RegistryView {
                subscriptions: self.subscriptions.push(
                    SubscriptionView { session_id, handle_id, queue: Seq::empty() },
                ),
                ..self
            }
        } else {
            self
        }
    }

    /// The registry after the pair's subscriber, if any, was removed.
    pub open spec fn unregister(self, session_id: u64, handle_id: u64) -> Self {
        if self.contains(session_id, handle_id) {
            RegistryView {
                subscriptions: self.subscriptions.remove(self.index_of(session_id, handle_id)),
                ..self
            }
        } else {
            self
        }
    }

    /// Whether an event for the pair would be filed rather than dropped.
    pub open spec fn accepts(self, session_id: u64, handle_id: u64) -> bool {
        !self.closed && self.contains(session_id, handle_id)
    }

    /// The registry after `message` was dispatched to the pair.
    pub open spec fn dispatch(self, session_id: u64, handle_id: u64, message: JaResponse) -> Self {
        if self.accepts(session_id, handle_id) {
            let i = self.index_of(session_id, handle_id);
            RegistryView {
                subscriptions: self.subscriptions.update(
                    i,
                    SubscriptionView {
                        queue: self.subscriptions[i].queue.push(message),
                        ..self.subscriptions[i]
                    },
                ),
                ..self
            }
        } else {
            self
        }
    }

    /// What the pair's receiver gets when it asks for its next event.
    pub open spec fn received(self, session_id: u64, handle_id: u64) -> Received {
        if self.mailbox(session_id, handle_id).len() > 0 {
            Received::Event(self.mailbox(session_id, handle_id)[0])
        } else if self.closed || !self.contains(session_id, handle_id) {
            Received::Closed
        } else {
            Received::Empty
        }
    }

    /// The registry after the pair's receiver asked for its next event.
    pub open spec fn after_recv(self, session_id: u64, handle_id: u64) -> Self {
        if self.mailbox(session_id, handle_id).len() > 0 {
            let i = self.index_of(session_id, handle_id);
            RegistryView {
                subscriptions: self.subscriptions.update(
                    i,
                    SubscriptionView {
                        queue: self.subscriptions[i].queue.drop_first(),
                        ..self.subscriptions[i]
                    },
                ),
                ..self
            }
        } else {
            self
        }
    }

    /// The registry after it was closed: nothing more is filed or admitted,
    /// and what was filed stays for its receiver.
    pub open spec fn close(self) -> Self {
        RegistryView { closed: true, ..self }
    }
}

/// In a well-formed registry, the subscriber at a position is the one its pair finds.
pub proof fn lemma_position(registry: RegistryView, k: int)
    requires
        registry.wf(),
        0 <= k < registry.subscriptions.len(),
    ensures
        registry.contains(registry.subscriptions[k].session_id, registry.subscriptions[k].handle_id),
        registry.index_of(registry.subscriptions[k].session_id, registry.subscriptions[k].handle_id)
            == k,
{
    let s = registry.subscriptions[k].session_id;
    let h = registry.subscriptions[k].handle_id;
    assert(registry.at(k, s, h));
    let c = registry.index_of(s, h);
    assert(registry.at(c, s, h));
}

/// Replacing the queue of one subscriber keeps the registry well-formed,
/// keeps who is subscribed, and leaves every other mailbox as it was.
pub proof fn lemma_requeue(registry: RegistryView, k: int, queue: Seq<JaResponse>)
    requires
        registry.wf(),
        0 <= k < registry.subscriptions.len(),
    ensures
        ({
            let after = RegistryView {
                subscriptions: registry.subscriptions.update(
                    k,
                    SubscriptionView { queue, ..registry.subscriptions[k] },
                ),
                ..registry
            };
            &&& after.wf()
            &&& forall|s: u64, h: u64| #[trigger] after.contains(s, h) == registry.contains(s, h)
            &&& forall|s: u64, h: u64|
                registry.contains(s, h) ==> #[trigger] after.index_of(s, h) == registry.index_of(
                    s,
                    h,
                )
            &&& forall|s: u64, h: u64| #[trigger]
                after.mailbox(s, h) == if registry.at(k, s, h) {
                    queue
                } else {
                    registry.mailbox(s, h)
                }
        }),
{
    let after = RegistryView {
        subscriptions: registry.subscriptions.update(
            k,
            SubscriptionView { queue, ..registry.subscriptions[k] },
        ),
        ..registry
    };
    assert forall|i: int, s: u64, h: u64| after.at(i, s, h) == registry.at(i, s, h) by {}
    assert(after.wf()) by {
        assert forall|i: int, j: int| 0 <= i < j < after.subscriptions.len() implies !(
        after.subscriptions[i].session_id == after.subscriptions[j].session_id
            && after.subscriptions[i].handle_id == after.subscriptions[j].handle_id) by {
            assert(!(registry.subscriptions[i].session_id == registry.subscriptions[j].session_id
                && registry.subscriptions[i].handle_id == registry.subscriptions[j].handle_id));
        }
    }
    assert forall|s: u64, h: u64| #[trigger] after.contains(s, h) == registry.contains(s, h) by {
        if registry.contains(s, h) {
            assert(after.at(registry.index_of(s, h), s, h));
        }
        if after.contains(s, h) {
            assert(registry.at(after.index_of(s, h), s, h));
        }
    }
    assert forall|s: u64, h: u64| registry.contains(s, h) implies #[trigger] after.index_of(s, h)
        == registry.index_of(s, h) by {
        let p = registry.index_of(s, h);
        assert(after.at(p, s, h));
        lemma_position(after, p);
    }
    assert forall|s: u64, h: u64| #[trigger]
        after.mailbox(s, h) == if registry.at(k, s, h) {
            queue
        } else {
            registry.mailbox(s, h)
        } by {
        if registry.contains(s, h) {
            let p = registry.index_of(s, h);
            assert(after.index_of(s, h) == p);
            assert(registry.at(p, s, h));
            if registry.at(k, s, h) {
                lemma_position(registry, k);
            }
        }
    }
}

/// Admitting a subscriber keeps the registry well-formed, gives the pair an
/// empty mailbox, and leaves every other pair as it was.
pub proof fn lemma_register(registry: RegistryView, session_id: u64, handle_id: u64)
    requires
        registry.wf(),
        registry.admits(session_id, handle_id),
    ensures
        registry.register(session_id, handle_id).wf(),
        registry.register(session_id, handle_id).contains(session_id, handle_id),
        registry.register(session_id, handle_id).mailbox(session_id, handle_id) == Seq::<
            JaResponse,
        >::empty(),
        forall|s: u64, h: u64|
            !(s == session_id && h == handle_id) ==> #[trigger] registry.register(
                session_id,
                handle_id,
            ).contains(s, h) == registry.contains(s, h),
        forall|s: u64, h: u64|
            !(s == session_id && h == handle_id) ==> #[trigger] registry.register(
                session_id,
                handle_id,
            ).mailbox(s, h) == registry.mailbox(s, h),
{
    let after = registry.register(session_id, handle_id);
    let n = registry.subscriptions.len() as int;
    assert(after.at(n, session_id, handle_id));
    assert(after.wf()) by {
        assert forall|i: int, j: int| 0 <= i < j < after.subscriptions.len() implies !(
        after.subscriptions[i].session_id == after.subscriptions[j].session_id
            && after.subscriptions[i].handle_id == after.subscriptions[j].handle_id) by {
            if j == n {
                if registry.subscriptions[i].session_id == session_id
                    && registry.subscriptions[i].handle_id == handle_id {
                    assert(registry.at(i, session_id, handle_id));
                }
            } else {
                assert(!(registry.subscriptions[i].session_id
                    == registry.subscriptions[j].session_id && registry.subscriptions[i].handle_id
                    == registry.subscriptions[j].handle_id));
            }
        }
    }
    lemma_position(after, n);
    assert forall|s: u64, h: u64| !(s == session_id && h == handle_id) implies (
    #[trigger] after.contains(s, h)) == registry.contains(s, h) by {
        if registry.contains(s, h) {
            assert(after.at(registry.index_of(s, h), s, h));
        }
        if after.contains(s, h) {
            assert(registry.at(after.index_of(s, h), s, h));
        }
    }
    assert forall|s: u64, h: u64| !(s == session_id && h == handle_id) implies (
    #[trigger] after.mailbox(s, h)) == registry.mailbox(s, h) by {
        assert(after.contains(s, h) == registry.contains(s, h));
        if registry.contains(s, h) {
            let p = registry.index_of(s, h);
            assert(after.at(p, s, h));
            lemma_position(after, p);
        }
    }
}

/// Removing a subscriber keeps the registry well-formed, frees the pair,
/// and leaves every other pair as it was.
pub proof fn lemma_unregister(registry: RegistryView, session_id: u64, handle_id: u64)
    requires
        registry.wf(),
    ensures
        registry.unregister(session_id, handle_id).wf(),
        !registry.unregister(session_id, handle_id).contains(session_id, handle_id),
        forall|s: u64, h: u64|
            !(s == session_id && h == handle_id) ==> #[trigger] registry.unregister(
                session_id,
                handle_id,
            ).contains(s, h) == registry.contains(s, h),
        forall|s: u64, h: u64|
            !(s == session_id && h == handle_id) ==> #[trigger] registry.unregister(
                session_id,
                handle_id,
            ).mailbox(s, h) == registry.mailbox(s, h),
{
    let after = registry.unregister(session_id, handle_id);
    if registry.contains(session_id, handle_id) {
        let k = registry.index_of(session_id, handle_id);
        assert(registry.at(k, session_id, handle_id));
        assert forall|i: int| 0 <= i < after.subscriptions.len() implies 
            #[trigger] after.subscriptions[i] == registry.subscriptions[if i < k {
                i
            } else {
                i + 1
            }] by {}
        assert(after.wf()) by {
            assert forall|i: int, j: int| 0 <= i < j < after.subscriptions.len() implies !(
            after.subscriptions[i].session_id == after.subscriptions[j].session_id
                && after.subscriptions[i].handle_id == after.subscriptions[j].handle_id) by {
                let pi = if i < k { i } else { i + 1 };
                let pj = if j < k { j } else { j + 1 };
                assert(!(registry.subscriptions[pi].session_id
                    == registry.subscriptions[pj].session_id && registry.subscriptions[pi].handle_id
                    == registry.subscriptions[pj].handle_id));
            }
        }
        if after.contains(session_id, handle_id) {
            let i = after.index_of(session_id, handle_id);
            assert(after.at(i, session_id, handle_id));
            let pi = if i < k { i } else { i + 1 };
            assert(after.subscriptions[i] == registry.subscriptions[pi]);
            assert(registry.at(pi, session_id, handle_id));
            lemma_position(registry, pi);
        }
        assert forall|s: u64, h: u64| !(s == session_id && h == handle_id) implies (
        #[trigger] after.contains(s, h)) == registry.contains(s, h) by {
            if registry.contains(s, h) {
                let p = registry.index_of(s, h);
                assert(registry.at(p, s, h));
                let a = if p < k { p } else { p - 1 };
                assert(after.subscriptions[a] == registry.subscriptions[p]);
                assert(after.at(a, s, h));
            }
            if after.contains(s, h) {
                let a = after.index_of(s, h);
                assert(after.at(a, s, h));
                let p = if a < k { a } else { a + 1 };
                assert(after.subscriptions[a] == registry.subscriptions[p]);
                assert(registry.at(p, s, h));
            }
        }
        assert forall|s: u64, h: u64| !(s == session_id && h == handle_id) implies (
        #[trigger] after.mailbox(s, h)) == registry.mailbox(s, h) by {
            assert(after.contains(s, h) == registry.contains(s, h));
            if registry.contains(s, h) {
                let p = registry.index_of(s, h);
                assert(registry.at(p, s, h));
                let a = if p < k { p } else { p - 1 };
                assert(after.subscriptions[a] == registry.subscriptions[p]);
                assert(after.at(a, s, h));
                lemma_position(after, a);
            }
        }
    }
}

/// The receiving end of one subscriber's mailbox. There is one per
/// subscription; it names the mailbox to read from.
#[derive(Debug, PartialEq, Eq)]
pub struct EventReceiver {
    session_id: u64,
    handle_id: u64,
}

impl EventReceiver {
    pub closed spec fn spec_session_id(self) -> u64 {
        self.session_id
    }

    pub closed spec fn spec_handle_id(self) -> u64 {
        self.handle_id
    }

    pub fn session_id(&self) -> (id: u64)
        ensures
            id == self.spec_session_id(),
    {
        self.session_id
    }

    pub fn handle_id(&self) -> (id: u64)
        ensures
            id == self.spec_handle_id(),
    {
        self.handle_id
    }
}

/// What a receiver gets when it asks for its next event.
#[derive(Debug, PartialEq)]
pub enum Received {
    /// The oldest event that was waiting.
    Event(JaResponse),
    /// Nothing is waiting, and more may come.
    Empty,
    /// Nothing is waiting and nothing more will come: end of stream.
    Closed,
}

struct Subscription {
    session_id: u64,
    handle_id: u64,
    queue: VecDeque<JaResponse>,
}

impl Subscription {
    spec fn view(self) -> SubscriptionView {
        SubscriptionView {
            session_id: self.session_id,
            handle_id: self.handle_id,
            queue: self.queue@,
        }
    }
}

/// Owns the mailboxes. Only the dispatch loop files events; only the
/// holder of an [`EventReceiver`] takes them out.
pub struct NamespaceRegistry {
    subscriptions: Vec<Subscription>,
    closed: bool,
}

impl NamespaceRegistry {
    #[verifier::type_invariant]
    spec fn well_formed(self) -> bool {
        self@.wf()
    }

    /// The subscribers and their mailboxes.
    pub closed spec fn view(self) -> RegistryView {
        RegistryView {
            subscriptions: self.subscriptions@.map_values(|s: Subscription| s@),
            closed: self.closed,
        }
    }

    pub fn new() -> (registry: Self)
        ensures
            registry@ == RegistryView::empty(),
    {
        let registry = NamespaceRegistry { subscriptions: Vec::new(), closed: false };
        assert(registry@.subscriptions =~= Seq::empty());
        registry
    }

    /// The number of subscribers. States also what every registry
    /// satisfies: no pair has two subscribers.
    pub fn size(&self) -> (n: usize)
        ensures
            n == self@.subscriptions.len(),
            self@.wf(),
    {
        proof {
            use_type_invariant(self);
        }
        self.subscriptions.len()
    }

    /// Whether the registry has been closed.
    pub fn is_closed(&self) -> (closed: bool)
        ensures
            closed == self@.closed,
    {
        self.closed
    }

    fn find(&self, session_id: u64, handle_id: u64) -> (found: Option<usize>)
        ensures
            self@.wf(),
            found matches Some(i) ==> self@.at(i as int, session_id, handle_id) && self@.contains(
                session_id,
                handle_id,
            ) && self@.index_of(session_id, handle_id) == i,
            found is None ==> !self@.contains(session_id, handle_id),
    {
        proof {
            use_type_invariant(self);
        }
        let mut i: usize = 0;
        while i < self.subscriptions.len()
            invariant
                i <= self.subscriptions.len(),
                self@.wf(),
                forall|j: int| 0 <= j < i ==> !self@.at(j, session_id, handle_id),
            decreases self.subscriptions.len() - i,
        {
            if self.subscriptions[i].session_id == session_id && self.subscriptions[i].handle_id
                == handle_id {
                proof {
                    assert(self@.at(i as int, session_id, handle_id));
                    lemma_position(self@, i as int);
                }
                return Some(i);
            }
            i += 1;
        }
        None
    }

    /// Whether the pair has a subscriber.
    pub fn is_registered(&self, session_id: u64, handle_id: u64) -> (found: bool)
        ensures
            found == self@.contains(session_id, handle_id),
    {
        self.find(session_id, handle_id).is_some()
    }

    /// The number of events waiting for the pair's receiver.
    pub fn waiting(&self, session_id: u64, handle_id: u64) -> (n: usize)
        ensures
            n == self@.mailbox(session_id, handle_id).len(),
    {
        match self.find(session_id, handle_id) {
            Some(i) => self.subscriptions[i].queue.len(),
            None => 0,
        }
    }

    /// Subscribes the pair and hands out the receiving end of its new, empty
    /// mailbox. A pair that is subscribed already keeps its subscriber, and
    /// a closed registry admits nobody: then nothing changes.
    pub fn register(&mut self, session_id: u64, handle_id: u64) -> (receiver: Option<EventReceiver>)
        ensures
            final(self)@.wf(),
            final(self)@ == old(self)@.register(session_id, handle_id),
            receiver is Some == old(self)@.admits(session_id, handle_id),
            receiver matches Some(r) ==> r.spec_session_id() == session_id && r.spec_handle_id()
                == handle_id,
    {
        if self.closed {
            proof {
                use_type_invariant(&*self);
            }
            return None;
        }
        match self.find(session_id, handle_id) {
            Some(_) => None,
            None => {
                proof {
                    lemma_register(self@, session_id, handle_id);
                }
                let mut subscriptions: Vec<Subscription> = Vec::new();
                core::mem::swap(&mut self.subscriptions, &mut subscriptions);
                subscriptions.push(Subscription { session_id, handle_id, queue: VecDeque::new() });
                assert(subscriptions@.map_values(|s: Subscription| s@) =~= old(self)@.register(
                    session_id,
                    handle_id,
                ).subscriptions);
                self.subscriptions = subscriptions;
                Some(EventReceiver { session_id, handle_id })
            },
        }
    }

    /// Removes the pair's subscriber together with whatever waited in its
    /// mailbox. Says whether there was one.
    pub fn unregister(&mut self, session_id: u64, handle_id: u64) -> (removed: bool)
        ensures
            final(self)@.wf(),
            final(self)@ == old(self)@.unregister(session_id, handle_id),
            removed == old(self)@.contains(session_id, handle_id),
            !final(self)@.contains(session_id, handle_id),
    {
        proof {
            use_type_invariant(&*self);
            lemma_unregister(self@, session_id, handle_id);
        }
        match self.find(session_id, handle_id) {
            Some(i) => {
                let mut subscriptions: Vec<Subscription> = Vec::new();
                core::mem::swap(&mut self.subscriptions, &mut subscriptions);
                let _ = subscriptions.remove(i);
                assert(subscriptions@.map_values(|s: Subscription| s@) =~= old(self)@.unregister(
                    session_id,
                    handle_id,
                ).subscriptions);
                self.subscriptions = subscriptions;
                true
            },
            None => false,
        }
    }

    /// Files `message` at the back of the pair's mailbox. Where the pair has
    /// no subscriber, or the registry is closed, the message comes back and
    /// nothing changes.
    pub fn dispatch(&mut self, session_id: u64, handle_id: u64, message: JaResponse) -> (r: Result<
        (),
        JaResponse,
    >)
        ensures
            final(self)@.wf(),
            final(self)@ == old(self)@.dispatch(session_id, handle_id, message),
            match r {
                Ok(()) => old(self)@.accepts(session_id, handle_id),
                Err(returned) => !old(self)@.accepts(session_id, handle_id) && returned == message,
            },
    {
        if self.closed {
            proof {
                use_type_invariant(&*self);
            }
            return Err(message);
        }
        match self.find(session_id, handle_id) {
            Some(i) => {
                proof {
                    lemma_requeue(
                        self@,
                        i as int,
                        self@.subscriptions[i as int].queue.push(message),
                    );
                }
                let mut subscriptions: Vec<Subscription> = Vec::new();
                core::mem::swap(&mut self.subscriptions, &mut subscriptions);
                let mut subscription = subscriptions.remove(i);
                subscription.queue.push_back(message);
                subscriptions.insert(i, subscription);
                assert(subscriptions@.map_values(|s: Subscription| s@) =~= old(self)@.dispatch(
                    session_id,
                    handle_id,
                    message,
                ).subscriptions);
                self.subscriptions = subscriptions;
                Ok(())
            },
            None => Err(message),
        }
    }

    /// Takes the oldest waiting event out of the receiver's mailbox.
    pub fn recv(&mut self, receiver: &EventReceiver) -> (r: Received)
        ensures
            final(self)@.wf(),
            r == old(self)@.received(receiver.spec_session_id(), receiver.spec_handle_id()),
            final(self)@ == old(self)@.after_recv(
                receiver.spec_session_id(),
                receiver.spec_handle_id(),
            ),
    {
        match self.find(receiver.session_id, receiver.handle_id) {
            Some(i) => {
                if self.subscriptions[i].queue.len() > 0 {
                    proof {
                        lemma_requeue(
                            self@,
                            i as int,
                            self@.subscriptions[i as int].queue.drop_first(),
                        );
                    }
                    let mut subscriptions: Vec<Subscription> = Vec::new();
                    core::mem::swap(&mut self.subscriptions, &mut subscriptions);
                    let mut subscription = subscriptions.remove(i);
                    let event = subscription.queue.pop_front();
                    subscriptions.insert(i, subscription);
                    assert(subscriptions@.map_values(|s: Subscription| s@) =~= old(
                        self,
                    )@.after_recv(receiver.session_id, receiver.handle_id).subscriptions);
                    self.subscriptions = subscriptions;
                    match event {
                        Some(message) => Received::Event(message),
                        None => Received::Empty,
                    }
                } else if self.closed {
                    Received::Closed
                } else {
                    Received::Empty
                }
            },
            None => Received::Closed,
        }
    }

    /// Closes the registry: from now on nothing is filed and nobody is
    /// admitted. What waits in a mailbox stays there for its receiver, which
    /// reaches the end of the stream once it has taken it out.
    pub fn close(&mut self)
        ensures
            final(self)@.wf(),
            final(self)@ == old(self)@.close(),
    {
        proof {
            use_type_invariant(&*self);
            let before = self@;
            let after = before.close();
            assert forall|i: int, j: int| 0 <= i < j < after.subscriptions.len() implies !(
            after.subscriptions[i].session_id == after.subscriptions[j].session_id
                && after.subscriptions[i].handle_id == after.subscriptions[j].handle_id) by {
                assert(!(before.subscriptions[i].session_id == before.subscriptions[j].session_id
                    && before.subscriptions[i].handle_id == before.subscriptions[j].handle_id));
            }
        }
        self.closed = true;
    }
}

} // verus!
