//! The mailbox of background work: events are pushed to the back and drained
//! all at once, in the order in which they came.
use vstd::prelude::*;

verus! {

/// A request to revoke a key, held as the name of its resource class and the
/// key's identifier.
pub struct RevocationRequest {
    pub class_name: String,
    pub key: Vec<u8>,
}

/// Work for the scheduler. Each event names the handle of the CA that it
/// concerns; the `u64` is the version of that CA when the event was queued.
pub enum QueueEvent {
    ServerStarted,
    Delta(String, u64),
    /// A publication to try again; the `i64` is the time of the last try, in
    /// seconds since the Unix epoch.
    ReschedulePublish(String, i64),
    /// The CA, its version, its parent, and the keys to revoke there.
    ResourceClassRemoved(String, u64, String, Vec<RevocationRequest>),
    /// The CA, its version, the resource class, and the key to revoke.
    UnexpectedKey(String, u64, String, RevocationRequest),
    /// The CA, its version, and the parent that was added.
    ParentAdded(String, u64, String),
    RepositoryConfigured(String, u64),
    RequestsPending(String, u64),
    CleanOldRepo(String, u64),
}

/// The queue. Sharing between threads is left to the owner, who keeps it
/// behind a lock; each call here then happens at once as a whole.
pub struct EventQueue {
    events: Vec<QueueEvent>,
}

impl View for EventQueue {
    type V = Seq<QueueEvent>;

    closed spec fn view(&self) -> Seq<QueueEvent> {
        self.events@
    }
}

impl EventQueue {
    pub fn new() -> (r: EventQueue)
        ensures
            r@ == Seq::<QueueEvent>::empty(),
    {
        EventQueue { events: Vec::new() }
    }

    /// Appends `event` at the back.
    pub fn push_back(&mut self, event: QueueEvent)
        ensures
            final(self)@ == old(self)@.push(event),
    {
        self.events.push(event);
    }

    /// Removes and returns all queued events, oldest first.
    pub fn pop_all(&mut self) -> (r: Vec<QueueEvent>)
        ensures
            r@ == old(self)@,
            final(self)@ == Seq::<QueueEvent>::empty(),
    {
        let mut drained: Vec<QueueEvent> = Vec::new();
        std::mem::swap(&mut drained, &mut self.events);
        drained
    }

    pub fn len(&self) -> (r: usize)
        ensures
            r == self@.len(),
    {
        self.events.len()
    }

    pub fn is_empty(&self) -> (r: bool)
        ensures
            r == (self@.len() == 0),
    {
        self.events.len() == 0
    }
}

/// The queue after `later` were pushed, one by one, onto `q`.
pub open spec fn pushed_all(q: Seq<QueueEvent>, later: Seq<QueueEvent>) -> Seq<QueueEvent>
    decreases later.len(),
{
    if later.len() == 0 {
        q
    } else {
        pushed_all(q, later.drop_last()).push(later.last())
    }
}

/// Pushing keeps order: the events pushed onto `q` follow it in the order in
/// which they came. A drain takes what was queued before it and leaves the
/// queue empty, so events pushed after it are absent from its result and are
/// exactly what the next drain returns.
pub proof fn lemma_drain_then_push(q: Seq<QueueEvent>, later: Seq<QueueEvent>)
    ensures
        pushed_all(q, later) == q + later,
        pushed_all(Seq::empty(), later) == later,
    decreases later.len(),
{
    if later.len() > 0 {
        lemma_drain_then_push(q, later.drop_last());
        lemma_drain_then_push(Seq::empty(), later.drop_last());
        assert(q + later.drop_last().push(later.last()) =~= q + later);
        assert(later.drop_last().push(later.last()) =~= later);
    } else {
        assert(q + later =~= q);
    }
}

} // verus!
