//! What the scheduler does: which periodic jobs run and how often, which
//! workflow each queued event calls for, and when a failed publication is
//! tried again.
use vstd::prelude::*;
use crate::event_queue::{EventQueue, QueueEvent, RevocationRequest};

verus! {

/// How long a failed publication waits before it is tried again, in seconds.
pub const RESCHEDULE_DELAY_SECONDS: i64 = 300;

/// How often the queue is drained, in seconds.
pub const EVENT_DISPATCH_PERIOD_SECONDS: u64 = 1;

/// How often announcement data is refreshed, in seconds.
pub const ANNOUNCEMENTS_REFRESH_PERIOD_SECONDS: u64 = 1;

/// How often every CA republishes, in seconds.
pub const REPUBLISH_PERIOD_SECONDS: u64 = 120;

/// How often old commands are archived, in seconds.
pub const ARCHIVE_PERIOD_SECONDS: u64 = 3600;

/// How often the login session cache is swept, in seconds.
pub const LOGIN_CACHE_SWEEP_PERIOD_SECONDS: u64 = 60;

/// What to do when a publication fails.
pub struct RetryPolicy {
    /// In test mode a failed publication is given up.
    pub test_mode: bool,
    /// Elsewhere it is tried again once this many seconds have passed.
    pub delay_seconds: i64,
}

impl RetryPolicy {
    pub fn new(test_mode: bool) -> (r: RetryPolicy)
        ensures
            r.test_mode == test_mode,
            r.delay_seconds == RESCHEDULE_DELAY_SECONDS,
    {
        RetryPolicy { test_mode, delay_seconds: RESCHEDULE_DELAY_SECONDS }
    }
}

/// The work that one queued event calls for.
pub enum Workflow {
    /// Resync every CA with its parents, then publish for every CA.
    ResyncAllAndPublishAll,
    Publish(String),
    SendRevokeRequests { handle: String, parent: String, revocations: Vec<RevocationRequest> },
    RevokeUnexpectedKey { handle: String, class_name: String, revocation: RevocationRequest },
    GetUpdatesFromParent { handle: String, parent: String },
    GetDelayedUpdates(String),
    SendAllRequests(String),
    /// Clean up the old repository's objects, then drop the record of it.
    CleanOldRepo(String),
}

/// At least `delay` seconds have passed between `last_try` and `now`.
pub open spec fn is_due(last_try: i64, now: i64, delay: i64) -> bool {
    now - last_try >= delay
}

/// The workflow that `e` calls for at time `now`, or `None` where `e` is a
/// retry that is not due yet and waits in the queue.
pub open spec fn workflow_for(e: QueueEvent, now: i64, delay: i64) -> Option<Workflow> {
    match e {
        QueueEvent::ServerStarted => Some(Workflow::ResyncAllAndPublishAll),
        QueueEvent::Delta(h, _) => Some(Workflow::Publish(h)),
        QueueEvent::ReschedulePublish(h, last_try) => if is_due(last_try, now, delay) {
            Some(Workflow::Publish(h))
        } else {
            None
        },
        QueueEvent::ResourceClassRemoved(h, _, parent, revocations) => Some(
            Workflow::SendRevokeRequests { handle: h, parent, revocations },
        ),
        QueueEvent::UnexpectedKey(h, _, class_name, revocation) => Some(
            Workflow::RevokeUnexpectedKey { handle: h, class_name, revocation },
        ),
        QueueEvent::ParentAdded(h, _, parent) => Some(
            Workflow::GetUpdatesFromParent { handle: h, parent },
        ),
        QueueEvent::RepositoryConfigured(h, _) => Some(Workflow::GetDelayedUpdates(h)),
        QueueEvent::RequestsPending(h, _) => Some(Workflow::SendAllRequests(h)),
        QueueEvent::CleanOldRepo(h, _) => Some(Workflow::CleanOldRepo(h)),
    }
}

/// The workflows that the events `es` call for, in order.
pub open spec fn planned(es: Seq<QueueEvent>, now: i64, delay: i64) -> Seq<Workflow>
    decreases es.len(),
{
    if es.len() == 0 {
        Seq::empty()
    } else {
        let p = planned(es.drop_last(), now, delay);
        match workflow_for(es.last(), now, delay) {
            Some(w) => p.push(w),
            None => p,
        }
    }
}

/// The events of `es` that wait for a later drain, in order.
pub open spec fn deferred(es: Seq<QueueEvent>, now: i64, delay: i64) -> Seq<QueueEvent>
    decreases es.len(),
{
    if es.len() == 0 {
        Seq::empty()
    } else {
        let d = deferred(es.drop_last(), now, delay);
        match workflow_for(es.last(), now, delay) {
            Some(_) => d,
            None => d.push(es.last()),
        }
    }
}

/// Whether a retry stamped `last_try` is due at `now`.
fn retry_due(last_try: i64, now: i64, delay: i64) -> (r: bool)
    ensures
        r == is_due(last_try, now, delay),
{
    (now as i128) - (last_try as i128) >= delay as i128
}

/// Decides what one drained event calls for. A retry that is not due yet is
/// put back at the end of the queue unchanged, and no workflow is returned.
pub fn dispatch(queue: &mut EventQueue, event: QueueEvent, now: i64, policy: &RetryPolicy) -> (r:
    Option<Workflow>)
    ensures
        r == workflow_for(event, now, policy.delay_seconds),
        r is None ==> final(queue)@ == old(queue)@.push(event),
        r is Some ==> final(queue)@ == old(queue)@,
{
    match event {
        QueueEvent::ServerStarted => Some(Workflow::ResyncAllAndPublishAll),
        QueueEvent::Delta(h, _) => Some(Workflow::Publish(h)),
        QueueEvent::ReschedulePublish(h, last_try) => {
            if retry_due(last_try, now, policy.delay_seconds) {
                Some(Workflow::Publish(h))
            } else {
                queue.push_back(QueueEvent::ReschedulePublish(h, last_try));
                None
            }
        },
        QueueEvent::ResourceClassRemoved(h, _, parent, revocations) => Some(
            Workflow::SendRevokeRequests { handle: h, parent, revocations },
        ),
        QueueEvent::UnexpectedKey(h, _, class_name, revocation) => Some(
            Workflow::RevokeUnexpectedKey { handle: h, class_name, revocation },
        ),
        QueueEvent::ParentAdded(h, _, parent) => Some(
            Workflow::GetUpdatesFromParent { handle: h, parent },
        ),
        QueueEvent::RepositoryConfigured(h, _) => Some(Workflow::GetDelayedUpdates(h)),
        QueueEvent::RequestsPending(h, _) => Some(Workflow::SendAllRequests(h)),
        QueueEvent::CleanOldRepo(h, _) => Some(Workflow::CleanOldRepo(h)),
    }
}

/// Drains the queue and returns the workflows that the drained events call
/// for, in the order in which the events were queued. Retries that are not
/// due yet go back to the queue, in their order.
pub fn drain(queue: &mut EventQueue, now: i64, policy: &RetryPolicy) -> (r: Vec<Workflow>)
    ensures
        r@ == planned(old(queue)@, now, policy.delay_seconds),
        final(queue)@ == deferred(old(queue)@, now, policy.delay_seconds),
{
    let ghost all = queue@;
    let delay = policy.delay_seconds;
    let mut events = queue.pop_all();
    let mut work: Vec<Workflow> = Vec::new();
    let ghost mut k: int = 0;
    assert(all.take(0) =~= Seq::<QueueEvent>::empty());
    assert(all.skip(0) =~= all);
    while events.len() > 0
        invariant
            0 <= k <= all.len(),
            events@ == all.skip(k),
            work@ == planned(all.take(k), now, delay),
            queue@ == deferred(all.take(k), now, delay),
            delay == policy.delay_seconds,
        decreases events@.len(),
    {
        let event = events.remove(0);
        proof {
            assert(all.take(k + 1).drop_last() =~= all.take(k));
            assert(all.take(k + 1).last() == event);
            assert(all.skip(k + 1) =~= all.skip(k).remove(0));
        }
        match dispatch(queue, event, now, policy) {
            Some(w) => work.push(w),
            None => {},
        }
        proof {
            k = k + 1;
        }
    }
    assert(all.take(k) =~= all);
    work
}

/// The queue after a publication for `handle` failed at `now`: in test mode
/// it is given up, elsewhere a retry stamped `now` is queued.
pub open spec fn after_publish_failure(
    q: Seq<QueueEvent>,
    handle: String,
    now: i64,
    test_mode: bool,
) -> Seq<QueueEvent> {
    if test_mode {
        q
    } else {
        q.push(QueueEvent::ReschedulePublish(handle, now))
    }
}

/// Records that a publication for `handle` failed at `now`.
pub fn publish_failed(queue: &mut EventQueue, handle: String, now: i64, policy: &RetryPolicy)
    ensures
        final(queue)@ == after_publish_failure(old(queue)@, handle, now, policy.test_mode),
{
    if !policy.test_mode {
        queue.push_back(QueueEvent::ReschedulePublish(handle, now));
    }
}

/// A retry is held back until it is due: one stamped less than `delay`
/// seconds before `now` calls for no work and waits, unchanged, for the next
/// drain; once `delay` seconds have passed, the drain publishes for it.
pub proof fn lemma_retry_bounding(handle: String, last_try: i64, now: i64, delay: i64)
    ensures
        now - last_try < delay ==> planned(
            seq![QueueEvent::ReschedulePublish(handle, last_try)],
            now,
            delay,
        ) == Seq::<Workflow>::empty() && deferred(
            seq![QueueEvent::ReschedulePublish(handle, last_try)],
            now,
            delay,
        ) == seq![QueueEvent::ReschedulePublish(handle, last_try)],
        now - last_try >= delay ==> planned(
            seq![QueueEvent::ReschedulePublish(handle, last_try)],
            now,
            delay,
        ) == seq![Workflow::Publish(handle)] && deferred(
            seq![QueueEvent::ReschedulePublish(handle, last_try)],
            now,
            delay,
        ) == Seq::<QueueEvent>::empty(),
{
    let es = seq![QueueEvent::ReschedulePublish(handle, last_try)];
    assert(es.drop_last() =~= Seq::<QueueEvent>::empty());
    assert(es.last() == QueueEvent::ReschedulePublish(handle, last_try));
    assert(planned(es.drop_last(), now, delay) == Seq::<Workflow>::empty());
    assert(deferred(es.drop_last(), now, delay) == Seq::<QueueEvent>::empty());
    assert(Seq::<QueueEvent>::empty().push(es.last()) =~= es);
    assert(Seq::<Workflow>::empty().push(Workflow::Publish(handle)) =~= seq![Workflow::Publish(handle)]);
}

//------------ Periodic jobs -------------------------------------------------

/// The periodic jobs of the scheduler.
pub enum JobKind {
    /// Drain the queue and run the workflows it calls for.
    EventDispatch,
    AnnouncementsRefresh,
    RepublishAll,
    /// Resync every CA with its parents.
    CaRefresh,
    /// Archive old commands, where a threshold is configured.
    ArchiveOldCommands,
    /// Sweep the login session cache, where that cache is in use.
    LoginCacheSweep,
}

/// A job and how often it runs.
pub struct Job {
    pub kind: JobKind,
    pub period_seconds: u64,
}

/// The jobs that a scheduler runs: the fixed ones, the CA refresh at the
/// configured rate, and the login cache sweep where that cache is in use.
pub open spec fn jobs_spec(ca_refresh_seconds: u32, login_cache: bool) -> Seq<Job> {
    let fixed = seq![
        Job { kind: JobKind::EventDispatch, period_seconds: EVENT_DISPATCH_PERIOD_SECONDS },
        Job { kind: JobKind::RepublishAll, period_seconds: REPUBLISH_PERIOD_SECONDS },
        Job { kind: JobKind::CaRefresh, period_seconds: ca_refresh_seconds as u64 },
        Job {
            kind: JobKind::AnnouncementsRefresh,
            period_seconds: ANNOUNCEMENTS_REFRESH_PERIOD_SECONDS,
        },
        Job { kind: JobKind::ArchiveOldCommands, period_seconds: ARCHIVE_PERIOD_SECONDS },
    ];
    if login_cache {
        fixed.push(
            Job { kind: JobKind::LoginCacheSweep, period_seconds: LOGIN_CACHE_SWEEP_PERIOD_SECONDS },
        )
    } else {
        fixed
    }
}

/// The jobs to start, each with its period.
pub fn jobs(ca_refresh_seconds: u32, login_cache: bool) -> (r: Vec<Job>)
    ensures
        r@ == jobs_spec(ca_refresh_seconds, login_cache),
{
    let mut r: Vec<Job> = Vec::new();
    r.push(Job { kind: JobKind::EventDispatch, period_seconds: EVENT_DISPATCH_PERIOD_SECONDS });
    r.push(Job { kind: JobKind::RepublishAll, period_seconds: REPUBLISH_PERIOD_SECONDS });
    r.push(Job { kind: JobKind::CaRefresh, period_seconds: ca_refresh_seconds as u64 });
    r.push(
        Job {
            kind: JobKind::AnnouncementsRefresh,
            period_seconds: ANNOUNCEMENTS_REFRESH_PERIOD_SECONDS,
        },
    );
    r.push(Job { kind: JobKind::ArchiveOldCommands, period_seconds: ARCHIVE_PERIOD_SECONDS });
    if login_cache {
        r.push(
            Job { kind: JobKind::LoginCacheSweep, period_seconds: LOGIN_CACHE_SWEEP_PERIOD_SECONDS },
        );
    }
    assert(r@ =~= jobs_spec(ca_refresh_seconds, login_cache));
    r
}

/// Where old commands are archived.
pub enum ArchiveTarget {
    CaServer,
    PublicationServer,
}

/// One tick of the archive job: with a threshold of `days`, the CA server's
/// old commands are archived, then the publication server's where there is
/// one; without a threshold nothing is.
pub fn archive_targets(threshold_days: Option<i64>, with_publication_server: bool) -> (r: Vec<
    (ArchiveTarget, i64),
>)
    ensures
        threshold_days is None ==> r@.len() == 0,
        threshold_days matches Some(days) ==> {
            &&& r@.len() == if with_publication_server { 2int } else { 1int }
            &&& r@[0] == (ArchiveTarget::CaServer, days)
            &&& with_publication_server ==> r@[1] == (ArchiveTarget::PublicationServer, days)
        },
{
    let mut r: Vec<(ArchiveTarget, i64)> = Vec::new();
    match threshold_days {
        Some(days) => {
            r.push((ArchiveTarget::CaServer, days));
            if with_publication_server {
                r.push((ArchiveTarget::PublicationServer, days));
            }
        },
        None => {},
    }
    r
}

} // verus!
