use rpubd::event_queue::{EventQueue, QueueEvent, RevocationRequest};
use rpubd::scheduler::{
    archive_targets, dispatch, drain, jobs, publish_failed, ArchiveTarget, JobKind, RetryPolicy,
    Workflow, RESCHEDULE_DELAY_SECONDS,
};

fn handle_of(w: &Workflow) -> &str {
    match w {
        Workflow::Publish(h) => h,
        _ => panic!("expected a publication"),
    }
}

#[test]
fn pop_all_returns_in_order_and_empties() {
    let mut q = EventQueue::new();
    assert!(q.pop_all().is_empty());
    q.push_back(QueueEvent::Delta("a".to_string(), 1));
    q.push_back(QueueEvent::Delta("b".to_string(), 2));
    assert_eq!(q.len(), 2);
    let all = q.pop_all();
    assert_eq!(all.len(), 2);
    assert!(matches!(&all[0], QueueEvent::Delta(h, 1) if h == "a"));
    assert!(matches!(&all[1], QueueEvent::Delta(h, 2) if h == "b"));
    assert!(q.is_empty());
}

#[test]
fn pushed_after_drain_comes_in_next_drain() {
    let mut q = EventQueue::new();
    q.push_back(QueueEvent::ServerStarted);
    let first = q.pop_all();
    q.push_back(QueueEvent::RequestsPending("ca".to_string(), 3));
    assert_eq!(first.len(), 1);
    assert!(matches!(first[0], QueueEvent::ServerStarted));
    let second = q.pop_all();
    assert_eq!(second.len(), 1);
    assert!(matches!(&second[0], QueueEvent::RequestsPending(h, 3) if h == "ca"));
}

#[test]
fn early_retry_waits_for_next_drain() {
    let policy = RetryPolicy::new(false);
    assert_eq!(policy.delay_seconds, 300);
    let mut q = EventQueue::new();
    q.push_back(QueueEvent::ReschedulePublish("ca".to_string(), 1_000));
    let work = drain(&mut q, 1_299, &policy);
    assert!(work.is_empty());
    assert_eq!(q.len(), 1);

    let work = drain(&mut q, 1_300, &policy);
    assert_eq!(work.len(), 1);
    assert_eq!(handle_of(&work[0]), "ca");
    assert!(q.is_empty());
}

#[test]
fn drain_keeps_order_and_defers_only_early_retries() {
    let policy = RetryPolicy::new(false);
    let mut q = EventQueue::new();
    q.push_back(QueueEvent::Delta("a".to_string(), 1));
    q.push_back(QueueEvent::ReschedulePublish("b".to_string(), 950));
    q.push_back(QueueEvent::ReschedulePublish("c".to_string(), 500));
    q.push_back(QueueEvent::CleanOldRepo("d".to_string(), 4));
    let work = drain(&mut q, 1_000, &policy);
    assert_eq!(work.len(), 3);
    assert_eq!(handle_of(&work[0]), "a");
    assert_eq!(handle_of(&work[1]), "c");
    assert!(matches!(&work[2], Workflow::CleanOldRepo(h) if h == "d"));
    let left = q.pop_all();
    assert_eq!(left.len(), 1);
    assert!(matches!(&left[0], QueueEvent::ReschedulePublish(h, 950) if h == "b"));
}

#[test]
fn each_event_kind_calls_for_its_workflow() {
    let policy = RetryPolicy::new(false);
    let mut q = EventQueue::new();
    let rev = || RevocationRequest { class_name: "rc".to_string(), key: vec![1, 2] };
    let w = dispatch(&mut q, QueueEvent::ServerStarted, 0, &policy);
    assert!(matches!(w, Some(Workflow::ResyncAllAndPublishAll)));
    let w = dispatch(&mut q, QueueEvent::ResourceClassRemoved("ca".into(), 1, "p".into(), vec![rev()]), 0, &policy);
    assert!(matches!(w, Some(Workflow::SendRevokeRequests { ref handle, ref parent, ref revocations })
        if handle == "ca" && parent == "p" && revocations.len() == 1));
    let w = dispatch(&mut q, QueueEvent::UnexpectedKey("ca".into(), 1, "rc".into(), rev()), 0, &policy);
    assert!(matches!(w, Some(Workflow::RevokeUnexpectedKey { ref handle, ref class_name, ref revocation })
        if handle == "ca" && class_name == "rc" && revocation.key == vec![1, 2]));
    let w = dispatch(&mut q, QueueEvent::ParentAdded("ca".into(), 1, "p".into()), 0, &policy);
    assert!(matches!(w, Some(Workflow::GetUpdatesFromParent { ref handle, ref parent }) if handle == "ca" && parent == "p"));
    let w = dispatch(&mut q, QueueEvent::RepositoryConfigured("ca".into(), 1), 0, &policy);
    assert!(matches!(w, Some(Workflow::GetDelayedUpdates(ref h)) if h == "ca"));
    let w = dispatch(&mut q, QueueEvent::RequestsPending("ca".into(), 1), 0, &policy);
    assert!(matches!(w, Some(Workflow::SendAllRequests(ref h)) if h == "ca"));
    let w = dispatch(&mut q, QueueEvent::Delta("ca".into(), 1), 0, &policy);
    assert!(matches!(w, Some(Workflow::Publish(ref h)) if h == "ca"));
    assert!(q.is_empty());
    let w = dispatch(&mut q, QueueEvent::ReschedulePublish("ca".into(), 0), 10, &policy);
    assert!(w.is_none());
    assert_eq!(q.len(), 1);
}

#[test]
fn failed_publication_is_rescheduled_outside_test_mode() {
    let mut q = EventQueue::new();
    publish_failed(&mut q, "ca".to_string(), 42, &RetryPolicy::new(true));
    assert!(q.is_empty());
    publish_failed(&mut q, "ca".to_string(), 42, &RetryPolicy::new(false));
    let left = q.pop_all();
    assert_eq!(left.len(), 1);
    assert!(matches!(&left[0], QueueEvent::ReschedulePublish(h, 42) if h == "ca"));
    assert_eq!(RESCHEDULE_DELAY_SECONDS, 300);
}

#[test]
fn jobs_and_their_periods() {
    let js = jobs(600, false);
    let got: Vec<(bool, u64)> = js.iter().map(|j| (matches!(j.kind, JobKind::LoginCacheSweep), j.period_seconds)).collect();
    assert_eq!(got, vec![(false, 1), (false, 120), (false, 600), (false, 1), (false, 3600)]);
    assert!(matches!(js[2].kind, JobKind::CaRefresh));
    let js = jobs(600, true);
    assert_eq!(js.len(), 6);
    assert!(matches!(js[5].kind, JobKind::LoginCacheSweep));
    assert_eq!(js[5].period_seconds, 60);
}

#[test]
fn archive_only_with_threshold() {
    assert!(archive_targets(None, true).is_empty());
    let t = archive_targets(Some(30), false);
    assert_eq!(t.len(), 1);
    assert!(matches!(t[0], (ArchiveTarget::CaServer, 30)));
    let t = archive_targets(Some(30), true);
    assert_eq!(t.len(), 2);
    assert!(matches!(t[1], (ArchiveTarget::PublicationServer, 30)));
}
