use rpubd::publisher_list::{PublisherList, PublisherListError, PublisherRequest, VersionedCommand};
use rpubd::uri::RsyncUri;

fn rsync_uri(s: &str) -> RsyncUri {
    RsyncUri::from_string(s.to_string()).unwrap()
}

fn empty_publisher_list() -> PublisherList {
    let base_uri = rsync_uri("rsync://host/module/");
    PublisherList::new(base_uri)
}

fn new_id_cert() -> Vec<u8> {
    vec![0x30, 0x82, 0x01, 0x0a, 0x02, 0x01, 0x01]
}

#[test]
fn should_add_publisher() {
    let mut cl = empty_publisher_list();
    let id_cert = new_id_cert();

    let pr = PublisherRequest::new(Some("test"), "test", id_cert.clone());

    let cmd = VersionedCommand::add_publisher(0, pr);
    cl.apply_command(cmd).unwrap();

    assert_eq!(1, cl.publishers().len());
    let publisher = cl.publishers().get(0).unwrap();
    assert_eq!(publisher.name(), "test");
    assert_eq!(publisher.base_uri().as_str(), rsync_uri("rsync://host/module/test").as_str());
    assert_eq!(publisher.id_cert(), &id_cert);
}

#[test]
fn should_remove_publisher() {
    let mut cl = empty_publisher_list();
    let id_cert = new_id_cert();

    let pr = PublisherRequest::new(Some("test"), "test", id_cert.clone());

    let cmd = VersionedCommand::add_publisher(0, pr);
    cl.apply_command(cmd).unwrap();

    assert_eq!(1, cl.publishers().len());

    let cmd = VersionedCommand::remove_publisher(1, "test".to_string());
    cl.apply_command(cmd).unwrap();

    assert_eq!(0, cl.publishers().len());
}

#[test]
fn should_refuse_slash_in_publisher_handle() {
    let mut cl = empty_publisher_list();
    let id_cert = new_id_cert();

    let pr = PublisherRequest::new(Some("test"), "test/below", id_cert);

    let cmd = VersionedCommand::add_publisher(0, pr);
    match cl.apply_command(cmd) {
        Err(PublisherListError::ForwardSlashInHandle(_)) => {}
        _ => panic!("Should have seen error."),
    }
}

fn add(cl: &mut PublisherList, version: usize, name: &str) -> Result<(), PublisherListError> {
    let pr = PublisherRequest::new(None, name, new_id_cert());
    cl.apply_command(VersionedCommand::add_publisher(version, pr)).map(|_| ())
}

#[test]
fn scenario_add_remove_remove_again() {
    let mut cl = empty_publisher_list();
    add(&mut cl, 0, "test").unwrap();
    assert_eq!(cl.version(), 1);
    assert_eq!(cl.publishers()[0].base_uri().as_str(), "rsync://host/module/test");

    let cmd = VersionedCommand::remove_publisher(1, "test".to_string());
    cl.apply_command(cmd).unwrap();
    assert!(cl.publishers().is_empty());
    assert_eq!(cl.version(), 2);

    let cmd = VersionedCommand::remove_publisher(2, "test".to_string());
    match cl.apply_command(cmd) {
        Err(PublisherListError::UnknownPublisher(n)) => assert_eq!(n, "test"),
        other => panic!("unexpected: {:?}", other.map(|e| e.version())),
    }
    assert_eq!(cl.version(), 2);
}

#[test]
fn versions_count_successful_commands() {
    let mut cl = empty_publisher_list();
    for (i, name) in ["a", "b", "c", "d"].iter().enumerate() {
        add(&mut cl, i, name).unwrap();
        assert_eq!(cl.version(), i + 1);
    }
    let cmd = VersionedCommand::remove_publisher(4, "b".to_string());
    cl.apply_command(cmd).unwrap();
    assert_eq!(cl.version(), 5);
    let names: Vec<&str> = cl.publishers().iter().map(|p| p.name().as_str()).collect();
    assert_eq!(names, vec!["a", "c", "d"]);
}

#[test]
fn stale_version_conflicts_and_changes_nothing() {
    let mut cl = empty_publisher_list();
    add(&mut cl, 0, "a").unwrap();
    match add(&mut cl, 0, "b") {
        Err(PublisherListError::VersionConflict(current, given)) => {
            assert_eq!(current, 1);
            assert_eq!(given, 0);
        }
        _ => panic!("expected a version conflict"),
    }
    match add(&mut cl, 7, "b") {
        Err(PublisherListError::VersionConflict(1, 7)) => {}
        _ => panic!("expected a version conflict"),
    }
    assert_eq!(cl.version(), 1);
    assert_eq!(cl.publishers().len(), 1);
    assert!(!cl.has_publisher(&"b".to_string()));
}

#[test]
fn adding_twice_is_a_duplicate() {
    let mut cl = empty_publisher_list();
    add(&mut cl, 0, "X").unwrap();
    match add(&mut cl, 1, "X") {
        Err(PublisherListError::DuplicatePublisher(n)) => assert_eq!(n, "X"),
        _ => panic!("expected a duplicate"),
    }
    assert_eq!(cl.version(), 1);
    assert_eq!(cl.publishers().len(), 1);
}

#[test]
fn slash_refused_before_version_moves() {
    let mut cl = empty_publisher_list();
    match add(&mut cl, 0, "a/b") {
        Err(PublisherListError::ForwardSlashInHandle(n)) => assert_eq!(n, "a/b"),
        _ => panic!("expected the slash to be refused"),
    }
    assert_eq!(cl.version(), 0);
    assert!(cl.publishers().is_empty());
}

#[test]
fn name_that_breaks_the_uri_is_refused() {
    let mut cl = empty_publisher_list();
    match add(&mut cl, 0, "has space") {
        Err(PublisherListError::UriError(_)) => {}
        _ => panic!("expected a URI error"),
    }
    assert_eq!(cl.version(), 0);
}

#[test]
fn bad_base_uri_is_refused() {
    assert!(RsyncUri::from_string("https://host/module/".to_string()).is_err());
    assert!(RsyncUri::from_string("rsync://host".to_string()).is_err());
    assert_eq!(rsync_uri("rsync://host/module/").to_text(), "rsync://host/module/");
}

#[test]
fn replaying_history_rebuilds_the_registry() {
    let mut cl = empty_publisher_list();
    let mut history = Vec::new();
    for (i, name) in ["a", "b", "c"].iter().enumerate() {
        let pr = PublisherRequest::new(None, name, vec![i as u8]);
        history.push(cl.apply_command(VersionedCommand::add_publisher(i, pr)).unwrap());
    }
    let cmd = VersionedCommand::remove_publisher(3, "a".to_string());
    history.push(cl.apply_command(cmd).unwrap());

    let rebuilt = PublisherList::replay(rsync_uri("rsync://host/module/"), &history).unwrap();
    assert_eq!(rebuilt.version(), cl.version());
    assert_eq!(rebuilt.version(), 4);
    assert_eq!(rebuilt.publishers().len(), cl.publishers().len());
    for (p, q) in rebuilt.publishers().iter().zip(cl.publishers().iter()) {
        assert_eq!(p.name(), q.name());
        assert_eq!(p.base_uri().as_str(), q.base_uri().as_str());
        assert_eq!(p.id_cert(), q.id_cert());
    }
}

#[test]
fn applied_event_is_refused_when_applied_again() {
    let mut cl = empty_publisher_list();
    let pr = PublisherRequest::new(None, "a", new_id_cert());
    let event = cl.apply_command(VersionedCommand::add_publisher(0, pr)).unwrap();
    assert_eq!(event.version(), 0);
    match cl.apply_event(&event) {
        Err(PublisherListError::VersionConflict(1, 0)) => {}
        _ => panic!("expected a version conflict"),
    }
    assert_eq!(cl.version(), 1);

    let mut history = vec![event.clone(), event];
    match PublisherList::replay(rsync_uri("rsync://host/module/"), &history) {
        Err(PublisherListError::VersionConflict(1, 0)) => {}
        _ => panic!("expected a version conflict"),
    }
    history.truncate(1);
    assert_eq!(PublisherList::replay(rsync_uri("rsync://host/module/"), &history).unwrap().version(), 1);
}

#[test]
fn adding_again_after_other_commands_is_a_duplicate() {
    let mut cl = empty_publisher_list();
    add(&mut cl, 0, "X").unwrap();
    add(&mut cl, 1, "Y").unwrap();
    let cmd = VersionedCommand::remove_publisher(2, "Y".to_string());
    cl.apply_command(cmd).unwrap();
    match add(&mut cl, 3, "X") {
        Err(PublisherListError::DuplicatePublisher(n)) => assert_eq!(n, "X"),
        _ => panic!("expected a duplicate"),
    }
    let cmd = VersionedCommand::remove_publisher(3, "X".to_string());
    cl.apply_command(cmd).unwrap();
    add(&mut cl, 4, "X").unwrap();
    assert_eq!(cl.version(), 5);
}
