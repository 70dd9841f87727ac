use ovld::relay::{RelayError, RelayService, StatusReport};
use ovld::roles::Role;
use ovld::store::{MessageStore, StoreError};
use ovld::types::{Priority, Status};
use tempfile::TempDir;

fn service(role: Role, store: MessageStore) -> RelayService {
    RelayService::new(role, store, "ovld-test".to_string(), "/tmp/plugin.wasm".to_string())
}

fn fresh_store(dir: &TempDir) -> MessageStore {
    let mut store = MessageStore::new(dir.path().to_path_buf());
    store.init().unwrap();
    store
}

#[test]
fn mediator_send_is_read_by_worker() {
    let dir = TempDir::new().unwrap();
    let mut mediator = service(Role::Strategist, fresh_store(&dir));
    let d = mediator.send_message("inferno", "Implement auth", "see notes", None).unwrap();
    assert!(d.notify);
    assert_eq!(d.message.from, Role::Strategist);
    assert_eq!(d.message.to, Role::Inferno);
    assert_eq!(d.message.priority, Priority::Normal);
    assert!(mediator.store().has_pending("inferno"));

    // the worker reads the same store
    let store = extract(mediator);
    let mut worker = service(Role::Inferno, store);
    let got = worker.check_inbox(None).unwrap();
    assert_eq!(got.len(), 1);
    assert_eq!(got[0].from, Role::Strategist);
    assert_eq!(got[0].subject, "Implement auth");
    assert!(!worker.store().has_pending("inferno"));
}

fn extract(s: RelayService) -> MessageStore {
    s.into_store()
}

#[test]
fn two_sends_notify_once_and_arrive_in_order() {
    let dir = TempDir::new().unwrap();
    let mut mediator = service(Role::Strategist, fresh_store(&dir));
    let first = mediator.send_message_at("glacier", "first", "1", None, 100).unwrap();
    let second = mediator.send_message_at("glacier", "second", "2", Some("urgent"), 101).unwrap();
    assert!(first.notify);
    assert!(!second.notify);
    assert_eq!(second.message.priority, Priority::Urgent);
    let mut worker = service(Role::Glacier, extract(mediator));
    let got = worker.check_inbox(Some(true)).unwrap();
    let subjects: Vec<&str> = got.iter().map(|m| m.subject.as_str()).collect();
    assert_eq!(subjects, vec!["first", "second"]);
    assert!(worker.check_inbox(None).unwrap().is_empty());
}

#[test]
fn coordinator_cannot_message_worker() {
    let dir = TempDir::new().unwrap();
    let mut coordinator = service(Role::Overlord, fresh_store(&dir));
    let r = coordinator.send_message("inferno", "Do it", "now", None);
    assert!(matches!(r, Err(RelayError::RouteNotAllowed)));
    assert!(!coordinator.store().has_pending("inferno"));
    assert!(coordinator.store().recent_messages(10).unwrap().is_empty());
}

#[test]
fn refused_sends() {
    let dir = TempDir::new().unwrap();
    let mut worker = service(Role::Inferno, fresh_store(&dir));
    assert!(matches!(worker.send_message("inferno", "s", "b", None), Err(RelayError::SelfSend)));
    assert!(matches!(worker.send_message("glacier", "s", "b", None), Err(RelayError::RouteNotAllowed)));
    assert!(matches!(worker.send_message("king", "s", "b", None), Err(RelayError::UnknownRole)));
    assert!(worker.store().recent_messages(10).unwrap().is_empty());
    let ok = worker.send_message("strategist", "done", "all green", None).unwrap();
    assert_eq!(ok.message.to, Role::Strategist);
}

#[test]
fn mediator_broadcast_reaches_everyone() {
    let dir = TempDir::new().unwrap();
    let mut mediator = service(Role::Strategist, fresh_store(&dir));
    let sent = mediator.broadcast("Regroup", "meet at dawn", None).unwrap();
    let targets: Vec<Role> = sent.iter().map(|d| d.message.to).collect();
    assert_eq!(targets, vec![Role::Overlord, Role::Inferno, Role::Glacier, Role::Shadow, Role::Storm]);
    assert!(sent.iter().all(|d| d.notify));
    let mut store = extract(mediator);
    assert_eq!(store.recent_messages(100).unwrap().len(), 5);
    for role in targets {
        let got = store.check_inbox(role.as_str(), true).unwrap();
        assert_eq!(got.len(), 1);
        assert_eq!(got[0].subject, "Regroup");
        assert_eq!(got[0].body, "meet at dawn");
        assert_eq!(got[0].from, Role::Strategist);
    }
}

#[test]
fn worker_broadcast_goes_to_mediator_only() {
    let dir = TempDir::new().unwrap();
    let mut worker = service(Role::Storm, fresh_store(&dir));
    worker.send_message("strategist", "earlier", "x", None).unwrap();
    let sent = worker.broadcast("Status", "green", Some("urgent")).unwrap();
    assert_eq!(sent.len(), 1);
    assert_eq!(sent[0].message.to, Role::Strategist);
    assert_eq!(sent[0].message.priority, Priority::Urgent);
    assert!(!sent[0].notify); // the flag was already set by the earlier send
}

#[test]
fn status_updates_and_queries() {
    let dir = TempDir::new().unwrap();
    let mut worker = service(Role::Shadow, fresh_store(&dir));
    worker.update_status("working", Some("scouting")).unwrap();
    assert!(matches!(worker.update_status("sleeping", None), Err(RelayError::InvalidStatus)));
    match worker.get_status("shadow").unwrap() {
        StatusReport::One(role, Some(st)) => {
            assert_eq!(role, Role::Shadow);
            assert_eq!(st.status, Status::Working);
            assert_eq!(st.task.as_deref(), Some("scouting"));
        }
        _ => panic!("expected the shadow's record"),
    }
    match worker.get_status("all").unwrap() {
        StatusReport::All(v) => assert_eq!(v.len(), 6),
        _ => panic!("expected every record"),
    }
    assert!(matches!(worker.get_status("king"), Err(RelayError::UnknownRole)));
}

#[test]
fn unknown_status_after_cleanup() {
    let dir = TempDir::new().unwrap();
    let mut store = fresh_store(&dir);
    store.cleanup().unwrap();
    let svc = service(Role::Overlord, store);
    for role in Role::all() {
        match svc.get_status(role.as_str()).unwrap() {
            StatusReport::One(r, None) => assert_eq!(r, role),
            _ => panic!("expected unknown"),
        }
    }
}

#[test]
fn insights_through_the_service() {
    let dir = TempDir::new().unwrap();
    let kdir = TempDir::new().unwrap();
    let mut store = MessageStore::new(dir.path().to_path_buf()).with_knowledge_dir(kdir.path().to_path_buf());
    store.init().unwrap();
    let mut svc = service(Role::Glacier, store);
    let i = svc.share_insight("debugging", "Stale flag", "peek clears pending", None).unwrap();
    assert_eq!(i.from, Role::Glacier);
    assert!(i.tags.is_empty());
    svc.share_insight("architecture", "Layout", "flat", Some(vec!["X-Ray".to_string()])).unwrap();
    let hits = svc.query_insights(Some("debugging"), None, None).unwrap();
    assert_eq!(hits.len(), 1);
    assert!(hits.iter().all(|h| h.category == "debugging"));
    let hits = svc.query_insights(None, Some("x"), Some(5)).unwrap();
    assert_eq!(hits.len(), 1);
    assert_eq!(hits[0].title, "Layout");
}

#[test]
fn share_insight_without_knowledge_dir() {
    let dir = TempDir::new().unwrap();
    let mut svc = service(Role::Glacier, fresh_store(&dir));
    let r = svc.share_insight("debugging", "T", "C", None);
    assert!(matches!(r, Err(RelayError::Storage(StoreError::KnowledgeNotConfigured))));
    assert!(svc.query_insights(None, None, None).unwrap().is_empty());
}
