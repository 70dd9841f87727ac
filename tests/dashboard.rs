use ovld::dashboard::{
    elapsed_seconds, format_elapsed, health_check_body, pending_roles, send_health_checks_at, stale_roles,
    status_symbol, working_count,
};
use ovld::roles::Role;
use ovld::store::MessageStore;
use ovld::types::{Priority, RoleStatus, Status};
use std::path::PathBuf;

fn record(role: Role, status: Status, at: i64) -> RoleStatus {
    RoleStatus { role, status, task: None, updated_at: at }
}

#[test]
fn symbols() {
    assert_eq!(status_symbol(&Status::Idle), "[-]");
    assert_eq!(status_symbol(&Status::Working), "[*]");
    assert_eq!(status_symbol(&Status::Blocked), "[!]");
    assert_eq!(status_symbol(&Status::Done), "[v]");
}

#[test]
fn elapsed_units() {
    assert_eq!(format_elapsed(0), "0s");
    assert_eq!(format_elapsed(59), "59s");
    assert_eq!(format_elapsed(60), "1m");
    assert_eq!(format_elapsed(3599), "59m");
    assert_eq!(format_elapsed(3600), "1h");
    assert_eq!(format_elapsed(7300), "2h");
    assert_eq!(elapsed_seconds(1_000, 62_999), 61);
    assert_eq!(elapsed_seconds(5_000, 3_500), -1);
}

#[test]
fn stale_working_roles() {
    let now = 1_000_000;
    let statuses = vec![
        record(Role::Overlord, Status::Working, now - 301_000),
        record(Role::Strategist, Status::Working, now - 300_000),
        record(Role::Inferno, Status::Idle, now - 900_000),
        record(Role::Glacier, Status::Working, now - 400_000),
    ];
    assert_eq!(stale_roles(&statuses, now, 300), vec![Role::Overlord, Role::Glacier]);
    assert_eq!(working_count(&statuses), 3);
}

#[test]
fn health_checks_are_urgent_from_coordinator() {
    let mut store = MessageStore::new(PathBuf::from("/tmp/relay"));
    store.init().unwrap();
    assert_eq!(
        health_check_body(300),
        "Working status has exceeded 300 seconds. Report current state via update_status."
    );
    send_health_checks_at(&mut store, &vec![Role::Glacier, Role::Storm], 300, 77);
    let got = store.check_inbox("storm", true).unwrap();
    assert_eq!(got.len(), 1);
    assert_eq!(got[0].from, Role::Overlord);
    assert_eq!(got[0].priority, Priority::Urgent);
    assert_eq!(got[0].subject, "[HEALTH CHECK] Report your status");
    assert_eq!(got[0].timestamp, 77);
    assert_eq!(store.all_messages().len(), 2);
    assert!(!store.has_pending("glacier"));
}

#[test]
fn pending_role_list() {
    let mut store = MessageStore::new(PathBuf::from("/tmp/relay"));
    store.init().unwrap();
    store.set_pending("storm").unwrap();
    store.set_pending("overlord").unwrap();
    assert_eq!(pending_roles(&store), vec![Role::Overlord, Role::Storm]);
}

#[test]
fn restore_round_trip() {
    let mut a = MessageStore::new(PathBuf::from("/tmp/a")).with_knowledge_dir(PathBuf::from("/tmp/k"));
    a.init().unwrap();
    a.send_message_at(Role::Strategist, Role::Inferno, "one", "1", Priority::Normal, 10);
    a.send_message_at(Role::Strategist, Role::Glacier, "two", "2", Priority::Urgent, 5);
    a.check_inbox("inferno", true).unwrap();
    a.store_insight_at(Role::Inferno, "gotcha", "T", "C", vec!["tag".to_string()], 3).unwrap();

    let mut b = MessageStore::new(PathBuf::from("/tmp/b")).with_knowledge_dir(PathBuf::from("/tmp/k"));
    for m in a.all_messages() {
        b.restore_message(m);
    }
    for i in a.all_insights() {
        b.restore_insight(i).unwrap();
    }
    let msgs = b.all_messages();
    assert_eq!(msgs.len(), 2);
    assert_eq!(msgs[0].subject, "one");
    assert!(msgs[0].read);
    assert_eq!(msgs[1].subject, "two");
    assert!(!msgs[1].read);
    assert!(b.check_inbox("inferno", true).unwrap().is_empty());
    assert_eq!(b.check_inbox("glacier", true).unwrap().len(), 1);
    assert_eq!(b.all_insights()[0].tags, vec!["tag".to_string()]);
    let mut c = MessageStore::new(PathBuf::from("/tmp/c"));
    assert!(c.restore_insight(a.all_insights().remove(0)).is_err());
}
