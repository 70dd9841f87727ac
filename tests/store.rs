use ovld::roles::Role;
use ovld::store::{MessageStore, StoreError};
use ovld::types::{Priority, Status};
use tempfile::TempDir;

fn test_store() -> (TempDir, MessageStore) {
    let dir = TempDir::new().unwrap();
    let mut store = MessageStore::new(dir.path().to_path_buf());
    store.init().unwrap();
    (dir, store)
}

fn test_store_with_knowledge() -> (TempDir, TempDir, MessageStore) {
    let dir = TempDir::new().unwrap();
    let knowledge_dir = TempDir::new().unwrap();
    let mut store = MessageStore::new(dir.path().to_path_buf())
        .with_knowledge_dir(knowledge_dir.path().to_path_buf());
    store.init().unwrap();
    (dir, knowledge_dir, store)
}

#[test]
fn test_init_creates_default_statuses() {
    let dir = TempDir::new().unwrap();
    let mut store = MessageStore::new(dir.path().to_path_buf());
    store.init().unwrap();

    for role in Role::all() {
        let status = store.get_status(role.as_str()).unwrap().unwrap();
        assert!(matches!(status.status, Status::Idle));
    }
}

#[test]
fn test_status_update_and_get_roundtrip() {
    let (_dir, mut store) = test_store();
    store.update_status(Role::Glacier, Status::Working, Some("Defining types")).unwrap();

    let status = store.get_status("glacier").unwrap().unwrap();
    assert_eq!(status.role, Role::Glacier);
    assert!(matches!(status.status, Status::Working));
    assert_eq!(status.task.as_deref(), Some("Defining types"));

    // Update again
    store.update_status(Role::Glacier, Status::Done, None).unwrap();
    let status = store.get_status("glacier").unwrap().unwrap();
    assert!(matches!(status.status, Status::Done));
    assert!(status.task.is_none());
}

#[test]
fn test_multiple_messages_all_returned() {
    let (_dir, mut store) = test_store();

    store.send_message(Role::Overlord, Role::Inferno, "Task A", "body a", Priority::Normal).unwrap();
    store.send_message(Role::Strategist, Role::Inferno, "Task B", "body b", Priority::Normal).unwrap();
    store.send_message(Role::Glacier, Role::Inferno, "Task C", "body c", Priority::Normal).unwrap();

    let messages = store.check_inbox("inferno", false).unwrap();
    assert_eq!(messages.len(), 3);

    let subjects: Vec<&str> = messages.iter().map(|m| m.subject.as_str()).collect();
    assert!(subjects.contains(&"Task A"));
    assert!(subjects.contains(&"Task B"));
    assert!(subjects.contains(&"Task C"));
}

#[test]
fn test_send_and_receive_message() {
    let (_dir, mut store) = test_store();

    store
        .send_message(Role::Strategist, Role::Inferno, "Implement auth", "See types.rs", Priority::Normal)
        .unwrap();

    let messages = store.check_inbox("inferno", true).unwrap();
    assert_eq!(messages.len(), 1);
    assert_eq!(messages[0].from, Role::Strategist);
    assert_eq!(messages[0].subject, "Implement auth");

    // After marking read, should be empty
    let messages = store.check_inbox("inferno", true).unwrap();
    assert_eq!(messages.len(), 0);
}

#[test]
fn test_multiple_messages() {
    let (_dir, mut store) = test_store();

    store.send_message(Role::Glacier, Role::Inferno, "Types ready", "types.rs", Priority::Normal).unwrap();
    store.send_message(Role::Strategist, Role::Inferno, "Start impl", "Go ahead", Priority::Urgent).unwrap();

    let messages = store.check_inbox("inferno", false).unwrap();
    assert_eq!(messages.len(), 2);
}

#[test]
fn test_pending_flag() {
    let (_dir, mut store) = test_store();

    assert!(store.set_pending("inferno").unwrap()); // First time: true
    assert!(!store.set_pending("inferno").unwrap()); // Second time: false (already pending)

    // check_inbox clears the flag
    store.check_inbox("inferno", true).unwrap();
    assert!(store.set_pending("inferno").unwrap()); // After clear: true again
}

#[test]
fn test_status() {
    let (_dir, mut store) = test_store();

    store.update_status(Role::Inferno, Status::Working, Some("Implementing auth")).unwrap();

    let status = store.get_status("inferno").unwrap().unwrap();
    assert_eq!(status.role, Role::Inferno);
    assert!(matches!(status.status, Status::Working));
    assert_eq!(status.task.as_deref(), Some("Implementing auth"));
}

#[test]
fn test_get_all_statuses() {
    let (_dir, store) = test_store();

    let statuses = store.get_all_statuses().unwrap();
    assert_eq!(statuses.len(), 6); // All roles initialized as idle
}

#[test]
fn test_empty_inbox() {
    let (_dir, mut store) = test_store();
    let messages = store.check_inbox("inferno", true).unwrap();
    assert!(messages.is_empty());
}

#[test]
fn test_has_pending() {
    let (_dir, mut store) = test_store();
    assert!(!store.has_pending("inferno"));
    store.set_pending("inferno").unwrap();
    assert!(store.has_pending("inferno"));
}

#[test]
fn test_recent_messages() {
    let (_dir, mut store) = test_store();

    store.send_message(Role::Overlord, Role::Inferno, "Task 1", "body1", Priority::Normal).unwrap();
    store.send_message(Role::Strategist, Role::Glacier, "Task 2", "body2", Priority::Normal).unwrap();
    store.send_message(Role::Overlord, Role::Shadow, "Task 3", "body3", Priority::Urgent).unwrap();

    let recent = store.recent_messages(10).unwrap();
    assert_eq!(recent.len(), 3);
    // Most recent first
    assert_eq!(recent[0].subject, "Task 3");

    // With limit
    let recent = store.recent_messages(2).unwrap();
    assert_eq!(recent.len(), 2);
}

#[test]
fn test_recent_messages_empty() {
    let (_dir, store) = test_store();
    let recent = store.recent_messages(10).unwrap();
    assert!(recent.is_empty());
}

#[test]
fn test_store_and_query_insight() {
    let (_dir, _kdir, mut store) = test_store_with_knowledge();

    store
        .store_insight(
            Role::Glacier,
            "architecture",
            "File-based IPC",
            "JSON files work well for inter-process communication",
            vec!["relay".to_string(), "ipc".to_string()],
        )
        .unwrap();

    let results = store.query_insights(None, None, 10).unwrap();
    assert_eq!(results.len(), 1);
    assert_eq!(results[0].title, "File-based IPC");
    assert_eq!(results[0].from, Role::Glacier);
}

#[test]
fn test_query_insights_filter_by_category() {
    let (_dir, _kdir, mut store) = test_store_with_knowledge();

    store.store_insight(Role::Inferno, "debugging", "Stdout leak", "Use Stdio::null()", vec![]).unwrap();
    store.store_insight(Role::Glacier, "architecture", "Module layout", "Keep it flat", vec![]).unwrap();

    let results = store.query_insights(Some("debugging"), None, 10).unwrap();
    assert_eq!(results.len(), 1);
    assert_eq!(results[0].title, "Stdout leak");
}

#[test]
fn test_query_insights_filter_by_keyword() {
    let (_dir, _kdir, mut store) = test_store_with_knowledge();

    store
        .store_insight(Role::Shadow, "debugging", "Zellij stdout", "Suppress with Stdio::null()", vec!["zellij".to_string()])
        .unwrap();
    store.store_insight(Role::Inferno, "pattern", "Builder pattern", "Use with_* methods", vec![]).unwrap();

    let results = store.query_insights(None, Some("zellij"), 10).unwrap();
    assert_eq!(results.len(), 1);
    assert_eq!(results[0].title, "Zellij stdout");
}

#[test]
fn test_query_insights_empty_knowledge() {
    let (_dir, store) = test_store();
    // No knowledge_dir configured
    let results = store.query_insights(None, None, 10).unwrap();
    assert!(results.is_empty());
}

#[test]
fn test_cleanup_preserves_knowledge() {
    let (_dir, kdir, mut store) = test_store_with_knowledge();

    store.store_insight(Role::Glacier, "architecture", "Test", "Content", vec![]).unwrap();
    store.cleanup().unwrap();

    // Knowledge dir should still exist with data
    assert!(kdir.path().exists());
    let results = store.query_insights(None, None, 10).unwrap();
    assert_eq!(results.len(), 1);
}

// --- further cases ---

#[test]
fn send_then_read_returns_exactly_the_message() {
    let (_dir, mut store) = test_store();
    let sent = store
        .send_message_at(Role::Strategist, Role::Glacier, "Define types", "in types.rs", Priority::Urgent, 1_000)
        .clone();
    assert_eq!(sent.id, "1000_strategist");
    assert!(!sent.read);
    let got = store.check_inbox("glacier", true).unwrap();
    assert_eq!(got.len(), 1);
    assert_eq!(got[0].id, sent.id);
    assert_eq!(got[0].from, Role::Strategist);
    assert_eq!(got[0].to, Role::Glacier);
    assert_eq!(got[0].subject, "Define types");
    assert_eq!(got[0].body, "in types.rs");
    assert_eq!(got[0].priority, Priority::Urgent);
    assert_eq!(got[0].timestamp, 1_000);
    assert!(got[0].read);
    assert!(store.check_inbox("glacier", true).unwrap().is_empty());
}

#[test]
fn peek_keeps_messages_unread() {
    let (_dir, mut store) = test_store();
    store.send_message(Role::Strategist, Role::Storm, "Scout", "north", Priority::Normal).unwrap();
    let first = store.check_inbox("storm", false).unwrap();
    assert_eq!(first.len(), 1);
    assert!(!first[0].read);
    let second = store.check_inbox("storm", true).unwrap();
    assert_eq!(second.len(), 1);
    assert_eq!(second[0].subject, "Scout");
    assert!(store.check_inbox("storm", true).unwrap().is_empty());
}

#[test]
fn peek_clears_pending_even_with_unread_mail() {
    let (_dir, mut store) = test_store();
    store.send_message(Role::Strategist, Role::Shadow, "Watch", "the wall", Priority::Normal).unwrap();
    assert!(store.set_pending("shadow").unwrap());
    assert!(store.has_pending("shadow"));
    let got = store.check_inbox("shadow", false).unwrap();
    assert_eq!(got.len(), 1);
    assert!(!store.has_pending("shadow"));
    // the message is still unread
    assert_eq!(store.check_inbox("shadow", false).unwrap().len(), 1);
}

#[test]
fn mailboxes_are_separate() {
    let (_dir, mut store) = test_store();
    store.send_message(Role::Strategist, Role::Inferno, "A", "a", Priority::Normal).unwrap();
    store.send_message(Role::Strategist, Role::Glacier, "B", "b", Priority::Normal).unwrap();
    let inferno = store.check_inbox("inferno", true).unwrap();
    assert_eq!(inferno.len(), 1);
    assert_eq!(inferno[0].subject, "A");
    let glacier = store.check_inbox("glacier", false).unwrap();
    assert_eq!(glacier.len(), 1);
    assert_eq!(glacier[0].subject, "B");
}

#[test]
fn inbox_is_in_send_order() {
    let (_dir, mut store) = test_store();
    store.send_message_at(Role::Strategist, Role::Glacier, "first", "1", Priority::Normal, 50);
    store.send_message_at(Role::Strategist, Role::Glacier, "second", "2", Priority::Normal, 20);
    let got = store.check_inbox("glacier", true).unwrap();
    let subjects: Vec<&str> = got.iter().map(|m| m.subject.as_str()).collect();
    assert_eq!(subjects, vec!["first", "second"]);
}

#[test]
fn unknown_role_tokens() {
    let (_dir, mut store) = test_store();
    assert_eq!(store.set_pending("king"), Err(StoreError::UnknownRole));
    assert!(!store.has_pending("king"));
    assert!(store.check_inbox("king", true).unwrap().is_empty());
    assert!(store.get_status("king").unwrap().is_none());
}

#[test]
fn recent_messages_newest_first_and_limited() {
    let (_dir, mut store) = test_store();
    store.send_message_at(Role::Strategist, Role::Inferno, "t20", "", Priority::Normal, 20);
    store.send_message_at(Role::Strategist, Role::Glacier, "t50", "", Priority::Normal, 50);
    store.send_message_at(Role::Overlord, Role::Strategist, "t10", "", Priority::Normal, 10);
    store.send_message_at(Role::Inferno, Role::Strategist, "t40", "", Priority::Normal, 40);
    let all = store.recent_messages(10).unwrap();
    let subjects: Vec<&str> = all.iter().map(|m| m.subject.as_str()).collect();
    assert_eq!(subjects, vec!["t50", "t40", "t20", "t10"]);
    let two = store.recent_messages(2).unwrap();
    let subjects: Vec<&str> = two.iter().map(|m| m.subject.as_str()).collect();
    assert_eq!(subjects, vec!["t50", "t40"]);
    assert!(store.recent_messages(0).unwrap().is_empty());
    // reading does not mark anything
    assert_eq!(store.check_inbox("glacier", false).unwrap().len(), 1);
}

#[test]
fn cleanup_forgets_statuses_and_mail() {
    let (_dir, _kdir, mut store) = test_store_with_knowledge();
    store.send_message(Role::Strategist, Role::Inferno, "A", "a", Priority::Normal).unwrap();
    store.set_pending("inferno").unwrap();
    store.store_insight(Role::Inferno, "gotcha", "Keep", "this", vec![]).unwrap();
    store.cleanup().unwrap();
    for role in Role::all() {
        assert!(store.get_status(role.as_str()).unwrap().is_none());
        assert!(!store.has_pending(role.as_str()));
        assert!(store.check_inbox(role.as_str(), false).unwrap().is_empty());
    }
    assert!(store.get_all_statuses().unwrap().is_empty());
    let kept = store.query_insights(None, None, 10).unwrap();
    assert_eq!(kept.len(), 1);
    assert_eq!(kept[0].title, "Keep");
}

#[test]
fn insight_needs_knowledge_dir() {
    let (_dir, mut store) = test_store();
    let r = store.store_insight(Role::Glacier, "architecture", "T", "C", vec![]);
    assert!(matches!(r, Err(StoreError::KnowledgeNotConfigured)));
}

#[test]
fn keyword_is_case_insensitive_on_tags() {
    let (_dir, _kdir, mut store) = test_store_with_knowledge();
    store
        .store_insight(Role::Shadow, "debugging", "Pipes", "blocking call", vec!["ZELLIJ-IPC".to_string()])
        .unwrap();
    store.store_insight(Role::Inferno, "pattern", "Other", "nothing here", vec![]).unwrap();
    let hits = store.query_insights(None, Some("zellij"), 10).unwrap();
    assert_eq!(hits.len(), 1);
    assert_eq!(hits[0].title, "Pipes");
    let hits = store.query_insights(None, Some("BLOCKING"), 10).unwrap();
    assert_eq!(hits.len(), 1);
    assert!(store.query_insights(None, Some("absent"), 10).unwrap().is_empty());
}

#[test]
fn insights_newest_first_and_limited() {
    let (_dir, _kdir, mut store) = test_store_with_knowledge();
    store.store_insight_at(Role::Glacier, "debugging", "old", "c", vec![], 5).unwrap();
    store.store_insight_at(Role::Glacier, "debugging", "new", "c", vec![], 9).unwrap();
    store.store_insight_at(Role::Glacier, "architecture", "mid", "c", vec![], 7).unwrap();
    let all = store.query_insights(None, None, 10).unwrap();
    let titles: Vec<&str> = all.iter().map(|i| i.title.as_str()).collect();
    assert_eq!(titles, vec!["new", "mid", "old"]);
    let debugging = store.query_insights(Some("debugging"), None, 1).unwrap();
    assert_eq!(debugging.len(), 1);
    assert_eq!(debugging[0].title, "new");
    assert_eq!(debugging[0].id, "9_glacier");
}

#[test]
fn init_is_idempotent() {
    let (_dir, mut store) = test_store();
    store.update_status(Role::Storm, Status::Blocked, Some("waiting")).unwrap();
    store.init().unwrap();
    let st = store.get_status("storm").unwrap().unwrap();
    assert_eq!(st.status, Status::Blocked);
    assert_eq!(st.task.as_deref(), Some("waiting"));
    let all = store.get_all_statuses().unwrap();
    let roles: Vec<Role> = all.iter().map(|s| s.role).collect();
    assert_eq!(roles, Role::all());
}
