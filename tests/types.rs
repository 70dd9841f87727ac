use ovld::roles::{all_role_names, allowed_targets, is_allowed_route, is_valid_role};
use ovld::roles::Role;
use ovld::types::{make_record_id, parse_priority, parse_status, Priority, Status};

#[test]
fn test_is_valid_role_valid() {
    for role in all_role_names() {
        assert!(is_valid_role(role), "{} should be valid", role);
    }
}

#[test]
fn test_is_valid_role_invalid() {
    assert!(!is_valid_role("king"));
    assert!(!is_valid_role(""));
    assert!(!is_valid_role("Overlord")); // case-sensitive
}

#[test]
fn test_all_roles_count() {
    assert_eq!(all_role_names().len(), 6);
}

#[test]
fn test_priority_default_is_normal() {
    assert!(matches!(Priority::default(), Priority::Normal));
}

#[test]
fn test_status_display() {
    assert_eq!(Status::Idle.to_text(), "idle");
    assert_eq!(Status::Working.to_text(), "working");
    assert_eq!(Status::Blocked.to_text(), "blocked");
    assert_eq!(Status::Done.to_text(), "done");
}

#[test]
fn test_priority_display() {
    assert_eq!(Priority::Normal.to_text(), "normal");
    assert_eq!(Priority::Urgent.to_text(), "urgent");
}

#[test]
fn test_allowed_route_overlord_strategist() {
    assert!(is_allowed_route("overlord", "strategist"));
    assert!(is_allowed_route("strategist", "overlord"));
}

#[test]
fn test_allowed_route_strategist_shitennoh() {
    for role in ["inferno", "glacier", "shadow", "storm"] {
        assert!(is_allowed_route("strategist", role), "strategist -> {} should be allowed", role);
        assert!(is_allowed_route(role, "strategist"), "{} -> strategist should be allowed", role);
    }
}

#[test]
fn test_forbidden_route_overlord_shitennoh() {
    for role in ["inferno", "glacier", "shadow", "storm"] {
        assert!(!is_allowed_route("overlord", role), "overlord -> {} should be forbidden", role);
        assert!(!is_allowed_route(role, "overlord"), "{} -> overlord should be forbidden", role);
    }
}

#[test]
fn test_forbidden_route_shitennoh_to_shitennoh() {
    let shitennoh = ["inferno", "glacier", "shadow", "storm"];
    for from in &shitennoh {
        for to in &shitennoh {
            if from != to {
                assert!(!is_allowed_route(from, to), "{} -> {} should be forbidden", from, to);
            }
        }
    }
}

#[test]
fn types_test_allowed_targets() {
    assert_eq!(allowed_targets("overlord"), vec!["strategist"]);
    assert_eq!(allowed_targets("strategist"), vec!["overlord", "inferno", "glacier", "shadow", "storm"]);
    for role in ["inferno", "glacier", "shadow", "storm"] {
        assert_eq!(allowed_targets(role), vec!["strategist"], "{} should only target strategist", role);
    }
    assert!(allowed_targets("unknown").is_empty());
}

#[test]
fn test_parse_priority_urgent() {
    assert!(matches!(parse_priority(Some("urgent")), Priority::Urgent));
}

#[test]
fn test_parse_priority_default() {
    assert!(matches!(parse_priority(None), Priority::Normal));
    assert!(matches!(parse_priority(Some("normal")), Priority::Normal));
    assert!(matches!(parse_priority(Some("invalid")), Priority::Normal));
}

#[test]
fn test_parse_status_valid() {
    assert!(matches!(parse_status("idle"), Ok(Status::Idle)));
    assert!(matches!(parse_status("working"), Ok(Status::Working)));
    assert!(matches!(parse_status("blocked"), Ok(Status::Blocked)));
    assert!(matches!(parse_status("done"), Ok(Status::Done)));
}

#[test]
fn test_parse_status_invalid() {
    assert!(parse_status("invalid").is_err());
    assert!(parse_status("").is_err());
    assert!(parse_status("IDLE").is_err()); // case-sensitive
}

#[test]
fn invalid_status_keeps_token() {
    assert_eq!(parse_status("sleeping").unwrap_err().token, "sleeping");
}

#[test]
fn record_ids_are_stamp_and_author() {
    assert_eq!(make_record_id(1700000000123, Role::Overlord), "1700000000123_overlord");
    assert_eq!(make_record_id(0, Role::Storm), "0_storm");
    assert_eq!(make_record_id(-45, Role::Glacier), "-45_glacier");
    assert_eq!(make_record_id(i64::MIN, Role::Shadow), "-9223372036854775808_shadow");
}
