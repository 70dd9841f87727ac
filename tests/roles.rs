use ovld::roles::{all_role_names, Role};

const SHITENNOH: [Role; 4] = [Role::Inferno, Role::Glacier, Role::Shadow, Role::Storm];

#[test]
fn test_all_returns_six_roles() {
    assert_eq!(Role::all().len(), 6);
    assert_eq!(all_role_names().len(), 6);
}

#[test]
fn test_display_name() {
    assert_eq!(Role::Overlord.display_name(), "魔王 (Overlord)");
    assert_eq!(Role::Strategist.display_name(), "軍師 (Strategist)");
    assert_eq!(Role::Inferno.display_name(), "業火の将 (Inferno)");
    assert_eq!(Role::Glacier.display_name(), "氷結の将 (Glacier)");
    assert_eq!(Role::Shadow.display_name(), "常闇の将 (Shadow)");
    assert_eq!(Role::Storm.display_name(), "疾風の将 (Storm)");
}

#[test]
fn test_display_trait() {
    assert_eq!(Role::Overlord.to_text(), "overlord");
    assert_eq!(Role::Strategist.to_text(), "strategist");
}

#[test]
fn test_as_str() {
    assert_eq!(Role::Overlord.as_str(), "overlord");
    assert_eq!(Role::Strategist.as_str(), "strategist");
    assert_eq!(Role::Inferno.as_str(), "inferno");
    assert_eq!(Role::Glacier.as_str(), "glacier");
    assert_eq!(Role::Shadow.as_str(), "shadow");
    assert_eq!(Role::Storm.as_str(), "storm");
}

#[test]
fn test_from_str() {
    assert_eq!("overlord".parse::<Role>().unwrap(), Role::Overlord);
    assert_eq!("strategist".parse::<Role>().unwrap(), Role::Strategist);
    assert_eq!("inferno".parse::<Role>().unwrap(), Role::Inferno);
    assert_eq!("glacier".parse::<Role>().unwrap(), Role::Glacier);
    assert_eq!("shadow".parse::<Role>().unwrap(), Role::Shadow);
    assert_eq!("storm".parse::<Role>().unwrap(), Role::Storm);
    assert!("invalid".parse::<Role>().is_err());
}

#[test]
fn test_all_roles_are_unique() {
    let roles = Role::all();
    for (i, a) in roles.iter().enumerate() {
        for (j, b) in roles.iter().enumerate() {
            if i != j {
                assert_ne!(a, b);
            }
        }
    }
}

#[test]
fn test_is_shitennoh() {
    assert!(!Role::Overlord.is_shitennoh());
    assert!(!Role::Strategist.is_shitennoh());
    assert!(Role::Inferno.is_shitennoh());
    assert!(Role::Glacier.is_shitennoh());
    assert!(Role::Shadow.is_shitennoh());
    assert!(Role::Storm.is_shitennoh());
}

#[test]
fn test_can_send_to_allowed() {
    assert!(Role::Overlord.can_send_to(Role::Strategist));
    assert!(Role::Strategist.can_send_to(Role::Overlord));
    for role in SHITENNOH {
        assert!(Role::Strategist.can_send_to(role));
        assert!(role.can_send_to(Role::Strategist));
    }
}

#[test]
fn test_can_send_to_forbidden() {
    for role in SHITENNOH {
        assert!(!Role::Overlord.can_send_to(role));
        assert!(!role.can_send_to(Role::Overlord));
    }
    // worker to worker
    assert!(!Role::Inferno.can_send_to(Role::Shadow));
    assert!(!Role::Glacier.can_send_to(Role::Storm));
}

#[test]
fn roles_test_allowed_targets() {
    assert_eq!(Role::Overlord.allowed_targets(), vec![Role::Strategist]);
    assert_eq!(
        Role::Strategist.allowed_targets(),
        vec![Role::Overlord, Role::Inferno, Role::Glacier, Role::Shadow, Role::Storm]
    );
    for role in SHITENNOH {
        assert_eq!(role.allowed_targets(), vec![Role::Strategist]);
    }
}

#[test]
fn test_pane_id() {
    assert_eq!(Role::Overlord.pane_id(), 0);
    assert_eq!(Role::Strategist.pane_id(), 1);
    assert_eq!(Role::Inferno.pane_id(), 2);
    assert_eq!(Role::Glacier.pane_id(), 3);
    assert_eq!(Role::Shadow.pane_id(), 4);
    assert_eq!(Role::Storm.pane_id(), 5);
}

#[test]
fn every_role_pair_has_a_route_decision() {
    // Exactly the coordinator-mediator and mediator-worker pairs are allowed.
    let mut allowed = 0;
    for a in Role::all() {
        assert!(!a.can_send_to(a), "{:?} may not message itself", a);
        for b in Role::all() {
            let expected = matches!(
                (a, b),
                (Role::Overlord, Role::Strategist) | (Role::Strategist, Role::Overlord)
            ) || (a == Role::Strategist && b.is_shitennoh())
                || (a.is_shitennoh() && b == Role::Strategist);
            assert_eq!(a.can_send_to(b), expected, "{:?} -> {:?}", a, b);
            if expected {
                allowed += 1;
            }
        }
    }
    assert_eq!(allowed, 10);
}

#[test]
fn icons_and_tokens() {
    assert_eq!(Role::Overlord.icon(), "\u{1F451}");
    assert_eq!(Role::Storm.icon(), "\u{1F4A8}");
    assert_eq!(Role::from_name("Overlord"), None);
    assert_eq!(Role::from_name("glacier"), Some(Role::Glacier));
    let err = "king".parse::<Role>().unwrap_err();
    assert_eq!(err.token, "king");
}
