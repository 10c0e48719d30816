use cosmwasm_std::testing::{mock_dependencies, mock_info};
use cosmwasm_std::{Addr, Api};

use secure_admin::SecureAdminUpdate::{
    AbolishAdminRole, AcceptProposed, ClearProposed, ProposeNewAdmin,
};
use secure_admin::{AdminInit, AdminState, SecureAdmin, SecureAdminError, SecureAdminResponse};

//--------------------------------------------------------------------------------------------------
// Test invalid state transitions
//--------------------------------------------------------------------------------------------------

#[test]
fn invalid_uninitialized_state_transitions() {
    let deps = mock_dependencies();
    let mut record: Option<AdminState> = None;
    let sender = Addr::unchecked("peter_parker");
    let info = mock_info(sender.as_ref(), &[]);
    let admin = SecureAdmin::new("xyz");

    let err = admin
        .update(
            &mut record,
            |raw: &str| deps.api.addr_validate(raw),
            &info.sender,
            ProposeNewAdmin {
                proposed: "abc".to_string(),
            },
        )
        .unwrap_err();
    assert_eq!(err, SecureAdminError::NotAdmin {});

    let err = admin
        .update(
            &mut record,
            |raw: &str| deps.api.addr_validate(raw),
            &info.sender,
            ClearProposed,
        )
        .unwrap_err();
    assert_eq!(err, SecureAdminError::NotAdmin {});

    let err = admin
        .update(
            &mut record,
            |raw: &str| deps.api.addr_validate(raw),
            &info.sender,
            AcceptProposed,
        )
        .unwrap_err();
    assert_eq!(err, SecureAdminError::NotProposedAdmin {});

    let err = admin
        .update(
            &mut record,
            |raw: &str| deps.api.addr_validate(raw),
            &info.sender,
            AbolishAdminRole,
        )
        .unwrap_err();
    assert_eq!(err, SecureAdminError::NotAdmin {});
}

#[test]
fn invalid_admin_set_no_proposed_state_transitions() {
    let deps = mock_dependencies();
    let mut record: Option<AdminState> = None;
    let sender = Addr::unchecked("peter_parker");
    let info = mock_info(sender.as_ref(), &[]);
    let admin = SecureAdmin::new("xyz");

    admin
        .initialize(
            &mut record,
            |raw: &str| deps.api.addr_validate(raw),
            AdminInit::SetInitialAdmin {
                admin: sender.to_string(),
            },
        )
        .unwrap();

    let err = admin
        .initialize(
            &mut record,
            |raw: &str| deps.api.addr_validate(raw),
            AdminInit::SetInitialAdmin {
                admin: "abc".to_string(),
            },
        )
        .unwrap_err();
    assert_eq!(err, SecureAdminError::AlreadyInitialized {});

    let err = admin
        .update(
            &mut record,
            |raw: &str| deps.api.addr_validate(raw),
            &info.sender,
            AcceptProposed,
        )
        .unwrap_err();
    assert_eq!(err, SecureAdminError::NotProposedAdmin {});
}

#[test]
fn invalid_admin_set_with_proposed_state_transitions() {
    let deps = mock_dependencies();
    let mut record: Option<AdminState> = None;
    let sender = Addr::unchecked("peter_parker");
    let info = mock_info(sender.as_ref(), &[]);
    let admin = SecureAdmin::new("xyz");

    admin
        .initialize(
            &mut record,
            |raw: &str| deps.api.addr_validate(raw),
            AdminInit::SetInitialAdmin {
                admin: sender.to_string(),
            },
        )
        .unwrap();

    admin
        .update(
            &mut record,
            |raw: &str| deps.api.addr_validate(raw),
            &info.sender,
            ProposeNewAdmin {
                proposed: "abc".to_string(),
            },
        )
        .unwrap();

    let err = admin
        .initialize(
            &mut record,
            |raw: &str| deps.api.addr_validate(raw),
            AdminInit::SetInitialAdmin {
                admin: "abc".to_string(),
            },
        )
        .unwrap_err();
    assert_eq!(err, SecureAdminError::AlreadyInitialized {});
}

#[test]
fn invalid_admin_role_abolished_state_transitions() {
    let deps = mock_dependencies();
    let mut record: Option<AdminState> = None;
    let sender = Addr::unchecked("peter_parker");
    let info = mock_info(sender.as_ref(), &[]);
    let admin = SecureAdmin::new("xyz");

    admin
        .initialize(
            &mut record,
            |raw: &str| deps.api.addr_validate(raw),
            AdminInit::AbolishAdminRole,
        )
        .unwrap();

    let err = admin
        .initialize(
            &mut record,
            |raw: &str| deps.api.addr_validate(raw),
            AdminInit::SetInitialAdmin {
                admin: "abc".to_string(),
            },
        )
        .unwrap_err();
    assert_eq!(err, SecureAdminError::AdminRoleAbolished {});

    let err = admin
        .update(
            &mut record,
            |raw: &str| deps.api.addr_validate(raw),
            &info.sender,
            ProposeNewAdmin {
                proposed: "efg".to_string(),
            },
        )
        .unwrap_err();
    assert_eq!(err, SecureAdminError::AdminRoleAbolished {});

    let err = admin
        .update(
            &mut record,
            |raw: &str| deps.api.addr_validate(raw),
            &info.sender,
            ClearProposed,
        )
        .unwrap_err();
    assert_eq!(err, SecureAdminError::AdminRoleAbolished {});

    let err = admin
        .update(
            &mut record,
            |raw: &str| deps.api.addr_validate(raw),
            &info.sender,
            AcceptProposed,
        )
        .unwrap_err();
    assert_eq!(err, SecureAdminError::AdminRoleAbolished {});

    let err = admin
        .update(
            &mut record,
            |raw: &str| deps.api.addr_validate(raw),
            &info.sender,
            AbolishAdminRole,
        )
        .unwrap_err();
    assert_eq!(err, SecureAdminError::AdminRoleAbolished {});
}

//--------------------------------------------------------------------------------------------------
// Test permissions
//--------------------------------------------------------------------------------------------------

#[test]
fn initialize_admin_permissions() {
    let deps = mock_dependencies();
    let mut record: Option<AdminState> = None;
    let admin = SecureAdmin::new("xyz");

    // Anyone can initialize
    admin
        .initialize(
            &mut record,
            |raw: &str| deps.api.addr_validate(raw),
            AdminInit::AbolishAdminRole,
        )
        .unwrap();

    let deps = mock_dependencies();
    let mut record: Option<AdminState> = None;

    admin
        .initialize(
            &mut record,
            |raw: &str| deps.api.addr_validate(raw),
            AdminInit::SetInitialAdmin {
                admin: "xyz".to_string(),
            },
        )
        .unwrap();
}

#[test]
fn propose_new_admin_permissions() {
    let deps = mock_dependencies();
    let mut record: Option<AdminState> = None;
    let sender = Addr::unchecked("peter_parker");
    let admin = SecureAdmin::new("xyz");

    admin
        .initialize(
            &mut record,
            |raw: &str| deps.api.addr_validate(raw),
            AdminInit::SetInitialAdmin {
                admin: sender.to_string(),
            },
        )
        .unwrap();

    let bad_guy = Addr::unchecked("doc_oc");
    let info = mock_info(bad_guy.as_ref(), &[]);
    let err = admin
        .update(
            &mut record,
            |raw: &str| deps.api.addr_validate(raw),
            &info.sender,
            ProposeNewAdmin {
                proposed: bad_guy.to_string(),
            },
        )
        .unwrap_err();

    assert_eq!(err, SecureAdminError::NotAdmin {})
}

#[test]
fn clear_proposed_permissions() {
    let deps = mock_dependencies();
    let mut record: Option<AdminState> = None;
    let sender = Addr::unchecked("peter_parker");
    let info = mock_info(sender.as_ref(), &[]);
    let admin = SecureAdmin::new("xyz");

    admin
        .initialize(
            &mut record,
            |raw: &str| deps.api.addr_validate(raw),
            AdminInit::SetInitialAdmin {
                admin: sender.to_string(),
            },
        )
        .unwrap();
    admin
        .update(
            &mut record,
            |raw: &str| deps.api.addr_validate(raw),
            &info.sender,
            ProposeNewAdmin {
                proposed: "miles_morales".to_string(),
            },
        )
        .unwrap();

    let bad_guy = Addr::unchecked("doc_oc");
    let info = mock_info(bad_guy.as_ref(), &[]);
    let err = admin
        .update(
            &mut record,
            |raw: &str| deps.api.addr_validate(raw),
            &info.sender,
            ClearProposed,
        )
        .unwrap_err();

    assert_eq!(err, SecureAdminError::NotAdmin {})
}

#[test]
fn accept_proposed_permissions() {
    let deps = mock_dependencies();
    let mut record: Option<AdminState> = None;
    let sender = Addr::unchecked("peter_parker");
    let info = mock_info(sender.as_ref(), &[]);
    let admin = SecureAdmin::new("xyz");

    admin
        .initialize(
            &mut record,
            |raw: &str| deps.api.addr_validate(raw),
            AdminInit::SetInitialAdmin {
                admin: sender.to_string(),
            },
        )
        .unwrap();
    admin
        .update(
            &mut record,
            |raw: &str| deps.api.addr_validate(raw),
            &info.sender,
            ProposeNewAdmin {
                proposed: "miles_morales".to_string(),
            },
        )
        .unwrap();

    let bad_guy = Addr::unchecked("doc_oc");
    let info = mock_info(bad_guy.as_ref(), &[]);
    let err = admin
        .update(
            &mut record,
            |raw: &str| deps.api.addr_validate(raw),
            &info.sender,
            AcceptProposed,
        )
        .unwrap_err();

    assert_eq!(err, SecureAdminError::NotProposedAdmin {})
}

#[test]
fn abolish_admin_role_permissions() {
    let deps = mock_dependencies();
    let mut record: Option<AdminState> = None;
    let sender = Addr::unchecked("peter_parker");
    let admin = SecureAdmin::new("xyz");

    admin
        .initialize(
            &mut record,
            |raw: &str| deps.api.addr_validate(raw),
            AdminInit::SetInitialAdmin {
                admin: sender.to_string(),
            },
        )
        .unwrap();

    let bad_guy = Addr::unchecked("doc_oc");
    let info = mock_info(bad_guy.as_ref(), &[]);
    let err = admin
        .update(
            &mut record,
            |raw: &str| deps.api.addr_validate(raw),
            &info.sender,
            AbolishAdminRole,
        )
        .unwrap_err();

    assert_eq!(err, SecureAdminError::NotAdmin {})
}

//--------------------------------------------------------------------------------------------------
// Test success cases
//--------------------------------------------------------------------------------------------------

fn assert_uninitialized(record: &Option<AdminState>, admin: &SecureAdmin) {
    let state = admin.state(record);

    assert_eq!(state.abolished, false);
    assert_eq!(state.admin, None);
    assert_eq!(state.proposed, None);

    let current = admin.current(record);
    assert_eq!(current, None);

    let proposed = admin.proposed(record);
    assert_eq!(proposed, None);

    let res = admin.query(record);
    assert_eq!(
        res,
        SecureAdminResponse {
            admin: None,
            proposed: None
        }
    );
}

#[test]
fn uninitialized_state() {
    let record: Option<AdminState> = None;
    let admin = SecureAdmin::new("xyz");
    assert_uninitialized(&record, &admin);
}

#[test]
fn initialize_admin() {
    let deps = mock_dependencies();
    let mut record: Option<AdminState> = None;
    let original_admin = Addr::unchecked("peter_parker");
    let admin = SecureAdmin::new("xyz");

    admin
        .initialize(
            &mut record,
            |raw: &str| deps.api.addr_validate(raw),
            AdminInit::SetInitialAdmin {
                admin: original_admin.to_string(),
            },
        )
        .unwrap();

    let state = admin.state(&record);
    assert!(state.admin.is_some());
    assert!(state.proposed.is_none());
    assert_eq!(state.abolished, false);

    let current = admin.current(&record);
    assert_eq!(current, Some(original_admin.clone()));
    assert!(admin.is_admin(&record, &original_admin));

    let proposed = admin.proposed(&record);
    assert_eq!(proposed, None);

    let res = admin.query(&record);
    assert_eq!(
        res,
        SecureAdminResponse {
            admin: Some(original_admin.to_string()),
            proposed: None
        }
    );
}

#[test]
fn propose_new_admin() {
    let deps = mock_dependencies();
    let mut record: Option<AdminState> = None;
    let original_admin = Addr::unchecked("peter_parker");
    let proposed_admin = Addr::unchecked("miles_morales");
    let info = mock_info(original_admin.as_ref(), &[]);
    let admin = SecureAdmin::new("xyz");

    admin
        .initialize(
            &mut record,
            |raw: &str| deps.api.addr_validate(raw),
            AdminInit::SetInitialAdmin {
                admin: original_admin.to_string(),
            },
        )
        .unwrap();

    admin
        .update(
            &mut record,
            |raw: &str| deps.api.addr_validate(raw),
            &info.sender,
            ProposeNewAdmin {
                proposed: "miles_morales".to_string(),
            },
        )
        .unwrap();

    let state = admin.state(&record);
    assert!(state.admin.is_some());
    assert!(state.proposed.is_some());
    assert_eq!(state.abolished, false);

    let current = admin.current(&record);
    assert_eq!(current, Some(original_admin.clone()));
    assert!(admin.is_admin(&record, &original_admin));

    let proposed = admin.proposed(&record);
    assert_eq!(proposed, Some(proposed_admin.clone()));
    assert!(admin.is_proposed(&record, &proposed_admin));

    let res = admin.query(&record);
    assert_eq!(
        res,
        SecureAdminResponse {
            admin: Some(original_admin.to_string()),
            proposed: Some(proposed_admin.to_string())
        }
    );
}

#[test]
fn clear_proposed() {
    let deps = mock_dependencies();
    let mut record: Option<AdminState> = None;
    let original_admin = Addr::unchecked("peter_parker");
    let proposed_admin = Addr::unchecked("miles_morales");
    let info = mock_info(original_admin.as_ref(), &[]);
    let admin = SecureAdmin::new("xyz");

    admin
        .initialize(
            &mut record,
            |raw: &str| deps.api.addr_validate(raw),
            AdminInit::SetInitialAdmin {
                admin: original_admin.to_string(),
            },
        )
        .unwrap();

    admin
        .update(
            &mut record,
            |raw: &str| deps.api.addr_validate(raw),
            &info.sender,
            ProposeNewAdmin {
                proposed: "miles_morales".to_string(),
            },
        )
        .unwrap();

    admin
        .update(
            &mut record,
            |raw: &str| deps.api.addr_validate(raw),
            &info.sender,
            ClearProposed,
        )
        .unwrap();

    let state = admin.state(&record);
    assert!(state.admin.is_some());
    assert!(state.proposed.is_none());
    assert_eq!(state.abolished, false);

    let current = admin.current(&record);
    assert_eq!(current, Some(original_admin.clone()));
    assert!(admin.is_admin(&record, &original_admin));

    let proposed = admin.proposed(&record);
    assert_eq!(proposed, None);
    assert!(!admin.is_proposed(&record, &proposed_admin));

    let res = admin.query(&record);
    assert_eq!(
        res,
        SecureAdminResponse {
            admin: Some(original_admin.to_string()),
            proposed: None
        }
    );
}

#[test]
fn accept_proposed() {
    let deps = mock_dependencies();
    let mut record: Option<AdminState> = None;
    let original_admin = Addr::unchecked("peter_parker");
    let proposed_admin = Addr::unchecked("miles_morales");
    let info = mock_info(original_admin.as_ref(), &[]);
    let admin = SecureAdmin::new("xyz");

    admin
        .initialize(
            &mut record,
            |raw: &str| deps.api.addr_validate(raw),
            AdminInit::SetInitialAdmin {
                admin: original_admin.to_string(),
            },
        )
        .unwrap();

    admin
        .update(
            &mut record,
            |raw: &str| deps.api.addr_validate(raw),
            &info.sender,
            ProposeNewAdmin {
                proposed: "miles_morales".to_string(),
            },
        )
        .unwrap();

    let info = mock_info(proposed_admin.as_ref(), &[]);
    admin
        .update(
            &mut record,
            |raw: &str| deps.api.addr_validate(raw),
            &info.sender,
            AcceptProposed,
        )
        .unwrap();

    let state = admin.state(&record);
    assert!(state.admin.is_some());
    assert!(state.proposed.is_none());
    assert_eq!(state.abolished, false);

    let current = admin.current(&record);
    assert_eq!(current, Some(proposed_admin.clone()));
    assert!(admin.is_admin(&record, &proposed_admin));

    let proposed = admin.proposed(&record);
    assert_eq!(proposed, None);
    assert!(!admin.is_proposed(&record, &proposed_admin));

    let res = admin.query(&record);
    assert_eq!(
        res,
        SecureAdminResponse {
            admin: Some(proposed_admin.to_string()),
            proposed: None
        }
    );
}

#[test]
fn abolish_admin_role() {
    let deps = mock_dependencies();
    let mut record: Option<AdminState> = None;
    let original_admin = Addr::unchecked("peter_parker");
    let info = mock_info(original_admin.as_ref(), &[]);
    let admin = SecureAdmin::new("xyz");

    admin
        .initialize(
            &mut record,
            |raw: &str| deps.api.addr_validate(raw),
            AdminInit::SetInitialAdmin {
                admin: original_admin.to_string(),
            },
        )
        .unwrap();

    admin
        .update(
            &mut record,
            |raw: &str| deps.api.addr_validate(raw),
            &info.sender,
            AbolishAdminRole,
        )
        .unwrap();

    let state = admin.state(&record);
    assert!(state.admin.is_none());
    assert!(state.proposed.is_none());
    assert_eq!(state.abolished, true);

    let current = admin.current(&record);
    assert_eq!(current, None);
    assert!(!admin.is_admin(&record, &original_admin));

    let proposed = admin.proposed(&record);
    assert_eq!(proposed, None);
    assert!(!admin.is_proposed(&record, &original_admin));

    let res = admin.query(&record);
    assert_eq!(
        res,
        SecureAdminResponse {
            admin: None,
            proposed: None
        }
    );
}
