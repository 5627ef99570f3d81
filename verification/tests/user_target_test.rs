use telepair::error::Error;
use telepair::session::{UserId, UserTarget};
use telepair::user_target_service::{
    check_mutation, create_request, name_taken, resolve_by_id, validate_update, CreateTargetParams,
    UpdateTargetParams,
};

fn create(name: &str, display: &str, command: &str) -> CreateTargetParams {
    CreateTargetParams {
        name: name.to_string(),
        display: display.to_string(),
        command: command.to_string(),
        args: vec!["user@host".to_string()],
        env: Vec::new(),
        tags: Vec::new(),
    }
}

fn target(id: &str, owner: u128) -> UserTarget {
    UserTarget {
        id: id.to_string(),
        user_id: UserId(owner),
        name: "srv".to_string(),
        display: "Srv".to_string(),
        command: "ssh".to_string(),
        args: vec!["-p".to_string(), "${PORT}".to_string(), "host".to_string()],
        env: vec![("HOST".to_string(), "${HOSTNAME}".to_string())],
        tags: Vec::new(),
        created_at: 0,
        updated_at: 0,
    }
}

fn invalid(r: Result<(), Error>) -> String {
    match r {
        Err(Error::InvalidInput(m)) => m,
        other => panic!("unexpected {other:?}"),
    }
}

#[test]
fn create_requires_name_display_and_command() {
    let ok = create_request(UserId(1), create("vps", "My VPS", "ssh")).unwrap();
    assert_eq!(ok.user_id, UserId(1));
    assert_eq!(ok.name, "vps");
    assert_eq!(ok.command, "ssh");
    assert_eq!(ok.args, vec!["user@host"]);
    for (p, msg) in [
        (create("  ", "d", "c"), "name is required"),
        (create("n", "", "c"), "display is required"),
        (create("n", "d", "\t"), "command is required"),
        (create("", "", ""), "name is required"),
    ] {
        match create_request(UserId(1), p) {
            Err(Error::InvalidInput(m)) => assert_eq!(m, msg),
            other => panic!("unexpected {other:?}"),
        }
    }
}

#[test]
fn update_requires_display_and_command() {
    let p = UpdateTargetParams {
        display: " ".to_string(),
        command: "ssh".to_string(),
        args: Vec::new(),
        env: Vec::new(),
        tags: Vec::new(),
    };
    assert_eq!(invalid(validate_update(&p)), "display is required");
    let p = UpdateTargetParams { display: "D".to_string(), command: String::new(), ..p };
    assert_eq!(invalid(validate_update(&p)), "command is required");
}

#[test]
fn only_the_owner_changes_an_idle_target() {
    let t = Some(target("t1", 1));
    assert!(check_mutation("t1", &t, UserId(1), false).is_ok());
    match check_mutation("t1", &t, UserId(2), false) {
        Err(Error::PermissionDenied(m)) => {
            assert_eq!(m, "target t1 not found or not owned by caller")
        }
        other => panic!("unexpected {other:?}"),
    }
    match check_mutation("t1", &t, UserId(1), true) {
        Err(Error::Conflict(m)) => assert_eq!(
            m,
            "target t1 is in use by an active session; close the session first"
        ),
        other => panic!("unexpected {other:?}"),
    }
    assert!(matches!(
        check_mutation("t1", &None, UserId(1), false),
        Err(Error::PermissionDenied(_))
    ));
    assert!(matches!(name_taken("vps"), Error::Conflict(m) if m == "target name 'vps' already exists"));
}

#[test]
fn resolve_by_id_applies_env_substitution() {
    let env = vec![
        ("PORT".to_string(), "2222".to_string()),
        ("HOSTNAME".to_string(), "box".to_string()),
    ];
    let (cmd, args, vars) = resolve_by_id(&Some(target("t1", 1)), &env).unwrap();
    assert_eq!(cmd, "ssh");
    assert_eq!(args, vec!["-p", "2222", "host"]);
    assert_eq!(vars, vec![("HOST".to_string(), "box".to_string())]);
    assert!(resolve_by_id(&None, &env).is_none());
}
