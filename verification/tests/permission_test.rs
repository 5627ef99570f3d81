use telepair::permission::Role;

#[test]
fn owner_can_input_and_resize() {
    let role = Role::Owner;
    assert!(role.can_input());
    assert!(role.can_resize());
}

#[test]
fn operator_can_input_and_resize() {
    let role = Role::Operator;
    assert!(role.can_input());
    assert!(role.can_resize());
}

#[test]
fn viewer_is_read_only() {
    let role = Role::Viewer;
    assert!(!role.can_input());
    assert!(!role.can_resize());
}

#[test]
fn role_display() {
    assert_eq!(Role::Owner.as_str(), "owner");
    assert_eq!(Role::Operator.as_str(), "operator");
    assert_eq!(Role::Viewer.as_str(), "viewer");
}

#[test]
fn only_owner_manages_and_closes() {
    assert!(Role::Owner.can_manage_participants());
    assert!(Role::Owner.can_close_session());
    assert!(!Role::Operator.can_manage_participants());
    assert!(!Role::Operator.can_close_session());
    assert!(!Role::Viewer.can_manage_participants());
    assert!(!Role::Viewer.can_close_session());
}

#[test]
fn role_name_round_trips() {
    for r in [Role::Owner, Role::Operator, Role::Viewer] {
        assert_eq!(Role::parse(r.as_str()), Some(r));
    }
    assert_eq!(Role::parse("Owner"), None);
    assert_eq!(Role::parse(""), None);
}
