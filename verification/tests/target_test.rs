use telepair::target::{substitute_env_vars, TargetKind};

#[test]
fn missing_env_var_kept_as_is() {
    let result = substitute_env_vars("${DEFINITELY_NOT_SET_XYZ}", &Vec::new());
    assert_eq!(result, "${DEFINITELY_NOT_SET_XYZ}");
}

#[test]
fn known_env_var_is_substituted() {
    let env = vec![("TEST_VAR_TELEPAIR".to_string(), "secret123".to_string())];
    let result = substitute_env_vars("prefix_${TEST_VAR_TELEPAIR}_suffix", &env);
    assert_eq!(result, "prefix_secret123_suffix");
}

#[test]
fn unterminated_reference_runs_to_the_end() {
    let env = vec![("A".to_string(), "x".to_string())];
    assert_eq!(substitute_env_vars("pre ${A", &env), "pre x");
    assert_eq!(substitute_env_vars("pre ${B", &env), "pre ${B}");
}

#[test]
fn first_of_duplicate_names_wins_and_plain_dollar_stays() {
    let env = vec![
        ("A".to_string(), "one".to_string()),
        ("A".to_string(), "two".to_string()),
    ];
    assert_eq!(substitute_env_vars("${A}-$A-$", &env), "one-$A-$");
}

#[test]
fn target_kind_defaults_to_virtual() {
    assert_eq!(TargetKind::default(), TargetKind::Virtual);
}
