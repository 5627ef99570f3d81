use serde_yaml::Value;
use telepair::error::Error;
use telepair::target::{Target, TargetConfig, TargetKind};
use telepair::virtual_target::TargetEngine;

const TEST_CONFIG: &str = r#"
targets:
  - name: test-echo
    display: "Test Echo"
    command: echo
    args: ["hello", "world"]
    tags: [test]

  - name: local-shell
    display: "Local Shell"
    type: local
"#;

fn scalar(v: &Value) -> Option<String> {
    match v {
        Value::String(s) => Some(s.clone()),
        Value::Bool(b) => Some(b.to_string()),
        Value::Number(n) => Some(n.to_string()),
        _ => None,
    }
}

fn strings(v: Option<&Value>) -> Vec<String> {
    match v {
        Some(Value::Sequence(items)) => items.iter().filter_map(scalar).collect(),
        _ => Vec::new(),
    }
}

fn target_from(v: &Value) -> Target {
    let field = |k: &str| v.get(k).and_then(scalar);
    let env = match v.get("env") {
        Some(Value::Mapping(m)) => m
            .iter()
            .filter_map(|(k, val)| Some((scalar(k)?, scalar(val)?)))
            .collect(),
        _ => Vec::new(),
    };
    Target {
        name: field("name").unwrap_or_default(),
        display: field("display").unwrap_or_default(),
        kind: match field("type").as_deref() {
            Some("local") => TargetKind::Local,
            _ => TargetKind::Virtual,
        },
        command: field("command"),
        args: strings(v.get("args")),
        env,
        tags: strings(v.get("tags")),
        admin_only: v.get("admin_only").and_then(|b| b.as_bool()).unwrap_or(false),
        shell: field("shell"),
    }
}

/// Reads a targets file the way the server does, then builds the engine.
fn engine_from_yaml(yaml: &str) -> Result<TargetEngine, Error> {
    let doc: Value = serde_yaml::from_str(yaml).map_err(|e| Error::Yaml(e.to_string()))?;
    let targets = match doc.get("targets") {
        Some(Value::Sequence(items)) => items.iter().map(target_from).collect(),
        _ => Vec::new(),
    };
    TargetEngine::from_config(TargetConfig { targets })
}

fn no_env() -> Vec<(String, String)> {
    Vec::new()
}

#[test]
fn load_targets_from_yaml() {
    let engine = engine_from_yaml(TEST_CONFIG).unwrap();
    let targets = engine.list_targets();
    assert_eq!(targets.len(), 2);
    assert_eq!(targets[0].name, "test-echo");
    assert_eq!(targets[1].name, "local-shell");
}

#[test]
fn resolve_virtual_target() {
    let engine = engine_from_yaml(TEST_CONFIG).unwrap();
    let (cmd, args, env) = engine.resolve("test-echo", &no_env()).unwrap();
    assert_eq!(cmd, "echo");
    assert_eq!(args, vec!["hello", "world"]);
    assert!(env.is_empty());
}

#[test]
fn resolve_local_shell() {
    let engine = engine_from_yaml(TEST_CONFIG).unwrap();
    let (cmd, args, env) = engine.resolve("local-shell", &no_env()).unwrap();
    assert!(!cmd.is_empty());
    assert!(args.is_empty());
    assert!(env.is_empty());
}

#[test]
fn unknown_target_returns_none() {
    let engine = engine_from_yaml(TEST_CONFIG).unwrap();
    assert!(engine.resolve("nonexistent", &no_env()).is_none());
}

#[test]
fn default_local_shell_always_present() {
    let engine = TargetEngine::empty();
    let targets = engine.list_targets();
    assert_eq!(targets.len(), 1);
    assert_eq!(targets[0].name, "local-shell");
}

#[test]
fn duplicate_target_names_rejected() {
    let yaml = r#"
targets:
  - name: dup
    display: First
    command: echo
  - name: dup
    display: Second
    command: printf
"#;
    let err = engine_from_yaml(yaml).unwrap_err();
    let msg = err.describe();
    assert!(
        msg.contains("duplicate name"),
        "expected duplicate error, got: {msg}"
    );
    assert!(msg.contains("dup"), "error should name the duplicate: {msg}");
}

#[test]
fn multiple_duplicate_names_all_reported() {
    let yaml = r#"
targets:
  - name: alpha
    display: A1
    command: echo
  - name: beta
    display: B1
    command: echo
  - name: alpha
    display: A2
    command: echo
  - name: beta
    display: B2
    command: echo
"#;
    let err = engine_from_yaml(yaml).unwrap_err();
    let msg = err.describe();
    assert!(msg.contains("alpha"), "should mention alpha: {msg}");
    assert!(msg.contains("beta"), "should mention beta: {msg}");
}

#[test]
fn unique_names_accepted() {
    let yaml = r#"
targets:
  - name: one
    display: One
    command: echo
  - name: two
    display: Two
    command: printf
"#;
    let engine = engine_from_yaml(yaml).unwrap();
    assert!(engine.find("one").is_some());
    assert!(engine.find("two").is_some());
}

#[test]
fn virtual_target_missing_command_rejected() {
    let yaml = r#"
targets:
  - name: no-cmd
    display: "No Command"
"#;
    let err = engine_from_yaml(yaml).unwrap_err();
    let msg = err.describe();
    assert!(msg.contains("requires a command"), "got: {msg}");
    assert!(msg.contains("no-cmd"), "should name the target: {msg}");
}

#[test]
fn virtual_target_empty_command_rejected() {
    let yaml = r#"
targets:
  - name: empty-cmd
    display: "Empty"
    command: ""
"#;
    let err = engine_from_yaml(yaml).unwrap_err();
    let msg = err.describe();
    assert!(msg.contains("command is blank"), "got: {msg}");
}

#[test]
fn virtual_target_whitespace_command_rejected() {
    let yaml = r#"
targets:
  - name: ws-cmd
    display: "Whitespace"
    command: "   "
"#;
    let err = engine_from_yaml(yaml).unwrap_err();
    let msg = err.describe();
    assert!(msg.contains("command is blank"), "got: {msg}");
}

#[test]
fn empty_name_rejected() {
    let yaml = r#"
targets:
  - name: ""
    display: "Has Display"
    command: echo
"#;
    let err = engine_from_yaml(yaml).unwrap_err();
    let msg = err.describe();
    assert!(msg.contains("name is empty"), "got: {msg}");
}

#[test]
fn empty_display_rejected() {
    let yaml = r#"
targets:
  - name: no-display
    display: ""
    command: echo
"#;
    let err = engine_from_yaml(yaml).unwrap_err();
    let msg = err.describe();
    assert!(msg.contains("display is empty"), "got: {msg}");
}

#[test]
fn local_target_without_command_accepted() {
    let yaml = r#"
targets:
  - name: my-shell
    display: "My Shell"
    type: local
"#;
    let engine = engine_from_yaml(yaml).unwrap();
    assert!(engine.find("my-shell").is_some());
}

#[test]
fn virtual_target_named_local_shell_rejected() {
    let yaml = r#"
targets:
  - name: local-shell
    display: "Fake Shell"
    command: echo
"#;
    let err = engine_from_yaml(yaml).unwrap_err();
    let msg = err.describe();
    assert!(
        msg.contains("duplicate name"),
        "virtual target shadowing built-in local-shell should be rejected: {msg}"
    );
}

const OLD_YAML: &str = r#"
targets:
  - name: keep-same
    display: Keep Same
    command: echo
  - name: will-change
    display: Old Display
    command: old-cmd
  - name: will-remove
    display: Remove Me
    command: rm
"#;

const NEW_YAML: &str = r#"
targets:
  - name: keep-same
    display: Keep Same
    command: echo
  - name: will-change
    display: New Display
    command: new-cmd
  - name: brand-new
    display: Brand New
    command: true
"#;

#[test]
fn diff_detects_added_removed_changed_unchanged() {
    let old = engine_from_yaml(OLD_YAML).unwrap();
    let new = engine_from_yaml(NEW_YAML).unwrap();
    let diff = old.diff(&new);

    assert_eq!(diff.added, vec!["brand-new"]);
    assert_eq!(diff.removed, vec!["will-remove"]);
    assert_eq!(diff.changed, vec!["will-change"]);
    assert_eq!(diff.unchanged, vec!["keep-same", "local-shell"]);
}

#[test]
fn diff_empty_to_populated() {
    let old = TargetEngine::empty();
    let new = engine_from_yaml(NEW_YAML).unwrap();
    let diff = old.diff(&new);

    assert!(diff.removed.is_empty());
    assert_eq!(diff.added, vec!["brand-new", "keep-same", "will-change"]);
    assert!(diff.changed.is_empty());
    assert_eq!(diff.unchanged, vec!["local-shell"]);
}

#[test]
fn multiple_validation_errors_all_reported() {
    let yaml = r#"
targets:
  - name: ""
    display: "No Name"
    command: echo
  - name: blank-cmd
    display: ""
    command: "  "
"#;
    let err = engine_from_yaml(yaml).unwrap_err();
    let msg = err.describe();
    assert!(msg.contains("name is empty"), "should flag empty name: {msg}");
    assert!(msg.contains("display is empty"), "should flag empty display: {msg}");
    assert!(msg.contains("command is blank"), "should flag blank command: {msg}");
}

#[test]
fn diff_of_engine_with_itself_is_all_unchanged() {
    let a = engine_from_yaml(OLD_YAML).unwrap();
    let b = engine_from_yaml(OLD_YAML).unwrap();
    let diff = a.diff(&b);
    assert!(diff.added.is_empty());
    assert!(diff.removed.is_empty());
    assert!(diff.changed.is_empty());
    assert_eq!(diff.unchanged, vec!["keep-same", "local-shell", "will-change", "will-remove"]);
}

#[test]
fn resolve_substitutes_from_given_environment() {
    let yaml = r#"
targets:
  - name: db
    display: DB
    command: psql
    args: ["-h", "${DB_HOST}", "$PORT"]
    env:
      PGPASSWORD: "${DB_PASS}"
"#;
    let engine = engine_from_yaml(yaml).unwrap();
    let env = vec![
        ("DB_HOST".to_string(), "db.internal".to_string()),
        ("DB_PASS".to_string(), "s3cret".to_string()),
    ];
    let (cmd, args, vars) = engine.resolve("db", &env).unwrap();
    assert_eq!(cmd, "psql");
    assert_eq!(args, vec!["-h", "db.internal", "$PORT"]);
    assert_eq!(vars, vec![("PGPASSWORD".to_string(), "s3cret".to_string())]);
}

#[test]
fn local_shell_uses_shell_variable_when_set() {
    let engine = TargetEngine::empty();
    let env = vec![("SHELL".to_string(), "/bin/zsh".to_string())];
    let (cmd, _, _) = engine.resolve("local-shell", &env).unwrap();
    assert_eq!(cmd, "/bin/zsh");
    let (cmd, _, _) = engine.resolve("local-shell", &Vec::new()).unwrap();
    assert_eq!(cmd, "/bin/sh");
}
