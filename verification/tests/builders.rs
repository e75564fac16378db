use builder::assemble::AssemblyError;
use builder::command::Command;
use builder::config::Config;

#[test]
fn command_round_trip_with_all_required_fields() {
    let cmd = Command::builder()
        .executable("cargo".to_string())
        .args(vec!["build".to_string(), "--release".to_string()])
        .env(vec!["RUST_LOG=info".to_string()])
        .build()
        .ok()
        .unwrap();
    assert_eq!(cmd.executable, "cargo");
    assert_eq!(cmd.args, vec!["build".to_string(), "--release".to_string()]);
    assert_eq!(cmd.env, vec!["RUST_LOG=info".to_string()]);
    assert_eq!(cmd.current_dir, None);
}

#[test]
fn command_build_reports_first_missing_field() {
    let err = Command::builder().build().err().unwrap();
    assert_eq!(err, AssemblyError::MissingField("executable".to_string()));

    let err = Command::builder()
        .executable("ls".to_string())
        .build()
        .err()
        .unwrap();
    assert_eq!(err, AssemblyError::MissingField("args".to_string()));

    let err = Command::builder()
        .executable("ls".to_string())
        .args(vec![])
        .build()
        .err()
        .unwrap();
    assert_eq!(err, AssemblyError::MissingField("env".to_string()));
}

#[test]
fn command_optional_field_passes_through() {
    let cmd = Command::builder()
        .executable("ls".to_string())
        .args(vec![])
        .env(vec![])
        .current_dir("/tmp".to_string())
        .build()
        .ok()
        .unwrap();
    assert_eq!(cmd.current_dir, Some("/tmp".to_string()));
}

#[test]
fn command_setter_overwrites_previous_value() {
    let cmd = Command::builder()
        .executable("first".to_string())
        .executable("second".to_string())
        .args(vec!["a".to_string()])
        .args(vec!["b".to_string()])
        .env(vec![])
        .build()
        .ok()
        .unwrap();
    assert_eq!(cmd.executable, "second");
    assert_eq!(cmd.args, vec!["b".to_string()]);
}

#[test]
fn config_name_only_yields_absent_retries() {
    let cfg = Config::builder().name("build".to_string()).build().ok().unwrap();
    assert_eq!(cfg.name, "build");
    assert_eq!(cfg.retries, None);
}

#[test]
fn config_build_without_name_fails() {
    let err = Config::builder().build().err().unwrap();
    assert_eq!(err, AssemblyError::MissingField("name".to_string()));
    // The optional field's setter alone does not complete the builder.
    let err = Config::builder().retries(7).build().err().unwrap();
    assert_eq!(err, AssemblyError::MissingField("name".to_string()));
}

#[test]
fn config_retries_set_twice_keeps_the_last_value() {
    let cfg = Config::builder()
        .name("x".to_string())
        .retries(3)
        .retries(5)
        .build()
        .ok()
        .unwrap();
    assert_eq!(cfg.name, "x");
    assert_eq!(cfg.retries, Some(5));
}

#[test]
fn config_retries_setter_takes_the_bare_inner_value() {
    // The builder field collapses Option<u32> to a single optional level:
    // the setter takes u32 itself, and the result wraps it once.
    let cfg = Config::builder()
        .name("x".to_string())
        .retries(3u32)
        .build()
        .ok()
        .unwrap();
    assert_eq!(cfg.retries, Some(3u32));
}
