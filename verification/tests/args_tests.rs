use secops_endpoint_ui::args::{parse_args, select_mode, LaunchEnv, Mode};

fn no_env() -> LaunchEnv {
    LaunchEnv { mode: None, session_id: None, chat_socket: None, admin_name: None }
}

fn argv(items: &[&str]) -> Vec<String> {
    items.iter().map(|s| s.to_string()).collect()
}

#[test]
fn defaults_without_arguments() {
    let a = parse_args(&argv(&[]), &no_env());
    assert_eq!(a.mode, "");
    assert_eq!(a.admin_name, "IT Support");
    assert_eq!(a.timeout, 30);
    assert_eq!(a.session_id, "");
    assert_eq!(a.chat_socket, "");
}

#[test]
fn named_arguments_set_settings() {
    let a = parse_args(
        &argv(&["--mode=session", "--admin-name=Dana", "--timeout=45", "--session-id=abc", "--chat-socket=localhost:9765", "--bogus=1", "stray"]),
        &no_env(),
    );
    assert_eq!(a.mode, "session");
    assert_eq!(a.admin_name, "Dana");
    assert_eq!(a.timeout, 45);
    assert_eq!(a.session_id, "abc");
    assert_eq!(a.chat_socket, "localhost:9765");
}

#[test]
fn bad_or_zero_timeout_becomes_default() {
    assert_eq!(parse_args(&argv(&["--timeout=abc"]), &no_env()).timeout, 30);
    assert_eq!(parse_args(&argv(&["--timeout=0"]), &no_env()).timeout, 30);
    assert_eq!(parse_args(&argv(&["--timeout=-5"]), &no_env()).timeout, 30);
    assert_eq!(parse_args(&argv(&["--timeout=+12"]), &no_env()).timeout, 12);
}

#[test]
fn later_arguments_win() {
    let a = parse_args(&argv(&["--mode=consent", "--mode=session"]), &no_env());
    assert_eq!(a.mode, "session");
}

#[test]
fn environment_fills_what_arguments_leave_empty() {
    let env = LaunchEnv {
        mode: Some("consent".to_string()),
        session_id: Some("env-id".to_string()),
        chat_socket: Some("127.0.0.1:1".to_string()),
        admin_name: Some("".to_string()),
    };
    let a = parse_args(&argv(&["--session-id=arg-id"]), &env);
    assert_eq!(a.mode, "consent");
    assert_eq!(a.session_id, "arg-id");
    assert_eq!(a.chat_socket, "127.0.0.1:1");
    assert_eq!(a.admin_name, "IT Support");
}

#[test]
fn admin_name_argument_wins_over_environment() {
    let env = LaunchEnv { admin_name: Some("Env Admin".to_string()), ..no_env() };
    let a = parse_args(&argv(&["--admin-name=Arg Admin"]), &env);
    assert_eq!(a.admin_name, "Arg Admin");
}

#[test]
fn admin_name_from_environment_fills_a_missing_argument() {
    let env = LaunchEnv { admin_name: Some("Env Admin".to_string()), ..no_env() };
    let a = parse_args(&argv(&["--timeout=10"]), &env);
    assert_eq!(a.admin_name, "Env Admin");
    assert_eq!(a.timeout, 10);
}

#[test]
fn empty_admin_name_argument_still_counts_as_given() {
    let env = LaunchEnv { admin_name: Some("Env Admin".to_string()), ..no_env() };
    let a = parse_args(&argv(&["--admin-name="]), &env);
    assert_eq!(a.admin_name, "");
}

#[test]
fn modes() {
    assert_eq!(select_mode("consent"), Mode::Consent);
    assert_eq!(select_mode("session"), Mode::Session);
    assert_eq!(select_mode(""), Mode::Usage);
    assert_eq!(select_mode("Consent"), Mode::Usage);
}
