use vstd::prelude::*;

use crate::text::{parse_u64, parse_u64_spec, str_equal, strip_prefix, strip_prefix_spec};

verus! {

/// The launch settings: which window to show and what to show in it.
pub struct Args {
    pub mode: String,
    pub admin_name: String,
    pub timeout: u64,
    pub session_id: String,
    pub chat_socket: String,
}

/// The launch settings as plain text values.
pub struct ArgsView {
    pub mode: Seq<char>,
    pub admin_name: Seq<char>,
    pub timeout: u64,
    pub session_id: Seq<char>,
    pub chat_socket: Seq<char>,
}

impl View for Args {
    type V = ArgsView;

    open spec fn view(&self) -> ArgsView {
        ArgsView {
            mode: self.mode@,
            admin_name: self.admin_name@,
            timeout: self.timeout,
            session_id: self.session_id@,
            chat_socket: self.chat_socket@,
        }
    }
}

/// The environment variables that stand in for missing arguments, each as
/// read (`None` where unset or not valid Unicode).
pub struct LaunchEnv {
    /// `SECOPS_MODE`
    pub mode: Option<String>,
    /// `SECOPS_SESSION_ID`
    pub session_id: Option<String>,
    /// `SECOPS_CHAT_SOCKET`
    pub chat_socket: Option<String>,
    /// `SECOPS_ADMIN_NAME`
    pub admin_name: Option<String>,
}

/// The environment variables as plain text values.
pub struct LaunchEnvView {
    pub mode: Option<Seq<char>>,
    pub session_id: Option<Seq<char>>,
    pub chat_socket: Option<Seq<char>>,
    pub admin_name: Option<Seq<char>>,
}

/// The text of an optional string.
pub open spec fn opt_view(o: Option<String>) -> Option<Seq<char>> {
    match o {
        Some(s) => Some(s@),
        None => None,
    }
}

impl View for LaunchEnv {
    type V = LaunchEnvView;

    open spec fn view(&self) -> LaunchEnvView {
        LaunchEnvView {
            mode: opt_view(self.mode),
            session_id: opt_view(self.session_id),
            chat_socket: opt_view(self.chat_socket),
            admin_name: opt_view(self.admin_name),
        }
    }
}

/// The session timeout, in seconds, when none (or zero, or no number) is
/// given.
pub open spec fn default_timeout() -> u64 {
    30
}

/// The settings before any argument is read.
pub open spec fn default_args_spec() -> ArgsView {
    ArgsView {
        mode: Seq::empty(),
        admin_name: "IT Support"@,
        timeout: 30,
        session_id: Seq::empty(),
        chat_socket: Seq::empty(),
    }
}

/// The settings after one more argument: a `--name=value` argument with a
/// known name sets that setting, anything else is ignored. A timeout that is
/// not a number becomes the default.
pub open spec fn apply_arg_spec(a: ArgsView, raw: Seq<char>) -> ArgsView {
    if let Some(v) = strip_prefix_spec(raw, "--mode="@) {
        ArgsView { mode: v, ..a }
    } else if let Some(v) = strip_prefix_spec(raw, "--admin-name="@) {
        ArgsView { admin_name: v, ..a }
    } else if let Some(v) = strip_prefix_spec(raw, "--timeout="@) {
        ArgsView {
            timeout: match parse_u64_spec(v) {
                Some(t) => t,
                None => 30,
            },
            ..a
        }
    } else if let Some(v) = strip_prefix_spec(raw, "--session-id="@) {
        ArgsView { session_id: v, ..a }
    } else if let Some(v) = strip_prefix_spec(raw, "--chat-socket="@) {
        ArgsView { chat_socket: v, ..a }
    } else {
        a
    }
}

/// The settings after the arguments `argv`, read in order.
pub open spec fn args_from_argv(argv: Seq<Seq<char>>) -> ArgsView
    decreases argv.len(),
{
    if argv.len() == 0 {
        default_args_spec()
    } else {
        apply_arg_spec(args_from_argv(argv.drop_last()), argv.last())
    }
}

/// Whether the argument `raw` sets the technician's name.
pub open spec fn sets_admin_name(raw: Seq<char>) -> bool {
    strip_prefix_spec(raw, "--mode="@) is None && strip_prefix_spec(raw, "--admin-name="@) is Some
}

/// Whether any of the arguments `argv` sets the technician's name.
pub open spec fn admin_name_given(argv: Seq<Seq<char>>) -> bool
    decreases argv.len(),
{
    if argv.len() == 0 {
        false
    } else {
        admin_name_given(argv.drop_last()) || sets_admin_name(argv.last())
    }
}

/// The settings once the environment has filled in what the arguments left
/// unset: the window, session and chat address where they are empty, and
/// the technician's name, from a non-empty `SECOPS_ADMIN_NAME`, where no
/// argument gave it (`admin_given`).
pub open spec fn with_env_spec(a: ArgsView, env: LaunchEnvView, admin_given: bool) -> ArgsView {
    ArgsView {
        mode: if a.mode.len() == 0 && env.mode is Some {
            env.mode.unwrap()
        } else {
            a.mode
        },
        session_id: if a.session_id.len() == 0 && env.session_id is Some {
            env.session_id.unwrap()
        } else {
            a.session_id
        },
        chat_socket: if a.chat_socket.len() == 0 && env.chat_socket is Some {
            env.chat_socket.unwrap()
        } else {
            a.chat_socket
        },
        admin_name: if !admin_given && env.admin_name is Some && env.admin_name.unwrap().len() > 0 {
            env.admin_name.unwrap()
        } else {
            a.admin_name
        },
        timeout: a.timeout,
    }
}

/// The launch settings for the arguments `argv` (without the program name)
/// and the environment `env`; a timeout of zero becomes the default.
pub open spec fn parse_args_spec(argv: Seq<Seq<char>>, env: LaunchEnvView) -> ArgsView {
    let a = with_env_spec(args_from_argv(argv), env, admin_name_given(argv));
    if a.timeout == 0 {
        ArgsView { timeout: 30, ..a }
    } else {
        a
    }
}

/// The texts of a list of strings.
pub open spec fn texts(v: Seq<String>) -> Seq<Seq<char>> {
    v.map_values(|s: String| s@)
}

fn take_env(v: &Option<String>) -> (r: Option<String>)
    ensures
        opt_view(r) == opt_view(*v),
{
    match v {
        Some(s) => Some(s.clone()),
        None => None,
    }
}

/// Reads the launch settings from the arguments `argv` (without the program
/// name) and, for what they leave unset, from the environment `env`.
pub fn parse_args(argv: &Vec<String>, env: &LaunchEnv) -> (a: Args)
    ensures
        a@ == parse_args_spec(texts(argv@), env@),
{
    let mut a = Args {
        mode: String::new(),
        admin_name: "IT Support".to_owned(),
        timeout: 30,
        session_id: String::new(),
        chat_socket: String::new(),
    };
    let ghost all = texts(argv@);
    let mut i: usize = 0;
    let mut admin_given = false;
    assert(all.take(0) =~= Seq::<Seq<char>>::empty());
    while i < argv.len()
        invariant
            i <= argv.len(),
            all == texts(argv@),
            a@ == args_from_argv(all.take(i as int)),
            admin_given == admin_name_given(all.take(i as int)),
        decreases argv.len() - i,
    {
        let raw: &str = argv[i].as_str();
        assert(all.take(i + 1).drop_last() =~= all.take(i as int));
        assert(all.take(i + 1).last() == raw@);
        if let Some(v) = strip_prefix(raw, "--mode=") {
            a.mode = v.to_owned();
        } else if let Some(v) = strip_prefix(raw, "--admin-name=") {
            a.admin_name = v.to_owned();
            admin_given = true;
        } else if let Some(v) = strip_prefix(raw, "--timeout=") {
            a.timeout = match parse_u64(v) {
                Some(t) => t,
                None => 30,
            };
        } else if let Some(v) = strip_prefix(raw, "--session-id=") {
            a.session_id = v.to_owned();
        } else if let Some(v) = strip_prefix(raw, "--chat-socket=") {
            a.chat_socket = v.to_owned();
        }
        assert(a@ == args_from_argv(all.take(i + 1)));
        i = i + 1;
    }
    assert(all.take(argv.len() as int) =~= all);
    if a.mode.as_str().unicode_len() == 0 {
        if let Some(v) = take_env(&env.mode) {
            a.mode = v;
        }
    }
    if a.session_id.as_str().unicode_len() == 0 {
        if let Some(v) = take_env(&env.session_id) {
            a.session_id = v;
        }
    }
    if a.chat_socket.as_str().unicode_len() == 0 {
        if let Some(v) = take_env(&env.chat_socket) {
            a.chat_socket = v;
        }
    }
    if !admin_given {
        if let Some(v) = take_env(&env.admin_name) {
            if v.as_str().unicode_len() > 0 {
                a.admin_name = v;
            }
        }
    }
    if a.timeout == 0 {
        a.timeout = 30;
    }
    a
}

/// An `--admin-name=` argument wins over `SECOPS_ADMIN_NAME`: the
/// environment is only a fall-back for a name no argument gave.
pub proof fn lemma_admin_argument_wins(argv: Seq<Seq<char>>, env: LaunchEnvView)
    ensures
        admin_name_given(argv) ==> parse_args_spec(argv, env).admin_name == args_from_argv(
            argv,
        ).admin_name,
        !admin_name_given(argv) ==> args_from_argv(argv).admin_name == "IT Support"@,
    decreases argv.len(),
{
    if argv.len() > 0 {
        lemma_admin_argument_wins(argv.drop_last(), env);
    }
}

/// A window, session or chat address given by an argument wins over the
/// environment: a non-empty `--mode=`, `--session-id=` or `--chat-socket=`
/// value is kept whatever `SECOPS_MODE`, `SECOPS_SESSION_ID` or
/// `SECOPS_CHAT_SOCKET` say, and an empty or missing one is filled from the
/// environment where it is set.
pub proof fn lemma_arguments_win_over_env(argv: Seq<Seq<char>>, env: LaunchEnvView)
    ensures
        args_from_argv(argv).mode.len() > 0 ==> parse_args_spec(argv, env).mode
            == args_from_argv(argv).mode,
        args_from_argv(argv).session_id.len() > 0 ==> parse_args_spec(argv, env).session_id
            == args_from_argv(argv).session_id,
        args_from_argv(argv).chat_socket.len() > 0 ==> parse_args_spec(argv, env).chat_socket
            == args_from_argv(argv).chat_socket,
        args_from_argv(argv).mode.len() == 0 && env.mode is Some ==> parse_args_spec(
            argv,
            env,
        ).mode == env.mode.unwrap(),
        args_from_argv(argv).session_id.len() == 0 && env.session_id is Some ==> parse_args_spec(
            argv,
            env,
        ).session_id == env.session_id.unwrap(),
        args_from_argv(argv).chat_socket.len() == 0 && env.chat_socket is Some
            ==> parse_args_spec(argv, env).chat_socket == env.chat_socket.unwrap(),
{
}

/// The timeout that a launch ends up with is never zero.
pub proof fn lemma_timeout_positive(argv: Seq<Seq<char>>, env: LaunchEnvView)
    ensures
        parse_args_spec(argv, env).timeout > 0,
{
}

/// Launched without arguments, the window, session and chat address come
/// from the environment (empty where unset), the technician's name from the
/// environment where it is set and not empty, and the timeout is the
/// default.
pub proof fn lemma_env_fallback_without_arguments(env: LaunchEnvView)
    ensures
        parse_args_spec(Seq::empty(), env).mode == match env.mode {
            Some(m) => m,
            None => Seq::<char>::empty(),
        },
        parse_args_spec(Seq::empty(), env).session_id == match env.session_id {
            Some(m) => m,
            None => Seq::<char>::empty(),
        },
        parse_args_spec(Seq::empty(), env).chat_socket == match env.chat_socket {
            Some(m) => m,
            None => Seq::<char>::empty(),
        },
        parse_args_spec(Seq::empty(), env).admin_name == match env.admin_name {
            Some(m) => if m.len() > 0 {
                m
            } else {
                "IT Support"@
            },
            None => "IT Support"@,
        },
        parse_args_spec(Seq::empty(), env).timeout == default_timeout(),
{
}

/// An argument that sets a setting is overridden by a later one for the
/// same setting: the last `--mode=` wins.
pub proof fn lemma_last_mode_wins(argv: Seq<Seq<char>>, first: Seq<char>, last: Seq<char>)
    ensures
        args_from_argv(argv.push("--mode="@ + first).push("--mode="@ + last)).mode == last,
{
    let p = "--mode="@;
    let a1 = argv.push(p + first);
    let a2 = a1.push(p + last);
    assert(a2.drop_last() =~= a1);
    assert((p + last).subrange(0, p.len() as int) =~= p);
    assert((p + last).subrange(p.len() as int, (p + last).len() as int) =~= last);
}

/// The window that a launch opens.
#[derive(Debug, Clone, Copy, PartialEq, Eq, Structural)]
pub enum Mode {
    /// The consent dialog.
    Consent,
    /// The live-session chat overlay.
    Session,
    /// No window: the usage text is printed instead.
    Usage,
}

/// The window named by the `mode` setting.
pub open spec fn mode_spec(mode: Seq<char>) -> Mode {
    if mode == "consent"@ {
        Mode::Consent
    } else if mode == "session"@ {
        Mode::Session
    } else {
        Mode::Usage
    }
}

/// Which window the `mode` setting asks for.
pub fn select_mode(mode: &str) -> (m: Mode)
    ensures
        m == mode_spec(mode@),
{
    if str_equal(mode, "consent") {
        Mode::Consent
    } else if str_equal(mode, "session") {
        Mode::Session
    } else {
        Mode::Usage
    }
}

} // verus!
