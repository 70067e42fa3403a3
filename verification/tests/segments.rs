use prompter::config::{ConfigMap, ConfigValue};
use prompter::host::{Execution, Host};
use prompter::prompt::Prompt;
use prompter::segments::dummy::_DummySegment;
use prompter::segments::env::EnvSegment;
use prompter::segments::exit_code::ExitCodeSegment;
use prompter::segments::hostname::HostnameSegment;
use prompter::segments::jobs::{count_children, JobsSegment};
use prompter::segments::read_only::ReadOnlySegment;
use prompter::segments::root::RootSegment;
use prompter::segments::ssh::SshSegment;
use prompter::segments::stdout::StdoutSegment;
use prompter::segments::username::UsernameSegment;
use prompter::segments::virtual_env::VirtualEnvSegment;
use prompter::segments::{empty_result, ResultSet, Segment};
use prompter::themes::default::default_theme;
use prompter::themes::get_symbolset_for_name;

fn seg_host() -> Host {
    Host {
        user: String::from("al"),
        variables: vec![
            (String::from("EDITOR"), String::from("vi")),
            (String::from("EMPTY"), String::new()),
            (String::from("EDITOR"), String::from("emacs")),
        ],
        current_dir: Some(String::from("/tmp")),
        writable: true,
        parent_id: 42,
        process_list: Execution::NotStarted,
        git_status: Execution::NotStarted,
        git_describe: Execution::NotStarted,
        commands: Vec::new(),
    }
}

fn seg_context(host: Host) -> Prompt {
    Prompt { theme: default_theme(), symbols: get_symbolset_for_name("patched"), host }
}

fn seg_block(text: &str, fg: i32, bg: i32) -> ResultSet {
    (String::from(text), fg, bg, String::new(), -1)
}

fn seg_finished(output: &str) -> Execution {
    Execution::Finished { success: true, output: Some(String::from(output)) }
}

fn seg_options(entries: Vec<(&str, ConfigValue)>) -> ConfigMap {
    ConfigMap { entries: entries.into_iter().map(|(k, v)| (String::from(k), v)).collect() }
}

fn seg_text(text: &str) -> ConfigValue {
    ConfigValue::String(String::from(text))
}

#[test]
fn empty_result_has_no_text_and_no_colours() {
    let prompt = seg_context(seg_host());
    assert_eq!(empty_result(&prompt), seg_block("", -1, -1));
}

#[test]
fn hostname_shows_the_placeholder() {
    let prompt = seg_context(seg_host());
    let segment = HostnameSegment { options: None };
    assert_eq!(segment.compute(&prompt), seg_block(" \\h ", 250, 238));
}

#[test]
fn virtual_env_shows_nothing() {
    let prompt = seg_context(seg_host());
    let segment = VirtualEnvSegment { options: None };
    assert_eq!(segment.compute(&prompt), seg_block("", 250, 238));
}

#[test]
fn dummy_shows_its_name() {
    let prompt = seg_context(seg_host());
    let segment = _DummySegment { options: None, name: String::from("fixed") };
    assert_eq!(segment.compute(&prompt), seg_block("fixed", -1, -1));
}

#[test]
fn exit_code_zero_contributes_nothing() {
    let prompt = seg_context(seg_host());
    let segment = ExitCodeSegment { options: None, prev_error: 0 };
    assert_eq!(segment.compute(&prompt), seg_block("", -1, -1));
}

#[test]
fn exit_code_failure_shows_the_code() {
    let prompt = seg_context(seg_host());
    assert_eq!(
        ExitCodeSegment { options: None, prev_error: 1 }.compute(&prompt),
        seg_block(" 1 ", 15, 161)
    );
    assert_eq!(
        ExitCodeSegment { options: None, prev_error: 127 }.compute(&prompt),
        seg_block(" 127 ", 15, 161)
    );
    assert_eq!(
        ExitCodeSegment { options: None, prev_error: -2 }.compute(&prompt),
        seg_block(" -2 ", 15, 161)
    );
    assert_eq!(
        ExitCodeSegment { options: None, prev_error: i32::MIN }.compute(&prompt),
        seg_block(" -2147483648 ", 15, 161)
    );
}

#[test]
fn root_is_coloured_by_the_previous_exit_code() {
    let prompt = seg_context(seg_host());
    assert_eq!(
        RootSegment { options: None, prev_error: 0 }.compute(&prompt),
        seg_block(" \\$ ", 15, 236)
    );
    assert_eq!(
        RootSegment { options: None, prev_error: 2 }.compute(&prompt),
        seg_block(" \\$ ", 15, 161)
    );
    assert_eq!(
        RootSegment { options: None, prev_error: -1 }.compute(&prompt),
        seg_block(" \\$ ", 15, 161)
    );
}

#[test]
fn username_marks_the_superuser() {
    let segment = UsernameSegment { options: None };
    assert_eq!(segment.compute(&seg_context(seg_host())), seg_block(" \\u ", 250, 240));
    let mut host = seg_host();
    host.user = String::from("root");
    assert_eq!(segment.compute(&seg_context(host)), seg_block(" \\u ", 250, 124));
    let mut host = seg_host();
    host.user = String::from("Root");
    assert_eq!(segment.compute(&seg_context(host)), seg_block(" \\u ", 250, 240));
}

#[test]
fn with_current_user_changes_the_user_only() {
    let host = seg_host().with_current_user();
    assert!(!host.user.is_empty());
    assert_eq!(host.variables.len(), 3);
    assert_eq!(host.current_dir.as_deref(), Some("/tmp"));
    assert!(host.writable);
    assert_eq!(host.parent_id, 42);
    assert_eq!(host.commands.len(), 0);
}

#[test]
fn with_user_puts_the_given_name_in() {
    let host = seg_host().with_user(String::from("root"));
    assert_eq!(host.user, "root");
    assert_eq!(host.variables.len(), 3);
    assert_eq!(host.variables[0], (String::from("EDITOR"), String::from("vi")));
    assert_eq!(host.current_dir.as_deref(), Some("/tmp"));
    assert!(host.writable);
    assert_eq!(host.parent_id, 42);
    assert!(matches!(host.process_list, Execution::NotStarted));
    assert!(matches!(host.git_status, Execution::NotStarted));
    assert!(matches!(host.git_describe, Execution::NotStarted));
    assert_eq!(host.commands.len(), 0);
    let segment = UsernameSegment { options: None };
    assert_eq!(segment.compute(&seg_context(host)), seg_block(" \\u ", 250, 124));
    let other = seg_host().with_user(String::new());
    assert_eq!(other.user, "");
}

#[test]
fn host_variable_takes_the_first_entry() {
    let host = seg_host();
    assert_eq!(host.variable("EDITOR").map(|v| v.as_str()), Some("vi"));
    assert_eq!(host.variable("EMPTY").map(|v| v.as_str()), Some(""));
    assert_eq!(host.variable("editor"), None);
    assert_eq!(host.variable(""), None);
}

#[test]
fn ssh_shows_the_network_glyph_in_a_remote_session() {
    let segment = SshSegment { options: None };
    assert_eq!(segment.compute(&seg_context(seg_host())), seg_block("", 254, 166));
    let mut host = seg_host();
    host.variables.push((String::from("SSH_CLIENT"), String::from("10.0.0.1 5 22")));
    assert_eq!(segment.compute(&seg_context(host)), seg_block(" SSH ", 254, 166));
}

#[test]
fn env_shows_the_variable_or_a_note() {
    let prompt = seg_context(seg_host());
    let named = seg_options(vec![("type", seg_text("env")), ("var", seg_text("EDITOR"))]);
    assert_eq!(EnvSegment { options: Some(&named) }.compute(&prompt), seg_block(" vi ", 22, 148));
    let empty = seg_options(vec![("var", seg_text("EMPTY"))]);
    assert_eq!(EnvSegment { options: Some(&empty) }.compute(&prompt), seg_block("  ", 22, 148));
    let unset = seg_options(vec![("var", seg_text("NO_SUCH"))]);
    assert_eq!(EnvSegment { options: Some(&unset) }.compute(&prompt), seg_block("", -1, -1));
    let number = seg_options(vec![("var", ConfigValue::Number(Some(3)))]);
    assert_eq!(
        EnvSegment { options: Some(&number) }.compute(&prompt),
        seg_block("Variable name not found", 22, 148)
    );
    let missing = seg_options(vec![("type", seg_text("env"))]);
    assert_eq!(
        EnvSegment { options: Some(&missing) }.compute(&prompt),
        seg_block("Variable name not found", 22, 148)
    );
    assert_eq!(
        EnvSegment { options: None }.compute(&prompt),
        seg_block("No option given", 22, 148)
    );
}

#[test]
fn read_only_shows_the_lock() {
    let segment = ReadOnlySegment { options: None };
    assert_eq!(segment.compute(&seg_context(seg_host())), seg_block("", 254, 124));
    let mut host = seg_host();
    host.writable = false;
    assert_eq!(segment.compute(&seg_context(host)), seg_block(" \u{E0A2} ", 254, 124));
    let mut host = seg_host();
    host.current_dir = None;
    host.writable = false;
    assert_eq!(segment.compute(&seg_context(host)), seg_block("", -1, -1));
}

#[test]
fn jobs_counts_the_children_of_the_shell() {
    assert_eq!(count_children("", 42), 0);
    assert_eq!(count_children(" PPID\n42\n 42\n42 \n1\n42\n+42\n042\n", 42), 6);
    assert_eq!(count_children("   42\n 4 2\n42 1\n\t42\r\n-42\n4294967338\n", 42), 2);
    assert_eq!(count_children("42", 42), 1);

    let segment = JobsSegment { options: None };
    assert_eq!(segment.compute(&seg_context(seg_host())), seg_block("", -1, -1));

    let mut host = seg_host();
    host.process_list = seg_finished("PPID\n1\n42\n7\n");
    assert_eq!(segment.compute(&seg_context(host)), seg_block("", -1, -1));

    let mut host = seg_host();
    host.process_list = seg_finished("PPID\n");
    assert_eq!(segment.compute(&seg_context(host)), seg_block("", -1, -1));

    let mut host = seg_host();
    host.process_list = seg_finished("PPID\n42\n42\n");
    assert_eq!(segment.compute(&seg_context(host)), seg_block(" 1 ", 39, 238));

    let mut host = seg_host();
    host.process_list = seg_finished(&"42\n".repeat(12));
    assert_eq!(segment.compute(&seg_context(host)), seg_block(" 11 ", 39, 238));

    let mut host = seg_host();
    host.process_list = Execution::Finished { success: false, output: None };
    assert_eq!(segment.compute(&seg_context(host)), seg_block("", -1, -1));
}

#[test]
fn stdout_shows_what_the_command_wrote() {
    let command = ConfigValue::Array(vec![
        seg_text("date"),
        ConfigValue::Number(Some(1)),
        seg_text("+%H"),
        ConfigValue::Null,
    ]);
    let options = seg_options(vec![("type", seg_text("stdout")), ("command", command)]);
    let segment = StdoutSegment { options: Some(&options) };
    assert_eq!(segment.command(), Some(vec![String::from("date"), String::from("+%H")]));

    assert_eq!(segment.compute(&seg_context(seg_host())), seg_block("", -1, -1));

    let argv = vec![String::from("date"), String::from("+%H")];
    let mut host = seg_host();
    host.commands.push((vec![String::from("date")], seg_finished("no")));
    host.commands.push((argv.clone(), seg_finished("17 \n")));
    host.commands.push((argv.clone(), seg_finished("18\n")));
    assert_eq!(segment.compute(&seg_context(host)), seg_block(" 17 ", 250, 237));

    let mut host = seg_host();
    host.commands.push((argv.clone(), Execution::NotStarted));
    assert_eq!(segment.compute(&seg_context(host)), seg_block("", -1, -1));

    let mut host = seg_host();
    host.commands.push((argv.clone(), Execution::Finished { success: false, output: None }));
    assert_eq!(segment.compute(&seg_context(host)), seg_block("  ", 250, 237));
}

#[test]
fn stdout_without_a_command_shows_nothing() {
    let prompt = seg_context(seg_host());
    assert_eq!(StdoutSegment { options: None }.command(), None);
    assert_eq!(StdoutSegment { options: None }.compute(&prompt), seg_block("", -1, -1));
    for command in [
        ConfigValue::Array(Vec::new()),
        ConfigValue::Array(vec![ConfigValue::Bool(true), seg_text("date")]),
        seg_text("date"),
    ] {
        let options = seg_options(vec![("command", command)]);
        let segment = StdoutSegment { options: Some(&options) };
        assert_eq!(segment.command(), None);
        assert_eq!(segment.compute(&prompt), seg_block("", -1, -1));
    }
    let options = seg_options(vec![("type", seg_text("stdout"))]);
    assert_eq!(StdoutSegment { options: Some(&options) }.command(), None);
}

#[test]
fn config_map_knows_whether_its_names_are_unique() {
    assert!(seg_options(vec![]).has_unique_names());
    assert!(seg_options(vec![("a", ConfigValue::Null)]).has_unique_names());
    assert!(seg_options(vec![
        ("a", ConfigValue::Null),
        ("A", ConfigValue::Null),
        ("b", ConfigValue::Bool(true)),
    ])
    .has_unique_names());
    assert!(!seg_options(vec![
        ("a", ConfigValue::Bool(true)),
        ("b", ConfigValue::Null),
        ("a", ConfigValue::Bool(false)),
    ])
    .has_unique_names());
    assert!(!seg_options(vec![("x", ConfigValue::Null), ("x", ConfigValue::Null)])
        .has_unique_names());
    let unique = seg_options(vec![
        ("first", ConfigValue::Number(Some(1))),
        ("second", ConfigValue::Number(Some(2))),
        ("third", ConfigValue::Number(Some(3))),
    ]);
    assert!(unique.has_unique_names());
    assert!(matches!(unique.get("third"), Some(ConfigValue::Number(Some(3)))));
    assert!(matches!(unique.get("first"), Some(ConfigValue::Number(Some(1)))));
}

#[test]
fn config_map_takes_the_first_entry_of_a_name() {
    let map = seg_options(vec![
        ("a", ConfigValue::Bool(true)),
        ("b", ConfigValue::Null),
        ("a", ConfigValue::Bool(false)),
    ]);
    assert!(matches!(map.get("a"), Some(ConfigValue::Bool(true))));
    assert!(matches!(map.get("b"), Some(ConfigValue::Null)));
    assert!(map.get("c").is_none());
    assert!(map.contains_key("a"));
    assert!(!map.contains_key("A"));
}
