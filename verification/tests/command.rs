use std::path::Path;
use zed_client::command::{build_command, resolve_server_path, CommandSpec, STDIO_FLAG};
use zed_client::install::SERVER_PATH;
use zed_client::path::{join_path, SEPARATOR};

#[test]
fn stdio_flag_is_spelled_out() {
    assert_eq!(STDIO_FLAG, "--stdio");
}

#[test]
fn separator_is_a_slash() {
    assert_eq!(SEPARATOR, '/');
}

#[test]
fn join_puts_one_separator_between() {
    assert_eq!(join_path("/home/me/ext", "server/server.bundle.js"), "/home/me/ext/server/server.bundle.js");
    assert_eq!(join_path("ext", "a"), "ext/a");
}

#[test]
fn join_adds_no_second_separator() {
    assert_eq!(join_path("/home/me/ext/", "server"), "/home/me/ext/server");
    assert_eq!(join_path("/", "server"), "/server");
}

#[test]
fn join_with_an_empty_base_is_the_path() {
    assert_eq!(join_path("", "server/server.bundle.js"), "server/server.bundle.js");
}

#[test]
fn join_with_an_empty_path_ends_with_a_separator() {
    assert_eq!(join_path("/ext", ""), "/ext/");
    assert_eq!(join_path("/ext/", ""), "/ext/");
    assert_eq!(join_path("", ""), "");
}

#[test]
fn join_with_an_absolute_path_is_that_path() {
    assert_eq!(join_path("/home/me", "/opt/server"), "/opt/server");
    assert_eq!(join_path("", "/"), "/");
}

#[test]
fn join_counts_characters_not_bytes() {
    assert_eq!(join_path("/home/zoë", "ü/bundle"), "/home/zoë/ü/bundle");
    assert_eq!(join_path("/home/é/", "server"), "/home/é/server");
}

#[test]
fn join_agrees_with_the_standard_library() {
    let bases = ["", "/", "/ext", "/ext/", "rel", "rel/", "/a/b/c", "/home/zoë", "//"];
    let paths = ["", "server", "server/server.bundle.js", "/abs", "/", "a/", "./a", "../a", "é"];
    for base in bases {
        for path in paths {
            let expected = Path::new(base).join(path).to_string_lossy().to_string();
            assert_eq!(join_path(base, path), expected);
        }
    }
}

#[test]
fn server_path_lies_below_the_working_directory() {
    assert_eq!(resolve_server_path("/home/me/ext"), "/home/me/ext/server/server.bundle.js");
    assert_eq!(resolve_server_path("/"), "/server/server.bundle.js");
    assert_eq!(resolve_server_path(""), "server/server.bundle.js");
}

#[test]
fn command_runs_the_server_with_the_runtime() {
    let built = build_command("/home/me/ext", Ok("/usr/bin/node".to_string()));
    let command: CommandSpec = built.unwrap();
    assert_eq!(command.command, "/usr/bin/node");
    assert_eq!(
        command.args,
        vec!["/home/me/ext/server/server.bundle.js".to_string(), "--stdio".to_string()]
    );
    assert!(command.env.is_empty());
}

#[test]
fn command_arguments_end_with_install_path_and_stdio() {
    for cwd in ["", "/", "/ext", "/ext/", "relative/dir", "/home/zoë/ext"] {
        let command = build_command(cwd, Ok("node".to_string())).unwrap();
        assert_eq!(command.args.len(), 2);
        assert!(command.args[0].ends_with(SERVER_PATH));
        assert!(command.args[0].starts_with(cwd));
        assert_eq!(command.args[1], "--stdio");
        assert_eq!(command.env, Vec::<(String, String)>::new());
    }
}

#[test]
fn command_keeps_the_runtime_path_as_given() {
    let command = build_command("/ext", Ok("C:\\Program Files\\node.exe".to_string())).unwrap();
    assert_eq!(command.command, "C:\\Program Files\\node.exe");
    let command = build_command("/ext", Ok(String::new())).unwrap();
    assert_eq!(command.command, "");
}

#[test]
fn command_fails_with_the_message_of_the_host() {
    let built = build_command("/home/me/ext", Err("node not found".to_string()));
    assert_eq!(built.unwrap_err(), "node not found");
}

#[test]
fn command_fails_only_without_a_runtime() {
    assert!(build_command("", Ok("node".to_string())).is_ok());
    assert!(build_command("/ext", Err(String::new())).is_err());
}
