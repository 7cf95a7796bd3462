use wikisyncd::cli::{
    daemon_failure, health_line, library_required, parse_action, parse_arguments, ready_line,
    require_initialized, status_line, version_line, Action, Argument, Command, USAGE,
};
use wikisyncd::error::DaemonError;
use wikisyncd::protocol::{DaemonStatus, Health};

fn arguments(words: &[&str]) -> Vec<Argument> {
    words.iter().map(|word| Some((*word).to_owned())).collect()
}

fn refused(words: &[&str]) -> String {
    parse_arguments(&arguments(words))
        .expect_err("refused command line")
        .message
}

#[test]
fn command_lines_name_a_library_and_an_action() {
    assert_eq!(
        parse_arguments(&arguments(&["--library", "/data", "health"])).expect("command"),
        Command::Act {
            library: Some(1),
            action: Action::Health,
        }
    );
    assert_eq!(
        parse_arguments(&arguments(&[])).expect("command"),
        Command::Act {
            library: None,
            action: Action::Run,
        }
    );
    assert_eq!(
        parse_arguments(&arguments(&["shutdown", "--library", "health"])).expect("command"),
        Command::Act {
            library: Some(2),
            action: Action::Shutdown,
        }
    );
    assert_eq!(
        parse_arguments(&arguments(&["status", "--help"])).expect("command"),
        Command::Help
    );
    assert_eq!(
        parse_arguments(&arguments(&["-V"])).expect("command"),
        Command::Version
    );
}

#[test]
fn malformed_command_lines_are_refused() {
    assert_eq!(refused(&["--library"]), "--library requires a path");
    assert_eq!(
        refused(&["--library", "a", "--library", "b"]),
        "--library may only be supplied once"
    );
    assert_eq!(refused(&["run", "status"]), "only one action may be supplied");
    assert_eq!(refused(&["fly"]), "unknown action \"fly\"");
    assert_eq!(refused(&["a\tb"]), "unknown action \"a\\tb\"");
    assert_eq!(
        parse_action(&None).expect_err("no UTF-8").message,
        "action must be valid UTF-8"
    );
    assert_eq!(
        library_required().message,
        "--library or WIKISYNC_LIBRARY is required"
    );
    assert!(require_initialized("/data", true).is_ok());
    assert_eq!(
        require_initialized("/data", false)
            .expect_err("not a library")
            .message,
        "/data is not an initialized WikiSyncer library"
    );
    assert_eq!(
        daemon_failure(&DaemonError::WriterBusy).message,
        DaemonError::WriterBusy.message()
    );
}

#[test]
fn the_program_reports_what_it_does() {
    assert_eq!(ready_line("/data"), "WikiSyncer daemon ready for /data");
    assert_eq!(version_line(), "wikisyncd 0.1.0");
    assert_eq!(
        health_line(&Health {
            daemon_version: "0.1.0".to_owned(),
            process_id: 42,
            uptime_seconds: 7,
        }),
        "healthy: protocol 2, daemon 0.1.0, pid 42, uptime 7s"
    );
    assert_eq!(
        status_line(&DaemonStatus {
            process_id: 42,
            uptime_seconds: 7,
            completed_mutations: 3,
            state: "idle".to_owned(),
            detail: "ready".to_owned(),
        }),
        "idle: ready (pid 42, uptime 7s, 3 completed mutations)"
    );
    assert!(USAGE.starts_with("WikiSyncer single-writer daemon"));
}
