//! Command line of the daemon program.

use vstd::prelude::*;
use vstd::string::*;

use crate::error::{daemon_error_text, DaemonError};
use crate::protocol::{DaemonStatus, Health, PROTOCOL_VERSION};
use crate::text::{
    debug_quoted, decimal, decimal_text, holds_text, lemma_holds_at_end, lemma_holds_longer, quoted,
    same_text,
};
use crate::user_agent::PACKAGE_VERSION;

verus! {

/// What `--help` shows.
pub const USAGE: &'static str = "WikiSyncer single-writer daemon\n\nUsage:\n  wikisyncd --library <path> [run]\n  wikisyncd --library <path> health\n  wikisyncd --library <path> status\n  wikisyncd --library <path> shutdown\n  wikisyncd --help\n  wikisyncd --version\n\nThe WIKISYNC_LIBRARY environment variable may replace --library. `run` stays in the\nforeground; service managers should use `shutdown` as their graceful stop command.\nSynchronization, integrity verification, and compaction are available to versioned\nIPC clients. Scheduling is not part of this build.";

/// What the program is asked to do with a library.
#[derive(Clone, Copy, Debug, PartialEq, Eq, Structural)]
pub enum Action {
    Run,
    Health,
    Status,
    Shutdown,
}

/// An argument: its text, or nothing where it is not Unicode.
pub type Argument = Option<String>;

/// An argument as plain data.
pub open spec fn argument_view(argument: Argument) -> Option<Seq<char>> {
    match argument {
        Some(text) => Some(text@),
        None => None,
    }
}

/// What a command line asks for.
#[derive(Clone, Copy, Debug, PartialEq, Eq, Structural)]
pub enum Command {
    /// Show the usage.
    Help,
    /// Show the version.
    Version,
    /// Act on a library, whose path is the argument at `library` where it was given.
    Act { library: Option<usize>, action: Action },
}

/// Why a command line is refused.
#[derive(Debug, PartialEq, Eq)]
pub struct CliError {
    pub message: String,
}

/// The action that an argument names.
pub open spec fn action_named(argument: Option<Seq<char>>) -> Result<Action, Seq<char>> {
    match argument {
        None => Err("action must be valid UTF-8"@),
        Some(text) => if text == "run"@ {
            Ok(Action::Run)
        } else if text == "health"@ {
            Ok(Action::Health)
        } else if text == "status"@ {
            Ok(Action::Status)
        } else if text == "shutdown"@ {
            Ok(Action::Shutdown)
        } else {
            Err(unknown_action(debug_quoted(text)))
        },
    }
}

/// What is said of an unknown action, from its name in quotes.
pub open spec fn unknown_action(quoted: Seq<char>) -> Seq<char> {
    "unknown action "@ + quoted
}

/// The refusal of an unknown action, given its name in quotes.
pub fn unknown_action_error(quoted: &str) -> (error: CliError)
    ensures
        error.message@ == unknown_action(quoted@),
{
    let mut message = "unknown action ".to_owned();
    message.append(quoted);
    CliError { message }
}

/// Reads an action.
pub fn parse_action(argument: &Argument) -> (r: Result<Action, CliError>)
    ensures
        match r {
            Ok(action) => action_named(argument_view(*argument)) == Ok::<Action, Seq<char>>(action),
            Err(error) => action_named(argument_view(*argument)) == Err::<Action, Seq<char>>(
                error.message@,
            ),
        },
{
    match argument {
        None => Err(CliError { message: "action must be valid UTF-8".to_owned() }),
        Some(text) => if same_text(text.as_str(), "run") {
            Ok(Action::Run)
        } else if same_text(text.as_str(), "health") {
            Ok(Action::Health)
        } else if same_text(text.as_str(), "status") {
            Ok(Action::Status)
        } else if same_text(text.as_str(), "shutdown") {
            Ok(Action::Shutdown)
        } else {
            Err(unknown_action_error(quoted(text.as_str()).as_str()))
        },
    }
}

/// Whether an argument is this text.
pub open spec fn is_text(argument: Argument, text: Seq<char>) -> bool {
    argument_view(argument) == Some(text)
}

fn argument_is(argument: &Argument, text: &str) -> (b: bool)
    ensures
        b == is_text(*argument, text@),
{
    match argument {
        Some(argument) => same_text(argument.as_str(), text),
        None => false,
    }
}

/// The command of the arguments from `i` on, after a library and an action were read.
pub open spec fn command_from(
    arguments: Seq<Argument>,
    i: int,
    library: Option<usize>,
    action: Option<Action>,
) -> Result<Command, Seq<char>>
    decreases arguments.len() - i,
{
    if i < 0 || i >= arguments.len() {
        Ok(
            Command::Act {
                library,
                action: match action {
                    Some(action) => action,
                    None => Action::Run,
                },
            },
        )
    } else if is_text(arguments[i], "--help"@) || is_text(arguments[i], "-h"@) {
        Ok(Command::Help)
    } else if is_text(arguments[i], "--version"@) || is_text(arguments[i], "-V"@) {
        Ok(Command::Version)
    } else if is_text(arguments[i], "--library"@) {
        if i + 1 >= arguments.len() {
            Err("--library requires a path"@)
        } else if library is Some {
            Err("--library may only be supplied once"@)
        } else {
            command_from(arguments, i + 2, Some((i + 1) as usize), action)
        }
    } else {
        match action_named(argument_view(arguments[i])) {
            Err(message) => Err(message),
            Ok(named) => if action is Some {
                Err("only one action may be supplied"@)
            } else {
                command_from(arguments, i + 1, library, Some(named))
            },
        }
    }
}

/// Reads a command line.
pub fn parse_arguments(arguments: &Vec<Argument>) -> (r: Result<Command, CliError>)
    ensures
        match r {
            Ok(command) => command_from(arguments@, 0, None, None) == Ok::<Command, Seq<char>>(
                command,
            ),
            Err(error) => command_from(arguments@, 0, None, None) == Err::<Command, Seq<char>>(
                error.message@,
            ),
        },
{
    let mut library: Option<usize> = None;
    let mut action: Option<Action> = None;
    let mut i: usize = 0;
    let count: usize = arguments.len();
    while i < count
        invariant
            i <= count,
            count == arguments@.len(),
            command_from(arguments@, i as int, library, action) == command_from(
                arguments@,
                0,
                None,
                None,
            ),
        decreases count - i,
    {
        let argument = &arguments[i];
        if argument_is(argument, "--help") || argument_is(argument, "-h") {
            return Ok(Command::Help);
        }
        if argument_is(argument, "--version") || argument_is(argument, "-V") {
            return Ok(Command::Version);
        }
        if argument_is(argument, "--library") {
            if count - i < 2 {
                return Err(CliError { message: "--library requires a path".to_owned() });
            }
            if library.is_some() {
                return Err(CliError { message: "--library may only be supplied once".to_owned() });
            }
            library = Some(i + 1);
            i = i + 2;
        } else {
            let named = parse_action(argument)?;
            if action.is_some() {
                return Err(CliError { message: "only one action may be supplied".to_owned() });
            }
            action = Some(named);
            i = i + 1;
        }
    }
    Ok(
        Command::Act {
            library,
            action: match action {
                Some(action) => action,
                None => Action::Run,
            },
        },
    )
}

/// The refusal when neither an argument nor the environment names a library.
pub fn library_required() -> (error: CliError)
    ensures
        error.message@ == "--library or WIKISYNC_LIBRARY is required"@,
{
    CliError { message: "--library or WIKISYNC_LIBRARY is required".to_owned() }
}

/// Refuses a directory that holds no library.
pub fn require_initialized(library: &str, has_database: bool) -> (r: Result<(), CliError>)
    ensures
        match r {
            Ok(()) => has_database,
            Err(error) => !has_database && error.message@ == library@
                + " is not an initialized WikiSyncer library"@,
        },
{
    if has_database {
        return Ok(());
    }
    let mut message = library.to_owned();
    message.append(" is not an initialized WikiSyncer library");
    Err(CliError { message })
}

/// A daemon failure as the program shows it.
pub fn daemon_failure(error: &DaemonError) -> (failure: CliError)
    ensures
        failure.message@ == daemon_error_text(error@),
{
    CliError { message: error.message() }
}

/// What the program shows when it serves.
pub fn ready_line(library: &str) -> (line: String)
    ensures
        line@ == "WikiSyncer daemon ready for "@ + library@,
{
    let mut line = "WikiSyncer daemon ready for ".to_owned();
    line.append(library);
    line
}

/// What `--version` shows.
pub fn version_line() -> (line: String)
    ensures
        line@ == "wikisyncd "@ + PACKAGE_VERSION@,
{
    let mut line = "wikisyncd ".to_owned();
    line.append(PACKAGE_VERSION);
    line
}

/// What `health` shows.
pub fn health_line(health: &Health) -> (line: String)
    ensures
        line@ == "healthy: protocol "@ + decimal(PROTOCOL_VERSION as nat) + ", daemon "@
            + health.daemon_version@ + ", pid "@ + decimal(health.process_id as nat)
            + ", uptime "@ + decimal(health.uptime_seconds as nat) + "s"@,
{
    let mut line = "healthy: protocol ".to_owned();
    line.append(decimal_text(PROTOCOL_VERSION as u64).as_str());
    line.append(", daemon ");
    line.append(health.daemon_version.as_str());
    line.append(", pid ");
    line.append(decimal_text(health.process_id as u64).as_str());
    line.append(", uptime ");
    line.append(decimal_text(health.uptime_seconds).as_str());
    line.append("s");
    line
}

/// What `status` shows.
pub fn status_line(status: &DaemonStatus) -> (line: String)
    ensures
        line@ == status.state@ + ": "@ + status.detail@ + " (pid "@ + decimal(
            status.process_id as nat,
        ) + ", uptime "@ + decimal(status.uptime_seconds as nat) + "s, "@ + decimal(
            status.completed_mutations as nat,
        ) + " completed mutations)"@,
{
    let mut line = status.state.clone();
    line.append(": ");
    line.append(status.detail.as_str());
    line.append(" (pid ");
    line.append(decimal_text(status.process_id as u64).as_str());
    line.append(", uptime ");
    line.append(decimal_text(status.uptime_seconds).as_str());
    line.append("s, ");
    line.append(decimal_text(status.completed_mutations).as_str());
    line.append(" completed mutations)");
    line
}

/// Each action has one name, and nothing else is an action.
pub proof fn law_actions_have_names(argument: Argument, r: Result<Action, CliError>)
    requires
        call_ensures(parse_action, (&argument,), r),
    ensures
        r == Ok::<Action, CliError>(Action::Run) <==> (argument matches Some(text) && text@ == "run"@),
        r == Ok::<Action, CliError>(Action::Health) <==> (argument matches Some(text) && text@
            == "health"@),
        r == Ok::<Action, CliError>(Action::Status) <==> (argument matches Some(text) && text@
            == "status"@),
        r == Ok::<Action, CliError>(Action::Shutdown) <==> (argument matches Some(text) && text@
            == "shutdown"@),
{
    reveal_strlit("run");
    reveal_strlit("health");
    reveal_strlit("status");
    reveal_strlit("shutdown");
    assert("health"@[0] == 'h' && "run"@[0] == 'r' && "status"@[1] == 't' && "shutdown"@[1] == 'h'
        && "status"@[0] == 's' && "shutdown"@[0] == 's');
}

/// The library is the argument after its option, and the action stands before or after it;
/// without an action the daemon runs.
pub proof fn law_command_lines_name_library_and_action(
    arguments: Vec<Argument>,
    r: Result<Command, CliError>,
)
    requires
        call_ensures(parse_arguments, (&arguments,), r),
    ensures
        arguments@.len() == 0 ==> r == Ok::<Command, CliError>(
            Command::Act { library: None, action: Action::Run },
        ),
        arguments@.len() > 0 && (is_text(arguments@[0], "--help"@) || is_text(
            arguments@[0],
            "-h"@,
        )) ==> r == Ok::<Command, CliError>(Command::Help),
        r matches Ok(Command::Act { library, action }) ==> {
            &&& library matches Some(at) ==> 0 < at < arguments@.len() && is_text(
                arguments@[at - 1],
                "--library"@,
            )
            &&& library is None ==> forall|i: int|
                0 <= i < arguments@.len() ==> !is_text(#[trigger] arguments@[i], "--library"@)
            &&& action != Action::Run ==> exists|i: int|
                0 <= i < arguments@.len() && action_named(
                    argument_view(#[trigger] arguments@[i]),
                ) == Ok::<Action, Seq<char>>(action)
        },
{
    assert(arguments@.len() == arguments.len());
    lemma_command(arguments@, 0, None, None);
}

proof fn lemma_command(
    arguments: Seq<Argument>,
    i: int,
    library: Option<usize>,
    action: Option<Action>,
)
    requires
        0 <= i <= arguments.len() <= usize::MAX,
    ensures
        command_from(arguments, i, library, action) matches Ok(
            Command::Act { library: told, action: done },
        ) ==> {
            &&& library is Some ==> told == library
            &&& library is None ==> (told matches Some(at) ==> i < at < arguments.len() && is_text(
                arguments[at - 1],
                "--library"@,
            ))
            &&& told is None ==> forall|k: int|
                i <= k < arguments.len() ==> !is_text(#[trigger] arguments[k], "--library"@)
            &&& action matches Some(named) ==> done == named
            &&& action is None && done != Action::Run ==> exists|k: int|
                i <= k < arguments.len() && action_named(argument_view(#[trigger] arguments[k]))
                    == Ok::<Action, Seq<char>>(done)
        },
    decreases arguments.len() - i,
{
    if i < arguments.len() {
        if is_text(arguments[i], "--library"@) {
            if i + 1 < arguments.len() && library is None {
                lemma_command(arguments, i + 2, Some((i + 1) as usize), action);
            }
        } else {
            match action_named(argument_view(arguments[i])) {
                Ok(named) => if action is None {
                    lemma_command(arguments, i + 1, library, Some(named));
                },
                Err(_) => {},
            }
        }
    }
}

/// What is shown of a healthy daemon holds its version, process and uptime.
pub proof fn law_health_shows_what_was_said(health: Health, line: String)
    requires
        call_ensures(health_line, (&health,), line),
    ensures
        holds_text(line@, ", daemon "@ + health.daemon_version@ + ", pid "@),
        holds_text(line@, ", pid "@ + decimal(health.process_id as nat) + ", uptime "@),
        holds_text(line@, ", uptime "@ + decimal(health.uptime_seconds as nat) + "s"@),
{
    let protocol = "healthy: protocol "@ + decimal(PROTOCOL_VERSION as nat);
    let version = health.daemon_version@;
    let process = decimal(health.process_id as nat);
    let uptime = decimal(health.uptime_seconds as nat);
    let first = protocol + ", daemon "@ + version + ", pid "@;
    let second = first + process + ", uptime "@;
    lemma_holds_at_end(protocol, ", daemon "@, version, ", pid "@);
    lemma_holds_longer(first, ", daemon "@ + version + ", pid "@, process);
    lemma_holds_longer(first + process, ", daemon "@ + version + ", pid "@, ", uptime "@);
    lemma_holds_longer(second, ", daemon "@ + version + ", pid "@, uptime);
    lemma_holds_longer(second + uptime, ", daemon "@ + version + ", pid "@, "s"@);
    lemma_holds_at_end(protocol + ", daemon "@ + version, ", pid "@, process, ", uptime "@);
    lemma_holds_longer(second, ", pid "@ + process + ", uptime "@, uptime);
    lemma_holds_longer(second + uptime, ", pid "@ + process + ", uptime "@, "s"@);
    lemma_holds_at_end(first + process, ", uptime "@, uptime, "s"@);
}

/// What is shown of a daemon's status holds its state and detail, its process and uptime, and
/// how many mutations it completed.
pub proof fn law_status_shows_what_was_said(status: DaemonStatus, line: String)
    requires
        call_ensures(status_line, (&status,), line),
    ensures
        line@.take(status.state@.len() as int) == status.state@,
        holds_text(line@, ": "@ + status.detail@ + " (pid "@),
        holds_text(line@, " (pid "@ + decimal(status.process_id as nat) + ", uptime "@),
        holds_text(line@, ", uptime "@ + decimal(status.uptime_seconds as nat) + "s, "@),
        holds_text(
            line@,
            "s, "@ + decimal(status.completed_mutations as nat) + " completed mutations)"@,
        ),
{
    let state = status.state@;
    let detail = status.detail@;
    let pid = decimal(status.process_id as nat);
    let uptime = decimal(status.uptime_seconds as nat);
    let count = decimal(status.completed_mutations as nat);
    let end = " completed mutations)"@;
    let first = state + ": "@ + detail + " (pid "@;
    let second = first + pid + ", uptime "@;
    let third = second + uptime + "s, "@;
    lemma_holds_at_end(state, ": "@, detail, " (pid "@);
    lemma_holds_at_end(state + ": "@ + detail, " (pid "@, pid, ", uptime "@);
    lemma_holds_at_end(first + pid, ", uptime "@, uptime, "s, "@);
    lemma_holds_at_end(second + uptime, "s, "@, count, end);
    lemma_holds_longer(first, ": "@ + detail + " (pid "@, pid);
    lemma_holds_longer(first + pid, ": "@ + detail + " (pid "@, ", uptime "@);
    lemma_holds_longer(second, ": "@ + detail + " (pid "@, uptime);
    lemma_holds_longer(second, " (pid "@ + pid + ", uptime "@, uptime);
    lemma_holds_longer(second + uptime, ": "@ + detail + " (pid "@, "s, "@);
    lemma_holds_longer(second + uptime, " (pid "@ + pid + ", uptime "@, "s, "@);
    lemma_holds_longer(third, ": "@ + detail + " (pid "@, count);
    lemma_holds_longer(third, " (pid "@ + pid + ", uptime "@, count);
    lemma_holds_longer(third, ", uptime "@ + uptime + "s, "@, count);
    lemma_holds_longer(third + count, ": "@ + detail + " (pid "@, end);
    lemma_holds_longer(third + count, " (pid "@ + pid + ", uptime "@, end);
    lemma_holds_longer(third + count, ", uptime "@ + uptime + "s, "@, end);
    assert(line@.take(state.len() as int) =~= state);
}

/// Only a directory with a database is taken as a library.
pub proof fn law_libraries_have_a_database(
    library: &str,
    has_database: bool,
    r: Result<(), CliError>,
)
    requires
        call_ensures(require_initialized, (library, has_database), r),
    ensures
        r is Ok <==> has_database,
{
}

} // verus!
