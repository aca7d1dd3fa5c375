//! What the operating system hands back, read for the engine: how a command
//! ended, and whether a portal was opened.

use vstd::prelude::*;
use vstd::string::*;
use crate::engine::{Event, EventView};
use crate::error::{error_text, ErrorView, ReauthfiError};
use crate::text::{signed_decimal, signed_decimal_string, trim, trimmed};

verus! {

/// How a process ended, in words: its exit code, or that a signal ended it.
pub open spec fn exit_status_text(exit_code: Option<i32>) -> Seq<char> {
    match exit_code {
        Some(code) => "exit code "@ + signed_decimal(code as int),
        None => "terminated by signal"@,
    }
}

/// The detail of a command that ended without success: how it ended, and in
/// brackets what it wrote to its error stream, where that is more than white
/// space.
pub open spec fn command_failure_text(exit_code: Option<i32>, stderr: Seq<char>) -> Seq<char> {
    if trimmed(stderr).len() == 0 {
        exit_status_text(exit_code)
    } else {
        exit_status_text(exit_code) + " ("@ + trimmed(stderr) + ")"@
    }
}

/// The command that opens `url` for the user.
pub open spec fn open_argv(url: Seq<char>) -> Seq<Seq<char>> {
    seq!["open"@, url]
}

/// Says how a process ended.
pub fn exit_status_detail(exit_code: Option<i32>) -> (text: String)
    ensures
        text@ == exit_status_text(exit_code),
{
    match exit_code {
        Some(code) => {
            let mut text = String::from_str("exit code ");
            let digits = signed_decimal_string(code);
            text.append(digits.as_str());
            text
        },
        None => String::from_str("terminated by signal"),
    }
}

/// The runner of shell commands.
#[derive(Debug)]
pub struct SystemCommandRunner;

impl SystemCommandRunner {
    /// Reads the end of a command: what it printed where it ended with
    /// success, else an error that carries how it ended and what it wrote to
    /// its error stream.
    pub fn interpret(success: bool, exit_code: Option<i32>, stdout: String, stderr: &str) -> (result:
        Result<String, ReauthfiError>)
        ensures
            success ==> (result matches Ok(output) && output@ == stdout@),
            !success ==> (result matches Err(error) && error@ == ErrorView::Io(
                command_failure_text(exit_code, stderr@),
            )),
    {
        if success {
            return Ok(stdout);
        }
        let mut text = exit_status_detail(exit_code);
        let detail = trim(stderr);
        if detail.unicode_len() > 0 {
            text.append(" (");
            text.append(detail);
            text.append(")");
        }
        Err(ReauthfiError::Io(text))
    }

    /// The event that the result of a command makes.
    pub fn event(result: Result<String, ReauthfiError>) -> (event: Event)
        ensures
            event@ == (match result {
                Ok(output) => EventView::CommandOutput(output@),
                Err(error) => EventView::CommandFailed(error_text(error@)),
            }),
    {
        match result {
            Ok(output) => Event::CommandOutput(output),
            Err(error) => Event::CommandFailed(error.message()),
        }
    }
}

/// The opener of portal pages.
#[derive(Debug)]
pub struct PortalOpenerService;

impl PortalOpenerService {
    /// The command that opens `url` in the user's browser.
    pub fn command(url: &str) -> (argv: Vec<String>)
        ensures
            argv.deep_view() == open_argv(url@),
    {
        let mut argv: Vec<String> = Vec::new();
        argv.push(String::from_str("open"));
        argv.push(String::from_str(url));
        assert(argv.deep_view() =~= open_argv(url@));
        argv
    }

    /// Reads the end of the opening command: success, or an error that says
    /// how the command ended.
    pub fn outcome(success: bool, exit_code: Option<i32>) -> (result: Result<(), ReauthfiError>)
        ensures
            success ==> result is Ok,
            !success ==> (result matches Err(error) && error@ == ErrorView::CommandFailed(
                exit_status_text(exit_code),
            )),
    {
        if success {
            Ok(())
        } else {
            Err(ReauthfiError::CommandFailed(exit_status_detail(exit_code)))
        }
    }

    /// The event that the result of opening makes.
    pub fn event(result: Result<(), ReauthfiError>) -> (event: Event)
        ensures
            event@ == (match result {
                Ok(_) => EventView::PortalOpened,
                Err(error) => EventView::PortalOpenFailed(error@),
            }),
    {
        match result {
            Ok(_) => Event::PortalOpened,
            Err(error) => Event::PortalOpenFailed(error),
        }
    }
}

} // verus!
