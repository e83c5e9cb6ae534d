//! The command-line interface.
//!
//! Started with an argument, the program does not run the taskbar
//! machinery itself. It talks to the instance that is already running,
//! starts one, or edits the autostart entry. This module holds every
//! decision of that path: which command an argument names, what has to
//! be asked of the system for it, and, once the answer is known, what is
//! printed, what is posted or spawned, and which exit code results.

use crate::ipc::IPCMessage;
use crate::text::{contains, eq_ignore_ascii_case, is_substring, same_ignoring_ascii_case};
use vstd::prelude::*;

verus! {

/// The commands of the command line.
#[derive(Clone, Copy, Debug, PartialEq, Eq, Structural)]
pub enum Command {
    Start,
    Show,
    Hide,
    Stop,
    EnableAutostart,
    DisableAutostart,
    Help,
    Unknown,
}

/// The command that an argument names. The case of ASCII letters does
/// not matter. `quit` is another word for `stop`; `--help` and `-h` are
/// other words for `help`; everything else is unknown.
pub open spec fn command_of(arg: Seq<char>) -> Command {
    if same_ignoring_ascii_case(arg, "start"@) {
        Command::Start
    } else if same_ignoring_ascii_case(arg, "show"@) {
        Command::Show
    } else if same_ignoring_ascii_case(arg, "hide"@) {
        Command::Hide
    } else if same_ignoring_ascii_case(arg, "stop"@) || same_ignoring_ascii_case(arg, "quit"@) {
        Command::Stop
    } else if same_ignoring_ascii_case(arg, "enable-autostart"@) {
        Command::EnableAutostart
    } else if same_ignoring_ascii_case(arg, "disable-autostart"@) {
        Command::DisableAutostart
    } else if same_ignoring_ascii_case(arg, "help"@) || same_ignoring_ascii_case(arg, "--help"@)
        || same_ignoring_ascii_case(arg, "-h"@) {
        Command::Help
    } else {
        Command::Unknown
    }
}

/// Reads a command word.
pub fn parse_command(arg: &str) -> (command: Command)
    ensures
        command == command_of(arg@),
{
    if eq_ignore_ascii_case(arg, "start") {
        Command::Start
    } else if eq_ignore_ascii_case(arg, "show") {
        Command::Show
    } else if eq_ignore_ascii_case(arg, "hide") {
        Command::Hide
    } else if eq_ignore_ascii_case(arg, "stop") || eq_ignore_ascii_case(arg, "quit") {
        Command::Stop
    } else if eq_ignore_ascii_case(arg, "enable-autostart") {
        Command::EnableAutostart
    } else if eq_ignore_ascii_case(arg, "disable-autostart") {
        Command::DisableAutostart
    } else if eq_ignore_ascii_case(arg, "help") || eq_ignore_ascii_case(arg, "--help")
        || eq_ignore_ascii_case(arg, "-h") {
        Command::Help
    } else {
        Command::Unknown
    }
}

/// How an invocation ends, as contracts see it.
pub struct Outcome {
    /// The exit code of the process.
    pub exit_code: i32,
    /// The text for standard output, without the final line break; empty
    /// if nothing is printed there.
    pub stdout: Seq<char>,
    /// The text for standard error, likewise.
    pub stderr: Seq<char>,
    /// The message identifier to post to the listener window.
    pub post: Option<u32>,
    /// Start a new instance of the program.
    pub spawn: bool,
}

/// How an invocation ends: what to print, what to post or spawn before
/// that, and the exit code.
#[derive(Clone, Debug, PartialEq, Eq)]
pub struct CliOutcome {
    pub exit_code: i32,
    pub stdout: String,
    pub stderr: String,
    pub post: Option<u32>,
    pub spawn: bool,
}

impl View for CliOutcome {
    type V = Outcome;

    open spec fn view(&self) -> Outcome {
        Outcome {
            exit_code: self.exit_code,
            stdout: self.stdout@,
            stderr: self.stderr@,
            post: self.post,
            spawn: self.spawn,
        }
    }
}

/// The usage text.
pub open spec fn usage() -> Seq<char> {
    "THide - Taskbar Hide Utility\n\nUSAGE:\n    thide [COMMAND]\n\nCOMMANDS:\n    start              Start THide in GUI mode\n    show               Show the taskbar (if THide is running)\n    hide               Hide the taskbar (if THide is running)\n    stop               Stop THide and restore taskbar\n    enable-autostart   Enable autostart on login\n    disable-autostart  Disable autostart on login\n    help               Show this help message"@
}

/// The usage text.
pub fn usage_text() -> (text: String)
    ensures
        text@ == usage(),
{
    "THide - Taskbar Hide Utility\n\nUSAGE:\n    thide [COMMAND]\n\nCOMMANDS:\n    start              Start THide in GUI mode\n    show               Show the taskbar (if THide is running)\n    hide               Hide the taskbar (if THide is running)\n    stop               Stop THide and restore taskbar\n    enable-autostart   Enable autostart on login\n    disable-autostart  Disable autostart on login\n    help               Show this help message".to_owned()
}

/// The first thing to do for a command line.
#[derive(Clone, Debug, PartialEq, Eq)]
pub enum CliStep {
    /// Nothing has to be asked of the system: report and exit.
    Finish(CliOutcome),
    /// Look whether an instance is running, then see `start_gui`.
    Start,
    /// Look for the listener window, then see `send_command`.
    Send(IPCMessage),
    /// Add the autostart entry, then see `enable_autostart`.
    EnableAutostart,
    /// Delete the autostart entry, then see `disable_autostart`.
    DisableAutostart,
}

/// The first step as contracts see it.
pub enum Step {
    Finish(Outcome),
    Start,
    Send(IPCMessage),
    EnableAutostart,
    DisableAutostart,
}

impl View for CliStep {
    type V = Step;

    open spec fn view(&self) -> Step {
        match self {
            CliStep::Finish(outcome) => Step::Finish(outcome@),
            CliStep::Start => Step::Start,
            CliStep::Send(message) => Step::Send(*message),
            CliStep::EnableAutostart => Step::EnableAutostart,
            CliStep::DisableAutostart => Step::DisableAutostart,
        }
    }
}

/// The outcome of asking for help, or of giving no command at all: the
/// usage text, exit code 0.
pub open spec fn help_outcome() -> Outcome {
    Outcome { exit_code: 0, stdout: usage(), stderr: Seq::empty(), post: None, spawn: false }
}

/// The outcome of an unknown command: it is named on standard error, the
/// usage text follows on standard output, exit code 1.
pub open spec fn unknown_outcome(arg: Seq<char>) -> Outcome {
    Outcome {
        exit_code: 1,
        stdout: usage(),
        stderr: "Unknown command: "@ + arg,
        post: None,
        spawn: false,
    }
}

/// The first step for the arguments `args` (the program's own name not
/// among them). Only the first argument counts.
pub open spec fn first_step(args: Seq<Seq<char>>) -> Step {
    if args.len() == 0 {
        Step::Finish(help_outcome())
    } else {
        match command_of(args[0]) {
            Command::Start => Step::Start,
            Command::Show => Step::Send(IPCMessage::Show),
            Command::Hide => Step::Send(IPCMessage::Hide),
            Command::Stop => Step::Send(IPCMessage::Quit),
            Command::EnableAutostart => Step::EnableAutostart,
            Command::DisableAutostart => Step::DisableAutostart,
            Command::Help => Step::Finish(help_outcome()),
            Command::Unknown => Step::Finish(unknown_outcome(args[0])),
        }
    }
}

/// Reads the command line and says what to do first.
pub fn handle_cli_command(args: &[String]) -> (step: CliStep)
    ensures
        step@ == first_step(args@.map_values(|arg: String| arg@)),
{
    if args.len() == 0 {
        return CliStep::Finish(
            CliOutcome {
                exit_code: 0,
                stdout: usage_text(),
                stderr: String::new(),
                post: None,
                spawn: false,
            },
        );
    }
    let arg = args[0].as_str();
    match parse_command(arg) {
        Command::Start => CliStep::Start,
        Command::Show => CliStep::Send(IPCMessage::Show),
        Command::Hide => CliStep::Send(IPCMessage::Hide),
        Command::Stop => CliStep::Send(IPCMessage::Quit),
        Command::EnableAutostart => CliStep::EnableAutostart,
        Command::DisableAutostart => CliStep::DisableAutostart,
        Command::Help => CliStep::Finish(
            CliOutcome {
                exit_code: 0,
                stdout: usage_text(),
                stderr: String::new(),
                post: None,
                spawn: false,
            },
        ),
        Command::Unknown => {
            let stderr = "Unknown command: ".to_owned().concat(arg);
            CliStep::Finish(
                CliOutcome { exit_code: 1, stdout: usage_text(), stderr, post: None, spawn: false },
            )
        },
    }
}

/// The line that confirms a message to the running instance.
pub open spec fn sent_text(message: IPCMessage) -> Seq<char> {
    match message {
        IPCMessage::Show => "Showing taskbar..."@,
        IPCMessage::Hide => "Hiding taskbar..."@,
        IPCMessage::Quit => "Stopping THide..."@,
    }
}

/// The outcome of sending `message`, given whether the listener window
/// of a running instance was found.
///
/// Found: the message identifier is posted, without waiting for an
/// answer, and the confirmation is printed; exit code 0. Not found: the
/// error is reported and the exit code is 1; nothing is posted and
/// nothing is started.
pub open spec fn send_outcome(message: IPCMessage, listener_found: bool) -> Outcome {
    if listener_found {
        Outcome {
            exit_code: 0,
            stdout: sent_text(message),
            stderr: Seq::empty(),
            post: Some(message.spec_id()),
            spawn: false,
        }
    } else {
        Outcome {
            exit_code: 1,
            stdout: Seq::empty(),
            stderr: "Error: THide is not running!"@,
            post: None,
            spawn: false,
        }
    }
}

/// Decides how sending `message` to the running instance ends.
pub fn send_command(message: IPCMessage, listener_found: bool) -> (outcome: CliOutcome)
    ensures
        outcome@ == send_outcome(message, listener_found),
{
    if listener_found {
        let stdout = match message {
            IPCMessage::Show => "Showing taskbar...".to_owned(),
            IPCMessage::Hide => "Hiding taskbar...".to_owned(),
            IPCMessage::Quit => "Stopping THide...".to_owned(),
        };
        CliOutcome {
            exit_code: 0,
            stdout,
            stderr: String::new(),
            post: Some(message.id()),
            spawn: false,
        }
    } else {
        CliOutcome {
            exit_code: 1,
            stdout: String::new(),
            stderr: "Error: THide is not running!".to_owned(),
            post: None,
            spawn: false,
        }
    }
}

/// The outcome of `start`, given whether an instance is running.
///
/// Running: this is said and nothing is started. Not running: a new
/// instance is spawned. The exit code is 0 either way.
pub open spec fn start_outcome(running: bool) -> Outcome {
    if running {
        Outcome {
            exit_code: 0,
            stdout: "THide is already running."@,
            stderr: Seq::empty(),
            post: None,
            spawn: false,
        }
    } else {
        Outcome {
            exit_code: 0,
            stdout: "Starting THide..."@,
            stderr: Seq::empty(),
            post: None,
            spawn: true,
        }
    }
}

/// Decides how `start` ends. When the outcome asks for a spawn, the
/// spawn comes before the printing.
pub fn start_gui(running: bool) -> (outcome: CliOutcome)
    ensures
        outcome@ == start_outcome(running),
{
    if running {
        CliOutcome {
            exit_code: 0,
            stdout: "THide is already running.".to_owned(),
            stderr: String::new(),
            post: None,
            spawn: false,
        }
    } else {
        CliOutcome {
            exit_code: 0,
            stdout: "Starting THide...".to_owned(),
            stderr: String::new(),
            post: None,
            spawn: true,
        }
    }
}

/// The registry key of the programs that start at login.
pub open spec fn run_key() -> Seq<char> {
    "HKCU\\Software\\Microsoft\\Windows\\CurrentVersion\\Run"@
}

/// The arguments for the `reg` tool that make `exe_path` start at login.
pub open spec fn enable_args(exe_path: Seq<char>) -> Seq<Seq<char>> {
    seq!["add"@, run_key(), "/v"@, "THide"@, "/t"@, "REG_SZ"@, "/d"@, exe_path, "/f"@]
}

/// The arguments for the `reg` tool that delete the autostart entry.
pub open spec fn disable_args() -> Seq<Seq<char>> {
    seq!["delete"@, run_key(), "/v"@, "THide"@, "/f"@]
}

/// The arguments for the `reg` tool that make `exe_path` start at login.
/// An existing entry is overwritten.
pub fn enable_autostart_args(exe_path: &str) -> (args: Vec<String>)
    ensures
        args@.map_values(|arg: String| arg@) == enable_args(exe_path@),
{
    let mut args: Vec<String> = Vec::new();
    args.push("add".to_owned());
    args.push("HKCU\\Software\\Microsoft\\Windows\\CurrentVersion\\Run".to_owned());
    args.push("/v".to_owned());
    args.push("THide".to_owned());
    args.push("/t".to_owned());
    args.push("REG_SZ".to_owned());
    args.push("/d".to_owned());
    args.push(exe_path.to_owned());
    args.push("/f".to_owned());
    assert(args@.map_values(|arg: String| arg@) =~= enable_args(exe_path@));
    args
}

/// The arguments for the `reg` tool that delete the autostart entry.
pub fn disable_autostart_args() -> (args: Vec<String>)
    ensures
        args@.map_values(|arg: String| arg@) == disable_args(),
{
    let mut args: Vec<String> = Vec::new();
    args.push("delete".to_owned());
    args.push("HKCU\\Software\\Microsoft\\Windows\\CurrentVersion\\Run".to_owned());
    args.push("/v".to_owned());
    args.push("THide".to_owned());
    args.push("/f".to_owned());
    assert(args@.map_values(|arg: String| arg@) =~= disable_args());
    args
}

/// The outcome of `enable-autostart`, given whether the registry edit
/// succeeded and what it wrote to its standard error.
pub open spec fn enable_outcome(success: bool, edit_stderr: Seq<char>) -> Outcome {
    if success {
        Outcome {
            exit_code: 0,
            stdout: "\u{2713} Autostart enabled successfully!\n  THide will start automatically when you log in."@,
            stderr: Seq::empty(),
            post: None,
            spawn: false,
        }
    } else {
        Outcome {
            exit_code: 1,
            stdout: Seq::empty(),
            stderr: "Failed to enable autostart: "@ + edit_stderr,
            post: None,
            spawn: false,
        }
    }
}

/// Decides how `enable-autostart` ends.
pub fn enable_autostart(success: bool, edit_stderr: &str) -> (outcome: CliOutcome)
    ensures
        outcome@ == enable_outcome(success, edit_stderr@),
{
    if success {
        CliOutcome {
            exit_code: 0,
            stdout: "\u{2713} Autostart enabled successfully!\n  THide will start automatically when you log in.".to_owned(),
            stderr: String::new(),
            post: None,
            spawn: false,
        }
    } else {
        CliOutcome {
            exit_code: 1,
            stdout: String::new(),
            stderr: "Failed to enable autostart: ".to_owned().concat(edit_stderr),
            post: None,
            spawn: false,
        }
    }
}

/// The registry tool says that there was no entry to delete.
pub open spec fn reports_missing_entry(edit_stderr: Seq<char>) -> bool {
    is_substring("unable to find"@, edit_stderr) || is_substring("does not exist"@, edit_stderr)
}

/// The outcome of `disable-autostart`, given whether the registry edit
/// succeeded and what it wrote to its standard error.
///
/// A failure that only says that no entry existed is a success: there is
/// nothing to disable, no error is printed and the exit code is 0.
pub open spec fn disable_outcome(success: bool, edit_stderr: Seq<char>) -> Outcome {
    if success {
        Outcome {
            exit_code: 0,
            stdout: "\u{2713} Autostart disabled successfully!"@,
            stderr: Seq::empty(),
            post: None,
            spawn: false,
        }
    } else if reports_missing_entry(edit_stderr) {
        Outcome {
            exit_code: 0,
            stdout: "Autostart was not enabled."@,
            stderr: Seq::empty(),
            post: None,
            spawn: false,
        }
    } else {
        Outcome {
            exit_code: 1,
            stdout: Seq::empty(),
            stderr: "Failed to disable autostart: "@ + edit_stderr,
            post: None,
            spawn: false,
        }
    }
}

/// Decides how `disable-autostart` ends.
pub fn disable_autostart(success: bool, edit_stderr: &str) -> (outcome: CliOutcome)
    ensures
        outcome@ == disable_outcome(success, edit_stderr@),
{
    if success {
        CliOutcome {
            exit_code: 0,
            stdout: "\u{2713} Autostart disabled successfully!".to_owned(),
            stderr: String::new(),
            post: None,
            spawn: false,
        }
    } else if contains(edit_stderr, "unable to find") || contains(edit_stderr, "does not exist") {
        CliOutcome {
            exit_code: 0,
            stdout: "Autostart was not enabled.".to_owned(),
            stderr: String::new(),
            post: None,
            spawn: false,
        }
    } else {
        CliOutcome {
            exit_code: 1,
            stdout: String::new(),
            stderr: "Failed to disable autostart: ".to_owned().concat(edit_stderr),
            post: None,
            spawn: false,
        }
    }
}

} // verus!
