//! The shell passthrough: how a command line from the user interface is handed
//! to the system's shell, and what the user interface is told of its outcome.

use crate::text::{decimal, decimal_int};
use vstd::prelude::*;
use vstd::string::StringExecFns;

verus! {

/// How to start the system's shell on a command line: the program, the flag
/// that makes it run its next argument, and that argument.
#[derive(Debug, PartialEq, Eq)]
pub struct ShellCall {
    pub program: &'static str,
    pub flag: &'static str,
    pub command: String,
}

/// The shell of the platform.
pub open spec fn shell_program_text(windows: bool) -> Seq<char> {
    if windows {
        "cmd"@
    } else {
        "sh"@
    }
}

/// The flag by which that shell takes a command line.
pub open spec fn shell_flag_text(windows: bool) -> Seq<char> {
    if windows {
        "/C"@
    } else {
        "-c"@
    }
}

/// The call that runs `command`: `cmd /C` on Windows, `sh -c` elsewhere.
pub fn shell_call(windows: bool, command: &str) -> (r: ShellCall)
    ensures
        r.program@ == shell_program_text(windows),
        r.flag@ == shell_flag_text(windows),
        r.command@ == command@,
{
    if windows {
        ShellCall { program: "cmd", flag: "/C", command: String::from_str(command) }
    } else {
        ShellCall { program: "sh", flag: "-c", command: String::from_str(command) }
    }
}

/// How running a command ended.
#[derive(Debug, PartialEq, Eq)]
pub enum CommandOutcome {
    /// The shell ran and ended. `code` is its exit code, if it has one.
    Exited { success: bool, code: Option<i32>, stdout: String, stderr: String },
    /// The shell could not be started.
    NotStarted { reason: String },
}

/// Why a command gave no result.
#[derive(Debug, PartialEq, Eq)]
pub enum CommandError {
    /// The command ran and failed. A command without an exit code counts as
    /// having ended with -1.
    NonZeroExit { code: i32, stderr: String },
    /// The shell could not be started.
    SpawnFailed { reason: String },
}

/// What the user interface reads after a command that succeeded.
pub open spec fn success_text(stdout: Seq<char>) -> Seq<char> {
    "Command executed successfully.\nOutput: "@ + stdout
}

impl CommandError {
    /// The sentence that tells the user of the failure.
    pub open spec fn message_text(self) -> Seq<char> {
        match self {
            CommandError::NonZeroExit { code, stderr } => "Command failed with exit code "@
                + decimal_int(code as int) + ".\nError: "@ + stderr@,
            CommandError::SpawnFailed { reason } => "Failed to execute command: "@ + reason@,
        }
    }

    /// The sentence that tells the user of the failure.
    pub fn message(&self) -> (r: String)
        ensures
            r@ == self.message_text(),
    {
        match self {
            CommandError::NonZeroExit { code, stderr } => {
                let number = decimal(*code);
                String::from_str("Command failed with exit code ").concat(number.as_str()).concat(
                    ".\nError: ",
                ).concat(stderr.as_str())
            },
            CommandError::SpawnFailed { reason } => String::from_str(
                "Failed to execute command: ",
            ).concat(reason.as_str()),
        }
    }
}

/// The exit code that a failure is reported with.
pub open spec fn reported_code(code: Option<i32>) -> i32 {
    match code {
        Some(c) => c,
        None => -1i32,
    }
}

/// What the user interface is told of a command: its output after a success,
/// the exit code and what it wrote to its error stream after a failure, the
/// reason if it never started.
pub fn command_report(outcome: CommandOutcome) -> (r: Result<String, CommandError>)
    ensures
        match outcome {
            CommandOutcome::Exited { success, code, stdout, stderr } => if success {
                (r matches Ok(text) && text@ == success_text(stdout@))
            } else {
                r == Err::<String, CommandError>(
                    CommandError::NonZeroExit { code: reported_code(code), stderr },
                )
            },
            CommandOutcome::NotStarted { reason } => r == Err::<String, CommandError>(
                CommandError::SpawnFailed { reason },
            ),
        },
{
    match outcome {
        CommandOutcome::Exited { success, code, stdout, stderr } => {
            if success {
                Ok(String::from_str("Command executed successfully.\nOutput: ").concat(
                    stdout.as_str(),
                ))
            } else {
                let code = match code {
                    Some(c) => c,
                    None => -1,
                };
                Err(CommandError::NonZeroExit { code, stderr })
            }
        },
        CommandOutcome::NotStarted { reason } => Err(CommandError::SpawnFailed { reason }),
    }
}

} // verus!
