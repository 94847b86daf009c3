//! The failure taxonomy of a run: a failed external command with its
//! captured output, and the run-level error that every entry point
//! reports.

use vstd::prelude::*;
use crate::text::{i32_to_string, join_spaces, spec_int_str, spec_join_spaces};

verus! {

/// A failed external command: the command line that was run, the exit
/// code it ended with (absent when it could not be spawned), and its
/// captured output streams.
#[derive(Debug)]
pub struct CommandError {
    pub command: String,
    pub args: Vec<String>,
    pub exit_code: Option<i32>,
    pub stdout: String,
    pub stderr: String,
}

impl CommandError {
    /// The human-readable report: the command line, then the exit code
    /// and each non-empty captured stream on lines of their own.
    pub open spec fn spec_message(self) -> Seq<char> {
        let head = "Command failed: "@ + self.command@ + " "@ + spec_join_spaces(
            self.args.deep_view(),
        ) + "\n"@;
        let with_code = match self.exit_code {
            Option::Some(code) => head + "Exit code: "@ + spec_int_str(code as int) + "\n"@,
            Option::None => head,
        };
        let with_out = if self.stdout@.len() > 0 {
            with_code + "Stdout: "@ + self.stdout@ + "\n"@
        } else {
            with_code
        };
        if self.stderr@.len() > 0 {
            with_out + "Stderr: "@ + self.stderr@ + "\n"@
        } else {
            with_out
        }
    }

    /// Renders the report.
    pub fn message(&self) -> (r: String)
        ensures
            r@ == self.spec_message(),
    {
        let mut r = String::from_str("Command failed: ");
        r.append(self.command.as_str());
        r.append(" ");
        r.append(join_spaces(&self.args).as_str());
        r.append("\n");
        match &self.exit_code {
            Some(code) => {
                r.append("Exit code: ");
                r.append(i32_to_string(*code).as_str());
                r.append("\n");
            },
            None => {},
        }
        if !self.stdout.as_str().is_empty() {
            r.append("Stdout: ");
            r.append(self.stdout.as_str());
            r.append("\n");
        }
        if !self.stderr.as_str().is_empty() {
            r.append("Stderr: ");
            r.append(self.stderr.as_str());
            r.append("\n");
        }
        r
    }
}

/// The run-level error taxonomy.  A declined confirmation is not here:
/// it is a deliberate no-op outcome, not a failure.
#[derive(Debug)]
pub enum AppError {
    /// An external tool exited nonzero or could not be spawned.
    Command(CommandError),
    /// A local filesystem failure, carried as its description.
    Io(String),
    /// A network or HTTP failure, carried as its description.
    Fetch(String),
    /// A malformed manifest, carried as the parser's description.
    TomlDe(String),
    /// A named script absent from the manifest's script section.
    UnknownScript(String),
    /// Any other failure, carried as its description.
    Other(String),
}

impl AppError {
    /// The human-readable report of a run-level error.
    pub open spec fn spec_message(self) -> Seq<char> {
        match self {
            AppError::Command(e) => "Command Error: "@ + e.spec_message(),
            AppError::Io(m) => "IO Error: "@ + m@,
            AppError::Fetch(m) => "Fetch Error: "@ + m@,
            AppError::TomlDe(m) => "TOML Deserialization Error: "@ + m@,
            AppError::UnknownScript(m) => "Unknown Script Error: "@ + m@,
            AppError::Other(m) => "Other Error: "@ + m@,
        }
    }

    /// Renders the report.
    pub fn message(&self) -> (r: String)
        ensures
            r@ == self.spec_message(),
    {
        match self {
            AppError::Command(e) => {
                let mut r = String::from_str("Command Error: ");
                r.append(e.message().as_str());
                r
            },
            AppError::Io(m) => {
                let mut r = String::from_str("IO Error: ");
                r.append(m.as_str());
                r
            },
            AppError::Fetch(m) => {
                let mut r = String::from_str("Fetch Error: ");
                r.append(m.as_str());
                r
            },
            AppError::TomlDe(m) => {
                let mut r = String::from_str("TOML Deserialization Error: ");
                r.append(m.as_str());
                r
            },
            AppError::UnknownScript(m) => {
                let mut r = String::from_str("Unknown Script Error: ");
                r.append(m.as_str());
                r
            },
            AppError::Other(m) => {
                let mut r = String::from_str("Other Error: ");
                r.append(m.as_str());
                r
            },
        }
    }
}

} // verus!
