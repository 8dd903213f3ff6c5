//! How a command ends, and what is printed for it.

use crate::error::Error;
use crate::name::InterfaceName;
use crate::platform::{json_quoted, json_string};
use vstd::prelude::*;
use vstd::string::StringExecFns;

verus! {

/// The step of setting up a bridge at which it failed.
#[derive(Clone, Copy, Debug, PartialEq, Eq, Structural)]
pub enum SetupStep {
    /// Before anything was changed: the name or the privilege.
    Checking,
    /// Creating the bridge.
    CreatingBridge,
    /// Setting address and mask.
    Addressing,
    /// Bringing the bridge up.
    Raising,
}

/// How a command ended.
#[derive(Debug)]
pub enum Outcome {
    /// The tap exists, is attached to its bridge and is up.
    Created { tap: InterfaceName, json: bool },
    /// No tap was created, or it was created and removed again. `rollback`
    /// is the error of the removal, where one was tried and failed.
    NotCreated { error: Error, json: bool, rollback: Option<Error> },
    /// The interface was deleted.
    Deleted { name: InterfaceName },
    /// There was no such interface, and nothing was done.
    NothingToDelete { name: InterfaceName },
    /// The interface was not deleted.
    NotDeleted { error: Error },
    /// The capability is held.
    CapabilityHeld,
    /// The capability is missing.
    CapabilityMissing { program: String },
    /// The bridge exists, has its address and is up.
    Configured { name: InterfaceName, ip: String },
    /// The bridge was not set up, or not completely.
    NotConfigured { step: SetupStep, error: Error },
}

/// The hint given with a missing capability when a tap was to be created.
pub open spec fn install_hint() -> Seq<char> {
    ". Install with: sudo setcap cap_net_admin+ep <binary>"@
}

/// The message of an error of creation: that of the error, with the hint
/// where the capability is missing.
pub open spec fn creation_error_text(error: Error) -> Seq<char> {
    if error is Unprivileged {
        error.text() + install_hint()
    } else {
        error.text()
    }
}

/// The line for an error as a JSON object.
pub open spec fn json_error(msg: Seq<char>) -> Seq<char> {
    "{\"success\":false,\"error\":"@ + json_quoted(msg) + "}"@
}

/// The line for a created tap as a JSON object.
pub open spec fn json_created(tap: Seq<char>) -> Seq<char> {
    "{\"success\":true,\"tap_name\":"@ + json_quoted(tap) + "}"@
}

/// What printing an error writes to standard output.
pub open spec fn error_stdout(msg: Seq<char>, json: bool) -> Seq<char> {
    if json {
        json_error(msg)
    } else {
        Seq::empty()
    }
}

/// What printing an error writes to standard error.
pub open spec fn error_stderr(msg: Seq<char>, json: bool) -> Seq<char> {
    if json {
        Seq::empty()
    } else {
        "Error: "@ + msg
    }
}

/// The text for the two streams. An empty text means that nothing is
/// written to the stream; lines are separated by a line feed.
#[derive(Debug)]
pub struct Printed {
    pub stdout: String,
    pub stderr: String,
}

/// Whether the output format asked for is JSON.
pub fn is_json(format: &str) -> (json: bool)
    ensures
        json == (format@ == "json"@),
{
    let asked = format.to_owned();
    let json = "json".to_owned();
    asked == json
}

/// What is printed for an error: a JSON object on standard output where
/// JSON is asked for, else a line on standard error.
pub fn print_error(msg: &str, json: bool) -> (out: Printed)
    ensures
        out.stdout@ == error_stdout(msg@, json),
        out.stderr@ == error_stderr(msg@, json),
{
    if json {
        let mut stdout = "{\"success\":false,\"error\":".to_owned();
        let quoted = json_string(msg);
        stdout.append(quoted.as_str());
        stdout.append("}");
        Printed { stdout, stderr: String::new() }
    } else {
        let mut stderr = "Error: ".to_owned();
        stderr.append(msg);
        Printed { stdout: String::new(), stderr }
    }
}

impl SetupStep {
    /// What an error at this step is introduced with.
    pub open spec fn prefix(self) -> Seq<char> {
        match self {
            SetupStep::Checking => "Error: "@,
            SetupStep::CreatingBridge => "Error creating bridge: "@,
            SetupStep::Addressing => "Error setting IP: "@,
            SetupStep::Raising => "Error bringing up bridge: "@,
        }
    }

    /// What an error at this step is introduced with.
    pub fn label(&self) -> (out: &'static str)
        ensures
            out@ == self.prefix(),
    {
        match self {
            SetupStep::Checking => "Error: ",
            SetupStep::CreatingBridge => "Error creating bridge: ",
            SetupStep::Addressing => "Error setting IP: ",
            SetupStep::Raising => "Error bringing up bridge: ",
        }
    }
}

impl Outcome {
    /// Whether the command succeeded. Deleting what is not there succeeds.
    pub open spec fn succeeded(self) -> bool {
        match self {
            Outcome::Created { .. } | Outcome::Deleted { .. } | Outcome::NothingToDelete {
                ..
            } | Outcome::CapabilityHeld | Outcome::Configured { .. } => true,
            _ => false,
        }
    }

    /// The exit code: 0 for success, 1 for every failure.
    pub open spec fn code(self) -> i32 {
        if self.succeeded() {
            0
        } else {
            1
        }
    }

    /// What is written to standard output.
    pub open spec fn stdout_text(self) -> Seq<char> {
        match self {
            Outcome::Created { tap, json } => if json {
                json_created(tap@)
            } else {
                "Created TAP device: "@ + tap@
            },
            Outcome::NotCreated { error, json, .. } => error_stdout(
                creation_error_text(error),
                json,
            ),
            Outcome::Deleted { name } => "Deleted TAP device: "@ + name@,
            Outcome::NothingToDelete { name } => "TAP device '"@ + name@ + "' does not exist"@,
            Outcome::NotDeleted { .. } => Seq::empty(),
            Outcome::CapabilityHeld => "CAP_NET_ADMIN: yes"@,
            Outcome::CapabilityMissing { program } => "CAP_NET_ADMIN: no\n"@
                + "Install with: sudo setcap cap_net_admin+ep "@ + program@,
            Outcome::Configured { name, ip } => "Bridge '"@ + name@ + "' configured with IP "@
                + ip@,
            Outcome::NotConfigured { .. } => Seq::empty(),
        }
    }

    /// What is written to standard error.
    pub open spec fn stderr_text(self) -> Seq<char> {
        match self {
            Outcome::NotCreated { error, json, .. } => error_stderr(
                creation_error_text(error),
                json,
            ),
            Outcome::NotDeleted { error } => "Error: "@ + error.text(),
            Outcome::NotConfigured { step, error } => step.prefix() + error.text(),
            _ => Seq::empty(),
        }
    }

    /// What went wrong when a tap that could not be finished was removed
    /// again, where that failed too. It is kept apart from the error of the
    /// command, which it never replaces.
    pub open spec fn rollback_text(self) -> Option<Seq<char>> {
        match self {
            Outcome::NotCreated { rollback: Some(e), .. } => Some(e.text()),
            _ => None,
        }
    }

    /// The exit code.
    pub fn exit_code(&self) -> (out: i32)
        ensures
            out == self.code(),
            out == 0 || out == 1,
    {
        match self {
            Outcome::Created { .. } | Outcome::Deleted { .. } | Outcome::NothingToDelete {
                ..
            } | Outcome::CapabilityHeld | Outcome::Configured { .. } => 0,
            _ => 1,
        }
    }

    /// What is to be printed.
    pub fn printed(&self) -> (out: Printed)
        ensures
            out.stdout@ == self.stdout_text(),
            out.stderr@ == self.stderr_text(),
    {
        match self {
            Outcome::Created { tap, json } => {
                if *json {
                    let mut stdout = "{\"success\":true,\"tap_name\":".to_owned();
                    let quoted = json_string(tap.as_str());
                    stdout.append(quoted.as_str());
                    stdout.append("}");
                    Printed { stdout, stderr: String::new() }
                } else {
                    let mut stdout = "Created TAP device: ".to_owned();
                    stdout.append(tap.as_str());
                    Printed { stdout, stderr: String::new() }
                }
            },
            Outcome::NotCreated { error, json, .. } => {
                let mut msg = error.message();
                match error {
                    Error::Unprivileged => {
                        msg.append(". Install with: sudo setcap cap_net_admin+ep <binary>");
                    },
                    _ => {},
                }
                print_error(msg.as_str(), *json)
            },
            Outcome::Deleted { name } => {
                let mut stdout = "Deleted TAP device: ".to_owned();
                stdout.append(name.as_str());
                Printed { stdout, stderr: String::new() }
            },
            Outcome::NothingToDelete { name } => {
                let mut stdout = "TAP device '".to_owned();
                stdout.append(name.as_str());
                stdout.append("' does not exist");
                Printed { stdout, stderr: String::new() }
            },
            Outcome::NotDeleted { error } => {
                let mut stderr = "Error: ".to_owned();
                let msg = error.message();
                stderr.append(msg.as_str());
                Printed { stdout: String::new(), stderr }
            },
            Outcome::CapabilityHeld => Printed {
                stdout: "CAP_NET_ADMIN: yes".to_owned(),
                stderr: String::new(),
            },
            Outcome::CapabilityMissing { program } => {
                let mut stdout = "CAP_NET_ADMIN: no\n".to_owned();
                stdout.append("Install with: sudo setcap cap_net_admin+ep ");
                stdout.append(program.as_str());
                Printed { stdout, stderr: String::new() }
            },
            Outcome::Configured { name, ip } => {
                let mut stdout = "Bridge '".to_owned();
                stdout.append(name.as_str());
                stdout.append("' configured with IP ");
                stdout.append(ip.as_str());
                Printed { stdout, stderr: String::new() }
            },
            Outcome::NotConfigured { step, error } => {
                let mut stderr = step.label().to_owned();
                let msg = error.message();
                stderr.append(msg.as_str());
                Printed { stdout: String::new(), stderr }
            },
        }
    }

    /// What went wrong when the tap was removed again, if that failed.
    pub fn rollback_note(&self) -> (out: Option<String>)
        ensures
            match out {
                Some(note) => self.rollback_text() == Some(note@),
                None => self.rollback_text() is None,
            },
    {
        match self {
            Outcome::NotCreated { rollback: Some(e), .. } => Some(e.message()),
            _ => None,
        }
    }
}

/// Every outcome is either a success with code 0 or a failure with
/// code 1, and nothing is printed as a success for a failure: neither the
/// line of a created tap nor that of a configured bridge.
pub proof fn lemma_failure_is_reported(outcome: Outcome)
    ensures
        outcome.code() == 0 <==> outcome.succeeded(),
        outcome.code() == 1 <==> !outcome.succeeded(),
        outcome is NotCreated ==> outcome.stdout_text() == error_stdout(
            creation_error_text(outcome->NotCreated_error),
            outcome->NotCreated_json,
        ),
        outcome is NotDeleted || outcome is NotConfigured ==> outcome.stdout_text().len() == 0,
{
}

} // verus!
