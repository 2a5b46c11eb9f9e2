//! Error values reported by sharing operations.

use vstd::prelude::*;

verus! {

/// Failure of a sharing operation.
#[derive(Debug, PartialEq, Eq)]
pub enum TunshareError {
    /// A tool could not be run, failed, or ran past its deadline.
    CommandFailed { command: String, message: String },
    /// No VPN interface was detected.
    NoVpnInterfaces,
    /// No LAN interface was detected.
    NoLanInterfaces,
    /// A privileged write was rejected.
    PermissionDenied,
    /// A tool printed something unexpected.
    ParseError(String),
    /// A firewall operation failed. Also carries the joined errors of a
    /// stop in which several stages failed.
    FirewallError(String),
    /// An input or output failure, by its message.
    Io(String),
}

impl TunshareError {
    /// The text that describes the error to a user.
    pub open spec fn spec_message(self) -> Seq<char> {
        match self {
            TunshareError::CommandFailed { command, message } => "Command failed: "@ + command@
                + " - "@ + message@,
            TunshareError::NoVpnInterfaces => "No VPN interfaces found. Is your VPN connected?"@,
            TunshareError::NoLanInterfaces => "No LAN interfaces found"@,
            TunshareError::PermissionDenied => "Permission denied. Run with sudo."@,
            TunshareError::ParseError(detail) => "Failed to parse output: "@ + detail@,
            TunshareError::FirewallError(detail) => "Firewall error: "@ + detail@,
            TunshareError::Io(detail) => "IO error: "@ + detail@,
        }
    }

    /// The text that describes the error to a user.
    pub fn message(&self) -> (text: String)
        ensures
            text@ == self.spec_message(),
    {
        match self {
            TunshareError::CommandFailed { command, message } => {
                let mut text = String::from_str("Command failed: ");
                text.append(command.as_str());
                text.append(" - ");
                text.append(message.as_str());
                text
            },
            TunshareError::NoVpnInterfaces => String::from_str(
                "No VPN interfaces found. Is your VPN connected?",
            ),
            TunshareError::NoLanInterfaces => String::from_str("No LAN interfaces found"),
            TunshareError::PermissionDenied => String::from_str(
                "Permission denied. Run with sudo.",
            ),
            TunshareError::ParseError(detail) => {
                let mut text = String::from_str("Failed to parse output: ");
                text.append(detail.as_str());
                text
            },
            TunshareError::FirewallError(detail) => {
                let mut text = String::from_str("Firewall error: ");
                text.append(detail.as_str());
                text
            },
            TunshareError::Io(detail) => {
                let mut text = String::from_str("IO error: ");
                text.append(detail.as_str());
                text
            },
        }
    }

    /// The error of an operation named `command` that ran past its
    /// deadline.
    pub fn timed_out(command: &str) -> (error: TunshareError)
        ensures
            error matches TunshareError::CommandFailed { command: c, message: m } && c@
                == command@ && m@ == "operation timed out"@,
    {
        TunshareError::CommandFailed {
            command: String::from_str(command),
            message: String::from_str("operation timed out"),
        }
    }
}

impl Clone for TunshareError {
    fn clone(&self) -> (copy: TunshareError)
        ensures
            copy == *self,
    {
        match self {
            TunshareError::CommandFailed { command, message } => TunshareError::CommandFailed {
                command: command.clone(),
                message: message.clone(),
            },
            TunshareError::NoVpnInterfaces => TunshareError::NoVpnInterfaces,
            TunshareError::NoLanInterfaces => TunshareError::NoLanInterfaces,
            TunshareError::PermissionDenied => TunshareError::PermissionDenied,
            TunshareError::ParseError(detail) => TunshareError::ParseError(detail.clone()),
            TunshareError::FirewallError(detail) => TunshareError::FirewallError(detail.clone()),
            TunshareError::Io(detail) => TunshareError::Io(detail.clone()),
        }
    }
}

} // verus!
