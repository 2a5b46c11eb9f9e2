//! The IP-forwarding switch of the kernel, as a handle that remembers what
//! the switch was before sharing changed it.
//!
//! The handle does not read or write the switch. It decides when the
//! original value has to be saved and which value has to be written back;
//! its holder does the reading and the writing.

use crate::error::TunshareError;
use crate::scan::{contains, has};
use crate::text::{chars_of, trim, trimmed};
use vstd::prelude::*;

verus! {

/// Manages the IP-forwarding state.
#[derive(Debug, PartialEq, Eq)]
pub struct IpForwarding {
    /// The state before it was modified, once it has been saved.
    original_state: Option<bool>,
}

impl IpForwarding {
    /// The saved original state, if the switch has been modified.
    pub closed spec fn original(&self) -> Option<bool> {
        self.original_state
    }

    /// A handle that has modified nothing.
    pub fn new() -> (handle: IpForwarding)
        ensures
            handle.original() is None,
    {
        IpForwarding { original_state: None }
    }

    /// Whether the original state has been saved, which means that the
    /// switch has been modified.
    pub fn is_modified(&self) -> (modified: bool)
        ensures
            modified == self.original() is Some,
    {
        self.original_state.is_some()
    }

    /// Records `current` as the original state before forwarding is
    /// switched on, unless an original state is saved already: enabling
    /// twice keeps the first.
    pub fn enable(&mut self, current: bool)
        ensures
            final(self).original() == match old(self).original() {
                Some(saved) => Some(saved),
                None => Some(current),
            },
    {
        if self.original_state.is_none() {
            self.original_state = Some(current);
        }
    }

    /// Takes the saved original state out of the handle: the value to
    /// write back to the switch, or `None` where nothing was modified and
    /// nothing is to be written. Restoring twice writes once.
    pub fn restore(&mut self) -> (write_back: Option<bool>)
        ensures
            write_back == old(self).original(),
            final(self).original() is None,
    {
        self.original_state.take()
    }

    /// As `restore`, for the synchronous last-resort cleanup.
    pub fn restore_sync(&mut self) -> (write_back: Option<bool>)
        ensures
            write_back == old(self).original(),
            final(self).original() is None,
    {
        self.restore()
    }

    /// The value of the switch that the tool's output reports: trimmed,
    /// `1` is on, `0` is off, and anything else cannot be read.
    pub fn parse_state(stdout: &str) -> (state: Result<bool, TunshareError>)
        ensures
            trimmed(stdout@) == seq!['1'] ==> state == Ok::<bool, TunshareError>(true),
            trimmed(stdout@) == seq!['0'] ==> state == Ok::<bool, TunshareError>(false),
            trimmed(stdout@) != seq!['1'] && trimmed(stdout@) != seq!['0'] ==> (state matches Err(
                TunshareError::ParseError(detail),
            ) && detail@ == "Unexpected sysctl value: "@ + trimmed(stdout@)),
    {
        let value = trim(stdout);
        let len = value.unicode_len();
        if len == 1 {
            let c = value.get_char(0);
            if c == '1' {
                assert(value@ =~= seq!['1']);
                return Ok(true);
            }
            if c == '0' {
                assert(value@ =~= seq!['0']);
                return Ok(false);
            }
        }
        let mut detail = String::from_str("Unexpected sysctl value: ");
        detail.append(value);
        Err(TunshareError::ParseError(detail))
    }

    /// The command that writes the switch.
    pub open spec fn spec_write_command(enabled: bool) -> Seq<char> {
        "sysctl -w net.inet.ip.forwarding="@ + (if enabled {
            "1"@
        } else {
            "0"@
        })
    }

    /// The command that writes the switch.
    pub fn write_command(enabled: bool) -> (command: String)
        ensures
            command@ == IpForwarding::spec_write_command(enabled),
    {
        let mut command = String::from_str("sysctl -w net.inet.ip.forwarding=");
        command.append(if enabled {
            "1"
        } else {
            "0"
        });
        command
    }

    /// Whether what the tool printed as its error speaks of missing
    /// permission.
    pub open spec fn speaks_of_permission(stderr: Seq<char>) -> bool {
        contains(stderr, "Operation not permitted"@) || contains(stderr, "Permission denied"@)
    }

    /// The error of a write of the switch that the tool refused, from
    /// what the tool printed as its error.
    pub fn write_failure(enabled: bool, stderr: &str) -> (error: TunshareError)
        ensures
            IpForwarding::speaks_of_permission(stderr@) ==> error
                == TunshareError::PermissionDenied,
            !IpForwarding::speaks_of_permission(stderr@) ==> (error matches TunshareError::CommandFailed {
                command,
                message,
            } && command@ == IpForwarding::spec_write_command(enabled) && message@ == stderr@),
    {
        let text = chars_of(stderr);
        let not_permitted = chars_of("Operation not permitted");
        let denied = chars_of("Permission denied");
        if has(&text, &not_permitted) || has(&text, &denied) {
            return TunshareError::PermissionDenied;
        }
        TunshareError::CommandFailed {
            command: IpForwarding::write_command(enabled),
            message: String::from_str(stderr),
        }
    }
}

impl Default for IpForwarding {
    fn default() -> (handle: IpForwarding)
        ensures
            handle.original() is None,
    {
        IpForwarding::new()
    }
}

} // verus!
