//! Health of an active sharing session.

use crate::scan::{contains, has};
use crate::text::{chars_of, trim, trimmed};
use vstd::prelude::*;

verus! {

/// Overall health status of the active sharing session.
#[derive(Debug, PartialEq, Eq)]
pub enum HealthStatus {
    /// Everything is working normally.
    Healthy,
    /// Something is degraded but traffic may still flow.
    Degraded(String),
    /// The VPN interface is down: traffic is not flowing.
    Down(String),
}

impl Default for HealthStatus {
    fn default() -> (status: HealthStatus)
        ensures
            status == HealthStatus::Healthy,
    {
        HealthStatus::Healthy
    }
}

impl Clone for HealthStatus {
    fn clone(&self) -> (copy: HealthStatus)
        ensures
            copy == *self,
    {
        match self {
            HealthStatus::Healthy => HealthStatus::Healthy,
            HealthStatus::Degraded(reason) => HealthStatus::Degraded(reason.clone()),
            HealthStatus::Down(reason) => HealthStatus::Down(reason.clone()),
        }
    }
}

/// The status that two liveness probes add up to, the more severe finding
/// first: a VPN interface that is not up means down, whatever forwarding
/// says; forwarding switched off from outside means degraded.
pub open spec fn spec_assess(vpn_name: Seq<char>, interface_up: bool, forwarding_enabled: bool) -> (
    HealthLevel,
    Seq<char>,
) {
    if !interface_up {
        (HealthLevel::Down, "VPN interface "@ + vpn_name + " is no longer up"@)
    } else if !forwarding_enabled {
        (HealthLevel::Degraded, "IP forwarding was disabled externally"@)
    } else {
        (HealthLevel::Healthy, Seq::<char>::empty())
    }
}

/// A health status without its reason.
#[derive(Debug, Clone, Copy, PartialEq, Eq, Structural)]
pub enum HealthLevel {
    Healthy,
    Degraded,
    Down,
}

impl HealthStatus {
    /// The status without its reason.
    pub open spec fn level(self) -> HealthLevel {
        match self {
            HealthStatus::Healthy => HealthLevel::Healthy,
            HealthStatus::Degraded(_) => HealthLevel::Degraded,
            HealthStatus::Down(_) => HealthLevel::Down,
        }
    }

    /// The reason given with the status; empty for a healthy one.
    pub open spec fn reason(self) -> Seq<char> {
        match self {
            HealthStatus::Healthy => Seq::<char>::empty(),
            HealthStatus::Degraded(reason) => reason@,
            HealthStatus::Down(reason) => reason@,
        }
    }
}

/// Assesses the session from the two liveness probes: whether the VPN
/// interface `vpn_name` is up, and whether IP forwarding is still enabled.
pub fn check_health(vpn_name: &str, interface_up: bool, forwarding_enabled: bool) -> (status:
    HealthStatus)
    ensures
        status.level() == spec_assess(vpn_name@, interface_up, forwarding_enabled).0,
        status.reason() == spec_assess(vpn_name@, interface_up, forwarding_enabled).1,
{
    if !interface_up {
        let mut reason = String::from_str("VPN interface ");
        reason.append(vpn_name);
        reason.append(" is no longer up");
        return HealthStatus::Down(reason);
    }
    if !forwarding_enabled {
        return HealthStatus::Degraded(String::from_str("IP forwarding was disabled externally"));
    }
    HealthStatus::Healthy
}

/// What became of a tool that was run for a probe.
#[derive(Debug, PartialEq, Eq)]
pub enum ProbeOutput {
    /// The tool could not be run.
    NotRun,
    /// The tool ran; whether it ended with success, and what it printed.
    Ran { success: bool, stdout: String },
}

/// Whether the interface counts as up, from what `ifconfig` made of it. A
/// tool that could not be run raises no alarm; a tool that failed means
/// the interface is gone; else the interface is up if the output holds
/// `UP`.
pub open spec fn spec_interface_is_up(output: ProbeOutput) -> bool {
    match output {
        ProbeOutput::NotRun => true,
        ProbeOutput::Ran { success, stdout } => success && contains(stdout@, "UP"@),
    }
}

/// Whether the interface counts as up, from what `ifconfig` made of it.
pub fn interface_is_up(output: &ProbeOutput) -> (up: bool)
    ensures
        up == spec_interface_is_up(*output),
{
    match output {
        ProbeOutput::NotRun => true,
        ProbeOutput::Ran { success, stdout } => {
            if !*success {
                return false;
            }
            let text = chars_of(stdout.as_str());
            let flag = chars_of("UP");
            has(&text, &flag)
        },
    }
}

/// Whether IP forwarding counts as enabled, from what `sysctl` made of
/// it. A tool that could not be run raises no alarm; else forwarding is
/// enabled if the output, trimmed, is `1`.
pub open spec fn spec_forwarding_is_enabled(output: ProbeOutput) -> bool {
    match output {
        ProbeOutput::NotRun => true,
        ProbeOutput::Ran { success, stdout } => trimmed(stdout@) == seq!['1'],
    }
}

/// Whether IP forwarding counts as enabled, from what `sysctl` made of
/// it.
pub fn forwarding_is_enabled(output: &ProbeOutput) -> (enabled: bool)
    ensures
        enabled == spec_forwarding_is_enabled(*output),
{
    match output {
        ProbeOutput::NotRun => true,
        ProbeOutput::Ran { success, stdout } => {
            let value = trim(stdout.as_str());
            if value.unicode_len() == 1 {
                let c = value.get_char(0);
                if c == '1' {
                    assert(value@ =~= seq!['1']);
                }
                c == '1'
            } else {
                false
            }
        },
    }
}

} // verus!
