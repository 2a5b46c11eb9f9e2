//! User preferences.

use crate::system::network::clone_optional_string;
use vstd::prelude::*;

verus! {

/// Persisted user preferences.
#[derive(Debug, PartialEq, Eq)]
pub struct Config {
    /// Whether to start DHCP when sharing begins. This is the user's
    /// intent; whether the DHCP daemon is installed is checked when
    /// sharing starts.
    pub dhcp_enabled: bool,
    /// Whether to start NAT-PMP when sharing begins.
    pub natpmp_enabled: bool,
    /// Custom DNS server; `None` means: detect it from VPN and system.
    pub custom_dns: Option<String>,
}

/// The value of a switch that a stored configuration does not mention.
pub fn default_true() -> (on: bool)
    ensures
        on,
{
    true
}

impl Default for Config {
    fn default() -> (config: Config)
        ensures
            config == (Config { dhcp_enabled: true, natpmp_enabled: true, custom_dns: None }),
    {
        Config { dhcp_enabled: true, natpmp_enabled: true, custom_dns: None }
    }
}

impl Clone for Config {
    fn clone(&self) -> (copy: Config)
        ensures
            copy == *self,
    {
        Config {
            dhcp_enabled: self.dhcp_enabled,
            natpmp_enabled: self.natpmp_enabled,
            custom_dns: clone_optional_string(&self.custom_dns),
        }
    }
}

} // verus!
