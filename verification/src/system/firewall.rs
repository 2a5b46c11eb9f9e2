//! The packet-filter rules of a sharing session, as a handle that
//! remembers whether rules are loaded.
//!
//! The handle does not talk to the packet filter; its holder does.

use vstd::prelude::*;

verus! {

/// Manages the sharing rules of the packet filter.
#[derive(Debug, PartialEq, Eq)]
pub struct Firewall {
    /// Whether sharing rules are loaded.
    active: bool,
}

impl Firewall {
    /// Whether sharing rules are loaded.
    pub closed spec fn active(&self) -> bool {
        self.active
    }

    /// A handle with no rules loaded.
    pub fn new() -> (handle: Firewall)
        ensures
            !handle.active(),
    {
        Firewall { active: false }
    }

    /// Whether sharing rules are loaded.
    pub fn is_active(&self) -> (active: bool)
        ensures
            active == self.active(),
    {
        self.active
    }

    /// Records that the sharing rules were loaded.
    pub fn load_rules(&mut self)
        ensures
            final(self).active(),
    {
        self.active = true;
    }

    /// Records that the rules are gone and says whether any were loaded.
    /// Cleaning up twice finds nothing the second time.
    pub fn cleanup(&mut self) -> (was_active: bool)
        ensures
            was_active == old(self).active(),
            !final(self).active(),
    {
        let was_active = self.active;
        self.active = false;
        was_active
    }

    /// As `cleanup`, for the synchronous last-resort cleanup.
    pub fn cleanup_sync(&mut self) -> (was_active: bool)
        ensures
            was_active == old(self).active(),
            !final(self).active(),
    {
        self.cleanup()
    }
}

impl Default for Firewall {
    fn default() -> (handle: Firewall)
        ensures
            !handle.active(),
    {
        Firewall::new()
    }
}

} // verus!
