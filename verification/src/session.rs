//! The sharing session: what exists while a VPN is shared, and who holds
//! the two resource handles at any moment.
//!
//! The firewall and IP-forwarding handles are lent to a background task
//! for every operation that touches them and come back with its result.
//! While they are out, the session's slots are empty, and the last-resort
//! cleanup leaves them alone: the task that holds them cleans up itself.

use crate::health::HealthStatus;
use crate::net::Ipv4Addr;
use crate::system::firewall::Firewall;
use crate::system::natpmp::NatPmpServer;
use crate::system::sysctl::IpForwarding;
use vstd::prelude::*;

verus! {

/// One step of the last-resort cleanup of a session.
#[derive(Debug, Clone, Copy, PartialEq, Eq, Structural)]
pub enum CleanupStep {
    /// Signal the running NAT-PMP server to shut down.
    SignalNatPmp,
    /// Flush the NAT-PMP anchor.
    FlushNatPmpAnchor,
    /// Stop the DHCP server.
    StopDhcp,
    /// Remove the sharing rules from the packet filter.
    CleanupFirewall,
    /// Write this value back to the IP-forwarding switch.
    RestoreIpForwarding(bool),
}

/// An active VPN sharing session.
#[derive(Debug, PartialEq, Eq)]
pub struct SharingSession {
    /// The firewall handle; empty while it is lent out.
    pub firewall: Option<Firewall>,
    /// The IP-forwarding handle; empty while it is lent out.
    pub ip_forwarding: Option<IpForwarding>,
    /// VPN interface name, as in `utun4`.
    pub vpn_name: String,
    /// LAN interface name, as in `en0`.
    pub lan_name: String,
    /// LAN gateway address, as in `192.168.2.1`.
    pub lan_ip: Ipv4Addr,
    /// Whether the DHCP server is running.
    pub dhcp_active: bool,
    /// DHCP range being served: first and last address.
    pub dhcp_range: Option<(String, String)>,
    /// Whether the NAT-PMP server is running.
    pub natpmp_active: bool,
    /// The settings of the running NAT-PMP server, kept to signal it.
    pub natpmp_server: Option<NatPmpServer>,
    /// Connection health, as the periodic checks found it.
    pub health_status: HealthStatus,
}

/// The steps of the last-resort cleanup, in their order: NAT-PMP first, so
/// that its anchor is flushed before the firewall cleanup clears anchors,
/// then DHCP, then the firewall, then IP forwarding. The last two only for
/// a handle that is held and has changed the system: rules that are
/// loaded, forwarding that was modified.
pub open spec fn cleanup_steps(
    natpmp_active: bool,
    has_natpmp_server: bool,
    dhcp_active: bool,
    firewall: Option<Firewall>,
    ip_forwarding: Option<IpForwarding>,
) -> Seq<CleanupStep> {
    (if natpmp_active && has_natpmp_server {
        seq![CleanupStep::SignalNatPmp]
    } else {
        Seq::<CleanupStep>::empty()
    }) + (if natpmp_active {
        seq![CleanupStep::FlushNatPmpAnchor]
    } else {
        Seq::<CleanupStep>::empty()
    }) + (if dhcp_active {
        seq![CleanupStep::StopDhcp]
    } else {
        Seq::<CleanupStep>::empty()
    }) + (match firewall {
        Some(handle) => if handle.active() {
            seq![CleanupStep::CleanupFirewall]
        } else {
            Seq::<CleanupStep>::empty()
        },
        None => Seq::<CleanupStep>::empty(),
    }) + (match ip_forwarding {
        Some(handle) => match handle.original() {
            Some(original) => seq![CleanupStep::RestoreIpForwarding(original)],
            None => Seq::<CleanupStep>::empty(),
        },
        None => Seq::<CleanupStep>::empty(),
    })
}

impl SharingSession {
    /// The session holds both handles.
    pub open spec fn holds_managers(&self) -> bool {
        self.firewall is Some && self.ip_forwarding is Some
    }

    /// The handles are lent out: the session holds neither.
    pub open spec fn on_loan(&self) -> bool {
        self.firewall is None && self.ip_forwarding is None
    }

    /// The two handles travel together: the session holds both or
    /// neither.
    pub open spec fn wf(&self) -> bool {
        self.holds_managers() || self.on_loan()
    }

    /// Whether `other` is this session but for the two handles.
    pub open spec fn same_but_managers(&self, other: SharingSession) -> bool {
        *self == (SharingSession {
            firewall: self.firewall,
            ip_forwarding: self.ip_forwarding,
            ..other
        })
    }

    /// A session that holds both handles, with no service running.
    pub fn new(
        firewall: Firewall,
        ip_forwarding: IpForwarding,
        vpn_name: String,
        lan_name: String,
        lan_ip: Ipv4Addr,
    ) -> (session: SharingSession)
        ensures
            session.firewall == Some(firewall),
            session.ip_forwarding == Some(ip_forwarding),
            session.vpn_name == vpn_name,
            session.lan_name == lan_name,
            session.lan_ip == lan_ip,
            !session.dhcp_active,
            session.dhcp_range is None,
            !session.natpmp_active,
            session.natpmp_server is None,
            session.health_status == HealthStatus::Healthy,
            session.wf(),
    {
        SharingSession {
            firewall: Some(firewall),
            ip_forwarding: Some(ip_forwarding),
            vpn_name,
            lan_name,
            lan_ip,
            dhcp_active: false,
            dhcp_range: None,
            natpmp_active: false,
            natpmp_server: None,
            health_status: HealthStatus::Healthy,
        }
    }

    /// Whether the session holds both handles.
    pub fn has_managers(&self) -> (held: bool)
        ensures
            held == self.holds_managers(),
    {
        self.firewall.is_some() && self.ip_forwarding.is_some()
    }

    /// Moves both handles out, to hand them to a background task. After
    /// this the cleanup skips them. For a handle that is out already, a
    /// fresh one that has modified nothing is handed out in its place.
    pub fn take_managers(&mut self) -> (managers: (Firewall, IpForwarding))
        ensures
            final(self).on_loan(),
            final(self).same_but_managers(*old(self)),
            match old(self).firewall {
                Some(firewall) => managers.0 == firewall,
                None => !managers.0.active(),
            },
            match old(self).ip_forwarding {
                Some(ip_forwarding) => managers.1 == ip_forwarding,
                None => managers.1.original() is None,
            },
    {
        let firewall = match self.firewall.take() {
            Some(firewall) => firewall,
            None => Firewall::new(),
        };
        let ip_forwarding = match self.ip_forwarding.take() {
            Some(ip_forwarding) => ip_forwarding,
            None => IpForwarding::new(),
        };
        (firewall, ip_forwarding)
    }

    /// Takes both handles back when the background task is done.
    pub fn restore_managers(&mut self, firewall: Firewall, ip_forwarding: IpForwarding)
        ensures
            final(self).firewall == Some(firewall),
            final(self).ip_forwarding == Some(ip_forwarding),
            final(self).holds_managers(),
            final(self).same_but_managers(*old(self)),
    {
        self.firewall = Some(firewall);
        self.ip_forwarding = Some(ip_forwarding);
    }

    /// Whether the session holds an IP-forwarding handle that has
    /// modified the switch.
    pub fn ip_forwarding_is_modified(&self) -> (modified: bool)
        ensures
            modified == (self.ip_forwarding matches Some(handle) && handle.original() is Some),
    {
        match &self.ip_forwarding {
            Some(handle) => handle.is_modified(),
            None => false,
        }
    }

    /// Forgets the NAT-PMP server and says whether there was one, which
    /// the caller then signals to shut down.
    pub fn shutdown_natpmp(&mut self) -> (signal: bool)
        ensures
            signal == old(self).natpmp_server is Some,
            *final(self) == (SharingSession { natpmp_server: None, ..*old(self) }),
    {
        let signal = self.natpmp_server.is_some();
        self.natpmp_server = None;
        signal
    }

    /// Keeps the settings of the NAT-PMP server after it has started.
    pub fn set_natpmp_server(&mut self, server: Option<NatPmpServer>)
        ensures
            *final(self) == (SharingSession { natpmp_server: server, ..*old(self) }),
    {
        self.natpmp_server = server;
    }

    /// Whether a NAT-PMP server is kept.
    pub fn has_natpmp_server(&self) -> (kept: bool)
        ensures
            kept == self.natpmp_server is Some,
    {
        self.natpmp_server.is_some()
    }

    /// Ends the session and lists what its last-resort cleanup has to do,
    /// in order. A handle that is lent out is not touched: the task that
    /// holds it cleans up.
    pub fn release(self) -> (steps: Vec<CleanupStep>)
        ensures
            steps@ == cleanup_steps(
                self.natpmp_active,
                self.natpmp_server is Some,
                self.dhcp_active,
                self.firewall,
                self.ip_forwarding,
            ),
    {
        let mut steps: Vec<CleanupStep> = Vec::new();
        if self.natpmp_active {
            if self.natpmp_server.is_some() {
                steps.push(CleanupStep::SignalNatPmp);
            }
            steps.push(CleanupStep::FlushNatPmpAnchor);
        }
        if self.dhcp_active {
            steps.push(CleanupStep::StopDhcp);
        }
        match self.firewall {
            Some(mut handle) => {
                if handle.cleanup_sync() {
                    steps.push(CleanupStep::CleanupFirewall);
                }
            },
            None => {},
        }
        match self.ip_forwarding {
            Some(mut handle) => {
                match handle.restore_sync() {
                    Some(original) => {
                        steps.push(CleanupStep::RestoreIpForwarding(original));
                    },
                    None => {},
                }
            },
            None => {},
        }
        assert(steps@ =~= cleanup_steps(
            self.natpmp_active,
            self.natpmp_server is Some,
            self.dhcp_active,
            self.firewall,
            self.ip_forwarding,
        ));
        steps
    }
}

/// A handle is always in exactly one place: after a loan the session holds
/// nothing and the borrower holds what the session held; after the return
/// the session holds again what was returned.
pub proof fn lemma_loan_round_trip(
    before: SharingSession,
    lent: SharingSession,
    managers: (Firewall, IpForwarding),
    after: SharingSession,
)
    requires
        before.holds_managers(),
        lent.on_loan(),
        lent.same_but_managers(before),
        managers.0 == before.firewall.unwrap(),
        managers.1 == before.ip_forwarding.unwrap(),
        after.firewall == Some(managers.0),
        after.ip_forwarding == Some(managers.1),
        after.same_but_managers(lent),
    ensures
        lent.wf(),
        after.wf(),
        after.firewall == before.firewall,
        after.ip_forwarding == before.ip_forwarding,
        after.same_but_managers(before),
        cleanup_steps(
            lent.natpmp_active,
            lent.natpmp_server is Some,
            lent.dhcp_active,
            lent.firewall,
            lent.ip_forwarding,
        ) == cleanup_steps(
            before.natpmp_active,
            before.natpmp_server is Some,
            before.dhcp_active,
            None,
            None,
        ),
{
}

} // verus!
