use tunshare::health::{check_health, HealthStatus};
use tunshare::net::Ipv4Addr;
use tunshare::session::{CleanupStep, SharingSession};
use tunshare::system::firewall::Firewall;
use tunshare::system::natpmp::NatPmpServer;
use tunshare::system::sysctl::IpForwarding;

fn session() -> SharingSession {
    SharingSession::new(
        Firewall::new(),
        IpForwarding::new(),
        "utun4".to_string(),
        "en0".to_string(),
        Ipv4Addr::new(192, 168, 2, 1),
    )
}

fn modified_forwarding(original: bool) -> IpForwarding {
    let mut handle = IpForwarding::new();
    handle.enable(original);
    handle
}

fn loaded_firewall() -> Firewall {
    let mut handle = Firewall::new();
    handle.load_rules();
    handle
}

#[test]
fn new_session_holds_both_handles() {
    let s = session();
    assert!(s.has_managers());
    assert_eq!(s.vpn_name, "utun4");
    assert_eq!(s.lan_name, "en0");
    assert_eq!(s.lan_ip, Ipv4Addr::new(192, 168, 2, 1));
    assert!(!s.dhcp_active);
    assert!(!s.natpmp_active);
    assert_eq!(s.dhcp_range, None);
    assert_eq!(s.health_status, HealthStatus::Healthy);
    assert!(!s.has_natpmp_server());
}

#[test]
fn take_and_restore_move_the_handles() {
    let mut s = SharingSession::new(
        loaded_firewall(),
        modified_forwarding(false),
        "utun4".to_string(),
        "en0".to_string(),
        Ipv4Addr::new(192, 168, 2, 1),
    );
    assert!(s.ip_forwarding_is_modified());
    let (firewall, ip_forwarding) = s.take_managers();
    assert!(firewall.is_active());
    assert!(ip_forwarding.is_modified());
    assert!(!s.has_managers());
    assert_eq!(s.firewall, None);
    assert_eq!(s.ip_forwarding, None);
    assert!(!s.ip_forwarding_is_modified());
    assert_eq!(s.vpn_name, "utun4");

    // A second take hands out fresh handles, not the lent ones.
    let (fresh_firewall, fresh_forwarding) = s.take_managers();
    assert!(!fresh_firewall.is_active());
    assert!(!fresh_forwarding.is_modified());

    s.restore_managers(firewall, ip_forwarding);
    assert!(s.has_managers());
    assert!(s.ip_forwarding_is_modified());
    assert_eq!(s.firewall, Some(loaded_firewall()));
}

#[test]
fn release_cleans_up_in_order() {
    let mut s = SharingSession::new(
        loaded_firewall(),
        modified_forwarding(false),
        "utun4".to_string(),
        "en0".to_string(),
        Ipv4Addr::new(192, 168, 2, 1),
    );
    s.natpmp_active = true;
    s.dhcp_active = true;
    s.set_natpmp_server(Some(NatPmpServer::new("utun4", "en0", "192.168.2.0/24")));
    assert_eq!(
        s.release(),
        vec![
            CleanupStep::SignalNatPmp,
            CleanupStep::FlushNatPmpAnchor,
            CleanupStep::StopDhcp,
            CleanupStep::CleanupFirewall,
            CleanupStep::RestoreIpForwarding(false),
        ]
    );
}

#[test]
fn release_skips_handles_that_are_lent_out() {
    let mut s = SharingSession::new(
        loaded_firewall(),
        modified_forwarding(true),
        "utun4".to_string(),
        "en0".to_string(),
        Ipv4Addr::new(192, 168, 2, 1),
    );
    s.dhcp_active = true;
    let _lent = s.take_managers();
    assert_eq!(s.release(), vec![CleanupStep::StopDhcp]);
}

#[test]
fn release_of_an_untouched_session_does_nothing() {
    assert_eq!(session().release(), vec![]);
}

#[test]
fn release_without_server_still_flushes_the_anchor() {
    let mut s = session();
    s.natpmp_active = true;
    assert_eq!(s.release(), vec![CleanupStep::FlushNatPmpAnchor]);
}

#[test]
fn shutdown_natpmp_forgets_the_server() {
    let mut s = session();
    assert!(!s.shutdown_natpmp());
    s.set_natpmp_server(Some(NatPmpServer::new("utun4", "en0", "192.168.2.0/24")));
    assert!(s.has_natpmp_server());
    assert!(s.shutdown_natpmp());
    assert!(!s.has_natpmp_server());
    assert!(!s.shutdown_natpmp());
}

#[test]
fn ip_forwarding_keeps_the_first_original() {
    let mut handle = IpForwarding::new();
    assert!(!handle.is_modified());
    assert_eq!(handle.restore(), None);
    handle.enable(false);
    assert!(handle.is_modified());
    handle.enable(true);
    assert_eq!(handle.restore_sync(), Some(false));
    assert!(!handle.is_modified());
    assert_eq!(handle.restore_sync(), None);
    assert_eq!(IpForwarding::default(), IpForwarding::new());
}

#[test]
fn ip_forwarding_state_is_read_from_the_tool() {
    assert_eq!(IpForwarding::parse_state("1"), Ok(true));
    assert_eq!(IpForwarding::parse_state("0"), Ok(false));
    assert_eq!(
        IpForwarding::parse_state("2").unwrap_err().message(),
        "Failed to parse output: Unexpected sysctl value: 2"
    );
    assert_eq!(
        IpForwarding::parse_state("").unwrap_err().message(),
        "Failed to parse output: Unexpected sysctl value: "
    );
    assert_eq!(
        IpForwarding::parse_state("10").unwrap_err().message(),
        "Failed to parse output: Unexpected sysctl value: 10"
    );
}

#[test]
fn firewall_cleanup_is_idempotent() {
    let mut handle = Firewall::new();
    assert!(!handle.is_active());
    assert!(!handle.cleanup());
    handle.load_rules();
    assert!(handle.is_active());
    assert!(handle.cleanup_sync());
    assert!(!handle.is_active());
    assert!(!handle.cleanup_sync());
    assert_eq!(Firewall::default(), Firewall::new());
}

#[test]
fn health_is_assessed_most_severe_first() {
    assert_eq!(check_health("utun4", true, true), HealthStatus::Healthy);
    assert_eq!(
        check_health("utun4", false, true),
        HealthStatus::Down("VPN interface utun4 is no longer up".to_string())
    );
    assert_eq!(
        check_health("utun4", false, false),
        HealthStatus::Down("VPN interface utun4 is no longer up".to_string())
    );
    assert_eq!(
        check_health("utun4", true, false),
        HealthStatus::Degraded("IP forwarding was disabled externally".to_string())
    );
    assert_eq!(HealthStatus::default(), HealthStatus::Healthy);
}
