use tunshare::app::DebugInfo;
use tunshare::error::TunshareError;
use tunshare::health::{forwarding_is_enabled, interface_is_up, ProbeOutput};
use tunshare::net::Ipv4Addr;
use tunshare::system::natpmp::NatPmpServer;
use tunshare::system::network::{
    lan_interfaces, parse_interface_ip, vpn_interfaces, InterfaceInfo,
};
use tunshare::system::sysctl::IpForwarding;

fn iface(name: &str, ip: Option<&str>, is_up: bool) -> InterfaceInfo {
    InterfaceInfo {
        name: name.to_string(),
        ipv4_address: ip.map(|s| s.to_string()),
        description: None,
        is_up,
    }
}

fn ran(success: bool, stdout: &str) -> ProbeOutput {
    ProbeOutput::Ran { success, stdout: stdout.to_string() }
}

#[test]
fn vpn_interfaces_are_up_utun_with_address() {
    let all = vec![
        iface("lo0", Some("127.0.0.1"), true),
        iface("utun0", None, true),
        iface("utun3", Some("10.8.0.6"), true),
        iface("utun4", Some("10.9.0.6"), false),
        iface("en0", Some("192.168.2.1"), true),
        iface("xutun5", Some("10.1.0.6"), true),
        iface("utun", Some("10.2.0.6"), true),
    ];
    assert_eq!(
        vpn_interfaces(&all),
        vec![iface("utun3", Some("10.8.0.6"), true), iface("utun", Some("10.2.0.6"), true)]
    );
    assert_eq!(vpn_interfaces(&vec![]), vec![]);
}

#[test]
fn lan_interfaces_are_described_by_their_port() {
    let all = vec![
        iface("en0", Some("192.168.2.1"), true),
        iface("utun3", Some("10.8.0.6"), true),
        iface("en1", None, true),
        iface("en2", Some("192.168.3.1"), false),
        iface("en7", Some("192.168.4.1"), true),
    ];
    let ports = vec![
        ("en0".to_string(), "Ethernet".to_string()),
        ("en1".to_string(), "Wi-Fi".to_string()),
        ("en0".to_string(), "Thunderbolt Ethernet".to_string()),
    ];
    let mut en0 = iface("en0", Some("192.168.2.1"), true);
    en0.description = Some("Thunderbolt Ethernet".to_string());
    assert_eq!(lan_interfaces(&all, &ports), vec![en0, iface("en7", Some("192.168.4.1"), true)]);
}

#[test]
fn interface_ip_is_the_first_inet_line() {
    let output = "utun3: flags=8051<UP,POINTOPOINT,RUNNING,MULTICAST> mtu 1500\n\
                  \tinet6 fe80::1%utun3 prefixlen 64\n\
                  \tinet 10.8.0.6 --> 10.8.0.5 netmask 0xffffffff\n\
                  \tinet 10.8.0.7 --> 10.8.0.5 netmask 0xffffffff\n";
    assert_eq!(parse_interface_ip(output), Some(Ipv4Addr::new(10, 8, 0, 6)));
    assert_eq!(parse_interface_ip("\tinet 10.8.0.256\n\tinet 10.8.0.6\n"), None);
    assert_eq!(parse_interface_ip("\tinet \n\tinet 10.8.0.6\n"), Some(Ipv4Addr::new(10, 8, 0, 6)));
    assert_eq!(parse_interface_ip("ifconfig: interface utun9 does not exist"), None);
    assert_eq!(parse_interface_ip(""), None);
}

#[test]
fn interface_probe() {
    assert!(interface_is_up(&ProbeOutput::NotRun));
    assert!(!interface_is_up(&ran(false, "utun4: flags=8051<UP>")));
    assert!(interface_is_up(&ran(true, "utun4: flags=8051<UP,POINTOPOINT> mtu 1400")));
    assert!(!interface_is_up(&ran(true, "utun4: flags=8050<POINTOPOINT> mtu 1400")));
    assert!(!interface_is_up(&ran(true, "")));
}

#[test]
fn forwarding_probe() {
    assert!(forwarding_is_enabled(&ProbeOutput::NotRun));
    assert!(forwarding_is_enabled(&ran(true, "1\n")));
    assert!(forwarding_is_enabled(&ran(false, " 1 ")));
    assert!(!forwarding_is_enabled(&ran(true, "0\n")));
    assert!(!forwarding_is_enabled(&ran(true, "11\n")));
    assert!(!forwarding_is_enabled(&ran(true, "")));
}

#[test]
fn sysctl_state_is_trimmed_before_it_is_read() {
    assert_eq!(IpForwarding::parse_state("1\n"), Ok(true));
    assert_eq!(IpForwarding::parse_state(" 0\r\n"), Ok(false));
    assert_eq!(
        IpForwarding::parse_state(" on \n"),
        Err(TunshareError::ParseError("Unexpected sysctl value: on".to_string()))
    );
}

#[test]
fn refused_write_of_the_switch() {
    assert_eq!(IpForwarding::write_command(true), "sysctl -w net.inet.ip.forwarding=1");
    assert_eq!(IpForwarding::write_command(false), "sysctl -w net.inet.ip.forwarding=0");
    assert_eq!(
        IpForwarding::write_failure(true, "sysctl: net.inet.ip.forwarding: Operation not permitted\n"),
        TunshareError::PermissionDenied
    );
    assert_eq!(
        IpForwarding::write_failure(false, "Permission denied"),
        TunshareError::PermissionDenied
    );
    assert_eq!(
        IpForwarding::write_failure(false, "unknown oid"),
        TunshareError::CommandFailed {
            command: "sysctl -w net.inet.ip.forwarding=0".to_string(),
            message: "unknown oid".to_string(),
        }
    );
}

#[test]
fn bind_failure_names_the_port() {
    assert_eq!(
        NatPmpServer::bind_failure("Address already in use"),
        TunshareError::CommandFailed {
            command: "bind NAT-PMP UDP socket".to_string(),
            message: "Failed to bind port 5351: Address already in use".to_string(),
        }
    );
}

#[test]
fn debug_info_is_assembled_from_what_was_fetched() {
    let info = DebugInfo::assemble(
        Ok("nat on utun3".to_string()),
        Ok("STATES\nall tcp a\nall udp b\n".to_string()),
        Ok(true),
        Err(TunshareError::PermissionDenied),
        true,
        false,
        Some(("a".to_string(), "b".to_string())),
        true,
    );
    assert_eq!(
        info,
        DebugInfo {
            pf_rules: "nat on utun3".to_string(),
            pf_states: "STATES\nall tcp a\nall udp b\n".to_string(),
            pf_state_count: 2,
            pf_enabled: true,
            ip_forwarding_modified: true,
            ip_forwarding_enabled: false,
            dhcp_running: false,
            dhcp_range: Some(("a".to_string(), "b".to_string())),
            natpmp_running: true,
        }
    );
    let info = DebugInfo::assemble(
        Err(TunshareError::PermissionDenied),
        Ok("".to_string()),
        Err(TunshareError::PermissionDenied),
        Ok(false),
        false,
        false,
        None,
        false,
    );
    assert_eq!(info.pf_rules, "Error: Permission denied. Run with sudo.");
    assert_eq!(info.pf_state_count, 0);
    assert!(!info.pf_enabled);
    let info = DebugInfo::assemble(
        Ok("".to_string()),
        Err(TunshareError::NoLanInterfaces),
        Ok(true),
        Ok(true),
        false,
        false,
        None,
        false,
    );
    assert_eq!(info.pf_states, "Error: No LAN interfaces found");
    assert_eq!(info.pf_state_count, 0);
    assert!(info.ip_forwarding_enabled);
}
