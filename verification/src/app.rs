//! The orchestrator: the state of the application, and what every event
//! does to it.
//!
//! The orchestrator carries out nothing itself. A key press or the result
//! of a background operation changes its state and may yield commands;
//! its holder runs each command in the background and hands the result
//! back. At most one operation is outstanding at a time: a new one is
//! refused, not queued, while the pending marker is set.

use crate::config::Config;
use crate::error::TunshareError;
use crate::health::HealthStatus;
use crate::net::{slash24_text, Ipv4Addr};
use crate::scan::{lines_of, spec_lines, views};
use crate::session::{cleanup_steps, CleanupStep, SharingSession};
use crate::system::firewall::Firewall;
use crate::system::natpmp::NatPmpServer;
use crate::system::network::{clone_optional_string, InterfaceInfo};
use crate::system::sysctl::IpForwarding;
use crate::text::{chars_of, decimal_string, join, join_strings, texts};
use crate::ui::status::{LogEntry, LogLevel};
use std::collections::VecDeque;
use vstd::prelude::*;

pub mod keys;

verus! {

/// Maximum number of log entries kept in memory.
pub const MAX_LOG_ENTRIES: usize = 500;

/// Deadline of interface detection, in seconds.
pub const TIMEOUT_INTERFACES_SECS: u64 = 10;

/// Deadline of DNS discovery, in seconds.
pub const TIMEOUT_DNS_SECS: u64 = 5;

/// Deadline of each stage of the start sequence, in seconds.
pub const TIMEOUT_START_SHARING_SECS: u64 = 10;

/// Deadline of the DHCP start, in seconds.
pub const TIMEOUT_START_DHCP_SECS: u64 = 5;

/// Deadline of the NAT-PMP start, in seconds.
pub const TIMEOUT_START_NATPMP_SECS: u64 = 5;

/// Deadline of the stop sequence, in seconds.
pub const TIMEOUT_STOP_SHARING_SECS: u64 = 10;

/// Deadline of the debug fetch, in seconds.
pub const TIMEOUT_DEBUG_INFO_SECS: u64 = 5;

/// Debug information about the current system state.
#[derive(Debug, PartialEq, Eq)]
pub struct DebugInfo {
    /// Current packet-filter rules.
    pub pf_rules: String,
    /// Current packet-filter states.
    pub pf_states: String,
    /// Number of active packet-filter states.
    pub pf_state_count: usize,
    /// Whether the packet filter is enabled.
    pub pf_enabled: bool,
    /// Whether IP forwarding was modified by this program.
    pub ip_forwarding_modified: bool,
    /// Current IP forwarding state.
    pub ip_forwarding_enabled: bool,
    /// Whether the DHCP server is running.
    pub dhcp_running: bool,
    /// DHCP range if enabled.
    pub dhcp_range: Option<(String, String)>,
    /// Whether the NAT-PMP server is running.
    pub natpmp_running: bool,
}

/// What is shown in place of a listing that could not be fetched.
pub open spec fn listing_text(listing: Result<String, TunshareError>) -> Seq<char> {
    match listing {
        Ok(text) => text@,
        Err(error) => "Error: "@ + error.spec_message(),
    }
}

/// The number of states in a listing of states: its lines but the first,
/// which is a heading.
pub open spec fn state_count(listing: Seq<char>) -> nat {
    if spec_lines(listing).len() > 0 {
        (spec_lines(listing).len() - 1) as nat
    } else {
        0
    }
}

fn listing_or_error(listing: Result<String, TunshareError>) -> (text: String)
    ensures
        text@ == listing_text(listing),
{
    match listing {
        Ok(text) => text,
        Err(error) => {
            let message = error.message();
            let mut text = String::from_str("Error: ");
            text.append(message.as_str());
            text
        },
    }
}

impl DebugInfo {
    /// Puts the debug info together from what was fetched. A listing that
    /// could not be fetched is replaced by the text of its error; a switch
    /// that could not be read counts as off.
    pub fn assemble(
        pf_rules: Result<String, TunshareError>,
        pf_states: Result<String, TunshareError>,
        pf_enabled: Result<bool, TunshareError>,
        ip_forwarding_enabled: Result<bool, TunshareError>,
        ip_forwarding_modified: bool,
        dhcp_running: bool,
        dhcp_range: Option<(String, String)>,
        natpmp_running: bool,
    ) -> (info: DebugInfo)
        ensures
            info.pf_rules@ == listing_text(pf_rules),
            info.pf_states@ == listing_text(pf_states),
            info.pf_state_count == state_count(listing_text(pf_states)),
            info.pf_enabled == (pf_enabled matches Ok(on) && on),
            info.ip_forwarding_enabled == (ip_forwarding_enabled matches Ok(on) && on),
            info.ip_forwarding_modified == ip_forwarding_modified,
            info.dhcp_running == dhcp_running,
            info.dhcp_range == dhcp_range,
            info.natpmp_running == natpmp_running,
    {
        let pf_rules = listing_or_error(pf_rules);
        let pf_states = listing_or_error(pf_states);
        let chars = chars_of(pf_states.as_str());
        let lines = lines_of(&chars);
        assert(views(lines@).len() == lines@.len());
        let pf_state_count = if lines.len() > 0 {
            lines.len() - 1
        } else {
            0
        };
        DebugInfo {
            pf_rules,
            pf_states,
            pf_state_count,
            pf_enabled: match pf_enabled {
                Ok(on) => on,
                Err(_) => false,
            },
            ip_forwarding_modified,
            ip_forwarding_enabled: match ip_forwarding_enabled {
                Ok(on) => on,
                Err(_) => false,
            },
            dhcp_running,
            dhcp_range,
            natpmp_running,
        }
    }
}

/// Pending background operation.
#[derive(Debug, Clone, Copy, PartialEq, Eq, Structural)]
pub enum PendingOp {
    /// Detecting network interfaces.
    DetectingInterfaces,
    /// Discovering DNS servers.
    DiscoveringDns,
    /// Starting VPN sharing.
    StartingSharing,
    /// Starting the DHCP server.
    StartingDhcp,
    /// Starting the NAT-PMP server.
    StartingNatPmp,
    /// Stopping VPN sharing.
    StoppingSharing,
    /// Fetching debug info.
    FetchingDebugInfo,
}

impl PendingOp {
    /// The text shown while the operation is pending.
    pub open spec fn spec_display(self) -> Seq<char> {
        match self {
            PendingOp::DetectingInterfaces => "Detecting interfaces..."@,
            PendingOp::DiscoveringDns => "Discovering DNS..."@,
            PendingOp::StartingSharing => "Starting VPN sharing..."@,
            PendingOp::StartingDhcp => "Starting DHCP server..."@,
            PendingOp::StartingNatPmp => "Starting NAT-PMP server..."@,
            PendingOp::StoppingSharing => "Stopping VPN sharing..."@,
            PendingOp::FetchingDebugInfo => "Fetching debug info..."@,
        }
    }

    /// The text shown while the operation is pending.
    pub fn display(&self) -> (text: &'static str)
        ensures
            text@ == self.spec_display(),
    {
        match self {
            PendingOp::DetectingInterfaces => "Detecting interfaces...",
            PendingOp::DiscoveringDns => "Discovering DNS...",
            PendingOp::StartingSharing => "Starting VPN sharing...",
            PendingOp::StartingDhcp => "Starting DHCP server...",
            PendingOp::StartingNatPmp => "Starting NAT-PMP server...",
            PendingOp::StoppingSharing => "Stopping VPN sharing...",
            PendingOp::FetchingDebugInfo => "Fetching debug info...",
        }
    }
}

/// A well-known DNS server.
#[derive(Debug, Clone, Copy, PartialEq, Eq)]
pub struct DnsPreset {
    pub name: &'static str,
    pub ip: &'static str,
}

/// Number of well-known DNS servers on offer.
pub const DNS_PRESET_COUNT: usize = 4;

/// The well-known DNS server at `index` of the list.
pub fn dns_preset(index: usize) -> (preset: DnsPreset)
    requires
        index < DNS_PRESET_COUNT,
    ensures
        preset.ip@ == spec_dns_preset_ip(index as int),
{
    if index == 0 {
        DnsPreset { name: "Cloudflare", ip: "1.1.1.1" }
    } else if index == 1 {
        DnsPreset { name: "Google", ip: "8.8.8.8" }
    } else if index == 2 {
        DnsPreset { name: "Quad9", ip: "9.9.9.9" }
    } else {
        DnsPreset { name: "OpenDNS", ip: "208.67.222.222" }
    }
}

/// The address of the well-known DNS server at `index` of the list.
pub open spec fn spec_dns_preset_ip(index: int) -> Seq<char> {
    if index == 0 {
        "1.1.1.1"@
    } else if index == 1 {
        "8.8.8.8"@
    } else if index == 2 {
        "9.9.9.9"@
    } else {
        "208.67.222.222"@
    }
}

/// DNS edit sub-mode.
#[derive(Debug, Clone, Copy, PartialEq, Eq, Structural)]
pub enum DnsEditMode {
    /// Selecting from the preset list.
    SelectingPreset,
    /// Typing a custom address.
    CustomInput,
}

/// Current UI state.
#[derive(Debug, Clone, Copy, PartialEq, Eq, Structural)]
pub enum AppState {
    /// Main menu.
    Menu,
    /// Selecting the VPN interface.
    SelectingVpn,
    /// Selecting the LAN interface.
    SelectingLan,
    /// Sharing is active, showing status.
    Active,
    /// Editing the custom DNS server.
    EditingDns,
}

/// Menu items.
#[derive(Debug, Clone, Copy, PartialEq, Eq, Structural)]
pub enum MenuItem {
    StartSharing,
    StopSharing,
    ToggleDhcp,
    ToggleNatPmp,
    SetDns,
    Quit,
}

/// A key press, as far as the application tells keys apart.
#[derive(Debug, Clone, Copy, PartialEq, Eq, Structural)]
pub enum Key {
    Char(char),
    Up,
    Down,
    Enter,
    Esc,
    Backspace,
    /// Any other key.
    Other,
}

/// Result of a background operation.
#[derive(Debug, PartialEq, Eq)]
pub enum AsyncOpResult {
    /// Interface detection completed.
    InterfacesDetected {
        vpn: Result<Vec<InterfaceInfo>, TunshareError>,
        lan: Result<Vec<InterfaceInfo>, TunshareError>,
    },
    /// DNS discovery completed.
    DnsDiscovered {
        vpn_servers: Result<Vec<String>, TunshareError>,
        system_servers: Result<Vec<String>, TunshareError>,
    },
    /// The start sequence ended. The handles that were lent to it come
    /// back with the result.
    SharingStarted { result: Result<(), TunshareError>, firewall: Firewall, ip_forwarding: IpForwarding },
    /// The DHCP start ended; `range` is the range it was asked to serve.
    DhcpStarted { result: Result<(), TunshareError>, range: Option<(String, String)> },
    /// The NAT-PMP start ended; `server` is kept to signal it later.
    NatPmpStarted { result: Result<(), TunshareError>, server: Option<NatPmpServer> },
    /// The stop sequence ended. The handles that were lent to it come
    /// back with the result.
    SharingStopped { result: Result<(), TunshareError>, firewall: Firewall, ip_forwarding: IpForwarding },
    /// Debug info was fetched.
    DebugInfoFetched { info: Result<DebugInfo, TunshareError> },
}

/// What the holder of the application has to run in the background.
#[derive(Debug, PartialEq, Eq)]
pub enum Command {
    /// Detect the VPN and LAN interfaces; answer with
    /// `InterfacesDetected`.
    DetectInterfaces,
    /// Discover the DNS servers of the VPN and of the system; answer with
    /// `DnsDiscovered`.
    DiscoverDns { vpn_name: String },
    /// Run the start sequence with the lent handles; answer with
    /// `SharingStarted` and hand the handles back, whatever happens.
    StartSharing { vpn_name: String, lan_name: String, firewall: Firewall, ip_forwarding: IpForwarding },
    /// Start the DHCP server; answer with `DhcpStarted`.
    StartDhcp { lan_name: String, lan_ip: Ipv4Addr, dns_servers: Vec<String> },
    /// Start the NAT-PMP server; answer with `NatPmpStarted`.
    StartNatPmp { server: NatPmpServer },
    /// Signal the running NAT-PMP server to shut down. This is done at
    /// once, before the command that follows is started.
    SignalNatPmpShutdown,
    /// Run the stop sequence with the lent handles; answer with
    /// `SharingStopped` and hand the handles back, whatever happens.
    StopSharing { natpmp_active: bool, dhcp_active: bool, firewall: Firewall, ip_forwarding: IpForwarding },
    /// Fetch the debug info; answer with `DebugInfoFetched`.
    FetchDebugInfo {
        ip_forwarding_modified: bool,
        dhcp_running: bool,
        dhcp_range: Option<(String, String)>,
        natpmp_running: bool,
    },
    /// Carry out these steps of last-resort cleanup, in order, at once.
    Cleanup { steps: Vec<CleanupStep> },
}

/// Application state.
pub struct App {
    /// Detected VPN interfaces.
    pub vpn_interfaces: Vec<InterfaceInfo>,
    /// Detected LAN interfaces.
    pub lan_interfaces: Vec<InterfaceInfo>,
    /// DNS servers discovered for the VPN.
    pub vpn_dns_servers: Vec<String>,
    /// System default DNS servers.
    pub system_dns_servers: Vec<String>,
    /// Currently selected VPN interface index.
    pub selected_vpn: Option<usize>,
    /// Currently selected LAN interface index.
    pub selected_lan: Option<usize>,
    /// The sharing session, from the moment a start is asked for until
    /// the stop is complete.
    pub session: Option<SharingSession>,
    /// Whether VPN sharing is currently active.
    pub sharing_active: bool,
    /// Log entries for display, oldest first, at most `MAX_LOG_ENTRIES`.
    pub logs: VecDeque<LogEntry>,
    /// Current UI state.
    pub state: AppState,
    /// Selected menu item index.
    pub selected_menu_item: usize,
    /// Whether the application should quit.
    pub should_quit: bool,
    /// Currently pending background operation.
    pub pending_op: Option<PendingOp>,
    /// Whether to show the debug panel.
    pub show_debug: bool,
    /// Cached debug information.
    pub debug_info: Option<DebugInfo>,
    /// Whether the log panel is expanded.
    pub logs_expanded: bool,
    /// User preference: whether to start DHCP when sharing.
    pub dhcp_enabled: bool,
    /// User preference: whether to start NAT-PMP when sharing.
    pub natpmp_enabled: bool,
    /// Whether the DHCP daemon is installed on this system.
    pub dnsmasq_installed: bool,
    /// User-specified DNS server, which overrides the detected ones.
    pub custom_dns: Option<String>,
    /// Text input buffer for DNS editing.
    pub dns_input_buffer: String,
    /// DNS edit sub-mode.
    pub dns_edit_mode: DnsEditMode,
    /// Selected index in the DNS preset list: 0 is auto-detect, then the
    /// presets, then the custom entry.
    pub dns_preset_selected: usize,
}

/// A copy of a list of strings.
pub fn clone_strings(list: &Vec<String>) -> (copy: Vec<String>)
    ensures
        copy@ == list@,
{
    let mut copy: Vec<String> = Vec::new();
    let mut i: usize = 0;
    while i < list.len()
        invariant
            i <= list.len(),
            copy@ == list@.take(i as int),
        decreases list.len() - i,
    {
        copy.push(list[i].clone());
        assert(list@.take(i + 1) =~= list@.take(i as int).push(list@[i as int]));
        i = i + 1;
    }
    assert(list@.take(list@.len() as int) =~= list@);
    copy
}

/// A copy of an optional pair of strings.
pub fn clone_range(range: &Option<(String, String)>) -> (copy: Option<(String, String)>)
    ensures
        copy == *range,
{
    match range {
        Some((first, last)) => Some((first.clone(), last.clone())),
        None => None,
    }
}

/// The state to which the interface returns when `op` is cancelled while
/// the interface is in `state`.
pub open spec fn state_after_cancel(op: PendingOp, state: AppState) -> AppState {
    match op {
        PendingOp::DetectingInterfaces => AppState::Menu,
        PendingOp::DiscoveringDns => AppState::SelectingVpn,
        PendingOp::StartingSharing | PendingOp::StartingDhcp | PendingOp::StartingNatPmp =>
            AppState::Menu,
        PendingOp::StoppingSharing => state,
        PendingOp::FetchingDebugInfo => state,
    }
}

/// Whether `result` carries lent handles back.
pub open spec fn carries_handles(result: AsyncOpResult) -> bool {
    result is SharingStarted || result is SharingStopped
}

/// Whether `result` is the answer to the pending operation `op`.
pub open spec fn answers(result: AsyncOpResult, op: PendingOp) -> bool {
    match result {
        AsyncOpResult::InterfacesDetected { .. } => op == PendingOp::DetectingInterfaces,
        AsyncOpResult::DnsDiscovered { .. } => op == PendingOp::DiscoveringDns,
        AsyncOpResult::SharingStarted { .. } => op == PendingOp::StartingSharing,
        AsyncOpResult::DhcpStarted { .. } => op == PendingOp::StartingDhcp,
        AsyncOpResult::NatPmpStarted { .. } => op == PendingOp::StartingNatPmp,
        AsyncOpResult::SharingStopped { .. } => op == PendingOp::StoppingSharing,
        AsyncOpResult::DebugInfoFetched { .. } => op == PendingOp::FetchingDebugInfo,
    }
}

/// The routing rule. A result that carries lent handles is always
/// accepted, whatever is pending: the handles must find their way home.
/// Any other result is accepted only as the answer to the pending
/// operation; else it is stale.
pub open spec fn accepted(result: AsyncOpResult, pending: Option<PendingOp>) -> bool {
    carries_handles(result) || (pending matches Some(op) && answers(result, op))
}

/// The log after `entry` was put into `logs`: the oldest entry leaves
/// where the log is full.
pub open spec fn logs_with(logs: Seq<LogEntry>, entry: LogEntry) -> Seq<LogEntry> {
    if logs.len() >= MAX_LOG_ENTRIES {
        logs.drop_first().push(entry)
    } else {
        logs.push(entry)
    }
}

/// Whether `post` is the log `pre` after an entry of `level` with the
/// text `message` was put into it.
pub open spec fn pushed(pre: Seq<LogEntry>, post: Seq<LogEntry>, level: LogLevel, message: Seq<char>) -> bool {
    &&& post.len() > 0
    &&& post == logs_with(pre, post.last())
    &&& post.last().level == level
    &&& post.last().message@ == message
}

/// Whether the log `post` is within its bound if the log `pre` is.
pub open spec fn stays_bounded(pre: Seq<LogEntry>, post: Seq<LogEntry>) -> bool {
    pre.len() <= MAX_LOG_ENTRIES ==> post.len() <= MAX_LOG_ENTRIES
}

/// Whether `post` is the log `pre`, or `pre` after one entry was put
/// into it.
pub open spec fn grew_by_at_most_one(pre: Seq<LogEntry>, post: Seq<LogEntry>) -> bool {
    post == pre || (post.len() > 0 && post == logs_with(pre, post.last()))
}

/// Whether `logs` is the log of `pre` after the note on the DNS servers
/// that a router has to be given by hand: where DNS servers are in
/// effect, one entry of level `Info` that lists them, with `", "` between
/// each two; where none is in effect, nothing.
pub open spec fn manual_dns_logged(pre: App, logs: Seq<LogEntry>) -> bool {
    if pre.spec_effective_dns().len() == 0 {
        logs == pre.logs@
    } else {
        pushed(
            pre.logs@,
            logs,
            LogLevel::Info,
            "Configure router manually - DNS: "@ + join(texts(pre.spec_effective_dns()), ", "@),
        )
    }
}

/// Whether the log holds, among its newest `within` entries, one of
/// `level` with the text `message`.
pub open spec fn recently_logged(logs: Seq<LogEntry>, level: LogLevel, message: Seq<char>, within: int) -> bool {
    exists|i: int|
        0 <= i < logs.len() && logs.len() - within <= i && (#[trigger] logs[i]).level == level
            && logs[i].message@ == message
}

/// An entry among the newest of the log is still among the newest after
/// the log has grown by at most one entry.
pub proof fn lemma_stays_logged(
    pre: Seq<LogEntry>,
    post: Seq<LogEntry>,
    level: LogLevel,
    message: Seq<char>,
    within: int,
)
    requires
        recently_logged(pre, level, message, within),
        grew_by_at_most_one(pre, post),
        0 < within < MAX_LOG_ENTRIES,
    ensures
        recently_logged(post, level, message, within + 1),
{
    let i = choose|i: int|
        0 <= i < pre.len() && pre.len() - within <= i && (#[trigger] pre[i]).level == level
            && pre[i].message@ == message;
    if post == pre {
        assert(post[i].level == level);
    } else if pre.len() >= MAX_LOG_ENTRIES {
        assert(post[i - 1] == pre[i]);
    } else {
        assert(post[i] == pre[i]);
    }
}

/// Whether `post` is what cancelling makes of `pre`: with an operation
/// pending, the marker is cleared and the interface is in the state to
/// which that operation's cancelling returns; the session is as it was,
/// so that handles that are lent out are still expected back. The
/// cancelling is logged as a warning.
pub open spec fn cancelled_is(pre: App, post: App) -> bool {
    match pre.pending_op {
        Some(op) => {
            &&& (App {
                pending_op: None,
                state: state_after_cancel(op, pre.state),
                ..pre
            }).same_but_logs(post)
            &&& pushed(
                pre.logs@,
                post.logs@,
                LogLevel::Warning,
                "Cancelled: "@ + op.spec_display(),
            )
        },
        None => post == pre,
    }
}

/// The interfaces that a detection hands over: none where it failed.
pub open spec fn detected(found: Result<Vec<InterfaceInfo>, TunshareError>) -> Seq<InterfaceInfo> {
    match found {
        Ok(list) => list@,
        Err(_) => Seq::<InterfaceInfo>::empty(),
    }
}

/// The servers that a discovery hands over: none where it failed.
pub open spec fn discovered(found: Result<Vec<String>, TunshareError>) -> Seq<String> {
    match found {
        Ok(list) => list@,
        Err(_) => Seq::<String>::empty(),
    }
}

/// Whether `post` is `pre` after the detection of the interfaces ended:
/// the marker is cleared and both lists are replaced; where both kinds of
/// interface were found, the selection of the VPN interface begins at the
/// first one.
pub open spec fn interfaces_detected_is(
    pre: App,
    vpn: Result<Vec<InterfaceInfo>, TunshareError>,
    lan: Result<Vec<InterfaceInfo>, TunshareError>,
    post: App,
) -> bool {
    &&& post == (App {
        logs: post.logs,
        vpn_interfaces: post.vpn_interfaces,
        lan_interfaces: post.lan_interfaces,
        pending_op: None,
        state: post.state,
        selected_vpn: post.selected_vpn,
        ..pre
    })
    &&& post.vpn_interfaces@ == detected(vpn)
    &&& post.lan_interfaces@ == detected(lan)
    &&& if detected(vpn).len() > 0 && detected(lan).len() > 0 {
        post.state == AppState::SelectingVpn && post.selected_vpn == Some(0usize)
    } else {
        post.state == pre.state && post.selected_vpn == pre.selected_vpn
    }
}

/// Whether `post` is `pre` after the DNS discovery ended: the marker is
/// cleared, both lists are replaced, and the selection of the LAN
/// interface begins, at the first one if there is any.
pub open spec fn dns_discovered_is(
    pre: App,
    vpn_servers: Result<Vec<String>, TunshareError>,
    system_servers: Result<Vec<String>, TunshareError>,
    post: App,
) -> bool {
    &&& post == (App {
        logs: post.logs,
        vpn_dns_servers: post.vpn_dns_servers,
        system_dns_servers: post.system_dns_servers,
        pending_op: None,
        state: AppState::SelectingLan,
        selected_lan: if pre.lan_interfaces@.len() == 0 {
            None
        } else {
            Some(0usize)
        },
        ..pre
    })
    &&& post.vpn_dns_servers@ == discovered(vpn_servers)
    &&& post.system_dns_servers@ == discovered(system_servers)
}

/// Whether `command` asks for exactly the non-empty `steps` of cleanup,
/// or, where there are none, is no command.
pub open spec fn asks_cleanup(command: Option<Command>, steps: Seq<CleanupStep>) -> bool {
    if steps.len() == 0 {
        command is None
    } else {
        command matches Some(Command::Cleanup { steps: asked }) && asked@ == steps
    }
}

/// The session `session` with both handles back in it.
pub open spec fn handles_home(
    session: SharingSession,
    firewall: Firewall,
    ip_forwarding: IpForwarding,
) -> SharingSession {
    SharingSession { firewall: Some(firewall), ip_forwarding: Some(ip_forwarding), ..session }
}

/// Whether `post` and `command` are what follows once the sharing itself
/// is up, from the state `mid`: the NAT-PMP start where NAT-PMP is
/// preferred, else the active state with nothing pending.
pub open spec fn natpmp_or_active_is(mid: App, post: App, command: Option<Command>) -> bool {
    match mid.session {
        Some(session) if mid.natpmp_enabled => {
            &&& mid.now_pending(PendingOp::StartingNatPmp, post)
            &&& command matches Some(Command::StartNatPmp { server })
            &&& server.ext_ifname@ == session.vpn_name@
            &&& server.lan_network@ == slash24_text(session.lan_ip)
        },
        _ => (App { pending_op: None, state: AppState::Active, ..mid }).same_but_logs(post)
            && command is None,
    }
}

/// Whether `post` and `command` are what the end of the start sequence
/// makes of `pre`.
///
/// The handles go back into the session in every case. If the start is no
/// longer pending, because it was cancelled, that is all. Else a failure
/// is logged as an error, clears the marker and returns to the menu, and
/// a success marks sharing
/// active and goes on to the DHCP start, where DHCP is preferred and its
/// daemon installed, else to what follows it. Without a session to take
/// the handles, they are cleaned up at once.
pub open spec fn sharing_started_is(
    pre: App,
    result: Result<(), TunshareError>,
    firewall: Firewall,
    ip_forwarding: IpForwarding,
    post: App,
    command: Option<Command>,
) -> bool {
    match pre.session {
        None => pre.same_but_logs(post) && asks_cleanup(
            command,
            cleanup_steps(false, false, false, Some(firewall), Some(ip_forwarding)),
        ),
        Some(session) => {
            let home = App { session: Some(handles_home(session, firewall, ip_forwarding)), ..pre };
            if pre.pending_op != Some(PendingOp::StartingSharing) {
                home.same_but_logs(post) && command is None
            } else {
                match result {
                    Err(error) => {
                        &&& (App {
                            pending_op: None,
                            state: AppState::Menu,
                            ..home
                        }).same_but_logs(post)
                        &&& command is None
                        &&& pushed(
                            pre.logs@,
                            post.logs@,
                            LogLevel::Error,
                            "Failed to start sharing: "@ + error.spec_message(),
                        )
                    },
                    Ok(_) => {
                        let up = App { sharing_active: true, ..home };
                        if pre.dhcp_enabled && pre.dnsmasq_installed {
                            &&& up.now_pending(PendingOp::StartingDhcp, post)
                            &&& command matches Some(
                                Command::StartDhcp { lan_name, lan_ip, dns_servers },
                            )
                            &&& lan_name == session.lan_name
                            &&& lan_ip == session.lan_ip
                            &&& dns_servers@ == pre.spec_effective_dns()
                        } else {
                            natpmp_or_active_is(up, post, command)
                        }
                    },
                }
            }
        },
    }
}

/// What the log says of a DHCP server that has started: that it is
/// active, with the first and last address of its range where the range
/// is known.
pub open spec fn dhcp_active_text(range: Option<(String, String)>) -> Seq<char> {
    match range {
        Some((first, last)) => "DHCP server active ("@ + first@ + "-"@ + last@ + ")"@,
        None => "DHCP server active"@,
    }
}

/// Whether `post` and `command` are what the end of the DHCP start makes
/// of `pre`: on success the session notes that DHCP runs and which range
/// it serves, and the log says so, with the range; a failure is not fatal
/// and is logged as a warning. Either way the start goes on.
pub open spec fn dhcp_started_is(
    pre: App,
    result: Result<(), TunshareError>,
    range: Option<(String, String)>,
    post: App,
    command: Option<Command>,
) -> bool {
    let mid = match (pre.session, result) {
        (Some(session), Ok(_)) => App {
            session: Some(SharingSession { dhcp_active: true, dhcp_range: range, ..session }),
            ..pre
        },
        _ => pre,
    };
    &&& natpmp_or_active_is(mid, post, command)
    &&& match result {
        Ok(_) => recently_logged(post.logs@, LogLevel::Success, dhcp_active_text(range), 3),
        Err(error) => recently_logged(
            post.logs@,
            LogLevel::Warning,
            "DHCP server failed: "@ + error.spec_message(),
            4,
        ),
    }
}

/// Whether `post` is what the end of the NAT-PMP start makes of `pre`: on
/// success the session notes that NAT-PMP runs and keeps the server; a
/// failure is not fatal and is logged as a warning. Either way the start
/// is complete: nothing is pending and the state is the active one.
pub open spec fn natpmp_started_is(
    pre: App,
    result: Result<(), TunshareError>,
    server: Option<NatPmpServer>,
    post: App,
) -> bool {
    let mid = match (pre.session, result) {
        (Some(session), Ok(_)) => App {
            session: Some(SharingSession { natpmp_active: true, natpmp_server: server, ..session }),
            ..pre
        },
        _ => pre,
    };
    &&& (App { pending_op: None, state: AppState::Active, ..mid }).same_but_logs(post)
    &&& result matches Err(error) ==> recently_logged(
        post.logs@,
        LogLevel::Warning,
        "NAT-PMP server failed: "@ + error.spec_message(),
        1,
    )
}

/// Whether `post` and `command` are what the end of the stop sequence
/// makes of `pre`, whatever was pending and whatever the result: sharing
/// is over, the session is gone, and the interface is back in the menu.
/// The handles came back first; what they still hold of changed system
/// state is cleaned up as a last resort. A failure of the stop is logged
/// as an error.
pub open spec fn sharing_stopped_is(
    pre: App,
    result: Result<(), TunshareError>,
    firewall: Firewall,
    ip_forwarding: IpForwarding,
    post: App,
    command: Option<Command>,
) -> bool {
    &&& match result {
        Ok(_) => pushed(pre.logs@, post.logs@, LogLevel::Success, "VPN sharing stopped"@),
        Err(error) => pushed(
            pre.logs@,
            post.logs@,
            LogLevel::Error,
            "Cleanup warning: "@ + error.spec_message(),
        ),
    }
    &&& (App {
        session: None,
        pending_op: None,
        sharing_active: false,
        state: AppState::Menu,
        selected_menu_item: 0,
        show_debug: false,
        debug_info: None,
        ..pre
    }).same_but_logs(post)
    &&& asks_cleanup(
        command,
        cleanup_steps(false, false, false, Some(firewall), Some(ip_forwarding)),
    )
}

/// Whether `post` is what the end of the debug fetch makes of `pre`.
pub open spec fn debug_info_fetched_is(pre: App, info: Result<DebugInfo, TunshareError>, post: App) -> bool {
    (App {
        pending_op: None,
        debug_info: match info {
            Ok(fetched) => Some(fetched),
            Err(_) => None,
        },
        ..pre
    }).same_but_logs(post)
}

/// Whether `post` and `command` are what `result` makes of `pre`. A stale
/// result changes nothing but the log, which notes that it was
/// discarded.
pub open spec fn handled_is(pre: App, result: AsyncOpResult, post: App, command: Option<Command>) -> bool {
    if !accepted(result, pre.pending_op) {
        &&& pre.same_but_logs(post)
        &&& command is None
        &&& pushed(pre.logs@, post.logs@, LogLevel::Info, "Discarded stale async result"@)
    } else {
        match result {
            AsyncOpResult::InterfacesDetected { vpn, lan } => interfaces_detected_is(
                pre,
                vpn,
                lan,
                post,
            ) && command is None,
            AsyncOpResult::DnsDiscovered { vpn_servers, system_servers } => dns_discovered_is(
                pre,
                vpn_servers,
                system_servers,
                post,
            ) && command is None,
            AsyncOpResult::SharingStarted { result, firewall, ip_forwarding } =>
                sharing_started_is(pre, result, firewall, ip_forwarding, post, command),
            AsyncOpResult::DhcpStarted { result, range } => dhcp_started_is(
                pre,
                result,
                range,
                post,
                command,
            ),
            AsyncOpResult::NatPmpStarted { result, server } => natpmp_started_is(
                pre,
                result,
                server,
                post,
            ) && command is None,
            AsyncOpResult::SharingStopped { result, firewall, ip_forwarding } =>
                sharing_stopped_is(pre, result, firewall, ip_forwarding, post, command),
            AsyncOpResult::DebugInfoFetched { info } => debug_info_fetched_is(pre, info, post)
                && command is None,
        }
    }
}

/// The commands of an optional command: none or one.
pub open spec fn as_seq(command: Option<Command>) -> Seq<Command> {
    match command {
        Some(command) => seq![command],
        None => Seq::<Command>::empty(),
    }
}

/// Whether `post` and `command` are what asking for the detection of the
/// interfaces makes of `pre`: refused while an operation is pending.
pub open spec fn refresh_is(pre: App, post: App, command: Option<Command>) -> bool {
    match pre.pending_op {
        Some(_) => post == pre && command is None,
        None => pre.now_pending(PendingOp::DetectingInterfaces, post) && command == Some(
            Command::DetectInterfaces,
        ),
    }
}

/// Whether `post` and `command` are what asking for the DNS discovery
/// makes of `pre`: refused while an operation is pending.
pub open spec fn discover_is(pre: App, vpn_name: String, post: App, command: Option<Command>) -> bool {
    match pre.pending_op {
        Some(_) => post == pre && command is None,
        None => pre.now_pending(PendingOp::DiscoveringDns, post) && command == Some(
            Command::DiscoverDns { vpn_name },
        ),
    }
}

/// Whether `post` and `command` are what asking for the start of sharing
/// makes of `pre`.
///
/// Where the start is taken up, a new session takes the place of any
/// earlier one and its two handles are lent to the start sequence at
/// once: they are in the command, and the session's slots are empty until
/// the result brings them back. The handles of an earlier session are
/// used again, so that what they remember of the original system state is
/// not lost; without an earlier session the handles are fresh.
pub open spec fn start_sharing_is(
    pre: App,
    vpn_name: String,
    lan_name: String,
    lan_ip: Option<Ipv4Addr>,
    post: App,
    command: Option<Command>,
) -> bool {
    if pre.pending_op is Some {
        post == pre && command is None
    } else if !pre.start_allowed(lan_ip) {
        pre.same_but_logs(post) && command is None
    } else {
        &&& (App {
            pending_op: Some(PendingOp::StartingSharing),
            session: post.session,
            ..pre
        }).same_but_logs(post)
        &&& post.session matches Some(session)
        &&& session.on_loan()
        &&& session.vpn_name == vpn_name
        &&& session.lan_name == lan_name
        &&& Some(session.lan_ip) == lan_ip
        &&& !session.dhcp_active
        &&& !session.natpmp_active
        &&& session.dhcp_range is None
        &&& session.natpmp_server is None
        &&& command matches Some(
            Command::StartSharing { vpn_name: vpn, lan_name: lan, firewall, ip_forwarding },
        )
        &&& vpn == vpn_name
        &&& lan == lan_name
        &&& match pre.session {
            Some(earlier) => Some(firewall) == earlier.firewall && Some(ip_forwarding)
                == earlier.ip_forwarding,
            None => !firewall.active() && ip_forwarding.original() is None,
        }
    }
}

/// Whether `post` and `commands` are what asking for the stop of sharing
/// makes of `pre`.
///
/// Where the stop is taken up, the NAT-PMP server is signalled first, if
/// one runs, and the session's two handles are lent to the stop sequence.
/// Where sharing is not active, the interface goes back to the menu.
pub open spec fn stop_sharing_is(pre: App, post: App, commands: Seq<Command>) -> bool {
    if pre.pending_op is Some {
        post == pre && commands.len() == 0
    } else if !pre.sharing_active {
        (App { state: AppState::Menu, ..pre }).same_but_logs(post) && commands.len() == 0
    } else if !pre.stop_allowed() {
        pre.same_but_logs(post) && commands.len() == 0
    } else {
        let before = pre.session.unwrap();
        &&& (App {
            pending_op: Some(PendingOp::StoppingSharing),
            session: Some(
                SharingSession {
                    firewall: None,
                    ip_forwarding: None,
                    natpmp_server: None,
                    ..before
                },
            ),
            ..pre
        }).same_but_logs(post)
        &&& commands == (if before.natpmp_server is Some {
            seq![Command::SignalNatPmpShutdown]
        } else {
            Seq::<Command>::empty()
        }) + seq![
            Command::StopSharing {
                natpmp_active: before.natpmp_active,
                dhcp_active: before.dhcp_active,
                firewall: before.firewall.unwrap(),
                ip_forwarding: before.ip_forwarding.unwrap(),
            },
        ]
    }
}

/// Whether `post` and `command` are what asking for the debug info makes
/// of `pre`: refused while an operation is pending.
pub open spec fn fetch_debug_is(pre: App, post: App, command: Option<Command>) -> bool {
    match pre.pending_op {
        Some(_) => post == pre && command is None,
        None => {
            &&& post == (App { pending_op: Some(PendingOp::FetchingDebugInfo), ..pre })
            &&& command matches Some(
                Command::FetchDebugInfo {
                    ip_forwarding_modified,
                    dhcp_running,
                    dhcp_range,
                    natpmp_running,
                },
            )
            &&& ip_forwarding_modified == (pre.session matches Some(session)
                && session.ip_forwarding matches Some(handle) && handle.original() is Some)
            &&& dhcp_running == (pre.session matches Some(session) && session.dhcp_active)
            &&& dhcp_range == (match pre.session {
                Some(session) => session.dhcp_range,
                None => None,
            })
            &&& natpmp_running == (pre.session matches Some(session) && session.natpmp_active)
        },
    }
}

impl App {
    /// Whether `post` is `self` with, at most, other log entries.
    pub open spec fn same_but_logs(self, post: App) -> bool {
        post == (App { logs: post.logs, ..self })
    }

    /// The application as it starts: in the main menu, nothing pending,
    /// nothing shared. DHCP is preferred exactly if its daemon is
    /// installed; NAT-PMP is always preferred.
    pub fn new(dnsmasq_installed: bool) -> (app: App)
        ensures
            app.state == AppState::Menu,
            app.pending_op is None,
            app.session is None,
            !app.sharing_active,
            !app.should_quit,
            app.dhcp_enabled == dnsmasq_installed,
            app.natpmp_enabled,
            app.dnsmasq_installed == dnsmasq_installed,
            app.custom_dns is None,
            app.selected_menu_item == 0,
            app.selected_vpn is None,
            app.selected_lan is None,
            app.vpn_interfaces@.len() == 0,
            app.lan_interfaces@.len() == 0,
            app.vpn_dns_servers@.len() == 0,
            app.system_dns_servers@.len() == 0,
            !app.show_debug,
            app.debug_info is None,
            !app.logs_expanded,
            app.dns_input_buffer@.len() == 0,
            app.dns_edit_mode == DnsEditMode::SelectingPreset,
            app.dns_preset_selected == 0,
            app.logs@.len() == (if dnsmasq_installed {
                1int
            } else {
                3int
            }),
            app.logs@[0].level == LogLevel::Info,
            app.logs@[0].message@ == "Ready. Press Enter to start VPN sharing."@,
            app.wf(),
    {
        let mut app = App {
            vpn_interfaces: Vec::new(),
            lan_interfaces: Vec::new(),
            vpn_dns_servers: Vec::new(),
            system_dns_servers: Vec::new(),
            selected_vpn: None,
            selected_lan: None,
            session: None,
            sharing_active: false,
            logs: VecDeque::new(),
            state: AppState::Menu,
            selected_menu_item: 0,
            should_quit: false,
            pending_op: None,
            show_debug: false,
            debug_info: None,
            logs_expanded: false,
            dhcp_enabled: dnsmasq_installed,
            natpmp_enabled: true,
            dnsmasq_installed,
            custom_dns: None,
            dns_input_buffer: String::new(),
            dns_edit_mode: DnsEditMode::SelectingPreset,
            dns_preset_selected: 0,
        };
        app.log_info("Ready. Press Enter to start VPN sharing.");
        if !dnsmasq_installed {
            app.log_warning("dnsmasq not found. Install with: brew install dnsmasq");
            app.log_info("DHCP will be disabled; router needs manual IP config.");
        }
        app
    }

    /// Notes the health that a periodic check found. Without a session
    /// there is nothing to note.
    pub fn set_health_status(&mut self, status: HealthStatus)
        ensures
            *final(self) == (App {
                session: match old(self).session {
                    Some(session) => Some(SharingSession { health_status: status, ..session }),
                    None => None,
                },
                ..*old(self)
            }),
            old(self).wf() ==> final(self).wf(),
    {
        match self.session.take() {
            Some(mut session) => {
                session.health_status = status;
                self.session = Some(session);
            },
            None => {},
        }
    }

    /// Takes the user's stored preferences: DHCP is preferred only where
    /// its daemon is installed.
    pub fn apply_config(&mut self, config: Config)
        ensures
            *final(self) == (App {
                dhcp_enabled: config.dhcp_enabled && old(self).dnsmasq_installed,
                natpmp_enabled: config.natpmp_enabled,
                custom_dns: config.custom_dns,
                ..*old(self)
            }),
            old(self).wf() ==> final(self).wf(),
    {
        self.dhcp_enabled = config.dhcp_enabled && self.dnsmasq_installed;
        self.natpmp_enabled = config.natpmp_enabled;
        self.custom_dns = config.custom_dns;
    }

    /// The preferences to store.
    pub fn config(&self) -> (config: Config)
        ensures
            config == (Config {
                dhcp_enabled: self.dhcp_enabled,
                natpmp_enabled: self.natpmp_enabled,
                custom_dns: self.custom_dns,
            }),
    {
        Config {
            dhcp_enabled: self.dhcp_enabled,
            natpmp_enabled: self.natpmp_enabled,
            custom_dns: clone_optional_string(&self.custom_dns),
        }
    }

    /// Whether an operation is pending.
    pub fn is_loading(&self) -> (loading: bool)
        ensures
            loading == self.pending_op is Some,
    {
        self.pending_op.is_some()
    }

    /// Appends a log entry, evicting the oldest if the log is full.
    pub fn push_log(&mut self, entry: LogEntry)
        ensures
            old(self).same_but_logs(*final(self)),
            final(self).logs@ == logs_with(old(self).logs@, entry),
    {
        if self.logs.len() >= MAX_LOG_ENTRIES {
            self.logs.pop_front();
        }
        self.logs.push_back(entry);
    }

    fn log(&mut self, level: LogLevel, message: String)
        ensures
            old(self).same_but_logs(*final(self)),
            pushed(old(self).logs@, final(self).logs@, level, message@),
    {
        self.push_log(LogEntry::new(message, level));
    }

    fn log_info(&mut self, message: &str)
        ensures
            old(self).same_but_logs(*final(self)),
            pushed(old(self).logs@, final(self).logs@, LogLevel::Info, message@),
    {
        self.log(LogLevel::Info, String::from_str(message));
    }

    fn log_success(&mut self, message: &str)
        ensures
            old(self).same_but_logs(*final(self)),
            pushed(old(self).logs@, final(self).logs@, LogLevel::Success, message@),
    {
        self.log(LogLevel::Success, String::from_str(message));
    }

    fn log_warning(&mut self, message: &str)
        ensures
            old(self).same_but_logs(*final(self)),
            pushed(old(self).logs@, final(self).logs@, LogLevel::Warning, message@),
    {
        self.log(LogLevel::Warning, String::from_str(message));
    }

    fn log_error(&mut self, message: &str)
        ensures
            old(self).same_but_logs(*final(self)),
            pushed(old(self).logs@, final(self).logs@, LogLevel::Error, message@),
    {
        self.log(LogLevel::Error, String::from_str(message));
    }

    /// A message with a text behind it.
    fn with_detail(message: &str, detail: &str) -> (text: String)
        ensures
            text@ == message@ + detail@,
    {
        let mut text = String::from_str(message);
        text.append(detail);
        text
    }

    /// Cancels the pending operation, if there is one: the marker is
    /// cleared and the interface returns to an earlier state at once. The
    /// background task is not stopped; it runs to its end and delivers its
    /// result, which is then routed as the routing rule says.
    pub fn cancel_pending_op(&mut self)
        ensures
            cancelled_is(*old(self), *final(self)),
            old(self).wf() ==> final(self).wf(),
    {
        match self.pending_op {
            Some(op) => {
                let text = App::with_detail("Cancelled: ", op.display());
                self.log(LogLevel::Warning, text);
                self.pending_op = None;
                match op {
                    PendingOp::DetectingInterfaces => {
                        self.state = AppState::Menu;
                    },
                    PendingOp::DiscoveringDns => {
                        self.state = AppState::SelectingVpn;
                    },
                    PendingOp::StartingSharing | PendingOp::StartingDhcp | PendingOp::StartingNatPmp => {
                        self.state = AppState::Menu;
                    },
                    PendingOp::StoppingSharing => {},
                    PendingOp::FetchingDebugInfo => {},
                }
            },
            None => {},
        }
    }

    /// Whether `result` is accepted with what is pending now.
    pub fn result_matches_pending(&self, result: &AsyncOpResult) -> (matches: bool)
        ensures
            matches == accepted(*result, self.pending_op),
    {
        match result {
            AsyncOpResult::SharingStarted { .. } => true,
            AsyncOpResult::SharingStopped { .. } => true,
            AsyncOpResult::InterfacesDetected { .. } => match self.pending_op {
                Some(PendingOp::DetectingInterfaces) => true,
                _ => false,
            },
            AsyncOpResult::DnsDiscovered { .. } => match self.pending_op {
                Some(PendingOp::DiscoveringDns) => true,
                _ => false,
            },
            AsyncOpResult::DhcpStarted { .. } => match self.pending_op {
                Some(PendingOp::StartingDhcp) => true,
                _ => false,
            },
            AsyncOpResult::NatPmpStarted { .. } => match self.pending_op {
                Some(PendingOp::StartingNatPmp) => true,
                _ => false,
            },
            AsyncOpResult::DebugInfoFetched { .. } => match self.pending_op {
                Some(PendingOp::FetchingDebugInfo) => true,
                _ => false,
            },
        }
    }

    /// The DNS servers in effect: the custom one, else those of the VPN,
    /// else those of the system.
    pub open spec fn spec_effective_dns(self) -> Seq<String> {
        match self.custom_dns {
            Some(dns) => seq![dns],
            None => if self.vpn_dns_servers@.len() > 0 {
                self.vpn_dns_servers@
            } else {
                self.system_dns_servers@
            },
        }
    }

    /// The DNS servers in effect: the custom one, else those of the VPN,
    /// else those of the system.
    pub fn effective_dns(&self) -> (servers: Vec<String>)
        ensures
            servers@ == self.spec_effective_dns(),
    {
        match &self.custom_dns {
            Some(dns) => {
                let mut servers: Vec<String> = Vec::new();
                servers.push(dns.clone());
                assert(servers@ =~= seq![*dns]);
                servers
            },
            None => if self.vpn_dns_servers.len() > 0 {
                clone_strings(&self.vpn_dns_servers)
            } else {
                clone_strings(&self.system_dns_servers)
            },
        }
    }

    /// Where the DNS servers in effect come from.
    pub open spec fn spec_dns_source(self) -> Seq<char> {
        if self.custom_dns is Some {
            "custom"@
        } else if self.vpn_dns_servers@.len() > 0 {
            "vpn"@
        } else if self.system_dns_servers@.len() > 0 {
            "system"@
        } else {
            "none"@
        }
    }

    /// Where the DNS servers in effect come from.
    pub fn dns_source(&self) -> (source: &'static str)
        ensures
            source@ == self.spec_dns_source(),
    {
        if self.custom_dns.is_some() {
            "custom"
        } else if self.vpn_dns_servers.len() > 0 {
            "vpn"
        } else if self.system_dns_servers.len() > 0 {
            "system"
        } else {
            "none"
        }
    }

    /// The items of the main menu.
    pub open spec fn spec_menu_items(self) -> Seq<MenuItem> {
        if self.sharing_active {
            seq![MenuItem::StopSharing, MenuItem::Quit]
        } else {
            seq![
                MenuItem::StartSharing,
                MenuItem::ToggleDhcp,
                MenuItem::ToggleNatPmp,
                MenuItem::SetDns,
                MenuItem::Quit,
            ]
        }
    }

    /// The items of the main menu.
    pub fn menu_items(&self) -> (items: Vec<MenuItem>)
        ensures
            items@ == self.spec_menu_items(),
    {
        let mut items: Vec<MenuItem> = Vec::new();
        if self.sharing_active {
            items.push(MenuItem::StopSharing);
            items.push(MenuItem::Quit);
        } else {
            items.push(MenuItem::StartSharing);
            items.push(MenuItem::ToggleDhcp);
            items.push(MenuItem::ToggleNatPmp);
            items.push(MenuItem::SetDns);
            items.push(MenuItem::Quit);
        }
        assert(items@ =~= self.spec_menu_items());
        items
    }

    /// What holds of every state that the application reaches: the log
    /// is within its bound, the session's two handles are together, there
    /// is a session while sharing is active, and the later start stages
    /// are pending only while sharing is active.
    pub open spec fn wf(self) -> bool {
        &&& self.logs@.len() <= MAX_LOG_ENTRIES
        &&& self.session matches Some(session) ==> session.wf()
        &&& self.sharing_active ==> self.session is Some
        &&& (self.pending_op == Some(PendingOp::StartingDhcp) || self.pending_op == Some(
            PendingOp::StartingNatPmp,
        )) ==> self.sharing_active
    }

    /// Whether `post` is `self` with `op` pending, but for the log.
    pub open spec fn now_pending(self, op: PendingOp, post: App) -> bool {
        (App { pending_op: Some(op), ..self }).same_but_logs(post)
    }

    /// Asks for the detection of the interfaces. Refused while an
    /// operation is pending.
    pub fn refresh_interfaces_async(&mut self) -> (command: Option<Command>)
        ensures
            refresh_is(*old(self), *final(self), command),
            old(self).wf() ==> final(self).wf(),
    {
        if self.pending_op.is_some() {
            return None;
        }
        self.log_info("Detecting network interfaces...");
        self.pending_op = Some(PendingOp::DetectingInterfaces);
        Some(Command::DetectInterfaces)
    }

    /// Asks for the discovery of the DNS servers of the VPN interface
    /// `vpn_name`. Refused while an operation is pending.
    pub fn discover_dns_async(&mut self, vpn_name: String) -> (command: Option<Command>)
        ensures
            discover_is(*old(self), vpn_name, *final(self), command),
            old(self).wf() ==> final(self).wf(),
    {
        if self.pending_op.is_some() {
            return None;
        }
        let mut text = App::with_detail("Discovering DNS for ", vpn_name.as_str());
        text.append("...");
        self.log(LogLevel::Info, text);
        self.pending_op = Some(PendingOp::DiscoveringDns);
        Some(Command::DiscoverDns { vpn_name })
    }

    /// Whether a start of sharing is taken up now: nothing is pending,
    /// sharing is not active, the LAN interface has an address, and no
    /// handle of an earlier session is still lent out.
    pub open spec fn start_allowed(self, lan_ip: Option<Ipv4Addr>) -> bool {
        &&& self.pending_op is None
        &&& !self.sharing_active
        &&& lan_ip is Some
        &&& self.session matches Some(session) ==> session.holds_managers()
    }

    /// Asks for the start of sharing from `vpn_name` to `lan_name`.
    pub fn start_sharing_async(
        &mut self,
        vpn_name: String,
        lan_name: String,
        lan_ip: Option<Ipv4Addr>,
    ) -> (command: Option<Command>)
        ensures
            start_sharing_is(*old(self), vpn_name, lan_name, lan_ip, *final(self), command),
            old(self).wf() ==> final(self).wf(),
    {
        if self.pending_op.is_some() {
            return None;
        }
        if self.sharing_active {
            self.log_warning("VPN sharing is already active");
            return None;
        }
        let lan_ip = match lan_ip {
            Some(ip) => ip,
            None => {
                self.log_error("The LAN interface has no IPv4 address");
                return None;
            },
        };
        let (firewall, ip_forwarding) = match self.session.take() {
            Some(mut earlier) => {
                if !earlier.has_managers() {
                    self.session = Some(earlier);
                    self.log_warning("An earlier operation still holds the system handles");
                    return None;
                }
                earlier.take_managers()
            },
            None => (Firewall::new(), IpForwarding::new()),
        };
        let mut text = App::with_detail("Starting VPN sharing: ", vpn_name.as_str());
        text.append(" -> ");
        text.append(lan_name.as_str());
        self.log(LogLevel::Info, text);
        let mut session = SharingSession::new(
            firewall,
            ip_forwarding,
            vpn_name.clone(),
            lan_name.clone(),
            lan_ip,
        );
        let (firewall, ip_forwarding) = session.take_managers();
        self.session = Some(session);
        self.pending_op = Some(PendingOp::StartingSharing);
        Some(Command::StartSharing { vpn_name, lan_name, firewall, ip_forwarding })
    }

    /// Whether a stop of sharing is taken up now: nothing is pending,
    /// sharing is active, and the session holds its handles.
    pub open spec fn stop_allowed(self) -> bool {
        &&& self.pending_op is None
        &&& self.sharing_active
        &&& self.session matches Some(session) && session.holds_managers()
    }

    /// Asks for the stop of sharing.
    pub fn stop_sharing_async(&mut self) -> (commands: Vec<Command>)
        ensures
            stop_sharing_is(*old(self), *final(self), commands@),
            old(self).wf() ==> final(self).wf(),
    {
        let mut commands: Vec<Command> = Vec::new();
        if self.pending_op.is_some() {
            return commands;
        }
        if !self.sharing_active {
            self.log_warning("VPN sharing is not active");
            self.state = AppState::Menu;
            return commands;
        }
        let mut session = match self.session.take() {
            Some(session) => session,
            None => {
                self.log_warning("There is no session to stop");
                return commands;
            },
        };
        if !session.has_managers() {
            self.session = Some(session);
            self.log_warning("An earlier operation still holds the system handles");
            return commands;
        }
        self.log_info("Stopping VPN sharing...");
        self.pending_op = Some(PendingOp::StoppingSharing);
        if session.shutdown_natpmp() {
            commands.push(Command::SignalNatPmpShutdown);
        }
        let natpmp_active = session.natpmp_active;
        let dhcp_active = session.dhcp_active;
        let (firewall, ip_forwarding) = session.take_managers();
        self.session = Some(session);
        commands.push(Command::StopSharing { natpmp_active, dhcp_active, firewall, ip_forwarding });
        assert(commands@ =~= (if old(self).session.unwrap().natpmp_server is Some {
            seq![Command::SignalNatPmpShutdown]
        } else {
            Seq::<Command>::empty()
        }) + seq![
            Command::StopSharing {
                natpmp_active: old(self).session.unwrap().natpmp_active,
                dhcp_active: old(self).session.unwrap().dhcp_active,
                firewall: old(self).session.unwrap().firewall.unwrap(),
                ip_forwarding: old(self).session.unwrap().ip_forwarding.unwrap(),
            },
        ]);
        commands
    }

    /// Asks for the debug info. Refused while an operation is pending.
    pub fn fetch_debug_info_async(&mut self) -> (command: Option<Command>)
        ensures
            fetch_debug_is(*old(self), *final(self), command),
            old(self).wf() ==> final(self).wf(),
    {
        if self.pending_op.is_some() {
            return None;
        }
        self.pending_op = Some(PendingOp::FetchingDebugInfo);
        match &self.session {
            Some(session) => Some(
                Command::FetchDebugInfo {
                    ip_forwarding_modified: session.ip_forwarding_is_modified(),
                    dhcp_running: session.dhcp_active,
                    dhcp_range: clone_range(&session.dhcp_range),
                    natpmp_running: session.natpmp_active,
                },
            ),
            None => Some(
                Command::FetchDebugInfo {
                    ip_forwarding_modified: false,
                    dhcp_running: false,
                    dhcp_range: None,
                    natpmp_running: false,
                },
            ),
        }
    }

    /// The command that asks for the last-resort cleanup of two handles
    /// that have no session to go to, if they hold anything to clean up.
    fn cleanup_of(firewall: Firewall, ip_forwarding: IpForwarding) -> (command: Option<Command>)
        ensures
            asks_cleanup(
                command,
                cleanup_steps(false, false, false, Some(firewall), Some(ip_forwarding)),
            ),
    {
        let mut rules = firewall;
        let mut forwarding = ip_forwarding;
        let mut steps: Vec<CleanupStep> = Vec::new();
        if rules.cleanup_sync() {
            steps.push(CleanupStep::CleanupFirewall);
        }
        match forwarding.restore_sync() {
            Some(original) => {
                steps.push(CleanupStep::RestoreIpForwarding(original));
            },
            None => {},
        }
        assert(steps@ =~= cleanup_steps(false, false, false, Some(firewall), Some(ip_forwarding)));
        if steps.len() == 0 {
            None
        } else {
            Some(Command::Cleanup { steps })
        }
    }

    /// Logs which DNS servers a router has to be given by hand: those in
    /// effect, in one entry, or nothing where none is in effect.
    fn log_manual_dns(&mut self)
        ensures
            old(self).same_but_logs(*final(self)),
            manual_dns_logged(*old(self), final(self).logs@),
            grew_by_at_most_one(old(self).logs@, final(self).logs@),
    {
        let servers = self.effective_dns();
        if servers.len() > 0 {
            let list = join_strings(&servers, ", ");
            let text = App::with_detail("Configure router manually - DNS: ", list.as_str());
            self.log(LogLevel::Info, text);
        }
    }

    /// Goes on after the sharing itself is up: starts NAT-PMP where it is
    /// preferred, else completes the start.
    fn natpmp_or_active(&mut self) -> (command: Option<Command>)
        ensures
            natpmp_or_active_is(*old(self), *final(self), command),
            grew_by_at_most_one(old(self).logs@, final(self).logs@),
    {
        if self.natpmp_enabled {
            match &self.session {
                Some(session) => {
                    let lan_network = NatPmpServer::network_from_ip(session.lan_ip);
                    let server = NatPmpServer::new(
                        session.vpn_name.as_str(),
                        session.lan_name.as_str(),
                        lan_network.as_str(),
                    );
                    self.log_info("Starting NAT-PMP server...");
                    self.pending_op = Some(PendingOp::StartingNatPmp);
                    return Some(Command::StartNatPmp { server });
                },
                None => {},
            }
        }
        self.pending_op = None;
        self.state = AppState::Active;
        None
    }

    /// Takes the result of the interface detection.
    fn on_interfaces_detected(
        &mut self,
        vpn: Result<Vec<InterfaceInfo>, TunshareError>,
        lan: Result<Vec<InterfaceInfo>, TunshareError>,
    )
        ensures
            interfaces_detected_is(*old(self), vpn, lan, *final(self)),
            stays_bounded(old(self).logs@, final(self).logs@),
    {
        self.pending_op = None;
        match vpn {
            Ok(interfaces) => {
                let count = interfaces.len();
                self.vpn_interfaces = interfaces;
                if count > 0 {
                    let number = decimal_string(count as u64);
                    let mut text = App::with_detail("Found ", number.as_str());
                    text.append(" VPN interface(s)");
                    self.log(LogLevel::Success, text);
                } else {
                    self.log_warning("No VPN interfaces found. Is your VPN connected?");
                }
            },
            Err(error) => {
                let message = error.message();
                let text = App::with_detail("Failed to detect VPN interfaces: ", message.as_str());
                self.log(LogLevel::Error, text);
                self.vpn_interfaces.clear();
            },
        }
        match lan {
            Ok(interfaces) => {
                let count = interfaces.len();
                self.lan_interfaces = interfaces;
                if count > 0 {
                    let number = decimal_string(count as u64);
                    let mut text = App::with_detail("Found ", number.as_str());
                    text.append(" LAN interface(s)");
                    self.log(LogLevel::Success, text);
                } else {
                    self.log_warning("No LAN interfaces found");
                }
            },
            Err(error) => {
                let message = error.message();
                let text = App::with_detail("Failed to detect LAN interfaces: ", message.as_str());
                self.log(LogLevel::Error, text);
                self.lan_interfaces.clear();
            },
        }
        if self.vpn_interfaces.len() > 0 && self.lan_interfaces.len() > 0 {
            self.state = AppState::SelectingVpn;
            self.selected_vpn = Some(0);
            self.log_info("Select VPN interface to share from");
        } else if self.vpn_interfaces.len() == 0 {
            self.log_error("No VPN interfaces found. Connect to VPN first.");
        } else {
            self.log_error("No LAN interfaces found.");
        }
    }

    /// Takes the result of the DNS discovery.
    fn on_dns_discovered(
        &mut self,
        vpn_servers: Result<Vec<String>, TunshareError>,
        system_servers: Result<Vec<String>, TunshareError>,
    )
        ensures
            dns_discovered_is(*old(self), vpn_servers, system_servers, *final(self)),
            stays_bounded(old(self).logs@, final(self).logs@),
    {
        self.pending_op = None;
        match vpn_servers {
            Ok(servers) => {
                if servers.len() == 0 {
                    self.log_warning("No VPN DNS servers found");
                } else {
                    let list = join_strings(&servers, ", ");
                    let text = App::with_detail("VPN DNS: ", list.as_str());
                    self.log(LogLevel::Success, text);
                }
                self.vpn_dns_servers = servers;
            },
            Err(error) => {
                let message = error.message();
                let text = App::with_detail("VPN DNS discovery failed: ", message.as_str());
                self.log(LogLevel::Warning, text);
                self.vpn_dns_servers.clear();
            },
        }
        match system_servers {
            Ok(servers) => {
                if servers.len() > 0 {
                    let list = join_strings(&servers, ", ");
                    let text = App::with_detail("System DNS: ", list.as_str());
                    self.log(LogLevel::Info, text);
                }
                self.system_dns_servers = servers;
            },
            Err(_) => {
                self.system_dns_servers.clear();
            },
        }
        self.state = AppState::SelectingLan;
        self.selected_lan = if self.lan_interfaces.len() == 0 {
            None
        } else {
            Some(0)
        };
        self.log_info("Select LAN interface to share to");
    }

    /// Takes the result of the start sequence and the handles it brings
    /// back.
    fn on_sharing_started(
        &mut self,
        result: Result<(), TunshareError>,
        firewall: Firewall,
        ip_forwarding: IpForwarding,
    ) -> (command: Option<Command>)
        ensures
            sharing_started_is(*old(self), result, firewall, ip_forwarding, *final(self), command),
            stays_bounded(old(self).logs@, final(self).logs@),
    {
        let mut session = match self.session.take() {
            Some(session) => session,
            None => {
                self.log_error("A start result arrived without a session");
                return App::cleanup_of(firewall, ip_forwarding);
            },
        };
        session.restore_managers(firewall, ip_forwarding);
        let lan_name = session.lan_name.clone();
        let lan_ip = session.lan_ip;
        self.session = Some(session);
        match self.pending_op {
            Some(PendingOp::StartingSharing) => {},
            _ => {
                self.log_info("Sharing result arrived after cancel (resources restored)");
                return None;
            },
        }
        match result {
            Ok(_) => {
                self.sharing_active = true;
                let address = lan_ip.to_text();
                let text = App::with_detail("VPN sharing active! Gateway: ", address.as_str());
                self.log(LogLevel::Success, text);
                if self.dhcp_enabled && self.dnsmasq_installed {
                    self.log_info("Starting DHCP server...");
                    self.pending_op = Some(PendingOp::StartingDhcp);
                    let dns_servers = self.effective_dns();
                    return Some(Command::StartDhcp { lan_name, lan_ip, dns_servers });
                } else if !self.dhcp_enabled {
                    self.log_info("DHCP disabled by user preference");
                    self.log_manual_dns();
                } else {
                    self.log_info("DHCP disabled (dnsmasq not installed)");
                    self.log_manual_dns();
                }
                self.natpmp_or_active()
            },
            Err(error) => {
                let message = error.message();
                let text = App::with_detail("Failed to start sharing: ", message.as_str());
                self.log(LogLevel::Error, text);
                self.pending_op = None;
                self.state = AppState::Menu;
                None
            },
        }
    }

    /// What the log says of a DHCP server that has started.
    fn dhcp_active_message(range: &Option<(String, String)>) -> (text: String)
        ensures
            text@ == dhcp_active_text(*range),
    {
        match range {
            Some((first, last)) => {
                let mut text = String::from_str("DHCP server active (");
                text.append(first.as_str());
                text.append("-");
                text.append(last.as_str());
                text.append(")");
                text
            },
            None => String::from_str("DHCP server active"),
        }
    }

    /// Takes the result of the DHCP start.
    fn on_dhcp_started(
        &mut self,
        result: Result<(), TunshareError>,
        range: Option<(String, String)>,
    ) -> (command: Option<Command>)
        ensures
            dhcp_started_is(*old(self), result, range, *final(self), command),
            stays_bounded(old(self).logs@, final(self).logs@),
    {
        match result {
            Ok(_) => {
                let text = App::dhcp_active_message(&range);
                let ghost active = text@;
                match self.session.take() {
                    Some(mut session) => {
                        session.dhcp_active = true;
                        session.dhcp_range = range;
                        self.session = Some(session);
                    },
                    None => {},
                }
                self.log(LogLevel::Success, text);
                let ghost first = self.logs@;
                assert(recently_logged(first, LogLevel::Success, active, 1)) by {
                    assert(first[first.len() - 1].level == LogLevel::Success);
                }
                self.log_info("Router can now use DHCP on WAN interface");
                let ghost second = self.logs@;
                let command = self.natpmp_or_active();
                proof {
                    lemma_stays_logged(first, second, LogLevel::Success, active, 1);
                    lemma_stays_logged(second, self.logs@, LogLevel::Success, active, 2);
                }
                command
            },
            Err(error) => {
                let message = error.message();
                let text = App::with_detail("DHCP server failed: ", message.as_str());
                let ghost failure = text@;
                self.log(LogLevel::Warning, text);
                let ghost first = self.logs@;
                assert(recently_logged(first, LogLevel::Warning, failure, 1)) by {
                    assert(first[first.len() - 1].level == LogLevel::Warning);
                }
                self.log_info("Router needs manual IP configuration");
                let ghost second = self.logs@;
                self.log_manual_dns();
                let ghost third = self.logs@;
                let command = self.natpmp_or_active();
                proof {
                    lemma_stays_logged(first, second, LogLevel::Warning, failure, 1);
                    lemma_stays_logged(second, third, LogLevel::Warning, failure, 2);
                    lemma_stays_logged(third, self.logs@, LogLevel::Warning, failure, 3);
                }
                command
            },
        }
    }

    /// Takes the result of the NAT-PMP start.
    fn on_natpmp_started(&mut self, result: Result<(), TunshareError>, server: Option<NatPmpServer>)
        ensures
            natpmp_started_is(*old(self), result, server, *final(self)),
            stays_bounded(old(self).logs@, final(self).logs@),
    {
        match result {
            Ok(_) => {
                match self.session.take() {
                    Some(mut session) => {
                        session.natpmp_active = true;
                        session.natpmp_server = server;
                        self.session = Some(session);
                    },
                    None => {},
                }
                self.log_success("NAT-PMP server active");
            },
            Err(error) => {
                let message = error.message();
                let text = App::with_detail("NAT-PMP server failed: ", message.as_str());
                self.log(LogLevel::Warning, text);
                assert(self.logs@[self.logs@.len() - 1].level == LogLevel::Warning);
            },
        }
        self.pending_op = None;
        self.state = AppState::Active;
    }

    /// Takes the result of the stop sequence and the handles it brings
    /// back.
    fn on_sharing_stopped(
        &mut self,
        result: Result<(), TunshareError>,
        firewall: Firewall,
        ip_forwarding: IpForwarding,
    ) -> (command: Option<Command>)
        ensures
            sharing_stopped_is(*old(self), result, firewall, ip_forwarding, *final(self), command),
            stays_bounded(old(self).logs@, final(self).logs@),
    {
        self.session = None;
        self.pending_op = None;
        match result {
            Ok(_) => {
                self.log_success("VPN sharing stopped");
            },
            Err(error) => {
                let message = error.message();
                let text = App::with_detail("Cleanup warning: ", message.as_str());
                self.log(LogLevel::Error, text);
            },
        }
        self.sharing_active = false;
        self.state = AppState::Menu;
        self.selected_menu_item = 0;
        self.show_debug = false;
        self.debug_info = None;
        App::cleanup_of(firewall, ip_forwarding)
    }

    /// Takes the result of the debug fetch.
    fn on_debug_info_fetched(&mut self, info: Result<DebugInfo, TunshareError>)
        ensures
            debug_info_fetched_is(*old(self), info, *final(self)),
            stays_bounded(old(self).logs@, final(self).logs@),
    {
        self.pending_op = None;
        match info {
            Ok(fetched) => {
                self.debug_info = Some(fetched);
            },
            Err(error) => {
                let message = error.message();
                let text = App::with_detail("Failed to fetch debug info: ", message.as_str());
                self.log(LogLevel::Warning, text);
                self.debug_info = None;
            },
        }
    }

    /// Takes the result of a background operation and says what to run
    /// next, if anything.
    ///
    /// The routing rule decides first. A result that brings lent handles
    /// back is taken whatever is pending, so that the handles reach the
    /// session exactly once; any other result is taken only as the answer
    /// to the pending operation, and is stale otherwise.
    pub fn handle_async_result(&mut self, result: AsyncOpResult) -> (command: Option<Command>)
        ensures
            handled_is(*old(self), result, *final(self), command),
            old(self).wf() ==> final(self).wf(),
    {
        if !self.result_matches_pending(&result) {
            self.log_info("Discarded stale async result");
            return None;
        }
        match result {
            AsyncOpResult::InterfacesDetected { vpn, lan } => {
                self.on_interfaces_detected(vpn, lan);
                None
            },
            AsyncOpResult::DnsDiscovered { vpn_servers, system_servers } => {
                self.on_dns_discovered(vpn_servers, system_servers);
                None
            },
            AsyncOpResult::SharingStarted { result, firewall, ip_forwarding } => {
                self.on_sharing_started(result, firewall, ip_forwarding)
            },
            AsyncOpResult::DhcpStarted { result, range } => self.on_dhcp_started(result, range),
            AsyncOpResult::NatPmpStarted { result, server } => {
                self.on_natpmp_started(result, server);
                None
            },
            AsyncOpResult::SharingStopped { result, firewall, ip_forwarding } => {
                self.on_sharing_stopped(result, firewall, ip_forwarding)
            },
            AsyncOpResult::DebugInfoFetched { info } => {
                self.on_debug_info_fetched(info);
                None
            },
        }
    }
}

/// A result of the start sequence that arrives after the start was
/// cancelled brings its two handles back into the session, and does not
/// make sharing active: the state is the menu to which the cancelling
/// returned, nothing is pending, and nothing is started. Had the session
/// gone in the meantime, the handles are cleaned up instead.
pub proof fn lemma_late_start_result_returns_handles(
    pre: App,
    cancelled: App,
    result: Result<(), TunshareError>,
    firewall: Firewall,
    ip_forwarding: IpForwarding,
    post: App,
    command: Option<Command>,
)
    requires
        pre.pending_op == Some(PendingOp::StartingSharing),
        cancelled_is(pre, cancelled),
        handled_is(
            cancelled,
            AsyncOpResult::SharingStarted { result, firewall, ip_forwarding },
            post,
            command,
        ),
    ensures
        match pre.session {
            Some(_) => {
                &&& post.session matches Some(session)
                &&& session.firewall == Some(firewall)
                &&& session.ip_forwarding == Some(ip_forwarding)
                &&& session.holds_managers()
                &&& command is None
            },
            None => post.session is None && asks_cleanup(
                command,
                cleanup_steps(false, false, false, Some(firewall), Some(ip_forwarding)),
            ),
        },
        post.state == AppState::Menu,
        post.state != AppState::Active,
        post.sharing_active == pre.sharing_active,
        post.pending_op is None,
        !(command matches Some(Command::StartDhcp { .. })),
        !(command matches Some(Command::StartNatPmp { .. })),
{
}

/// A result that brings handles back is never stale, and the handles are
/// never lost: after the end of a start they are in the session, or, had
/// the session gone, in the cleanup; after the end of a stop what they
/// still hold is in the cleanup.
pub proof fn lemma_handles_always_reach_home(
    pre: App,
    result: Result<(), TunshareError>,
    firewall: Firewall,
    ip_forwarding: IpForwarding,
    post: App,
    command: Option<Command>,
)
    requires
        handled_is(pre, AsyncOpResult::SharingStarted { result, firewall, ip_forwarding }, post, command),
    ensures
        accepted(AsyncOpResult::SharingStarted { result, firewall, ip_forwarding }, pre.pending_op),
        pre.session is Some ==> (post.session matches Some(session) && session.firewall == Some(
            firewall,
        ) && session.ip_forwarding == Some(ip_forwarding)),
        pre.session is None ==> asks_cleanup(
            command,
            cleanup_steps(false, false, false, Some(firewall), Some(ip_forwarding)),
        ),
{
}

/// While an operation is pending, a result of another kind that carries
/// no handles changes nothing but the log.
pub proof fn lemma_stale_results_are_discarded(
    pre: App,
    result: AsyncOpResult,
    post: App,
    command: Option<Command>,
)
    requires
        !carries_handles(result),
        !(pre.pending_op matches Some(op) && answers(result, op)),
        handled_is(pre, result, post, command),
    ensures
        pre.same_but_logs(post),
        command is None,
{
}

} // verus!
