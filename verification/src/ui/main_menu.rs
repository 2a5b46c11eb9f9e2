//! What the main menu and the header show: labels, badges and the status
//! word.

use crate::app::{App, AppState, MenuItem};
use crate::health::HealthStatus;
use crate::scan::{spec_split, split, string_of, views};
use crate::text::chars_of;
use vstd::prelude::*;

verus! {

/// The label of a menu item.
pub open spec fn menu_item_label(item: MenuItem) -> Seq<char> {
    match item {
        MenuItem::StartSharing => "Start VPN Sharing"@,
        MenuItem::StopSharing => "Stop VPN Sharing"@,
        MenuItem::ToggleDhcp => "DHCP Server"@,
        MenuItem::ToggleNatPmp => "NAT-PMP Server"@,
        MenuItem::SetDns => "DNS Server"@,
        MenuItem::Quit => "Quit"@,
    }
}

/// The label of a menu item.
pub fn menu_item_label_str(item: &MenuItem) -> (label: &'static str)
    ensures
        label@ == menu_item_label(*item),
{
    match item {
        MenuItem::StartSharing => "Start VPN Sharing",
        MenuItem::StopSharing => "Stop VPN Sharing",
        MenuItem::ToggleDhcp => "DHCP Server",
        MenuItem::ToggleNatPmp => "NAT-PMP Server",
        MenuItem::SetDns => "DNS Server",
        MenuItem::Quit => "Quit",
    }
}

/// What stands at the right of a menu item.
#[derive(Debug, PartialEq, Eq)]
pub enum StatusBadge {
    On,
    Off,
    Value(String),
    Disabled(String),
}

/// A badge as texts.
pub enum BadgeText {
    On,
    Off,
    Value(Seq<char>),
    Disabled(Seq<char>),
}

impl StatusBadge {
    /// The badge as texts.
    pub open spec fn text(self) -> BadgeText {
        match self {
            StatusBadge::On => BadgeText::On,
            StatusBadge::Off => BadgeText::Off,
            StatusBadge::Value(value) => BadgeText::Value(value@),
            StatusBadge::Disabled(reason) => BadgeText::Disabled(reason@),
        }
    }
}

/// The badge of a menu item: the switches show whether they are on, the
/// DHCP switch says so where its daemon is missing, and the DNS item shows
/// the custom server, else the first server in effect, else `auto`.
pub open spec fn menu_item_badge(item: MenuItem, app: App) -> Option<BadgeText> {
    match item {
        MenuItem::ToggleDhcp => Some(
            if !app.dnsmasq_installed {
                BadgeText::Disabled("not installed"@)
            } else if app.dhcp_enabled {
                BadgeText::On
            } else {
                BadgeText::Off
            },
        ),
        MenuItem::ToggleNatPmp => Some(
            if app.natpmp_enabled {
                BadgeText::On
            } else {
                BadgeText::Off
            },
        ),
        MenuItem::SetDns => Some(
            BadgeText::Value(
                if app.spec_effective_dns().len() > 0 {
                    app.spec_effective_dns()[0]@
                } else {
                    "auto"@
                },
            ),
        ),
        _ => None,
    }
}

/// The label and the badge of a menu item.
pub fn menu_item_label_status(item: &MenuItem, app: &App) -> (shown: (String, Option<StatusBadge>))
    ensures
        shown.0@ == menu_item_label(*item),
        match shown.1 {
            Some(badge) => menu_item_badge(*item, *app) == Some(badge.text()),
            None => menu_item_badge(*item, *app) is None,
        },
{
    let label = String::from_str(menu_item_label_str(item));
    let badge = match item {
        MenuItem::ToggleDhcp => Some(
            if !app.dnsmasq_installed {
                StatusBadge::Disabled(String::from_str("not installed"))
            } else if app.dhcp_enabled {
                StatusBadge::On
            } else {
                StatusBadge::Off
            },
        ),
        MenuItem::ToggleNatPmp => Some(
            if app.natpmp_enabled {
                StatusBadge::On
            } else {
                StatusBadge::Off
            },
        ),
        MenuItem::SetDns => {
            let effective = app.effective_dns();
            let value = if effective.len() > 0 {
                effective[0].clone()
            } else {
                String::from_str("auto")
            };
            Some(StatusBadge::Value(value))
        },
        _ => None,
    };
    (label, badge)
}

/// Whether a menu item is shown as disabled: the DHCP switch, where the
/// daemon is missing.
pub fn is_menu_item_disabled(item: &MenuItem, app: &App) -> (disabled: bool)
    ensures
        disabled == (*item == MenuItem::ToggleDhcp && !app.dnsmasq_installed),
{
    match item {
        MenuItem::ToggleDhcp => !app.dnsmasq_installed,
        _ => false,
    }
}

/// The status word of the header.
#[derive(Debug, Clone, Copy, PartialEq, Eq, Structural)]
pub enum HeaderStatus {
    Active,
    Degraded,
    Down,
    Configuring,
    Inactive,
}

/// The status word of the header: while sharing is active, the health of
/// the session; else whether the user is in a selection or an editor.
pub open spec fn spec_header_status(app: App) -> HeaderStatus {
    if app.sharing_active {
        match app.session {
            Some(session) => match session.health_status {
                HealthStatus::Healthy => HeaderStatus::Active,
                HealthStatus::Degraded(_) => HeaderStatus::Degraded,
                HealthStatus::Down(_) => HeaderStatus::Down,
            },
            None => HeaderStatus::Active,
        }
    } else {
        match app.state {
            AppState::SelectingVpn | AppState::SelectingLan | AppState::EditingDns =>
                HeaderStatus::Configuring,
            _ => HeaderStatus::Inactive,
        }
    }
}

/// The status word of the header.
pub fn header_status(app: &App) -> (status: HeaderStatus)
    ensures
        status == spec_header_status(*app),
{
    if app.sharing_active {
        match &app.session {
            Some(session) => match &session.health_status {
                HealthStatus::Healthy => HeaderStatus::Active,
                HealthStatus::Degraded(_) => HeaderStatus::Degraded,
                HealthStatus::Down(_) => HeaderStatus::Down,
            },
            None => HeaderStatus::Active,
        }
    } else {
        match app.state {
            AppState::SelectingVpn | AppState::SelectingLan | AppState::EditingDns =>
                HeaderStatus::Configuring,
            _ => HeaderStatus::Inactive,
        }
    }
}

/// The groups in which the menu shows its items.
#[derive(Debug, Clone, Copy, PartialEq, Eq, Structural)]
pub enum MenuGroup {
    /// Starting and stopping.
    Action,
    /// The switches and the DNS server.
    Settings,
    /// Quitting.
    Quit,
}

/// A row of the menu.
#[derive(Debug, Clone, Copy, PartialEq, Eq, Structural)]
pub enum MenuRow {
    Blank,
    Separator,
    /// An item, with its index among the items.
    Item(usize, MenuItem),
}

/// The group of a menu item.
pub open spec fn group_of(item: MenuItem) -> MenuGroup {
    match item {
        MenuItem::StartSharing | MenuItem::StopSharing => MenuGroup::Action,
        MenuItem::ToggleDhcp | MenuItem::ToggleNatPmp | MenuItem::SetDns => MenuGroup::Settings,
        MenuItem::Quit => MenuGroup::Quit,
    }
}

/// The rows of the items of `group` among the first `n` items, in their
/// order.
pub open spec fn group_rows(items: Seq<MenuItem>, group: MenuGroup, n: int) -> Seq<MenuRow>
    decreases n,
{
    if n <= 0 {
        Seq::<MenuRow>::empty()
    } else if group_of(items[n - 1]) == group {
        group_rows(items, group, n - 1).push(MenuRow::Item((n - 1) as usize, items[n - 1]))
    } else {
        group_rows(items, group, n - 1)
    }
}

/// A group as it stands in the menu after the first: nothing if it is
/// empty, else a separator, a blank row, its items, and a blank row.
pub open spec fn later_group(rows: Seq<MenuRow>) -> Seq<MenuRow> {
    if rows.len() == 0 {
        rows
    } else {
        seq![MenuRow::Separator, MenuRow::Blank] + rows + seq![MenuRow::Blank]
    }
}

/// The rows of the menu: the actions between blank rows, then the
/// settings, then quitting.
pub open spec fn spec_menu_rows(items: Seq<MenuItem>) -> Seq<MenuRow> {
    seq![MenuRow::Blank] + group_rows(items, MenuGroup::Action, items.len() as int)
        + seq![MenuRow::Blank] + later_group(
        group_rows(items, MenuGroup::Settings, items.len() as int),
    ) + later_group(group_rows(items, MenuGroup::Quit, items.len() as int))
}

fn item_group(item: MenuItem) -> (group: MenuGroup)
    ensures
        group == group_of(item),
{
    match item {
        MenuItem::StartSharing | MenuItem::StopSharing => MenuGroup::Action,
        MenuItem::ToggleDhcp | MenuItem::ToggleNatPmp | MenuItem::SetDns => MenuGroup::Settings,
        MenuItem::Quit => MenuGroup::Quit,
    }
}

fn rows_of_group(items: &Vec<MenuItem>, group: MenuGroup) -> (rows: Vec<MenuRow>)
    ensures
        rows@ == group_rows(items@, group, items@.len() as int),
{
    let mut rows: Vec<MenuRow> = Vec::new();
    let mut i: usize = 0;
    while i < items.len()
        invariant
            i <= items.len(),
            rows@ == group_rows(items@, group, i as int),
        decreases items.len() - i,
    {
        if item_group(items[i]) == group {
            rows.push(MenuRow::Item(i, items[i]));
        }
        i = i + 1;
    }
    rows
}

fn push_rows(rows: &mut Vec<MenuRow>, more: &Vec<MenuRow>)
    ensures
        final(rows)@ == old(rows)@ + more@,
{
    let mut i: usize = 0;
    assert(rows@ =~= old(rows)@ + more@.take(0));
    while i < more.len()
        invariant
            i <= more.len(),
            rows@ == old(rows)@ + more@.take(i as int),
        decreases more.len() - i,
    {
        rows.push(more[i]);
        assert(more@.take(i + 1) =~= more@.take(i as int).push(more@[i as int]));
        assert(rows@ =~= old(rows)@ + more@.take(i + 1));
        i = i + 1;
    }
    assert(more@.take(more@.len() as int) =~= more@);
}

fn push_later_group(rows: &mut Vec<MenuRow>, group: &Vec<MenuRow>)
    ensures
        final(rows)@ == old(rows)@ + later_group(group@),
{
    if group.len() > 0 {
        rows.push(MenuRow::Separator);
        rows.push(MenuRow::Blank);
        push_rows(rows, group);
        rows.push(MenuRow::Blank);
        assert(rows@ =~= old(rows)@ + later_group(group@));
    } else {
        assert(rows@ =~= old(rows)@ + later_group(group@));
    }
}

/// The rows of the menu for `items`.
pub fn menu_rows(items: &Vec<MenuItem>) -> (rows: Vec<MenuRow>)
    ensures
        rows@ == spec_menu_rows(items@),
{
    let action = rows_of_group(items, MenuGroup::Action);
    let settings = rows_of_group(items, MenuGroup::Settings);
    let quit = rows_of_group(items, MenuGroup::Quit);
    let mut rows: Vec<MenuRow> = Vec::new();
    rows.push(MenuRow::Blank);
    push_rows(&mut rows, &action);
    rows.push(MenuRow::Blank);
    push_later_group(&mut rows, &settings);
    push_later_group(&mut rows, &quit);
    assert(rows@ =~= spec_menu_rows(items@));
    rows
}

/// One row of the connection summary: a label, its value, and whether the
/// value is shown as active.
#[derive(Debug, PartialEq, Eq)]
pub struct ConfigRow {
    pub label: &'static str,
    pub value: String,
    pub active: bool,
}

/// What stands behind the last dot of `s`; all of `s` if it holds none.
pub open spec fn last_piece(s: Seq<char>) -> Seq<char> {
    spec_split(s, seq!['.']).last()
}

/// The DNS server shown in the summary: the first one in effect, with
/// its source in brackets, or `none`.
pub open spec fn dns_value(app: App) -> Seq<char> {
    if app.spec_effective_dns().len() == 0 {
        "none"@
    } else {
        app.spec_effective_dns()[0]@ + " ("@ + app.spec_dns_source() + ")"@
    }
}

/// How the LAN clients get their addresses, as shown in the summary: by
/// DHCP, with the last octets of the range where it is known, or by hand.
pub open spec fn wan_value(dhcp_active: bool, range: Option<(String, String)>) -> Seq<char> {
    if dhcp_active {
        match range {
            Some((first, last)) => "DHCP "@ + last_piece(first@) + "-"@ + last_piece(last@),
            None => "DHCP Active"@,
        }
    } else {
        "Manual"@
    }
}

fn last_piece_of(text: &String) -> (piece: String)
    ensures
        piece@ == last_piece(text@),
{
    proof {
        reveal_strlit(".");
    }
    let chars = chars_of(text.as_str());
    let dot = chars_of(".");
    assert(dot@ =~= seq!['.']);
    let pieces = split(&chars, &dot);
    proof {
        crate::scan::lemma_split_is_not_empty(chars@, dot@, 0);
        assert(views(pieces@).len() == pieces@.len());
        assert(views(pieces@).last() == pieces@[pieces@.len() - 1]@);
    }
    string_of(&pieces[pieces.len() - 1])
}

/// The rows of the connection summary: gateway, DNS, how the LAN clients
/// get their addresses, and NAT-PMP.
pub fn connection_rows(app: &App, gateway: &str) -> (rows: Vec<ConfigRow>)
    ensures
        rows@.len() == 4,
        rows@[0].label@ == "Gateway"@ && rows@[0].value@ == gateway@ && !rows@[0].active,
        rows@[1].label@ == "DNS"@ && rows@[1].value@ == dns_value(*app) && !rows@[1].active,
        rows@[2].label@ == "WAN"@,
        rows@[3].label@ == "NAT-PMP"@,
        match app.session {
            Some(session) => {
                &&& rows@[2].value@ == wan_value(session.dhcp_active, session.dhcp_range)
                &&& rows@[2].active == session.dhcp_active
                &&& rows@[3].value@ == (if session.natpmp_active {
                    "Active"@
                } else {
                    "Off"@
                })
                &&& rows@[3].active == session.natpmp_active
            },
            None => {
                &&& rows@[2].value@ == "Manual"@
                &&& !rows@[2].active
                &&& rows@[3].value@ == "Off"@
                &&& !rows@[3].active
            },
        },
{
    let servers = app.effective_dns();
    let dns = if servers.len() == 0 {
        String::from_str("none")
    } else {
        let mut text = servers[0].clone();
        text.append(" (");
        text.append(app.dns_source());
        text.append(")");
        text
    };
    let (dhcp_active, natpmp_active, wan) = match &app.session {
        Some(session) => {
            let wan = if session.dhcp_active {
                match &session.dhcp_range {
                    Some((first, last)) => {
                        let mut text = String::from_str("DHCP ");
                        let from = last_piece_of(first);
                        let to = last_piece_of(last);
                        text.append(from.as_str());
                        text.append("-");
                        text.append(to.as_str());
                        text
                    },
                    None => String::from_str("DHCP Active"),
                }
            } else {
                String::from_str("Manual")
            };
            (session.dhcp_active, session.natpmp_active, wan)
        },
        None => (false, false, String::from_str("Manual")),
    };
    let mut rows: Vec<ConfigRow> = Vec::new();
    rows.push(ConfigRow { label: "Gateway", value: String::from_str(gateway), active: false });
    rows.push(ConfigRow { label: "DNS", value: dns, active: false });
    rows.push(ConfigRow { label: "WAN", value: wan, active: dhcp_active });
    rows.push(
        ConfigRow {
            label: "NAT-PMP",
            value: String::from_str(
                if natpmp_active {
                    "Active"
                } else {
                    "Off"
                },
            ),
            active: natpmp_active,
        },
    );
    rows
}

} // verus!
