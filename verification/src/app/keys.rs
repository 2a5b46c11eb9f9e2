//! What a key press does to the application.
//!
//! While an operation is pending, only two keys act: `q` asks to quit and
//! Esc cancels the operation. Else the key goes to the screen that is
//! shown.

use crate::app::{
    as_seq, cancelled_is, discover_is, dns_preset, fetch_debug_is, refresh_is, spec_dns_preset_ip,
    start_sharing_is, stop_sharing_is, App, AppState, Command, DnsEditMode, Key, MenuItem,
    DNS_PRESET_COUNT,
};
use crate::net::{spec_parse_ipv4, Ipv4Addr};
use crate::system::network::InterfaceInfo;
use crate::text::{is_digit, pop_char, push_char, trim, trimmed};
use crate::ui::status::LogLevel;
use vstd::prelude::*;

verus! {

/// Whether `key` is the character `c`.
pub open spec fn is_char(key: Key, c: char) -> bool {
    key == Key::Char(c)
}

/// Whether `key` moves a selection up: the up arrow, or `k`.
pub open spec fn goes_up(key: Key) -> bool {
    key == Key::Up || is_char(key, 'k')
}

/// Whether `key` moves a selection down: the down arrow, or `j`.
pub open spec fn goes_down(key: Key) -> bool {
    key == Key::Down || is_char(key, 'j')
}

/// The index above `index`, or `index` itself at the top.
pub open spec fn moved_up(index: usize) -> usize {
    if index > 0 {
        (index - 1) as usize
    } else {
        index
    }
}

/// The index below `index` in a list of `count` entries, or `index`
/// itself at the bottom.
pub open spec fn moved_down(index: usize, count: nat) -> usize {
    if index + 1 < count {
        (index + 1) as usize
    } else {
        index
    }
}

/// The selection above `selected`.
pub open spec fn selection_up(selected: Option<usize>) -> Option<usize> {
    match selected {
        Some(index) => Some(moved_up(index)),
        None => None,
    }
}

/// The selection below `selected` in a list of `count` entries.
pub open spec fn selection_down(selected: Option<usize>, count: nat) -> Option<usize> {
    match selected {
        Some(index) => Some(moved_down(index, count)),
        None => None,
    }
}

/// The one command in `commands`, if it holds exactly one.
pub open spec fn the_command(commands: Seq<Command>) -> Option<Command> {
    if commands.len() == 1 {
        Some(commands[0])
    } else {
        None
    }
}

/// Whether `commands` holds at most one command.
pub open spec fn at_most_one(commands: Seq<Command>) -> bool {
    commands.len() <= 1
}

/// The text of an optional string: empty for none.
pub open spec fn text_of(text: Option<String>) -> Seq<char> {
    match text {
        Some(text) => text@,
        None => Seq::<char>::empty(),
    }
}

/// The entry of the DNS list that stands for `custom`: 0 is auto-detect,
/// 1 to 4 are the presets, 5 is the custom entry.
pub open spec fn dns_entry_of(custom: Option<String>) -> usize {
    match custom {
        None => 0,
        Some(dns) => if dns@ == spec_dns_preset_ip(0) {
            1
        } else if dns@ == spec_dns_preset_ip(1) {
            2
        } else if dns@ == spec_dns_preset_ip(2) {
            3
        } else if dns@ == spec_dns_preset_ip(3) {
            4
        } else {
            5
        },
    }
}

/// The address of a LAN interface, where its text reads as one.
pub open spec fn lan_address(info: InterfaceInfo) -> Option<Ipv4Addr> {
    match info.ipv4_address {
        Some(text) => spec_parse_ipv4(text@),
        None => None,
    }
}

/// Whether `post` and `command` are what toggling the debug panel makes
/// of `pre`: hiding it drops the debug info, showing it asks for new.
pub open spec fn toggle_debug_is(pre: App, post: App, command: Option<Command>) -> bool {
    if pre.show_debug {
        post == (App { show_debug: false, debug_info: None, ..pre }) && command is None
    } else {
        fetch_debug_is(App { show_debug: true, ..pre }, post, command)
    }
}

/// Whether `post` is what toggling the DHCP preference makes of `pre`:
/// nothing where the DHCP daemon is not installed.
pub open spec fn toggle_dhcp_is(pre: App, post: App) -> bool {
    if pre.dnsmasq_installed {
        (App { dhcp_enabled: !pre.dhcp_enabled, ..pre }).same_but_logs(post)
    } else {
        pre.same_but_logs(post)
    }
}

/// Whether `post` is what toggling the NAT-PMP preference makes of `pre`.
pub open spec fn toggle_natpmp_is(pre: App, post: App) -> bool {
    (App { natpmp_enabled: !pre.natpmp_enabled, ..pre }).same_but_logs(post)
}

/// Whether `post` and `commands` are what asking to quit makes of `pre`:
/// the quit flag is set, and active sharing is stopped first.
pub open spec fn quit_is(pre: App, post: App, commands: Seq<Command>) -> bool {
    if pre.sharing_active {
        stop_sharing_is(App { should_quit: true, ..pre }, post, commands)
    } else {
        post == (App { should_quit: true, ..pre }) && commands.len() == 0
    }
}

/// Whether `post` is `pre` with the DNS editor opened: the list is shown
/// with the entry of the DNS server in effect selected.
pub open spec fn dns_edit_started_is(pre: App, post: App) -> bool {
    &&& post == (App {
        dns_input_buffer: post.dns_input_buffer,
        dns_edit_mode: DnsEditMode::SelectingPreset,
        dns_preset_selected: dns_entry_of(pre.custom_dns),
        state: AppState::EditingDns,
        ..pre
    })
    &&& post.dns_input_buffer@ == text_of(pre.custom_dns)
}

/// Whether `post` and `commands` are what choosing `item` in the menu
/// makes of `pre`.
pub open spec fn menu_item_chosen_is(pre: App, item: MenuItem, post: App, commands: Seq<Command>) -> bool {
    match item {
        MenuItem::StartSharing => at_most_one(commands) && refresh_is(
            pre,
            post,
            the_command(commands),
        ),
        MenuItem::StopSharing => stop_sharing_is(pre, post, commands),
        MenuItem::ToggleDhcp => toggle_dhcp_is(pre, post) && commands.len() == 0,
        MenuItem::ToggleNatPmp => toggle_natpmp_is(pre, post) && commands.len() == 0,
        MenuItem::SetDns => dns_edit_started_is(pre, post) && commands.len() == 0,
        MenuItem::Quit => quit_is(pre, post, commands),
    }
}

/// Whether `post` and `commands` are what `key` makes of `pre` in the
/// main menu.
pub open spec fn menu_key_is(pre: App, key: Key, post: App, commands: Seq<Command>) -> bool {
    let items = pre.spec_menu_items();
    if goes_up(key) {
        post == (App { selected_menu_item: moved_up(pre.selected_menu_item), ..pre })
            && commands.len() == 0
    } else if goes_down(key) {
        post == (App {
            selected_menu_item: moved_down(pre.selected_menu_item, items.len()),
            ..pre
        }) && commands.len() == 0
    } else if key == Key::Enter {
        if pre.selected_menu_item < items.len() {
            menu_item_chosen_is(pre, items[pre.selected_menu_item as int], post, commands)
        } else {
            post == pre && commands.len() == 0
        }
    } else if is_char(key, '1') {
        menu_item_chosen_is(pre, items[0], post, commands)
    } else if is_char(key, '2') {
        if pre.sharing_active {
            quit_is(pre, post, commands)
        } else {
            post == pre && commands.len() == 0
        }
    } else if is_char(key, 'q') {
        quit_is(pre, post, commands)
    } else if is_char(key, 'd') && pre.sharing_active {
        at_most_one(commands) && toggle_debug_is(pre, post, the_command(commands))
    } else if is_char(key, 'l') {
        post == (App { logs_expanded: !pre.logs_expanded, ..pre }) && commands.len() == 0
    } else {
        post == pre && commands.len() == 0
    }
}

/// Whether `post` and `commands` are what `key` makes of `pre` while the
/// VPN interface is selected.
pub open spec fn vpn_select_key_is(pre: App, key: Key, post: App, commands: Seq<Command>) -> bool {
    if goes_up(key) {
        post == (App { selected_vpn: selection_up(pre.selected_vpn), ..pre }) && commands.len()
            == 0
    } else if goes_down(key) {
        post == (App {
            selected_vpn: selection_down(pre.selected_vpn, pre.vpn_interfaces@.len()),
            ..pre
        }) && commands.len() == 0
    } else if key == Key::Enter {
        match pre.selected_vpn {
            Some(index) if index < pre.vpn_interfaces@.len() => at_most_one(commands)
                && discover_is(
                pre,
                pre.vpn_interfaces@[index as int].name,
                post,
                the_command(commands),
            ),
            _ => post == pre && commands.len() == 0,
        }
    } else if key == Key::Esc || is_char(key, 'q') {
        (App { state: AppState::Menu, ..pre }).same_but_logs(post) && commands.len() == 0
    } else {
        post == pre && commands.len() == 0
    }
}

/// Whether `post` and `commands` are what `key` makes of `pre` while the
/// LAN interface is selected.
pub open spec fn lan_select_key_is(pre: App, key: Key, post: App, commands: Seq<Command>) -> bool {
    if goes_up(key) {
        post == (App { selected_lan: selection_up(pre.selected_lan), ..pre }) && commands.len()
            == 0
    } else if goes_down(key) {
        post == (App {
            selected_lan: selection_down(pre.selected_lan, pre.lan_interfaces@.len()),
            ..pre
        }) && commands.len() == 0
    } else if key == Key::Enter {
        match (pre.selected_vpn, pre.selected_lan) {
            (Some(vpn), Some(lan)) if vpn < pre.vpn_interfaces@.len() && lan
                < pre.lan_interfaces@.len() => at_most_one(commands) && start_sharing_is(
                pre,
                pre.vpn_interfaces@[vpn as int].name,
                pre.lan_interfaces@[lan as int].name,
                lan_address(pre.lan_interfaces@[lan as int]),
                post,
                the_command(commands),
            ),
            _ => post == pre && commands.len() == 0,
        }
    } else if key == Key::Esc || is_char(key, 'q') || key == Key::Backspace {
        (App { state: AppState::SelectingVpn, ..pre }).same_but_logs(post) && commands.len() == 0
    } else {
        post == pre && commands.len() == 0
    }
}

/// Whether `post` and `commands` are what `key` makes of `pre` while
/// sharing is shown as active.
pub open spec fn active_key_is(pre: App, key: Key, post: App, commands: Seq<Command>) -> bool {
    if is_char(key, 's') || key == Key::Enter {
        stop_sharing_is(pre, post, commands)
    } else if is_char(key, 'q') {
        stop_sharing_is(App { should_quit: true, ..pre }, post, commands)
    } else if is_char(key, 'd') {
        at_most_one(commands) && toggle_debug_is(pre, post, the_command(commands))
    } else if is_char(key, 'l') {
        post == (App { logs_expanded: !pre.logs_expanded, ..pre }) && commands.len() == 0
    } else if key == Key::Esc {
        commands.len() == 0 && if pre.show_debug {
            post == (App { show_debug: false, debug_info: None, ..pre })
        } else {
            post == (App { state: AppState::Menu, ..pre })
        }
    } else {
        post == pre && commands.len() == 0
    }
}

/// Whether `post` is what `key` makes of `pre` in the list of DNS
/// servers.
pub open spec fn dns_preset_key_is(pre: App, key: Key, post: App) -> bool {
    if goes_up(key) {
        post == (App { dns_preset_selected: moved_up(pre.dns_preset_selected), ..pre })
    } else if goes_down(key) {
        post == (App {
            dns_preset_selected: moved_down(
                pre.dns_preset_selected,
                (DNS_PRESET_COUNT + 2) as nat,
            ),
            ..pre
        })
    } else if key == Key::Enter {
        if pre.dns_preset_selected == 0 {
            (App { custom_dns: None, state: AppState::Menu, ..pre }).same_but_logs(post)
        } else if pre.dns_preset_selected <= DNS_PRESET_COUNT {
            &&& (App { custom_dns: post.custom_dns, state: AppState::Menu, ..pre }).same_but_logs(
                post,
            )
            &&& post.custom_dns matches Some(dns)
            &&& dns@ == spec_dns_preset_ip(pre.dns_preset_selected - 1)
        } else {
            &&& post == (App {
                dns_edit_mode: DnsEditMode::CustomInput,
                dns_input_buffer: post.dns_input_buffer,
                ..pre
            })
            &&& post.dns_input_buffer@ == text_of(pre.custom_dns)
        }
    } else if key == Key::Esc {
        &&& post == (App {
            dns_input_buffer: post.dns_input_buffer,
            state: AppState::Menu,
            ..pre
        })
        &&& post.dns_input_buffer@.len() == 0
    } else {
        post == pre
    }
}

/// Whether `c` may be typed into the DNS input: a digit, a dot, or a
/// colon.
pub open spec fn is_address_char(c: char) -> bool {
    is_digit(c) || c == '.' || c == ':'
}

/// Whether `post` is what `key` makes of `pre` in the DNS input, where
/// `input_is_address` says whether the input, trimmed, reads as an IP
/// address.
pub open spec fn dns_custom_key_is(pre: App, key: Key, input_is_address: bool, post: App) -> bool {
    match key {
        Key::Char(c) => if is_address_char(c) {
            &&& post == (App { dns_input_buffer: post.dns_input_buffer, ..pre })
            &&& post.dns_input_buffer@ == pre.dns_input_buffer@.push(c)
        } else {
            post == pre
        },
        Key::Backspace => {
            &&& post == (App { dns_input_buffer: post.dns_input_buffer, ..pre })
            &&& post.dns_input_buffer@ == if pre.dns_input_buffer@.len() > 0 {
                pre.dns_input_buffer@.drop_last()
            } else {
                pre.dns_input_buffer@
            }
        },
        Key::Enter => {
            let input = trimmed(pre.dns_input_buffer@);
            &&& (App {
                custom_dns: post.custom_dns,
                dns_input_buffer: post.dns_input_buffer,
                state: AppState::Menu,
                ..pre
            }).same_but_logs(post)
            &&& post.dns_input_buffer@.len() == 0
            &&& if input.len() == 0 {
                post.custom_dns is None
            } else if input_is_address {
                post.custom_dns matches Some(dns) && dns@ == input
            } else {
                post.custom_dns == pre.custom_dns
            }
        },
        Key::Esc => post == (App { dns_edit_mode: DnsEditMode::SelectingPreset, ..pre }),
        _ => post == pre,
    }
}

/// Whether `post` and `commands` are what `key` makes of `pre`.
///
/// While an operation is pending, `q` sets the quit flag, Esc cancels the
/// operation, and any other key does nothing. Else the key goes to the
/// screen of the state.
pub open spec fn key_handled_is(
    pre: App,
    key: Key,
    input_is_address: bool,
    post: App,
    commands: Seq<Command>,
) -> bool {
    if pre.pending_op is Some {
        commands.len() == 0 && if is_char(key, 'q') {
            post == (App { should_quit: true, ..pre })
        } else if key == Key::Esc {
            cancelled_is(pre, post)
        } else {
            post == pre
        }
    } else {
        match pre.state {
            AppState::Menu => menu_key_is(pre, key, post, commands),
            AppState::SelectingVpn => vpn_select_key_is(pre, key, post, commands),
            AppState::SelectingLan => lan_select_key_is(pre, key, post, commands),
            AppState::Active => active_key_is(pre, key, post, commands),
            AppState::EditingDns => commands.len() == 0 && match pre.dns_edit_mode {
                DnsEditMode::SelectingPreset => dns_preset_key_is(pre, key, post),
                DnsEditMode::CustomInput => dns_custom_key_is(pre, key, input_is_address, post),
            },
        }
    }
}

fn key_is_char(key: Key, c: char) -> (is: bool)
    ensures
        is == is_char(key, c),
{
    match key {
        Key::Char(typed) => typed == c,
        _ => false,
    }
}

fn key_goes_up(key: Key) -> (up: bool)
    ensures
        up == goes_up(key),
{
    match key {
        Key::Up => true,
        Key::Char(typed) => typed == 'k',
        _ => false,
    }
}

fn key_goes_down(key: Key) -> (down: bool)
    ensures
        down == goes_down(key),
{
    match key {
        Key::Down => true,
        Key::Char(typed) => typed == 'j',
        _ => false,
    }
}

fn index_up(index: usize) -> (up: usize)
    ensures
        up == moved_up(index),
{
    if index > 0 {
        index - 1
    } else {
        index
    }
}

fn index_down(index: usize, count: usize) -> (down: usize)
    ensures
        down == moved_down(index, count as nat),
{
    if count > 0 && index < count - 1 {
        index + 1
    } else {
        index
    }
}

fn one(command: Option<Command>) -> (commands: Vec<Command>)
    ensures
        commands@ == as_seq(command),
        at_most_one(commands@),
        the_command(commands@) == command,
{
    let mut commands: Vec<Command> = Vec::new();
    match command {
        Some(command) => {
            commands.push(command);
        },
        None => {},
    }
    commands
}

fn text_or_empty(text: &Option<String>) -> (copy: String)
    ensures
        copy@ == text_of(*text),
{
    match text {
        Some(text) => text.clone(),
        None => String::new(),
    }
}

fn same_text(a: &str, b: &String) -> (same: bool)
    ensures
        same == (a@ == b@),
{
    String::from_str(a) == *b
}

impl App {
    /// Shows or hides the debug panel.
    pub fn toggle_debug(&mut self) -> (command: Option<Command>)
        ensures
            toggle_debug_is(*old(self), *final(self), command),
            old(self).wf() ==> final(self).wf(),
    {
        self.show_debug = !self.show_debug;
        if self.show_debug {
            self.fetch_debug_info_async()
        } else {
            self.debug_info = None;
            None
        }
    }

    /// Toggles the preference for DHCP.
    pub fn toggle_dhcp_preference(&mut self)
        ensures
            toggle_dhcp_is(*old(self), *final(self)),
            old(self).wf() ==> final(self).wf(),
    {
        if !self.dnsmasq_installed {
            self.log_warning("Cannot toggle DHCP: dnsmasq not installed");
            return ;
        }
        self.dhcp_enabled = !self.dhcp_enabled;
        if self.dhcp_enabled {
            self.log_info("DHCP server enabled");
        } else {
            self.log_info("DHCP server disabled (manual router config required)");
        }
    }

    /// Toggles the preference for NAT-PMP.
    pub fn toggle_natpmp_preference(&mut self)
        ensures
            toggle_natpmp_is(*old(self), *final(self)),
            old(self).wf() ==> final(self).wf(),
    {
        self.natpmp_enabled = !self.natpmp_enabled;
        if self.natpmp_enabled {
            self.log_info("NAT-PMP server enabled");
        } else {
            self.log_info("NAT-PMP server disabled");
        }
    }

    /// Begins the selection of the interfaces, by detecting them.
    pub fn start_interface_selection(&mut self) -> (command: Option<Command>)
        ensures
            refresh_is(*old(self), *final(self), command),
            old(self).wf() ==> final(self).wf(),
    {
        self.refresh_interfaces_async()
    }

    /// Asks to quit; active sharing is stopped first.
    pub fn quit(&mut self) -> (commands: Vec<Command>)
        ensures
            quit_is(*old(self), *final(self), commands@),
            old(self).wf() ==> final(self).wf(),
    {
        self.should_quit = true;
        if self.sharing_active {
            self.stop_sharing_async()
        } else {
            Vec::new()
        }
    }

    /// The number of entries in the DNS list: auto-detect, the presets,
    /// and the custom entry.
    pub fn dns_preset_count(&self) -> (count: usize)
        ensures
            count == DNS_PRESET_COUNT + 2,
    {
        1 + DNS_PRESET_COUNT + 1
    }

    /// Opens the DNS editor.
    pub fn start_dns_edit(&mut self)
        ensures
            dns_edit_started_is(*old(self), *final(self)),
            old(self).wf() ==> final(self).wf(),
    {
        self.dns_input_buffer = text_or_empty(&self.custom_dns);
        self.dns_edit_mode = DnsEditMode::SelectingPreset;
        self.dns_preset_selected =
        match &self.custom_dns {
            None => 0,
            Some(dns) => {
                if same_text(dns_preset(0).ip, dns) {
                    1
                } else if same_text(dns_preset(1).ip, dns) {
                    2
                } else if same_text(dns_preset(2).ip, dns) {
                    3
                } else if same_text(dns_preset(3).ip, dns) {
                    4
                } else {
                    DNS_PRESET_COUNT + 1
                }
            },
        };
        self.state = AppState::EditingDns;
    }

    fn choose_menu_item(&mut self, item: MenuItem) -> (commands: Vec<Command>)
        ensures
            menu_item_chosen_is(*old(self), item, *final(self), commands@),
            old(self).wf() ==> final(self).wf(),
    {
        match item {
            MenuItem::StartSharing => one(self.start_interface_selection()),
            MenuItem::StopSharing => self.stop_sharing_async(),
            MenuItem::ToggleDhcp => {
                self.toggle_dhcp_preference();
                Vec::new()
            },
            MenuItem::ToggleNatPmp => {
                self.toggle_natpmp_preference();
                Vec::new()
            },
            MenuItem::SetDns => {
                self.start_dns_edit();
                Vec::new()
            },
            MenuItem::Quit => self.quit(),
        }
    }

    /// Handles a key in the main menu.
    pub fn handle_menu_key(&mut self, key: Key) -> (commands: Vec<Command>)
        ensures
            menu_key_is(*old(self), key, *final(self), commands@),
            old(self).wf() ==> final(self).wf(),
    {
        let items = self.menu_items();
        if key_goes_up(key) {
            self.selected_menu_item = index_up(self.selected_menu_item);
            Vec::new()
        } else if key_goes_down(key) {
            self.selected_menu_item = index_down(self.selected_menu_item, items.len());
            Vec::new()
        } else if key == Key::Enter {
            if self.selected_menu_item < items.len() {
                self.choose_menu_item(items[self.selected_menu_item])
            } else {
                Vec::new()
            }
        } else if key_is_char(key, '1') {
            self.choose_menu_item(items[0])
        } else if key_is_char(key, '2') {
            if self.sharing_active {
                self.quit()
            } else {
                Vec::new()
            }
        } else if key_is_char(key, 'q') {
            self.quit()
        } else if key_is_char(key, 'd') && self.sharing_active {
            one(self.toggle_debug())
        } else if key_is_char(key, 'l') {
            self.logs_expanded = !self.logs_expanded;
            Vec::new()
        } else {
            Vec::new()
        }
    }

    /// Handles a key while the VPN interface is selected.
    pub fn handle_vpn_select_key(&mut self, key: Key) -> (commands: Vec<Command>)
        ensures
            vpn_select_key_is(*old(self), key, *final(self), commands@),
            old(self).wf() ==> final(self).wf(),
    {
        if key_goes_up(key) {
            self.selected_vpn =
            match self.selected_vpn {
                Some(index) => Some(index_up(index)),
                None => None,
            };
            Vec::new()
        } else if key_goes_down(key) {
            self.selected_vpn =
            match self.selected_vpn {
                Some(index) => Some(index_down(index, self.vpn_interfaces.len())),
                None => None,
            };
            Vec::new()
        } else if key == Key::Enter {
            match self.selected_vpn {
                Some(index) => {
                    if index < self.vpn_interfaces.len() {
                        let name = self.vpn_interfaces[index].name.clone();
                        one(self.discover_dns_async(name))
                    } else {
                        Vec::new()
                    }
                },
                None => Vec::new(),
            }
        } else if key == Key::Esc || key_is_char(key, 'q') {
            self.state = AppState::Menu;
            self.log_info("Cancelled interface selection");
            Vec::new()
        } else {
            Vec::new()
        }
    }

    /// Handles a key while the LAN interface is selected.
    pub fn handle_lan_select_key(&mut self, key: Key) -> (commands: Vec<Command>)
        ensures
            lan_select_key_is(*old(self), key, *final(self), commands@),
            old(self).wf() ==> final(self).wf(),
    {
        if key_goes_up(key) {
            self.selected_lan =
            match self.selected_lan {
                Some(index) => Some(index_up(index)),
                None => None,
            };
            Vec::new()
        } else if key_goes_down(key) {
            self.selected_lan =
            match self.selected_lan {
                Some(index) => Some(index_down(index, self.lan_interfaces.len())),
                None => None,
            };
            Vec::new()
        } else if key == Key::Enter {
            match (self.selected_vpn, self.selected_lan) {
                (Some(vpn), Some(lan)) => {
                    if vpn < self.vpn_interfaces.len() && lan < self.lan_interfaces.len() {
                        let vpn_name = self.vpn_interfaces[vpn].name.clone();
                        let lan_name = self.lan_interfaces[lan].name.clone();
                        let lan_ip = match &self.lan_interfaces[lan].ipv4_address {
                            Some(text) => Ipv4Addr::parse(text.as_str()),
                            None => None,
                        };
                        one(self.start_sharing_async(vpn_name, lan_name, lan_ip))
                    } else {
                        Vec::new()
                    }
                },
                _ => Vec::new(),
            }
        } else if key == Key::Esc || key_is_char(key, 'q') || key == Key::Backspace {
            self.state = AppState::SelectingVpn;
            self.log_info("Back to VPN selection");
            Vec::new()
        } else {
            Vec::new()
        }
    }

    /// Handles a key while sharing is shown as active.
    pub fn handle_active_key(&mut self, key: Key) -> (commands: Vec<Command>)
        ensures
            active_key_is(*old(self), key, *final(self), commands@),
            old(self).wf() ==> final(self).wf(),
    {
        if key_is_char(key, 's') || key == Key::Enter {
            self.stop_sharing_async()
        } else if key_is_char(key, 'q') {
            self.should_quit = true;
            self.stop_sharing_async()
        } else if key_is_char(key, 'd') {
            one(self.toggle_debug())
        } else if key_is_char(key, 'l') {
            self.logs_expanded = !self.logs_expanded;
            Vec::new()
        } else if key == Key::Esc {
            if self.show_debug {
                self.show_debug = false;
                self.debug_info = None;
            } else {
                self.state = AppState::Menu;
            }
            Vec::new()
        } else {
            Vec::new()
        }
    }

    /// Handles a key in the list of DNS servers.
    pub fn handle_dns_preset_key(&mut self, key: Key)
        ensures
            dns_preset_key_is(*old(self), key, *final(self)),
            old(self).wf() ==> final(self).wf(),
    {
        let count = self.dns_preset_count();
        if key_goes_up(key) {
            self.dns_preset_selected = index_up(self.dns_preset_selected);
        } else if key_goes_down(key) {
            self.dns_preset_selected = index_down(self.dns_preset_selected, count);
        } else if key == Key::Enter {
            let index = self.dns_preset_selected;
            if index == 0 {
                self.custom_dns = None;
                self.log_info("DNS reset to auto-detect");
                self.state = AppState::Menu;
            } else if index <= DNS_PRESET_COUNT {
                let preset = dns_preset(index - 1);
                self.custom_dns = Some(String::from_str(preset.ip));
                let mut text = App::with_detail("DNS set to ", preset.ip);
                text.append(" (");
                text.append(preset.name);
                text.append(")");
                self.log(LogLevel::Success, text);
                self.state = AppState::Menu;
            } else {
                self.dns_edit_mode = DnsEditMode::CustomInput;
                self.dns_input_buffer = text_or_empty(&self.custom_dns);
            }
        } else if key == Key::Esc {
            self.dns_input_buffer = String::new();
            self.state = AppState::Menu;
        }
    }

    /// Handles a key in the DNS input. `input_is_address` says whether
    /// the input, trimmed, reads as an IP address.
    pub fn handle_dns_custom_input_key(&mut self, key: Key, input_is_address: bool)
        ensures
            dns_custom_key_is(*old(self), key, input_is_address, *final(self)),
            old(self).wf() ==> final(self).wf(),
    {
        match key {
            Key::Char(c) => {
                if (c >= '0' && c <= '9') || c == '.' || c == ':' {
                    push_char(&mut self.dns_input_buffer, c);
                }
            },
            Key::Backspace => {
                pop_char(&mut self.dns_input_buffer);
            },
            Key::Enter => {
                let input = String::from_str(trim(self.dns_input_buffer.as_str()));
                if input.as_str().unicode_len() == 0 {
                    self.custom_dns = None;
                    self.log_info("DNS reset to auto-detect");
                } else if input_is_address {
                    let text = App::with_detail("Custom DNS set to ", input.as_str());
                    self.custom_dns = Some(input);
                    self.log(LogLevel::Success, text);
                } else {
                    let text = App::with_detail("Invalid IP address: ", input.as_str());
                    self.log(LogLevel::Warning, text);
                }
                self.dns_input_buffer = String::new();
                self.state = AppState::Menu;
            },
            Key::Esc => {
                self.dns_edit_mode = DnsEditMode::SelectingPreset;
            },
            _ => {},
        }
    }

    /// Handles a key in the DNS editor.
    pub fn handle_dns_edit_key(&mut self, key: Key, input_is_address: bool)
        ensures
            match old(self).dns_edit_mode {
                DnsEditMode::SelectingPreset => dns_preset_key_is(*old(self), key, *final(self)),
                DnsEditMode::CustomInput => dns_custom_key_is(
                    *old(self),
                    key,
                    input_is_address,
                    *final(self),
                ),
            },
            old(self).wf() ==> final(self).wf(),
    {
        match self.dns_edit_mode {
            DnsEditMode::SelectingPreset => self.handle_dns_preset_key(key),
            DnsEditMode::CustomInput => self.handle_dns_custom_input_key(key, input_is_address),
        }
    }

    /// Handles a key press and says what to run in the background, in
    /// order. `input_is_address` says whether the DNS input buffer,
    /// trimmed, reads as an IP address; it matters only to Enter in the
    /// DNS input.
    pub fn handle_key(&mut self, key: Key, input_is_address: bool) -> (commands: Vec<Command>)
        ensures
            key_handled_is(*old(self), key, input_is_address, *final(self), commands@),
            old(self).wf() ==> final(self).wf(),
    {
        if self.pending_op.is_some() {
            if key_is_char(key, 'q') {
                self.should_quit = true;
            } else if key == Key::Esc {
                self.cancel_pending_op();
            }
            return Vec::new();
        }
        match self.state {
            AppState::Menu => self.handle_menu_key(key),
            AppState::SelectingVpn => self.handle_vpn_select_key(key),
            AppState::SelectingLan => self.handle_lan_select_key(key),
            AppState::Active => self.handle_active_key(key),
            AppState::EditingDns => {
                self.handle_dns_edit_key(key, input_is_address);
                Vec::new()
            },
        }
    }

    /// The help line of the current state.
    pub open spec fn spec_help_text(self) -> Seq<char> {
        if self.pending_op is Some {
            "Esc: Cancel  q: Force quit"@
        } else {
            match self.state {
                AppState::Menu => if self.sharing_active {
                    "↑/↓: Navigate  Enter: Select  d: Debug  l: Logs  q: Quit"@
                } else {
                    "↑/↓: Navigate  Enter: Select  l: Logs  q: Quit"@
                },
                AppState::SelectingVpn => "↑/↓: Navigate  Enter: Select  Esc: Cancel"@,
                AppState::SelectingLan => "↑/↓: Navigate  Enter: Select  ←: Back  Esc: Cancel"@,
                AppState::Active => if self.show_debug {
                    "d: Hide debug  s: Stop  l: Logs  q: Quit"@
                } else {
                    "s: Stop  d: Debug  l: Logs  q: Quit"@
                },
                AppState::EditingDns => match self.dns_edit_mode {
                    DnsEditMode::SelectingPreset => "↑/↓: Navigate  Enter: Select  Esc: Cancel"@,
                    DnsEditMode::CustomInput => "Enter: Save  Esc: Back  (empty = auto-detect)"@,
                },
            }
        }
    }

    /// The help line of the current state.
    pub fn help_text(&self) -> (text: &'static str)
        ensures
            text@ == self.spec_help_text(),
    {
        if self.pending_op.is_some() {
            return "Esc: Cancel  q: Force quit";
        }
        match self.state {
            AppState::Menu => if self.sharing_active {
                "↑/↓: Navigate  Enter: Select  d: Debug  l: Logs  q: Quit"
            } else {
                "↑/↓: Navigate  Enter: Select  l: Logs  q: Quit"
            },
            AppState::SelectingVpn => "↑/↓: Navigate  Enter: Select  Esc: Cancel",
            AppState::SelectingLan => "↑/↓: Navigate  Enter: Select  ←: Back  Esc: Cancel",
            AppState::Active => if self.show_debug {
                "d: Hide debug  s: Stop  l: Logs  q: Quit"
            } else {
                "s: Stop  d: Debug  l: Logs  q: Quit"
            },
            AppState::EditingDns => match self.dns_edit_mode {
                DnsEditMode::SelectingPreset => "↑/↓: Navigate  Enter: Select  Esc: Cancel",
                DnsEditMode::CustomInput => "Enter: Save  Esc: Back  (empty = auto-detect)",
            },
        }
    }
}

/// While an operation is pending no key starts another: whatever the key,
/// no command comes back and the pending marker is either as it was or
/// cleared by Esc.
pub proof fn lemma_pending_refuses_new_operations(
    pre: App,
    key: Key,
    input_is_address: bool,
    post: App,
    commands: Seq<Command>,
)
    requires
        pre.pending_op is Some,
        key_handled_is(pre, key, input_is_address, post, commands),
    ensures
        commands.len() == 0,
        post.pending_op == pre.pending_op || (key == Key::Esc && post.pending_op is None),
        post.session == pre.session,
        post.sharing_active == pre.sharing_active,
{
}

} // verus!
