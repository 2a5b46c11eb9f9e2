//! What is known of a network interface, and how it is read from what
//! `ifconfig` and `networksetup` print.

use crate::scan::{
    begins_with, contains, copy_chars, first_occurrence, find, has, lines_of, second_word, second_word_of,
    spec_lines, starts_with, string_of, strip_prefixes, trim_chars, views, without_prefixes,
};
use crate::net::{parse_ipv4_chars, spec_parse_ipv4, Ipv4Addr};
use crate::text::{chars_of, trimmed};
use vstd::prelude::*;

verus! {

/// Information about a network interface.
#[derive(Debug, PartialEq, Eq)]
pub struct InterfaceInfo {
    pub name: String,
    pub ipv4_address: Option<String>,
    pub description: Option<String>,
    pub is_up: bool,
}

/// A copy of an optional string.
pub fn clone_optional_string(text: &Option<String>) -> (copy: Option<String>)
    ensures
        copy == *text,
{
    match text {
        Some(s) => Some(s.clone()),
        None => None,
    }
}

impl Clone for InterfaceInfo {
    fn clone(&self) -> (copy: InterfaceInfo)
        ensures
            copy == *self,
    {
        InterfaceInfo {
            name: self.name.clone(),
            ipv4_address: clone_optional_string(&self.ipv4_address),
            description: clone_optional_string(&self.description),
            is_up: self.is_up,
        }
    }
}

/// What the listing of the interfaces says of one interface.
pub struct InterfaceText {
    pub name: Seq<char>,
    pub ipv4_address: Option<Seq<char>>,
    pub is_up: bool,
}

impl InterfaceInfo {
    /// The interface as texts, without its description.
    pub open spec fn text(self) -> InterfaceText {
        InterfaceText {
            name: self.name@,
            ipv4_address: match self.ipv4_address {
                Some(address) => Some(address@),
                None => None,
            },
            is_up: self.is_up,
        }
    }
}

/// The interfaces of a list as texts.
pub open spec fn interface_texts(list: Seq<InterfaceInfo>) -> Seq<InterfaceText> {
    Seq::new(list.len(), |i: int| list[i].text())
}

/// Whether `line` begins the entry of an interface: it starts in the
/// first column, with neither a tab nor a space, and holds a colon.
pub open spec fn is_header(line: Seq<char>) -> bool {
    &&& !(line.len() > 0 && (line[0] == '\t' || line[0] == ' '))
    &&& contains(line, seq![':'])
}

/// The interface that the header `line` begins: its name is what stands
/// before the first colon, and it is up if the line holds `<UP`.
pub open spec fn header_of(line: Seq<char>) -> InterfaceText {
    InterfaceText {
        name: line.subrange(0, first_occurrence(line, seq![':'], 0)),
        ipv4_address: None,
        is_up: contains(line, "<UP"@),
    }
}

/// The address that `line` gives: the second word of a line that,
/// trimmed, begins with `inet `.
pub open spec fn inet_address(line: Seq<char>) -> Option<Seq<char>> {
    if starts_with(trimmed(line), "inet "@) {
        second_word(trimmed(line))
    } else {
        None
    }
}

/// The reading of the first `n` lines: the interfaces whose entries are
/// complete, and the one whose entry is being read.
pub open spec fn scan_interfaces(lines: Seq<Seq<char>>, n: int) -> (
    Seq<InterfaceText>,
    Option<InterfaceText>,
)
    decreases n,
{
    if n <= 0 {
        (Seq::<InterfaceText>::empty(), None)
    } else {
        let (complete, current) = scan_interfaces(lines, n - 1);
        let line = lines[n - 1];
        if is_header(line) {
            (
                match current {
                    Some(interface) => complete.push(interface),
                    None => complete,
                },
                Some(header_of(line)),
            )
        } else {
            match (current, inet_address(line)) {
                (Some(interface), Some(address)) => (
                    complete,
                    Some(InterfaceText { ipv4_address: Some(address), ..interface }),
                ),
                _ => (complete, current),
            }
        }
    }
}

/// The interfaces that the listing `output` holds, in its order.
pub open spec fn spec_parse_interfaces(output: Seq<char>) -> Seq<InterfaceText> {
    let lines = spec_lines(output);
    let (complete, current) = scan_interfaces(lines, lines.len() as int);
    match current {
        Some(interface) => complete.push(interface),
        None => complete,
    }
}

/// Reads the interfaces from what `ifconfig -a` prints.
///
/// An entry begins with a header line in the first column and runs to the
/// next header. Of its other lines only those that give an IPv4 address
/// are read; the last one counts. No description is read.
pub fn parse_interfaces(output: &str) -> (interfaces: Vec<InterfaceInfo>)
    ensures
        interface_texts(interfaces@) == spec_parse_interfaces(output@),
        forall|i: int| 0 <= i < interfaces@.len() ==> interfaces@[i].description is None,
{
    let chars = chars_of(output);
    let lines = lines_of(&chars);
    let colon = chars_of(":");
    let up = chars_of("<UP");
    let inet = chars_of("inet ");
    proof {
        reveal_strlit(":");
        assert(colon@ =~= seq![':']);
    }
    let mut interfaces: Vec<InterfaceInfo> = Vec::new();
    let mut current: Option<InterfaceInfo> = None;
    let mut i: usize = 0;
    assert(interface_texts(interfaces@) =~= Seq::<InterfaceText>::empty());
    while i < lines.len()
        invariant
            i <= lines.len(),
            views(lines@) == spec_lines(output@),
            colon@ == seq![':'],
            up@ == "<UP"@,
            inet@ == "inet "@,
            interface_texts(interfaces@) == scan_interfaces(views(lines@), i as int).0,
            match current {
                Some(interface) => scan_interfaces(views(lines@), i as int).1 == Some(
                    interface.text(),
                ) && interface.description is None,
                None => scan_interfaces(views(lines@), i as int).1 is None,
            },
            forall|k: int| 0 <= k < interfaces@.len() ==> interfaces@[k].description is None,
        decreases lines.len() - i,
    {
        let line = &lines[i];
        assert(views(lines@)[i as int] == line@);
        let ghost complete = interface_texts(interfaces@);
        let indented = line.len() > 0 && (line[0] == '\t' || line[0] == ' ');
        let name_end = find(line, &colon);
        if !indented && name_end.is_some() {
            match current {
                Some(interface) => {
                    interfaces.push(interface);
                    assert(interface_texts(interfaces@) =~= complete.push(interface.text()));
                },
                None => {},
            }
            let name = copy_chars(line, 0, name_end.unwrap());
            current =
            Some(
                InterfaceInfo {
                    name: string_of(&name),
                    ipv4_address: None,
                    description: None,
                    is_up: has(line, &up),
                },
            );
        } else {
            match current {
                Some(interface) => {
                    let inner = trim_chars(line);
                    let word = if begins_with(&inner, &inet) {
                        second_word_of(&inner)
                    } else {
                        None
                    };
                    match word {
                        Some(address) => {
                            current =
                            Some(
                                InterfaceInfo {
                                    name: interface.name,
                                    ipv4_address: Some(string_of(&address)),
                                    description: None,
                                    is_up: interface.is_up,
                                },
                            );
                        },
                        None => {
                            current = Some(interface);
                        },
                    }
                },
                None => {
                    current = None;
                },
            }
        }
        i = i + 1;
    }
    match current {
        Some(interface) => {
            let ghost complete = interface_texts(interfaces@);
            interfaces.push(interface);
            assert(interface_texts(interfaces@) =~= complete.push(interface.text()));
        },
        None => {},
    }
    interfaces
}

/// The name of a hardware port that `line` gives: what follows
/// `Hardware Port:` on a line that, trimmed, begins with it.
pub open spec fn port_label(line: Seq<char>) -> Option<Seq<char>> {
    if starts_with(trimmed(line), "Hardware Port:"@) {
        Some(trimmed(without_prefixes(trimmed(line), "Hardware Port:"@)))
    } else {
        None
    }
}

/// The device that `line` gives: what follows `Device:` on a line that,
/// trimmed, begins with it.
pub open spec fn device_label(line: Seq<char>) -> Option<Seq<char>> {
    if starts_with(trimmed(line), "Device:"@) {
        Some(trimmed(without_prefixes(trimmed(line), "Device:"@)))
    } else {
        None
    }
}

/// The reading of the first `n` lines: the pairs of device and port that
/// are complete, and the port whose device is still to come.
pub open spec fn scan_ports(lines: Seq<Seq<char>>, n: int) -> (
    Seq<(Seq<char>, Seq<char>)>,
    Option<Seq<char>>,
)
    decreases n,
{
    if n <= 0 {
        (Seq::<(Seq<char>, Seq<char>)>::empty(), None)
    } else {
        let (pairs, port) = scan_ports(lines, n - 1);
        let line = lines[n - 1];
        match port_label(line) {
            Some(label) => (pairs, Some(label)),
            None => match (device_label(line), port) {
                (Some(device), Some(label)) => (pairs.push((device, label)), None),
                _ => (pairs, port),
            },
        }
    }
}

/// The pairs of device and hardware port that the listing `output`
/// holds, in its order.
pub open spec fn spec_parse_hardware_ports(output: Seq<char>) -> Seq<(Seq<char>, Seq<char>)> {
    scan_ports(spec_lines(output), spec_lines(output).len() as int).0
}

/// The texts of a list of pairs of strings.
pub open spec fn pair_texts(list: Seq<(String, String)>) -> Seq<(Seq<char>, Seq<char>)> {
    Seq::new(list.len(), |i: int| (list[i].0@, list[i].1@))
}

/// Reads the hardware ports from what `networksetup
/// -listallhardwareports` prints: for every device the name of its port,
/// in the order of the listing. A device line belongs to the port line
/// before it, and each port line serves one device.
pub fn parse_hardware_ports(output: &str) -> (ports: Vec<(String, String)>)
    ensures
        pair_texts(ports@) == spec_parse_hardware_ports(output@),
{
    let chars = chars_of(output);
    let lines = lines_of(&chars);
    let port_prefix = chars_of("Hardware Port:");
    let device_prefix = chars_of("Device:");
    let mut ports: Vec<(String, String)> = Vec::new();
    let mut current: Option<Vec<char>> = None;
    let mut i: usize = 0;
    assert(pair_texts(ports@) =~= Seq::<(Seq<char>, Seq<char>)>::empty());
    while i < lines.len()
        invariant
            i <= lines.len(),
            port_prefix@ == "Hardware Port:"@,
            device_prefix@ == "Device:"@,
            pair_texts(ports@) == scan_ports(views(lines@), i as int).0,
            match current {
                Some(label) => scan_ports(views(lines@), i as int).1 == Some(label@),
                None => scan_ports(views(lines@), i as int).1 is None,
            },
        decreases lines.len() - i,
    {
        let line = &lines[i];
        assert(views(lines@)[i as int] == line@);
        let inner = trim_chars(line);
        if begins_with(&inner, &port_prefix) {
            let rest = strip_prefixes(&inner, &port_prefix);
            current = Some(trim_chars(&rest));
        } else if begins_with(&inner, &device_prefix) {
            match current {
                Some(label) => {
                    let rest = strip_prefixes(&inner, &device_prefix);
                    let device = trim_chars(&rest);
                    let ghost pairs = pair_texts(ports@);
                    ports.push((string_of(&device), string_of(&label)));
                    assert(pair_texts(ports@) =~= pairs.push((device@, label@)));
                    current = None;
                },
                None => {
                    current = None;
                },
            }
        }
        i = i + 1;
    }
    ports
}

/// Whether an interface can be shared from or to: it is up, has an IPv4
/// address, and its name begins with `prefix`.
pub open spec fn is_candidate(interface: InterfaceInfo, prefix: Seq<char>) -> bool {
    starts_with(interface.name@, prefix) && interface.is_up && interface.ipv4_address is Some
}

/// The interfaces of `all` that can be shared from or to, with names
/// that begin with `prefix`, in their order.
pub open spec fn candidates(all: Seq<InterfaceInfo>, prefix: Seq<char>) -> Seq<InterfaceInfo> {
    all.filter(|interface: InterfaceInfo| is_candidate(interface, prefix))
}

fn select_candidates(all: &Vec<InterfaceInfo>, prefix: &str) -> (chosen: Vec<InterfaceInfo>)
    ensures
        chosen@ == candidates(all@, prefix@),
{
    let wanted = chars_of(prefix);
    let mut chosen: Vec<InterfaceInfo> = Vec::new();
    let mut i: usize = 0;
    let ghost test = |interface: InterfaceInfo| is_candidate(interface, prefix@);
    proof {
        reveal(Seq::filter);
        assert(all@.take(0) =~= Seq::<InterfaceInfo>::empty());
    }
    while i < all.len()
        invariant
            i <= all.len(),
            wanted@ == prefix@,
            test == (|interface: InterfaceInfo| is_candidate(interface, prefix@)),
            chosen@ == all@.take(i as int).filter(test),
        decreases all.len() - i,
    {
        let name = chars_of(all[i].name.as_str());
        proof {
            reveal(Seq::filter);
            assert(all@.take(i + 1).drop_last() =~= all@.take(i as int));
            assert(all@.take(i + 1).last() == all@[i as int]);
        }
        if begins_with(&name, &wanted) && all[i].is_up && all[i].ipv4_address.is_some() {
            chosen.push(all[i].clone());
        }
        i = i + 1;
    }
    assert(all@.take(all@.len() as int) =~= all@);
    chosen
}

/// The VPN interfaces among `all`: those named `utun...` that are up and
/// have an IPv4 address.
pub fn vpn_interfaces(all: &Vec<InterfaceInfo>) -> (chosen: Vec<InterfaceInfo>)
    ensures
        chosen@ == candidates(all@, "utun"@),
{
    select_candidates(all, "utun")
}

/// The hardware port of `device` in `ports`: that of the last pair for
/// the device.
pub open spec fn port_of(ports: Seq<(String, String)>, device: Seq<char>) -> Option<String>
    decreases ports.len(),
{
    if ports.len() == 0 {
        None
    } else if ports.last().0@ == device {
        Some(ports.last().1)
    } else {
        port_of(ports.drop_last(), device)
    }
}

fn find_port(ports: &Vec<(String, String)>, device: &String) -> (port: Option<String>)
    ensures
        port == port_of(ports@, device@),
{
    let mut i: usize = ports.len();
    assert(ports@.take(ports@.len() as int) =~= ports@);
    while i > 0
        invariant
            i <= ports.len(),
            port_of(ports@, device@) == port_of(ports@.take(i as int), device@),
        decreases i,
    {
        assert(ports@.take(i as int).drop_last() =~= ports@.take(i - 1));
        assert(ports@.take(i as int).last() == ports@[i - 1]);
        if ports[i - 1].0 == *device {
            return Some(ports[i - 1].1.clone());
        }
        i = i - 1;
    }
    None
}

/// The LAN interfaces among `all`: those named `en...` that are up and
/// have an IPv4 address, each described by its hardware port where
/// `ports` knows one.
pub fn lan_interfaces(all: &Vec<InterfaceInfo>, ports: &Vec<(String, String)>) -> (chosen: Vec<
    InterfaceInfo,
>)
    ensures
        chosen@.len() == candidates(all@, "en"@).len(),
        forall|i: int|
            0 <= i < chosen@.len() ==> {
                let found = #[trigger] candidates(all@, "en"@)[i];
                chosen@[i] == (InterfaceInfo {
                    description: match port_of(ports@, found.name@) {
                        Some(port) => Some(port),
                        None => found.description,
                    },
                    ..found
                })
            },
{
    let mut chosen = select_candidates(all, "en");
    let ghost found = chosen@;
    let mut i: usize = 0;
    while i < chosen.len()
        invariant
            i <= chosen.len(),
            chosen@.len() == found.len(),
            forall|k: int|
                0 <= k < i ==> chosen@[k] == (InterfaceInfo {
                    description: match port_of(ports@, found[k].name@) {
                        Some(port) => Some(port),
                        None => found[k].description,
                    },
                    ..found[k]
                }),
            forall|k: int| i <= k < chosen@.len() ==> chosen@[k] == found[k],
        decreases chosen.len() - i,
    {
        match find_port(ports, &chosen[i].name) {
            Some(port) => {
                let interface = chosen[i].clone();
                chosen.set(
                    i,
                    InterfaceInfo {
                        name: interface.name,
                        ipv4_address: interface.ipv4_address,
                        description: Some(port),
                        is_up: interface.is_up,
                    },
                );
            },
            None => {},
        }
        i = i + 1;
    }
    chosen
}

/// The reading of the first `n` lines for the address of one interface:
/// the first line that gives an address decides, whether or not what it
/// gives reads as an address.
pub open spec fn scan_address(lines: Seq<Seq<char>>, n: int) -> Option<Option<Ipv4Addr>>
    decreases n,
{
    if n <= 0 {
        None
    } else {
        match scan_address(lines, n - 1) {
            Some(decided) => Some(decided),
            None => match inet_address(lines[n - 1]) {
                Some(word) => Some(spec_parse_ipv4(word)),
                None => None,
            },
        }
    }
}

/// The IPv4 address in the listing `output` of one interface.
pub open spec fn spec_parse_interface_ip(output: Seq<char>) -> Option<Ipv4Addr> {
    match scan_address(spec_lines(output), spec_lines(output).len() as int) {
        Some(decided) => decided,
        None => None,
    }
}

/// Reads the IPv4 address of one interface from what `ifconfig` prints
/// for it.
pub fn parse_interface_ip(output: &str) -> (address: Option<Ipv4Addr>)
    ensures
        address == spec_parse_interface_ip(output@),
{
    let chars = chars_of(output);
    let lines = lines_of(&chars);
    let inet = chars_of("inet ");
    let mut i: usize = 0;
    while i < lines.len()
        invariant
            i <= lines.len(),
            inet@ == "inet "@,
            views(lines@) == spec_lines(output@),
            scan_address(views(lines@), i as int) is None,
        decreases lines.len() - i,
    {
        assert(views(lines@)[i as int] == lines@[i as int]@);
        let inner = trim_chars(&lines[i]);
        if begins_with(&inner, &inet) {
            match second_word_of(&inner) {
                Some(word) => {
                    let address = parse_ipv4_chars(&word);
                    proof {
                        assert(inet_address(views(lines@)[i as int]) == Some(word@));
                        assert(scan_address(views(lines@), i + 1) == Some(address));
                        lemma_scan_address_decided(views(lines@), i + 1, lines@.len() as int);
                    }
                    return address;
                },
                None => {},
            }
        }
        i = i + 1;
    }
    None
}

/// Once a line has decided the address, later lines change nothing.
pub proof fn lemma_scan_address_decided(lines: Seq<Seq<char>>, n: int, m: int)
    requires
        0 <= n <= m,
        scan_address(lines, n) is Some,
    ensures
        scan_address(lines, m) == scan_address(lines, n),
    decreases m - n,
{
    if n < m {
        lemma_scan_address_decided(lines, n, m - 1);
    }
}

} // verus!
