use tunshare::scan::{
    begins_with, find, has, insert_sorted, lines_of, place_of, second_word_of, sorted_unique,
    split, string_of, strip_prefixes, trim_chars, Place,
};
use tunshare::system::dns::{parse_default_dns, parse_dns_for_interface};
use tunshare::system::network::{parse_hardware_ports, parse_interfaces};
use tunshare::text::{chars_of, decimal_string, join_strings, trim};

fn chars(s: &str) -> Vec<char> {
    s.chars().collect()
}

#[test]
fn test_parse_dns_for_interface() {
    let output = r#"
DNS configuration

resolver #1
  nameserver[0] : 192.168.1.1
  if_index : 5 (en0)
  flags    : Request A records
  reach    : 0x00020002 (Reachable,Directly Reachable Address)

resolver #2
  nameserver[0] : 10.8.0.1
  if_index : 23 (utun3)
  flags    : Request A records
  reach    : 0x00000002 (Reachable)

resolver #3
  domain   : local
  options  : mdns
  timeout  : 5
  flags    : Request A records
"#;

    let dns = parse_dns_for_interface(output, "utun3");
    assert_eq!(dns, vec!["10.8.0.1"]);

    let dns_en0 = parse_dns_for_interface(output, "en0");
    assert_eq!(dns_en0, vec!["192.168.1.1"]);
}

#[test]
fn test_parse_interfaces() {
    let output = r#"lo0: flags=8049<UP,LOOPBACK,RUNNING,MULTICAST> mtu 16384
	options=1203<RXCSUM,TXCSUM,TXSTATUS,SW_TIMESTAMP>
	inet 127.0.0.1 netmask 0xff000000
en0: flags=8863<UP,BROADCAST,SMART,RUNNING,SIMPLEX,MULTICAST> mtu 1500
	ether 00:11:22:33:44:55
	inet 192.168.2.1 netmask 0xffffff00 broadcast 192.168.2.255
utun3: flags=8051<UP,POINTOPOINT,RUNNING,MULTICAST> mtu 1500
	inet 10.8.0.6 --> 10.8.0.5 netmask 0xffffffff
"#;

    let interfaces = parse_interfaces(output);
    assert_eq!(interfaces.len(), 3);

    let en0 = interfaces.iter().find(|i| i.name == "en0").unwrap();
    assert!(en0.is_up);
    assert_eq!(en0.ipv4_address, Some("192.168.2.1".to_string()));

    let utun3 = interfaces.iter().find(|i| i.name == "utun3").unwrap();
    assert!(utun3.is_up);
    assert_eq!(utun3.ipv4_address, Some("10.8.0.6".to_string()));
}

#[test]
fn interfaces_without_address_or_down() {
    let output = "en5: flags=8822<BROADCAST,SMART,SIMPLEX,MULTICAST> mtu 1500\n\
                  \tether aa:bb:cc:dd:ee:ff\n\
                  \tinet6 fe80::1%en5 prefixlen 64\n\
                  \tinet\n\
                  bridge0: flags=8863<UP,BROADCAST> mtu 1500\r\n\
                  \tinet 10.0.0.1 netmask 0xff000000\n\
                  \tinet 10.0.0.2 netmask 0xff000000";
    let interfaces = parse_interfaces(output);
    assert_eq!(interfaces.len(), 2);
    assert_eq!(interfaces[0].name, "en5");
    assert!(!interfaces[0].is_up);
    assert_eq!(interfaces[0].ipv4_address, None);
    assert_eq!(interfaces[0].description, None);
    assert_eq!(interfaces[1].name, "bridge0");
    assert!(interfaces[1].is_up);
    assert_eq!(interfaces[1].ipv4_address, Some("10.0.0.2".to_string()));
    assert_eq!(parse_interfaces(""), vec![]);
    assert_eq!(parse_interfaces("\tinet 1.2.3.4\nno header here\n"), vec![]);
}

#[test]
fn hardware_ports_pair_device_with_port() {
    let output = "\nHardware Port: Wi-Fi\nDevice: en0\nEthernet Address: aa:bb\n\n\
                  Hardware Port: Thunderbolt Bridge\nDevice: bridge0\n\
                  Device: orphan\n\
                  Hardware Port:Hardware Port:  USB 10/100 LAN \n  Device:   en7  \n";
    assert_eq!(
        parse_hardware_ports(output),
        vec![
            ("en0".to_string(), "Wi-Fi".to_string()),
            ("bridge0".to_string(), "Thunderbolt Bridge".to_string()),
            ("en7".to_string(), "USB 10/100 LAN".to_string()),
        ]
    );
    assert_eq!(parse_hardware_ports("Device: en0\n"), vec![]);
}

#[test]
fn dns_for_interface_sorts_and_removes_repetitions() {
    let output = "resolver #1\n  nameserver[0] : 9.9.9.9\n  nameserver[1] : 10.8.0.2\n  interface utun3\n\
                  resolver #2\n  nameserver[0] : 1.1.1.1\n  if_index : 5 (en0)\n\
                  resolver #3\n  nameserver[0] : 10.8.0.2\n  nameserver[1] : 10.8.0.10\n  nameserver[2] :   \n  if_index : 23 (utun3)\n";
    assert_eq!(
        parse_dns_for_interface(output, "utun3"),
        vec!["10.8.0.10", "10.8.0.2", "9.9.9.9"]
    );
    assert_eq!(parse_dns_for_interface(output, "en0"), vec!["1.1.1.1"]);
    assert_eq!(parse_dns_for_interface(output, "en1"), Vec::<String>::new());
    assert_eq!(parse_dns_for_interface("", "en0"), Vec::<String>::new());
}

#[test]
fn default_dns_is_the_first_resolver() {
    let output = "DNS configuration\n\nnameserver[9] : 7.7.7.7\nresolver #1\n  nameserver[0] : 192.168.1.1\n  nameserver[1] : 192.168.1.1\n  nameserver[2] : 8.8.8.8\n\
                  resolver #2\n  nameserver[0] : 10.8.0.1\nresolver #1\n  nameserver[0] : 4.4.4.4\n";
    assert_eq!(parse_default_dns(output), vec!["192.168.1.1", "192.168.1.1", "8.8.8.8"]);
    assert_eq!(parse_default_dns("resolver #2\n nameserver[0] : 1.1.1.1\n"), Vec::<String>::new());
    // A resolver whose number begins with 1 continues the first one.
    assert_eq!(
        parse_default_dns("resolver #1\n nameserver[0] : 1.1.1.1\nresolver #10\n nameserver[0] : 2.2.2.2\n"),
        vec!["1.1.1.1", "2.2.2.2"]
    );
}

#[test]
fn lines_follow_the_line_endings() {
    let lines = |s: &str| lines_of(&chars(s)).iter().map(string_of).collect::<Vec<_>>();
    assert_eq!(lines("foo\nbar\n\r\nbaz\r"), vec!["foo", "bar", "", "baz\r"]);
    assert_eq!(lines("foo\r\nbar\n\nbaz\r\n"), vec!["foo", "bar", "", "baz"]);
    assert_eq!(lines(""), Vec::<String>::new());
    assert_eq!(lines("\n"), vec![""]);
    assert_eq!(lines("a"), vec!["a"]);
    for sample in ["foo\nbar\n\r\nbaz\r", "a\r\r\nb", "\n\n", "x\n", "\r"] {
        assert_eq!(lines(sample), sample.lines().collect::<Vec<_>>());
    }
}

#[test]
fn trimming_agrees_with_the_standard_library() {
    for sample in [
        "", " ", "a", "  a b  ", "\t\n x\u{a0}\u{3000}", "\u{2003}y\u{2028}", "\u{200b}z\u{200b}",
        "\u{1680}\u{85}q", "\u{feff}k",
    ] {
        assert_eq!(trim(sample), sample.trim());
        assert_eq!(string_of(&trim_chars(&chars(sample))), sample.trim());
    }
}

#[test]
fn searching_and_prefixes() {
    let text = chars("if_index : 23 (utun3)");
    assert!(begins_with(&text, &chars("if_index")));
    assert!(!begins_with(&text, &chars("f_index")));
    assert!(begins_with(&text, &chars("")));
    assert!(!begins_with(&chars("ab"), &chars("abc")));
    assert_eq!(find(&text, &chars(" : ")), Some(8));
    assert_eq!(find(&text, &chars("")), Some(0));
    assert_eq!(find(&text, &chars("utun4")), None);
    assert_eq!(find(&chars("aaab"), &chars("ab")), Some(2));
    assert_eq!(find(&chars(""), &chars("")), Some(0));
    assert!(has(&text, &chars("(utun3)")));
    assert!(!has(&text, &chars("(utun)")));
    assert_eq!(string_of(&strip_prefixes(&chars("ababc"), &chars("ab"))), "c");
    assert_eq!(string_of(&strip_prefixes(&chars("abc"), &chars(""))), "abc");
    assert_eq!(string_of(&strip_prefixes(&chars("abab"), &chars("ab"))), "");
}

#[test]
fn second_word() {
    let word = |s: &str| second_word_of(&chars(s)).map(|w| string_of(&w));
    assert_eq!(word("inet 10.8.0.6 --> 10.8.0.5"), Some("10.8.0.6".to_string()));
    assert_eq!(word("  inet\t \t1.2.3.4"), Some("1.2.3.4".to_string()));
    assert_eq!(word("inet "), None);
    assert_eq!(word("inet"), None);
    assert_eq!(word(""), None);
    assert_eq!(word("   "), None);
}

#[test]
fn order_of_texts() {
    assert_eq!(place_of(&chars("a"), &chars("b")), Place::Before);
    assert_eq!(place_of(&chars("b"), &chars("a")), Place::After);
    assert_eq!(place_of(&chars("ab"), &chars("ab")), Place::Same);
    assert_eq!(place_of(&chars("a"), &chars("ab")), Place::Before);
    assert_eq!(place_of(&chars("ab"), &chars("a")), Place::After);
    assert_eq!(place_of(&chars(""), &chars("")), Place::Same);
    assert_eq!(place_of(&chars("10.8.0.10"), &chars("10.8.0.2")), Place::Before);

    let mut list = vec![chars("b"), chars("d")];
    insert_sorted(&mut list, chars("c"));
    insert_sorted(&mut list, chars("a"));
    insert_sorted(&mut list, chars("e"));
    insert_sorted(&mut list, chars("c"));
    assert_eq!(list, vec![chars("a"), chars("b"), chars("c"), chars("d"), chars("e")]);

    let mut expected = vec!["pear", "apple", "fig", "apple", "", "figs", "pear"];
    let sorted = sorted_unique(expected.iter().map(|s| chars(s)).collect());
    expected.sort();
    expected.dedup();
    assert_eq!(sorted.iter().map(string_of).collect::<Vec<_>>(), expected);
}

#[test]
fn numerals_and_joins() {
    assert_eq!(decimal_string(0), "0");
    assert_eq!(decimal_string(7), "7");
    assert_eq!(decimal_string(10), "10");
    assert_eq!(decimal_string(65535), "65535");
    assert_eq!(decimal_string(u64::MAX), "18446744073709551615");
    assert_eq!(join_strings(&vec![], ", "), "");
    assert_eq!(join_strings(&vec!["a".to_string()], ", "), "a");
    assert_eq!(
        join_strings(&vec!["a".to_string(), "".to_string(), "c".to_string()], "; "),
        "a; ; c"
    );
    assert_eq!(chars_of("héllo"), chars("héllo"));
}

#[test]
fn splitting_agrees_with_the_standard_library() {
    let pieces = |s: &str, sep: &str| {
        split(&chars(s), &chars(sep)).iter().map(string_of).collect::<Vec<_>>()
    };
    for (sample, sep) in [
        ("a  b  c", "  "),
        ("a   b", "  "),
        ("    ", "  "),
        ("", "  "),
        ("192.168.2.10", "."),
        ("..", "."),
        ("abc", "."),
        ("aaa", "aa"),
    ] {
        assert_eq!(pieces(sample, sep), sample.split(sep).collect::<Vec<_>>());
    }
    assert_eq!(pieces("abc", ""), vec!["abc"]);
}
