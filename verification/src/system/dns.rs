//! The DNS servers of an interface and of the system, as read from what
//! `scutil --dns` prints.

use crate::scan::{
    begins_with, contains, copy_chars, find, has, lines_of, sorted_unique, spec_find, spec_lines,
    starts_with, strictly_sorted, strings_of, trim_chars, views,
};
use crate::text::{chars_of, texts, trimmed};
use vstd::prelude::*;

verus! {

/// The name server that the trimmed line `line` gives: what follows the
/// first ` : ` on a line that begins with `nameserver[`, trimmed, if
/// anything is left.
pub open spec fn nameserver_of(line: Seq<char>) -> Option<Seq<char>> {
    if starts_with(line, "nameserver["@) {
        match spec_find(line, " : "@) {
            Some(at) => {
                let server = trimmed(line.skip(at + 3));
                if server.len() > 0 {
                    Some(server)
                } else {
                    None
                }
            },
            None => None,
        }
    } else {
        None
    }
}

/// Whether the trimmed line `line` says that its resolver belongs to
/// `interface`: an `if_index` line that holds the name in brackets, or an
/// `interface` line that holds the name.
pub open spec fn names_interface(line: Seq<char>, interface: Seq<char>) -> bool {
    ||| (starts_with(line, "if_index"@) && contains(line, "("@ + interface + ")"@))
    ||| (starts_with(line, "interface"@) && contains(line, interface))
}

/// Where the reading of the resolvers stands.
pub struct ResolverScan {
    /// The servers of the resolvers that are complete and belong to the
    /// interface.
    pub collected: Seq<Seq<char>>,
    /// Whether the resolver being read belongs to the interface.
    pub relevant: bool,
    /// The servers of the resolver being read.
    pub current: Seq<Seq<char>>,
}

/// The servers collected once the resolver being read is complete.
pub open spec fn closed(scan: ResolverScan) -> Seq<Seq<char>> {
    if scan.relevant {
        scan.collected + scan.current
    } else {
        scan.collected
    }
}

/// The reading of the first `n` lines for `interface`.
pub open spec fn scan_resolvers(lines: Seq<Seq<char>>, interface: Seq<char>, n: int) -> ResolverScan
    decreases n,
{
    if n <= 0 {
        ResolverScan {
            collected: Seq::<Seq<char>>::empty(),
            relevant: false,
            current: Seq::<Seq<char>>::empty(),
        }
    } else {
        let before = scan_resolvers(lines, interface, n - 1);
        let line = trimmed(lines[n - 1]);
        let start = if starts_with(line, "resolver #"@) {
            ResolverScan {
                collected: closed(before),
                relevant: false,
                current: Seq::<Seq<char>>::empty(),
            }
        } else {
            before
        };
        ResolverScan {
            collected: start.collected,
            relevant: start.relevant || names_interface(line, interface),
            current: match nameserver_of(line) {
                Some(server) => start.current.push(server),
                None => start.current,
            },
        }
    }
}

/// The servers of the resolvers of `interface` in `output`, as they
/// come, with repetitions.
pub open spec fn spec_interface_servers(output: Seq<char>, interface: Seq<char>) -> Seq<Seq<char>> {
    closed(scan_resolvers(spec_lines(output), interface, spec_lines(output).len() as int))
}

fn nameserver(line: &Vec<char>, prefix: &Vec<char>, separator: &Vec<char>) -> (server: Option<
    Vec<char>,
>)
    requires
        prefix@ == "nameserver["@,
        separator@ == " : "@,
    ensures
        match server {
            Some(s) => nameserver_of(line@) == Some(s@),
            None => nameserver_of(line@) is None,
        },
{
    proof {
        reveal_strlit(" : ");
    }
    if !begins_with(line, prefix) {
        return None;
    }
    match find(line, separator) {
        Some(at) => {
            let end = line.len();
            assert(separator@.len() == 3);
            let rest = copy_chars(line, at + separator.len(), end);
            assert(rest@ =~= line@.skip(at + 3));
            let server = trim_chars(&rest);
            if server.len() > 0 {
                Some(server)
            } else {
                None
            }
        },
        None => None,
    }
}

/// Reads from what `scutil --dns` prints the DNS servers of the resolvers
/// that belong to `interface`: in order, each once.
pub fn parse_dns_for_interface(output: &str, interface: &str) -> (servers: Vec<String>)
    ensures
        strictly_sorted(texts(servers@)),
        forall|server: Seq<char>|
            texts(servers@).contains(server) <==> spec_interface_servers(
                output@,
                interface@,
            ).contains(server),
{
    let chars = chars_of(output);
    let lines = lines_of(&chars);
    let resolver = chars_of("resolver #");
    let if_index = chars_of("if_index");
    let interface_word = chars_of("interface");
    let prefix = chars_of("nameserver[");
    let separator = chars_of(" : ");
    let name = chars_of(interface);
    let mut bracketed = chars_of("(");
    let mut k: usize = 0;
    while k < name.len()
        invariant
            k <= name.len(),
            bracketed@ == "("@ + name@.take(k as int),
        decreases name.len() - k,
    {
        bracketed.push(name[k]);
        assert(name@.take(k + 1) =~= name@.take(k as int).push(name@[k as int]));
        assert(bracketed@ =~= "("@ + name@.take(k + 1));
        k = k + 1;
    }
    proof {
        reveal_strlit(")");
        assert(name@.take(name@.len() as int) =~= name@);
    }
    bracketed.push(')');
    assert(bracketed@ =~= "("@ + interface@ + ")"@);

    let mut collected: Vec<Vec<char>> = Vec::new();
    let mut relevant = false;
    let mut current: Vec<Vec<char>> = Vec::new();
    let mut i: usize = 0;
    assert(views(collected@) =~= Seq::<Seq<char>>::empty());
    assert(views(current@) =~= Seq::<Seq<char>>::empty());
    while i < lines.len()
        invariant
            i <= lines.len(),
            views(lines@) == spec_lines(output@),
            resolver@ == "resolver #"@,
            if_index@ == "if_index"@,
            interface_word@ == "interface"@,
            prefix@ == "nameserver["@,
            separator@ == " : "@,
            name@ == interface@,
            bracketed@ == "("@ + interface@ + ")"@,
            views(collected@) == scan_resolvers(views(lines@), interface@, i as int).collected,
            relevant == scan_resolvers(views(lines@), interface@, i as int).relevant,
            views(current@) == scan_resolvers(views(lines@), interface@, i as int).current,
        decreases lines.len() - i,
    {
        assert(views(lines@)[i as int] == lines@[i as int]@);
        let line = trim_chars(&lines[i]);
        if begins_with(&line, &resolver) {
            if relevant {
                append_all(&mut collected, &current);
            }
            relevant = false;
            current = Vec::new();
            assert(views(current@) =~= Seq::<Seq<char>>::empty());
        }
        if begins_with(&line, &if_index) && has(&line, &bracketed) {
            relevant = true;
        }
        if begins_with(&line, &interface_word) && has(&line, &name) {
            relevant = true;
        }
        match nameserver(&line, &prefix, &separator) {
            Some(server) => {
                let ghost before = views(current@);
                current.push(server);
                assert(views(current@) =~= before.push(server@));
            },
            None => {},
        }
        i = i + 1;
    }
    if relevant {
        append_all(&mut collected, &current);
    }
    let list = sorted_unique(collected);
    strings_of(&list)
}

fn append_all(list: &mut Vec<Vec<char>>, more: &Vec<Vec<char>>)
    ensures
        views(final(list)@) == views(old(list)@) + views(more@),
{
    let mut i: usize = 0;
    assert(views(list@) =~= views(old(list)@) + views(more@).take(0));
    while i < more.len()
        invariant
            i <= more.len(),
            views(list@) == views(old(list)@) + views(more@).take(i as int),
        decreases more.len() - i,
    {
        let ghost before = views(list@);
        let item = copy_chars(&more[i], 0, more[i].len());
        assert(item@ =~= more@[i as int]@);
        list.push(item);
        assert(views(list@) =~= before.push(more@[i as int]@));
        assert(views(more@).take(i + 1) =~= views(more@).take(i as int).push(more@[i as int]@));
        i = i + 1;
    }
    assert(views(more@).take(more@.len() as int) =~= views(more@));
}

/// Where the reading of the first resolver stands.
pub struct DefaultScan {
    /// The servers found so far.
    pub servers: Seq<Seq<char>>,
    /// Whether the first resolver has begun.
    pub begun: bool,
    /// Whether the first resolver has ended.
    pub ended: bool,
}

/// The reading of the first `n` lines for the first resolver: it begins
/// at a line that starts with `resolver #1`, and ends at the next line
/// that starts with `resolver #` and does not start with `resolver #1`.
pub open spec fn scan_default(lines: Seq<Seq<char>>, n: int) -> DefaultScan
    decreases n,
{
    if n <= 0 {
        DefaultScan { servers: Seq::<Seq<char>>::empty(), begun: false, ended: false }
    } else {
        let before = scan_default(lines, n - 1);
        let line = trimmed(lines[n - 1]);
        if before.ended {
            before
        } else if !starts_with(line, "resolver #1"@) && starts_with(line, "resolver #"@)
            && before.begun {
            DefaultScan { ended: true, ..before }
        } else {
            let begun = before.begun || starts_with(line, "resolver #1"@);
            DefaultScan {
                servers: match nameserver_of(line) {
                    Some(server) if begun => before.servers.push(server),
                    _ => before.servers,
                },
                begun,
                ended: false,
            }
        }
    }
}

/// The servers of the first resolver in `output`, as they come.
pub open spec fn spec_default_servers(output: Seq<char>) -> Seq<Seq<char>> {
    scan_default(spec_lines(output), spec_lines(output).len() as int).servers
}

/// Reads from what `scutil --dns` prints the DNS servers of the first
/// resolver, which is the system's default, in the order of the listing.
pub fn parse_default_dns(output: &str) -> (servers: Vec<String>)
    ensures
        texts(servers@) == spec_default_servers(output@),
{
    let chars = chars_of(output);
    let lines = lines_of(&chars);
    let first = chars_of("resolver #1");
    let resolver = chars_of("resolver #");
    let prefix = chars_of("nameserver[");
    let separator = chars_of(" : ");
    let mut servers: Vec<Vec<char>> = Vec::new();
    let mut begun = false;
    let mut ended = false;
    let mut i: usize = 0;
    assert(views(servers@) =~= Seq::<Seq<char>>::empty());
    while i < lines.len()
        invariant
            i <= lines.len(),
            first@ == "resolver #1"@,
            resolver@ == "resolver #"@,
            prefix@ == "nameserver["@,
            separator@ == " : "@,
            views(servers@) == scan_default(views(lines@), i as int).servers,
            begun == scan_default(views(lines@), i as int).begun,
            ended == scan_default(views(lines@), i as int).ended,
        decreases lines.len() - i,
    {
        assert(views(lines@)[i as int] == lines@[i as int]@);
        if !ended {
            let line = trim_chars(&lines[i]);
            if begins_with(&line, &first) {
                begun = true;
            } else if begins_with(&line, &resolver) && begun {
                ended = true;
            }
            if !ended && begun {
                match nameserver(&line, &prefix, &separator) {
                    Some(server) => {
                        let ghost before = views(servers@);
                        servers.push(server);
                        assert(views(servers@) =~= before.push(server@));
                    },
                    None => {},
                }
            }
        }
        i = i + 1;
    }
    strings_of(&servers)
}

} // verus!
