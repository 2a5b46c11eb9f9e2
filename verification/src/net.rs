//! IPv4 addresses and socket addresses as plain values.

use crate::text::{
    all_digits, chars_of, decimal, digit_value, digits_end, digits_value, is_digit,
    lemma_canonical_is_decimal, lemma_decimal_is_canonical, lemma_digits_end, lemma_digits_end_is,
    lemma_digits_value_step, push_decimal,
};
use vstd::prelude::*;

verus! {

/// An IPv4 address, by its four octets in network order.
#[derive(Debug, Clone, Copy, PartialEq, Eq, Structural, Hash)]
pub struct Ipv4Addr {
    pub a: u8,
    pub b: u8,
    pub c: u8,
    pub d: u8,
}

impl Ipv4Addr {
    /// The address as one 32-bit number, first octet most significant.
    pub open spec fn bits(self) -> nat {
        (self.a as nat) * 16777216 + (self.b as nat) * 65536 + (self.c as nat) * 256 + (
        self.d as nat)
    }

    /// The four octets, first to last.
    pub open spec fn spec_octets(self) -> Seq<u8> {
        seq![self.a, self.b, self.c, self.d]
    }

    /// The dotted-decimal text of the address, as in `192.168.2.1`.
    pub open spec fn dotted(self) -> Seq<char> {
        decimal(self.a as nat) + seq!['.'] + decimal(self.b as nat) + seq!['.'] + decimal(
            self.c as nat,
        ) + seq!['.'] + decimal(self.d as nat)
    }

    /// Appends the dotted-decimal text of the address to `out`.
    pub fn push_dotted(&self, out: &mut String)
        ensures
            final(out)@ == old(out)@ + self.dotted(),
    {
        proof {
            reveal_strlit(".");
        }
        push_decimal(out, self.a as u64);
        out.append(".");
        push_decimal(out, self.b as u64);
        out.append(".");
        push_decimal(out, self.c as u64);
        out.append(".");
        push_decimal(out, self.d as u64);
        assert(out@ =~= old(out)@ + self.dotted());
    }

    /// The dotted-decimal text of the address.
    pub fn to_text(&self) -> (s: String)
        ensures
            s@ == self.dotted(),
    {
        let mut s = String::new();
        self.push_dotted(&mut s);
        assert(s@ =~= self.dotted());
        s
    }

    /// The address `a.b.c.d`.
    pub fn new(a: u8, b: u8, c: u8, d: u8) -> (ip: Ipv4Addr)
        ensures
            ip == (Ipv4Addr { a, b, c, d }),
    {
        Ipv4Addr { a, b, c, d }
    }

    /// The address `0.0.0.0`.
    pub fn unspecified() -> (ip: Ipv4Addr)
        ensures
            ip == (Ipv4Addr { a: 0, b: 0, c: 0, d: 0 }),
    {
        Ipv4Addr { a: 0, b: 0, c: 0, d: 0 }
    }

    /// The four octets, first to last.
    pub fn octets(&self) -> (o: [u8; 4])
        ensures
            o@ == self.spec_octets(),
    {
        let o = [self.a, self.b, self.c, self.d];
        assert(o@ =~= self.spec_octets());
        o
    }

    /// The address as one 32-bit number, first octet most significant.
    pub fn to_bits(&self) -> (n: u32)
        ensures
            n == self.bits(),
    {
        (self.a as u32) * 16777216 + (self.b as u32) * 65536 + (self.c as u32) * 256 + (
        self.d as u32)
    }
}

/// An IPv4 socket address.
#[derive(Debug, Clone, Copy, PartialEq, Eq, Structural, Hash)]
pub struct SocketAddrV4 {
    pub ip: Ipv4Addr,
    pub port: u16,
}

impl SocketAddrV4 {
    /// The socket address of `ip` and `port`.
    pub fn new(ip: Ipv4Addr, port: u16) -> (addr: SocketAddrV4)
        ensures
            addr == (SocketAddrV4 { ip, port }),
    {
        SocketAddrV4 { ip, port }
    }

    /// The address part.
    pub fn ip(&self) -> (ip: Ipv4Addr)
        ensures
            ip == self.ip,
    {
        self.ip
    }
}

/// Where a datagram came from. Of an IPv6 source only the family is kept:
/// such a source is never a LAN client.
#[derive(Debug, Clone, Copy, PartialEq, Eq, Structural, Hash)]
pub enum SocketAddr {
    V4(SocketAddrV4),
    V6,
}

impl SocketAddr {
    /// The IPv4 address of the source, if it has one.
    pub open spec fn spec_ipv4(self) -> Option<Ipv4Addr> {
        match self {
            SocketAddr::V4(v4) => Some(v4.ip),
            SocketAddr::V6 => None,
        }
    }

    /// The IPv4 address of the source, if it has one.
    pub fn ipv4(&self) -> (ip: Option<Ipv4Addr>)
        ensures
            ip == self.spec_ipv4(),
    {
        match self {
            SocketAddr::V4(v4) => Some(v4.ip),
            SocketAddr::V6 => None,
        }
    }
}

/// The octet that the run of digits at `pos` writes, with the position
/// after it: one to three digits, no leading zero, at most 255.
pub open spec fn spec_read_octet(s: Seq<char>, pos: int) -> Option<(u8, int)> {
    let end = digits_end(s, pos);
    let run = s.subrange(pos, end);
    if end > pos && (end - pos == 1 || run[0] != '0') && digits_value(run) <= 255 {
        Some((digits_value(run) as u8, end))
    } else {
        None
    }
}

/// The position after a dot at `pos`, if there is one.
pub open spec fn spec_read_dot(s: Seq<char>, pos: int) -> Option<int> {
    if 0 <= pos < s.len() && s[pos] == '.' {
        Some(pos + 1)
    } else {
        None
    }
}

/// The address that `s` writes in dotted-decimal form: four octets with a
/// dot between each two and nothing else.
pub open spec fn spec_parse_ipv4(s: Seq<char>) -> Option<Ipv4Addr> {
    match spec_read_octet(s, 0) {
        None => None,
        Some((a, end_a)) => match spec_read_dot(s, end_a) {
            None => None,
            Some(from_b) => match spec_read_octet(s, from_b) {
                None => None,
                Some((b, end_b)) => match spec_read_dot(s, end_b) {
                    None => None,
                    Some(from_c) => match spec_read_octet(s, from_c) {
                        None => None,
                        Some((c, end_c)) => match spec_read_dot(s, end_c) {
                            None => None,
                            Some(from_d) => match spec_read_octet(s, from_d) {
                                None => None,
                                Some((d, end_d)) => if end_d == s.len() {
                                    Some(Ipv4Addr { a, b, c, d })
                                } else {
                                    None
                                },
                            },
                        },
                    },
                },
            },
        },
    }
}

/// An octet that was read is written at that place by its decimal numeral.
pub proof fn lemma_read_octet_sound(s: Seq<char>, pos: int)
    requires
        0 <= pos <= s.len(),
    ensures
        spec_read_octet(s, pos) matches Some((x, end)) ==> pos < end <= s.len() && s.subrange(
            pos,
            end,
        ) == decimal(x as nat),
{
    lemma_digits_end(s, pos);
    let end = digits_end(s, pos);
    let run = s.subrange(pos, end);
    if spec_read_octet(s, pos) is Some {
        assert(all_digits(run));
        lemma_canonical_is_decimal(run);
    }
}

/// Where the decimal numeral of an octet stands at `pos` and no digit
/// follows it, that octet is read there.
pub proof fn lemma_read_octet_complete(s: Seq<char>, pos: int, x: u8, end: int)
    requires
        0 <= pos <= end <= s.len(),
        s.subrange(pos, end) == decimal(x as nat),
        end < s.len() ==> !is_digit(s[end]),
    ensures
        spec_read_octet(s, pos) == Some((x, end)),
{
    lemma_decimal_is_canonical(x as nat);
    let run = s.subrange(pos, end);
    assert forall|i: int| pos <= i < end implies is_digit(#[trigger] s[i]) by {
        assert(s[i] == run[i - pos]);
    }
    lemma_digits_end_is(s, pos, end);
}

/// What is accepted as an address is the dotted-decimal text of the
/// address that it is read as.
pub proof fn lemma_parse_ipv4_sound(s: Seq<char>)
    ensures
        spec_parse_ipv4(s) matches Some(ip) ==> s == ip.dotted(),
{
    if let Some(ip) = spec_parse_ipv4(s) {
        lemma_read_octet_sound(s, 0);
        let (a, end_a) = spec_read_octet(s, 0).unwrap();
        let from_b = spec_read_dot(s, end_a).unwrap();
        lemma_read_octet_sound(s, from_b);
        let (b, end_b) = spec_read_octet(s, from_b).unwrap();
        let from_c = spec_read_dot(s, end_b).unwrap();
        lemma_read_octet_sound(s, from_c);
        let (c, end_c) = spec_read_octet(s, from_c).unwrap();
        let from_d = spec_read_dot(s, end_c).unwrap();
        lemma_read_octet_sound(s, from_d);
        let (d, end_d) = spec_read_octet(s, from_d).unwrap();
        assert(s =~= s.subrange(0, end_a) + seq!['.'] + s.subrange(from_b, end_b) + seq!['.'] + s.subrange(
            from_c,
            end_c,
        ) + seq!['.'] + s.subrange(from_d, end_d));
    }
}

/// The dotted-decimal text of an address is accepted and read as that
/// address.
pub proof fn lemma_parse_ipv4_complete(ip: Ipv4Addr)
    ensures
        spec_parse_ipv4(ip.dotted()) == Some(ip),
{
    let s = ip.dotted();
    let da = decimal(ip.a as nat);
    let db = decimal(ip.b as nat);
    let dc = decimal(ip.c as nat);
    let dd = decimal(ip.d as nat);
    let end_a = da.len() as int;
    let from_b = end_a + 1;
    let end_b = from_b + db.len();
    let from_c = end_b + 1;
    let end_c = from_c + dc.len();
    let from_d = end_c + 1;
    let end_d = from_d + dd.len();
    assert(s.len() == end_d);
    assert(s.subrange(0, end_a) =~= da);
    assert(s.subrange(from_b, end_b) =~= db);
    assert(s.subrange(from_c, end_c) =~= dc);
    assert(s.subrange(from_d, end_d) =~= dd);
    assert(s[end_a] == '.');
    assert(s[end_b] == '.');
    assert(s[end_c] == '.');
    lemma_read_octet_complete(s, 0, ip.a, end_a);
    lemma_read_octet_complete(s, from_b, ip.b, end_b);
    lemma_read_octet_complete(s, from_c, ip.c, end_c);
    lemma_read_octet_complete(s, from_d, ip.d, end_d);
}

fn is_digit_char(c: char) -> (digit: bool)
    ensures
        digit == is_digit(c),
{
    c >= '0' && c <= '9'
}

fn digit_of(c: char) -> (d: u32)
    requires
        is_digit(c),
    ensures
        d == digit_value(c),
        d <= 9,
{
    c as u32 - '0' as u32
}

/// Reads the run of digits at `pos` and hands back where it ends and its
/// value, or `limit + 1` for any value above `limit`.
fn read_digits(v: &Vec<char>, pos: usize, limit: u32) -> (r: (usize, u32))
    requires
        pos <= v.len(),
        limit <= 100000,
    ensures
        r.0 == digits_end(v@, pos as int),
        pos <= r.0 <= v.len(),
        digits_value(v@.subrange(pos as int, r.0 as int)) <= limit ==> r.1 == digits_value(
            v@.subrange(pos as int, r.0 as int),
        ),
        digits_value(v@.subrange(pos as int, r.0 as int)) > limit ==> r.1 == limit + 1,
{
    let mut i: usize = pos;
    let mut value: u32 = 0;
    proof {
        assert(v@.subrange(pos as int, pos as int) =~= Seq::<char>::empty());
        lemma_digits_end(v@, pos as int);
    }
    while i < v.len() && is_digit_char(v[i])
        invariant
            pos <= i <= v.len(),
            limit <= 100000,
            digits_end(v@, pos as int) == digits_end(v@, i as int),
            digits_value(v@.subrange(pos as int, i as int)) <= limit ==> value == digits_value(
                v@.subrange(pos as int, i as int),
            ),
            digits_value(v@.subrange(pos as int, i as int)) > limit ==> value == limit + 1,
        decreases v.len() - i,
    {
        proof {
            lemma_digits_value_step(v@, pos as int, i as int);
        }
        if value <= limit {
            value = value * 10 + digit_of(v[i]);
            if value > limit {
                value = limit + 1;
            }
        }
        i = i + 1;
    }
    (i, value)
}

fn read_octet(v: &Vec<char>, pos: usize) -> (r: Option<(u8, usize)>)
    requires
        pos <= v.len(),
    ensures
        match r {
            Some((x, end)) => spec_read_octet(v@, pos as int) == Some((x, end as int)) && pos < end
                <= v.len(),
            None => spec_read_octet(v@, pos as int) is None,
        },
{
    let (end, value) = read_digits(v, pos, 255);
    if end == pos {
        return None;
    }
    if end - pos > 1 && v[pos] == '0' {
        return None;
    }
    if value > 255 {
        return None;
    }
    Some((value as u8, end))
}

fn read_dot(v: &Vec<char>, pos: usize) -> (r: Option<usize>)
    requires
        pos <= v.len(),
    ensures
        match r {
            Some(next) => spec_read_dot(v@, pos as int) == Some(next as int) && next <= v.len(),
            None => spec_read_dot(v@, pos as int) is None,
        },
{
    if pos < v.len() && v[pos] == '.' {
        Some(pos + 1)
    } else {
        None
    }
}

/// Reads an address in dotted-decimal form from `v`.
pub fn parse_ipv4_chars(v: &Vec<char>) -> (r: Option<Ipv4Addr>)
    ensures
        r == spec_parse_ipv4(v@),
        r matches Some(ip) ==> v@ == ip.dotted(),
        r is None ==> forall|ip: Ipv4Addr| v@ != #[trigger] ip.dotted(),
{
    proof {
        lemma_parse_ipv4_sound(v@);
        assert forall|ip: Ipv4Addr| v@ == #[trigger] ip.dotted() implies spec_parse_ipv4(v@)
            is Some by {
            lemma_parse_ipv4_complete(ip);
        }
    }
    let (a, end_a) = match read_octet(v, 0) {
        Some(x) => x,
        None => {
            return None;
        },
    };
    let from_b = match read_dot(v, end_a) {
        Some(x) => x,
        None => {
            return None;
        },
    };
    let (b, end_b) = match read_octet(v, from_b) {
        Some(x) => x,
        None => {
            return None;
        },
    };
    let from_c = match read_dot(v, end_b) {
        Some(x) => x,
        None => {
            return None;
        },
    };
    let (c, end_c) = match read_octet(v, from_c) {
        Some(x) => x,
        None => {
            return None;
        },
    };
    let from_d = match read_dot(v, end_c) {
        Some(x) => x,
        None => {
            return None;
        },
    };
    let (d, end_d) = match read_octet(v, from_d) {
        Some(x) => x,
        None => {
            return None;
        },
    };
    if end_d != v.len() {
        return None;
    }
    Some(Ipv4Addr { a, b, c, d })
}

impl Ipv4Addr {
    /// Reads an address from its dotted-decimal text. Exactly the texts
    /// that `dotted` gives are accepted: four decimal octets without
    /// leading zeros, with a dot between each two.
    pub fn parse(s: &str) -> (r: Option<Ipv4Addr>)
        ensures
            r == spec_parse_ipv4(s@),
            r matches Some(ip) ==> s@ == ip.dotted(),
            r is None ==> forall|ip: Ipv4Addr| s@ != #[trigger] ip.dotted(),
    {
        let chars = chars_of(s);
        parse_ipv4_chars(&chars)
    }
}

/// The prefix length that `s` writes: an optional `+`, then one or more
/// digits, leading zeros allowed, with a value of at most 32.
pub open spec fn spec_parse_prefix_len(s: Seq<char>) -> Option<u32> {
    let start: int = if s.len() > 0 && s[0] == '+' {
        1
    } else {
        0
    };
    if start < s.len() && digits_end(s, start) == s.len() && digits_value(
        s.subrange(start, s.len() as int),
    ) <= 32 {
        Some(digits_value(s.subrange(start, s.len() as int)) as u32)
    } else {
        None
    }
}

/// Reads a prefix length from `v`.
pub fn parse_prefix_len_chars(v: &Vec<char>) -> (r: Option<u32>)
    ensures
        r == spec_parse_prefix_len(v@),
        r matches Some(p) ==> p <= 32,
{
    let start: usize = if v.len() > 0 && v[0] == '+' {
        1
    } else {
        0
    };
    if start >= v.len() {
        return None;
    }
    let (end, value) = read_digits(v, start, 32);
    if end != v.len() || value > 32 {
        return None;
    }
    Some(value)
}

/// Where the first `/` from `pos` on stands in `s`, or the length of `s`.
pub open spec fn first_slash(s: Seq<char>, pos: int) -> int
    decreases s.len() - pos,
{
    if 0 <= pos < s.len() && s[pos] != '/' {
        first_slash(s, pos + 1)
    } else {
        pos
    }
}

/// A stretch without `/` that ends at a `/` ends at the first `/`.
pub proof fn lemma_first_slash_is(s: Seq<char>, pos: int, at: int)
    requires
        0 <= pos <= at < s.len(),
        forall|i: int| pos <= i < at ==> #[trigger] s[i] != '/',
        s[at] == '/',
    ensures
        first_slash(s, pos) == at,
    decreases at - pos,
{
    if pos < at {
        assert(s[pos] != '/');
        lemma_first_slash_is(s, pos + 1, at);
    }
}

/// Whether the numbers `x` and `y` agree in their first `prefix_len` bits.
pub open spec fn same_network(x: u32, y: u32, prefix_len: u32) -> bool {
    prefix_len <= 32 && (prefix_len == 0 || x >> ((32 - prefix_len) as u32) == y >> ((32
        - prefix_len) as u32))
}

/// A network in CIDR notation: the addresses that agree with `network` in
/// their first `prefix_len` bits.
#[derive(Debug, Clone, Copy, PartialEq, Eq, Structural)]
pub struct Cidr {
    pub network: Ipv4Addr,
    pub prefix_len: u32,
}

/// The network that `s` writes as `address/prefix-length`, split at the
/// first `/`.
pub open spec fn spec_parse_cidr(s: Seq<char>) -> Option<Cidr> {
    let at = first_slash(s, 0);
    if at >= s.len() {
        None
    } else {
        match (
            spec_parse_ipv4(s.subrange(0, at)),
            spec_parse_prefix_len(s.subrange(at + 1, s.len() as int)),
        ) {
            (Some(network), Some(prefix_len)) => Some(Cidr { network, prefix_len }),
            _ => None,
        }
    }
}

fn copy_range(v: &Vec<char>, from: usize, to: usize) -> (part: Vec<char>)
    requires
        from <= to <= v.len(),
    ensures
        part@ == v@.subrange(from as int, to as int),
{
    let mut part: Vec<char> = Vec::new();
    let mut i: usize = from;
    while i < to
        invariant
            from <= i <= to <= v.len(),
            part@ == v@.subrange(from as int, i as int),
        decreases to - i,
    {
        part.push(v[i]);
        assert(v@.subrange(from as int, i + 1) =~= v@.subrange(from as int, i as int).push(
            v@[i as int],
        ));
        i = i + 1;
    }
    part
}

impl Cidr {
    /// Whether `ip` lies in the network.
    pub open spec fn covers(self, ip: Ipv4Addr) -> bool {
        same_network(ip.bits() as u32, self.network.bits() as u32, self.prefix_len)
    }

    /// Reads a network from `address/prefix-length`.
    pub fn parse(s: &str) -> (r: Option<Cidr>)
        ensures
            r == spec_parse_cidr(s@),
            r matches Some(cidr) ==> cidr.prefix_len <= 32,
    {
        let chars = chars_of(s);
        let mut at: usize = 0;
        while at < chars.len() && chars[at] != '/'
            invariant
                at <= chars.len(),
                first_slash(chars@, 0) == first_slash(chars@, at as int),
            decreases chars.len() - at,
        {
            at = at + 1;
        }
        if at >= chars.len() {
            return None;
        }
        let address = copy_range(&chars, 0, at);
        let prefix = copy_range(&chars, at + 1, chars.len());
        let network = match parse_ipv4_chars(&address) {
            Some(ip) => ip,
            None => {
                return None;
            },
        };
        match parse_prefix_len_chars(&prefix) {
            Some(prefix_len) => Some(Cidr { network, prefix_len }),
            None => None,
        }
    }

    /// Whether `ip` lies in the network: its first `prefix_len` bits are
    /// those of the network address. A prefix length above 32 covers
    /// nothing, one of 0 everything.
    pub fn contains(&self, ip: Ipv4Addr) -> (inside: bool)
        ensures
            inside == self.covers(ip),
    {
        if self.prefix_len > 32 {
            return false;
        }
        let mask: u32 = if self.prefix_len == 0 {
            0u32
        } else {
            !0u32 << (32 - self.prefix_len)
        };
        let x = ip.to_bits();
        let y = self.network.to_bits();
        let p = self.prefix_len;
        assert(p != 0 ==> (((x & (!0u32 << ((32 - p) as u32))) == (y & (!0u32 << ((32 - p) as u32))))
            <==> (x >> ((32 - p) as u32) == y >> ((32 - p) as u32)))) by (bit_vector)
            requires
                p <= 32,
        ;
        assert((x & 0u32) == (y & 0u32)) by (bit_vector);
        (x & mask) == (y & mask)
    }
}

/// The text of the /24 network of `ip`: its first three octets, then
/// `.0/24`.
pub open spec fn slash24_text(ip: Ipv4Addr) -> Seq<char> {
    decimal(ip.a as nat) + seq!['.'] + decimal(ip.b as nat) + seq!['.'] + decimal(ip.c as nat)
        + seq!['.', '0', '/', '2', '4']
}

/// The /24 network of a gateway, written as text and read back, is the
/// network of the gateway's first three octets: it covers exactly the
/// addresses that share them, so that the neighbouring /24 is outside.
pub proof fn lemma_slash24_membership(gateway: Ipv4Addr, client: Ipv4Addr)
    ensures
        spec_parse_cidr(slash24_text(gateway)) == Some(
            Cidr {
                network: Ipv4Addr { a: gateway.a, b: gateway.b, c: gateway.c, d: 0 },
                prefix_len: 24,
            },
        ),
        spec_parse_cidr(slash24_text(gateway)).unwrap().covers(client) <==> (client.a == gateway.a
            && client.b == gateway.b && client.c == gateway.c),
{
    let network = Ipv4Addr { a: gateway.a, b: gateway.b, c: gateway.c, d: 0 };
    let s = slash24_text(gateway);
    let head = network.dotted();
    let at = head.len() as int;
    lemma_decimal_is_canonical(gateway.a as nat);
    lemma_decimal_is_canonical(gateway.b as nat);
    lemma_decimal_is_canonical(gateway.c as nat);
    lemma_decimal_is_canonical(0);
    assert(decimal(0) == seq!['0']);
    assert(s =~= head + seq!['/', '2', '4']);
    assert(s[at] == '/');
    assert forall|i: int| 0 <= i < at implies #[trigger] s[i] != '/' by {
        let da = decimal(gateway.a as nat);
        let db = decimal(gateway.b as nat);
        let dc = decimal(gateway.c as nat);
        if i < da.len() {
            assert(is_digit(da[i]));
        } else if i == da.len() {
        } else if i < da.len() + 1 + db.len() {
            assert(is_digit(db[i - da.len() - 1]));
        } else if i == da.len() + 1 + db.len() {
        } else if i < da.len() + 1 + db.len() + 1 + dc.len() {
            assert(is_digit(dc[i - da.len() - 1 - db.len() - 1]));
        } else {
        }
    }
    lemma_first_slash_is(s, 0, at);
    assert(s.subrange(0, at) =~= head);
    lemma_parse_ipv4_complete(network);
    let tail = s.subrange(at + 1, s.len() as int);
    assert(tail =~= seq!['2', '4']);
    assert(digits_end(tail, 0) == 2) by {
        lemma_digits_end_is(tail, 0, 2);
    }
    assert(tail.subrange(0, 2) =~= tail);
    assert(digits_value(tail) == 24) by {
        assert(tail.drop_last() =~= seq!['2']);
        assert(seq!['2'].drop_last() =~= Seq::<char>::empty());
        reveal_with_fuel(digits_value, 3);
    }
    let x = client.bits() as u32;
    let y = network.bits() as u32;
    assert((x >> 8u32 == y >> 8u32) <==> (x / 256 == y / 256)) by (bit_vector);
}

} // verus!
