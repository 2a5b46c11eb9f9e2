//! NAT-PMP (RFC 6886): the wire format, the handling of one request against
//! the mapping table, and the server that owns the table.
//!
//! Nothing here touches a socket or the packet filter. A request comes in as
//! bytes with its source; what goes out is the reply, as bytes, and what has
//! to be done to the packet filter's anchor.

use crate::error::TunshareError;
use crate::net::{
    lemma_slash24_membership, slash24_text, spec_parse_cidr, Cidr, Ipv4Addr, SocketAddr,
};
use crate::text::{decimal, push_decimal};
use crate::system::anchor::{anchor_update, mirrors, AnchorUpdate};
use crate::system::mapping::{
    lowest_free_from, port_key, without, Mapping, MappingKey, MappingTable, Protocol, Selector, NANOS_PER_SEC,
};
use vstd::prelude::*;

verus! {

/// The UDP port on which the server listens.
pub const NATPMP_PORT: u16 = 5351;

/// Added to a request's opcode to give the opcode of its reply.
pub const RESPONSE_FLAG: u8 = 128;

/// The longest lifetime granted to a mapping, in seconds.
pub const MAX_LIFETIME: u32 = 7200;

/// The lowest external port that is ever allocated.
pub const MIN_ALLOWED_PORT: u16 = 1024;

/// Result code: the request was carried out.
pub const RESULT_SUCCESS: u16 = 0;

/// Result code: the version byte was not zero.
pub const RESULT_UNSUPPORTED_VERSION: u16 = 1;

/// Result code: the request was too short or came from no IPv4 source.
pub const RESULT_BAD_REQUEST: u16 = 2;

/// Result code: no external port is free.
pub const RESULT_OUT_OF_RESOURCES: u16 = 4;

/// Result code: the opcode is not one the server knows.
pub const RESULT_UNSUPPORTED_OPCODE: u16 = 5;

/// The two bytes of `x`, most significant first.
pub open spec fn be16(x: u16) -> Seq<u8> {
    seq![(x / 256) as u8, (x % 256) as u8]
}

/// The four bytes of `x`, most significant first.
pub open spec fn be32(x: u32) -> Seq<u8> {
    seq![
        (x / 16777216) as u8,
        ((x / 65536) % 256) as u8,
        ((x / 256) % 256) as u8,
        (x % 256) as u8,
    ]
}

/// The number whose two bytes, most significant first, are `hi` and `lo`.
pub open spec fn from_be16(hi: u8, lo: u8) -> u16 {
    (hi * 256 + lo) as u16
}

/// The number whose four bytes, most significant first, are `b0` to `b3`.
pub open spec fn from_be32(b0: u8, b1: u8, b2: u8, b3: u8) -> u32 {
    (b0 * 16777216 + b1 * 65536 + b2 * 256 + b3) as u32
}

/// The reply to an external-address request: version, opcode 128, result
/// code 0, the server's uptime in seconds, the external address.
pub open spec fn external_address_reply(sssoe: u32, ip: Ipv4Addr) -> Seq<u8> {
    seq![0u8, RESPONSE_FLAG] + be16(RESULT_SUCCESS) + be32(sssoe) + ip.spec_octets()
}

/// The reply to a mapping request that was carried out.
pub open spec fn mapping_reply(
    opcode: u8,
    sssoe: u32,
    internal_port: u16,
    external_port: u16,
    lifetime: u32,
) -> Seq<u8> {
    seq![0u8, opcode] + be16(RESULT_SUCCESS) + be32(sssoe) + be16(internal_port) + be16(
        external_port,
    ) + be32(lifetime)
}

/// The reply that refuses a request: the uptime field is zero.
pub open spec fn error_reply(opcode: u8, result_code: u16) -> Seq<u8> {
    seq![0u8, opcode] + be16(result_code) + be32(0)
}

fn push_be16(out: &mut Vec<u8>, x: u16)
    ensures
        final(out)@ == old(out)@ + be16(x),
{
    out.push((x / 256) as u8);
    out.push((x % 256) as u8);
    assert(out@ =~= old(out)@ + be16(x));
}

fn push_be32(out: &mut Vec<u8>, x: u32)
    ensures
        final(out)@ == old(out)@ + be32(x),
{
    out.push((x / 16777216) as u8);
    out.push(((x / 65536) % 256) as u8);
    out.push(((x / 256) % 256) as u8);
    out.push((x % 256) as u8);
    assert(out@ =~= old(out)@ + be32(x));
}

/// Builds the reply to an external-address request.
pub fn build_external_address_response(sssoe: u32, ip: Ipv4Addr) -> (resp: Vec<u8>)
    ensures
        resp@ == external_address_reply(sssoe, ip),
        resp@.len() == 12,
{
    let mut resp: Vec<u8> = Vec::with_capacity(12);
    resp.push(0);
    resp.push(RESPONSE_FLAG);
    push_be16(&mut resp, RESULT_SUCCESS);
    push_be32(&mut resp, sssoe);
    resp.push(ip.a);
    resp.push(ip.b);
    resp.push(ip.c);
    resp.push(ip.d);
    assert(resp@ =~= external_address_reply(sssoe, ip));
    resp
}

/// Builds the reply to a mapping request that was carried out.
pub fn build_mapping_response(
    opcode: u8,
    sssoe: u32,
    internal_port: u16,
    external_port: u16,
    lifetime: u32,
) -> (resp: Vec<u8>)
    ensures
        resp@ == mapping_reply(opcode, sssoe, internal_port, external_port, lifetime),
        resp@.len() == 16,
{
    let mut resp: Vec<u8> = Vec::with_capacity(16);
    resp.push(0);
    resp.push(opcode);
    push_be16(&mut resp, RESULT_SUCCESS);
    push_be32(&mut resp, sssoe);
    push_be16(&mut resp, internal_port);
    push_be16(&mut resp, external_port);
    push_be32(&mut resp, lifetime);
    assert(resp@ =~= mapping_reply(opcode, sssoe, internal_port, external_port, lifetime));
    resp
}

/// Builds the reply that refuses a request.
pub fn build_error_response(opcode: u8, result_code: u16) -> (resp: Vec<u8>)
    ensures
        resp@ == error_reply(opcode, result_code),
        resp@.len() == 8,
{
    let mut resp: Vec<u8> = Vec::with_capacity(8);
    resp.push(0);
    resp.push(opcode);
    push_be16(&mut resp, result_code);
    push_be32(&mut resp, 0);
    assert(resp@ =~= error_reply(opcode, result_code));
    resp
}

/// The server's uptime in whole seconds as the wire carries it: the low 32
/// bits of the seconds in `now`, a clock reading in nanoseconds.
pub open spec fn spec_sssoe(now: u64) -> u32 {
    ((now / NANOS_PER_SEC) % 4294967296) as u32
}

/// The server's uptime in whole seconds as the wire carries it.
pub fn sssoe(now: u64) -> (secs: u32)
    ensures
        secs == spec_sssoe(now),
{
    ((now / NANOS_PER_SEC) % 4294967296) as u32
}

/// A request to create, renew or delete mappings, as decoded from the wire.
#[derive(Debug, Clone, Copy, PartialEq, Eq, Structural)]
pub struct MapRequest {
    pub protocol: Protocol,
    /// The client that sent the request, which owns what it maps.
    pub client: Ipv4Addr,
    pub internal_port: u16,
    pub suggested_external: u16,
    pub lifetime: u32,
}

/// What a datagram asks for.
#[derive(Debug, Clone, Copy, PartialEq, Eq, Structural)]
pub enum Request {
    /// Fewer than two bytes: dropped without a reply.
    TooShort,
    /// The version byte is not zero.
    UnsupportedVersion,
    /// Opcode 0: what is the external address?
    ExternalAddress,
    /// Opcode 1 or 2 with fewer than twelve bytes, or from no IPv4 source.
    BadMapRequest { opcode: u8 },
    /// Opcode 1 (UDP) or 2 (TCP).
    MapPort(MapRequest),
    /// Any other opcode.
    UnsupportedOpcode { opcode: u8 },
}

/// The opcode of the reply to a request with opcode `opcode`: 128 more,
/// without the carry where the request's opcode is itself 128 or more.
pub open spec fn response_opcode(opcode: u8) -> u8 {
    if opcode < 128 {
        (opcode + 128) as u8
    } else {
        (opcode - 128) as u8
    }
}

/// The opcode of a mapping request for `protocol`.
pub open spec fn map_opcode(protocol: Protocol) -> u8 {
    match protocol {
        Protocol::Udp => 1,
        Protocol::Tcp => 2,
    }
}

/// What the datagram `data` from `src` asks for.
pub open spec fn spec_parse_request(data: Seq<u8>, src: SocketAddr) -> Request {
    if data.len() < 2 {
        Request::TooShort
    } else if data[0] != 0 {
        Request::UnsupportedVersion
    } else if data[1] == 0 {
        Request::ExternalAddress
    } else if data[1] == 1 || data[1] == 2 {
        if data.len() < 12 {
            Request::BadMapRequest { opcode: data[1] }
        } else {
            match src.spec_ipv4() {
                Some(client) => Request::MapPort(
                    MapRequest {
                        protocol: if data[1] == 1 {
                            Protocol::Udp
                        } else {
                            Protocol::Tcp
                        },
                        client,
                        internal_port: from_be16(data[4], data[5]),
                        suggested_external: from_be16(data[6], data[7]),
                        lifetime: from_be32(data[8], data[9], data[10], data[11]),
                    },
                ),
                None => Request::BadMapRequest { opcode: data[1] },
            }
        }
    } else {
        Request::UnsupportedOpcode { opcode: data[1] }
    }
}

/// Decodes the datagram `data` from `src`.
pub fn parse_request(data: &[u8], src: SocketAddr) -> (request: Request)
    ensures
        request == spec_parse_request(data@, src),
{
    if data.len() < 2 {
        return Request::TooShort;
    }
    if data[0] != 0 {
        return Request::UnsupportedVersion;
    }
    let opcode = data[1];
    if opcode == 0 {
        Request::ExternalAddress
    } else if opcode == 1 || opcode == 2 {
        if data.len() < 12 {
            return Request::BadMapRequest { opcode };
        }
        let protocol = if opcode == 1 {
            Protocol::Udp
        } else {
            Protocol::Tcp
        };
        let internal_port: u16 = data[4] as u16 * 256 + data[5] as u16;
        let suggested_external: u16 = data[6] as u16 * 256 + data[7] as u16;
        let lifetime: u32 = data[8] as u32 * 16777216 + data[9] as u32 * 65536 + data[10] as u32
            * 256 + data[11] as u32;
        match src.ipv4() {
            Some(client) => Request::MapPort(
                MapRequest { protocol, client, internal_port, suggested_external, lifetime },
            ),
            None => Request::BadMapRequest { opcode },
        }
    } else {
        Request::UnsupportedOpcode { opcode }
    }
}

/// The answer to a mapping request.
#[derive(Debug, Clone, Copy, PartialEq, Eq, Structural)]
pub enum MapReply {
    /// Carried out; the fields are those of the reply.
    Granted { internal_port: u16, external_port: u16, lifetime: u32 },
    /// Every external port of the protocol is taken.
    OutOfResources,
}

/// What a mapping request did: the answer, and whether the anchor has to be
/// derived again from the table.
#[derive(Debug, Clone, Copy, PartialEq, Eq, Structural)]
pub struct MapOutcome {
    pub reply: MapReply,
    pub reload: bool,
}

/// The table, the answer and the reload flag after a mapping request.
pub struct Applied {
    pub table: Map<MappingKey, Mapping>,
    pub reply: MapReply,
    pub reload: bool,
}

/// The key of the port that `r` suggests.
pub open spec fn suggested_key(r: MapRequest) -> MappingKey {
    MappingKey { protocol: r.protocol, external_port: r.suggested_external }
}

/// Lifetime zero and internal port zero: delete all mappings of the client.
pub open spec fn is_delete_all(r: MapRequest) -> bool {
    r.lifetime == 0 && r.internal_port == 0
}

/// Whether the suggested port is granted: it is 1024 or more, and free or
/// already mapped to this client.
pub open spec fn honours_suggestion(t: Map<MappingKey, Mapping>, r: MapRequest) -> bool {
    r.suggested_external >= MIN_ALLOWED_PORT && (!t.contains_key(suggested_key(r))
        || t[suggested_key(r)].internal_ip == r.client)
}

/// A suggested port below 1024 with lifetime zero, on a request that is no
/// delete-all: delete the client's mappings to the internal port.
pub open spec fn is_delete_by_internal_port(r: MapRequest) -> bool {
    !is_delete_all(r) && r.suggested_external < MIN_ALLOWED_PORT && r.lifetime == 0
}

/// The external port that the request gets, if any: the suggested one where
/// it is granted, else the lowest free port from 1024 up.
pub open spec fn chosen_port(t: Map<MappingKey, Mapping>, r: MapRequest) -> Option<u16> {
    if honours_suggestion(t, r) {
        Some(r.suggested_external)
    } else {
        lowest_free_from(t, r.protocol, MIN_ALLOWED_PORT as int)
    }
}

/// The lifetime that is granted for a requested one.
pub open spec fn capped_lifetime(lifetime: u32) -> u32 {
    if lifetime <= MAX_LIFETIME {
        lifetime
    } else {
        MAX_LIFETIME
    }
}

/// The mapping that `r` stores on `port` at clock reading `now`.
pub open spec fn granted_mapping(r: MapRequest, port: u16, now: u64) -> Mapping {
    Mapping {
        internal_ip: r.client,
        internal_port: r.internal_port,
        external_port: port,
        protocol: r.protocol,
        lifetime_secs: capped_lifetime(r.lifetime),
        created_at: now,
    }
}

/// What the mapping request `r` does to the table `t` at clock reading `now`.
pub open spec fn spec_apply(t: Map<MappingKey, Mapping>, r: MapRequest, now: u64) -> Applied {
    if is_delete_all(r) {
        let after = without(t, Selector::OwnedBy(r.client));
        Applied {
            table: after,
            reply: MapReply::Granted { internal_port: 0, external_port: 0, lifetime: 0 },
            reload: after != t,
        }
    } else if is_delete_by_internal_port(r) {
        let after = without(
            t,
            Selector::Target {
                client: r.client,
                internal_port: r.internal_port,
                protocol: r.protocol,
            },
        );
        Applied {
            table: after,
            reply: MapReply::Granted {
                internal_port: r.internal_port,
                external_port: 0,
                lifetime: 0,
            },
            reload: after != t,
        }
    } else {
        match chosen_port(t, r) {
            None => Applied { table: t, reply: MapReply::OutOfResources, reload: false },
            Some(port) => {
                let key = MappingKey { protocol: r.protocol, external_port: port };
                Applied {
                    table: if r.lifetime == 0 {
                        t.remove(key)
                    } else {
                        t.insert(key, granted_mapping(r, port, now))
                    },
                    reply: MapReply::Granted {
                        internal_port: r.internal_port,
                        external_port: port,
                        lifetime: capped_lifetime(r.lifetime),
                    },
                    reload: true,
                }
            },
        }
    }
}

/// Finds the lowest external port from 1024 up that is free for
/// `protocol`, by trying the ports in turn.
pub fn find_available_port(mappings: &MappingTable, protocol: Protocol) -> (port: Option<u16>)
    requires
        mappings.wf(),
    ensures
        port == lowest_free_from(mappings@, protocol, MIN_ALLOWED_PORT as int),
        port matches Some(p) ==> is_lowest_free(mappings@, protocol, p),
        port is None ==> forall|q: u16|
            q >= MIN_ALLOWED_PORT ==> #[trigger] mappings@.contains_key(port_key(protocol, q)),
{
    proof {
        lemma_lowest_free_from(mappings@, protocol, MIN_ALLOWED_PORT as int);
    }
    mappings.lowest_free_port(protocol)
}

/// The ports of `t` are all allocatable and its lifetimes all granted ones:
/// no external port is below 1024, every mapping is held under its own
/// key, and every lifetime is between 1 and 7200 seconds.
pub open spec fn table_sound(t: Map<MappingKey, Mapping>) -> bool {
    forall|k: MappingKey| #[trigger]
        t.contains_key(k) ==> {
            &&& k.external_port >= MIN_ALLOWED_PORT
            &&& t[k].spec_key() == k
            &&& 0 < t[k].lifetime_secs <= MAX_LIFETIME
        }
}

/// Carries out the mapping request `r` on `table` at clock reading `now`.
pub fn apply_map_request(table: &mut MappingTable, r: &MapRequest, now: u64) -> (outcome: MapOutcome)
    requires
        old(table).wf(),
    ensures
        final(table).wf(),
        final(table)@ == spec_apply(old(table)@, *r, now).table,
        outcome.reply == spec_apply(old(table)@, *r, now).reply,
        outcome.reload == spec_apply(old(table)@, *r, now).reload,
        table_sound(old(table)@) ==> table_sound(final(table)@),
{
    proof {
        if table_sound(table@) {
            lemma_apply_keeps_table_sound(table@, *r, now);
        }
    }
    if r.lifetime == 0 && r.internal_port == 0 {
        let changed = table.remove_where(Selector::OwnedBy(r.client));
        return MapOutcome {
            reply: MapReply::Granted { internal_port: 0, external_port: 0, lifetime: 0 },
            reload: changed,
        };
    }
    let external_port = if r.suggested_external >= MIN_ALLOWED_PORT {
        let key = MappingKey { protocol: r.protocol, external_port: r.suggested_external };
        let granted = match table.get(key) {
            None => true,
            Some(m) => m.internal_ip == r.client,
        };
        if granted {
            r.suggested_external
        } else {
            match find_available_port(table, r.protocol) {
                Some(p) => p,
                None => {
                    return MapOutcome { reply: MapReply::OutOfResources, reload: false };
                },
            }
        }
    } else if r.lifetime == 0 {
        let changed = table.remove_where(
            Selector::Target {
                client: r.client,
                internal_port: r.internal_port,
                protocol: r.protocol,
            },
        );
        return MapOutcome {
            reply: MapReply::Granted {
                internal_port: r.internal_port,
                external_port: 0,
                lifetime: 0,
            },
            reload: changed,
        };
    } else {
        match find_available_port(table, r.protocol) {
            Some(p) => p,
            None => {
                return MapOutcome { reply: MapReply::OutOfResources, reload: false };
            },
        }
    };
    let lifetime = if r.lifetime <= MAX_LIFETIME {
        r.lifetime
    } else {
        MAX_LIFETIME
    };
    if lifetime == 0 {
        table.remove(MappingKey { protocol: r.protocol, external_port });
    } else {
        table.insert(
            Mapping {
                internal_ip: r.client,
                internal_port: r.internal_port,
                external_port,
                protocol: r.protocol,
                lifetime_secs: lifetime,
                created_at: now,
            },
        );
    }
    MapOutcome {
        reply: MapReply::Granted { internal_port: r.internal_port, external_port, lifetime },
        reload: true,
    }
}

/// The bytes that answer a mapping request of `protocol`.
pub open spec fn map_reply_bytes(protocol: Protocol, sssoe: u32, reply: MapReply) -> Seq<u8> {
    match reply {
        MapReply::Granted { internal_port, external_port, lifetime } => mapping_reply(
            response_opcode(map_opcode(protocol)),
            sssoe,
            internal_port,
            external_port,
            lifetime,
        ),
        MapReply::OutOfResources => error_reply(
            response_opcode(map_opcode(protocol)),
            RESULT_OUT_OF_RESOURCES,
        ),
    }
}

/// The reply to `request`, if it gets one, with the table `t` as it stands
/// before the request.
pub open spec fn spec_response(
    t: Map<MappingKey, Mapping>,
    request: Request,
    external_ip: Ipv4Addr,
    now: u64,
) -> Option<Seq<u8>> {
    match request {
        Request::TooShort => None,
        Request::UnsupportedVersion => Some(error_reply(RESPONSE_FLAG, RESULT_UNSUPPORTED_VERSION)),
        Request::ExternalAddress => Some(external_address_reply(spec_sssoe(now), external_ip)),
        Request::BadMapRequest { opcode } => Some(
            error_reply(response_opcode(opcode), RESULT_BAD_REQUEST),
        ),
        Request::MapPort(r) => Some(
            map_reply_bytes(r.protocol, spec_sssoe(now), spec_apply(t, r, now).reply),
        ),
        Request::UnsupportedOpcode { opcode } => Some(
            error_reply(response_opcode(opcode), RESULT_UNSUPPORTED_OPCODE),
        ),
    }
}

/// The table after `request`.
pub open spec fn spec_table_after(t: Map<MappingKey, Mapping>, request: Request, now: u64) -> Map<
    MappingKey,
    Mapping,
> {
    match request {
        Request::MapPort(r) => spec_apply(t, r, now).table,
        _ => t,
    }
}

/// Whether `request` makes the server derive the anchor again.
pub open spec fn spec_reloads(t: Map<MappingKey, Mapping>, request: Request, now: u64) -> bool {
    match request {
        Request::MapPort(r) => spec_apply(t, r, now).reload,
        _ => false,
    }
}

/// The bytes of an optional reply.
pub open spec fn reply_bytes(response: Option<Vec<u8>>) -> Option<Seq<u8>> {
    match response {
        Some(bytes) => Some(bytes@),
        None => None,
    }
}

/// What the handling of one datagram hands back.
#[derive(Debug, PartialEq, Eq)]
pub struct Handled {
    /// The reply to send to the source, if any.
    pub response: Option<Vec<u8>>,
    /// What to do to the anchor, if the request calls for it.
    pub anchor: Option<AnchorUpdate>,
}

fn response_opcode_of(opcode: u8) -> (op: u8)
    ensures
        op == response_opcode(opcode),
{
    if opcode < 128 {
        opcode + 128
    } else {
        opcode - 128
    }
}

/// Handles one datagram `data` from `src` at clock reading `now`
/// (nanoseconds since the server started): updates `mappings` and hands
/// back the reply and the anchor update. The anchor is derived again from
/// the whole table exactly when the request calls for a reload.
pub fn handle_request(
    data: &[u8],
    src: SocketAddr,
    external_ip: Ipv4Addr,
    now: u64,
    ext_ifname: &str,
    mappings: &mut MappingTable,
) -> (handled: Handled)
    requires
        old(mappings).wf(),
    ensures
        final(mappings).wf(),
        final(mappings)@ == spec_table_after(
            old(mappings)@,
            spec_parse_request(data@, src),
            now,
        ),
        reply_bytes(handled.response) == spec_response(
            old(mappings)@,
            spec_parse_request(data@, src),
            external_ip,
            now,
        ),
        handled.anchor is Some <==> spec_reloads(
            old(mappings)@,
            spec_parse_request(data@, src),
            now,
        ),
        handled.anchor matches Some(update) ==> mirrors(update, ext_ifname@, final(mappings)@),
        table_sound(old(mappings)@) ==> table_sound(final(mappings)@),
{
    match parse_request(data, src) {
        Request::TooShort => Handled { response: None, anchor: None },
        Request::UnsupportedVersion => Handled {
            response: Some(build_error_response(RESPONSE_FLAG, RESULT_UNSUPPORTED_VERSION)),
            anchor: None,
        },
        Request::ExternalAddress => Handled {
            response: Some(build_external_address_response(sssoe(now), external_ip)),
            anchor: None,
        },
        Request::BadMapRequest { opcode } => Handled {
            response: Some(build_error_response(response_opcode_of(opcode), RESULT_BAD_REQUEST)),
            anchor: None,
        },
        Request::MapPort(r) => {
            let resp_opcode = match r.protocol {
                Protocol::Udp => RESPONSE_FLAG + 1,
                Protocol::Tcp => RESPONSE_FLAG + 2,
            };
            let outcome = apply_map_request(mappings, &r, now);
            let anchor = if outcome.reload {
                Some(anchor_update(ext_ifname, mappings))
            } else {
                None
            };
            let response = match outcome.reply {
                MapReply::Granted { internal_port, external_port, lifetime } => {
                    build_mapping_response(
                        resp_opcode,
                        sssoe(now),
                        internal_port,
                        external_port,
                        lifetime,
                    )
                },
                MapReply::OutOfResources => build_error_response(
                    resp_opcode,
                    RESULT_OUT_OF_RESOURCES,
                ),
            };
            Handled { response: Some(response), anchor }
        },
        Request::UnsupportedOpcode { opcode } => Handled {
            response: Some(
                build_error_response(response_opcode_of(opcode), RESULT_UNSUPPORTED_OPCODE),
            ),
            anchor: None,
        },
    }
}

/// `p` is the lowest port from 1024 up that `protocol` has free in `t`.
pub open spec fn is_lowest_free(t: Map<MappingKey, Mapping>, protocol: Protocol, p: u16) -> bool {
    &&& p >= MIN_ALLOWED_PORT
    &&& !t.contains_key(port_key(protocol, p))
    &&& forall|q: u16|
        MIN_ALLOWED_PORT <= q < p ==> #[trigger] t.contains_key(port_key(protocol, q))
}

/// The search from `from` finds the lowest free port at or above `from`,
/// and finds none only where every port from `from` up is taken.
pub proof fn lemma_lowest_free_from(t: Map<MappingKey, Mapping>, protocol: Protocol, from: int)
    requires
        0 <= from <= 65536,
    ensures
        match lowest_free_from(t, protocol, from) {
            Some(p) => from <= p && !t.contains_key(port_key(protocol, p))
                && forall|q: u16|
                from <= q < p ==> #[trigger] t.contains_key(port_key(protocol, q)),
            None => forall|q: u16|
                from <= q ==> #[trigger] t.contains_key(port_key(protocol, q)),
        },
    decreases 65536 - from,
{
    if from <= 65535 && t.contains_key(port_key(protocol, from as u16)) {
        lemma_lowest_free_from(t, protocol, from + 1);
    }
}

/// Every request leaves a sound table sound: no port below 1024 is ever
/// allocated, and no lifetime above 7200 seconds is ever stored.
pub proof fn lemma_apply_keeps_table_sound(t: Map<MappingKey, Mapping>, r: MapRequest, now: u64)
    requires
        table_sound(t),
    ensures
        table_sound(spec_apply(t, r, now).table),
{
    lemma_lowest_free_from(t, r.protocol, MIN_ALLOWED_PORT as int);
}

/// A suggested external port of 1024 or more that is free for the
/// request's protocol is the port that the request gets. This holds of
/// every request but the one that deletes all mappings of its client,
/// which names no external port in its reply.
pub proof fn lemma_free_suggestion_is_granted(t: Map<MappingKey, Mapping>, r: MapRequest, now: u64)
    requires
        !is_delete_all(r),
        r.suggested_external >= MIN_ALLOWED_PORT,
        !t.contains_key(suggested_key(r)),
    ensures
        spec_apply(t, r, now).reply == (MapReply::Granted {
            internal_port: r.internal_port,
            external_port: r.suggested_external,
            lifetime: capped_lifetime(r.lifetime),
        }),
        r.lifetime > 0 ==> spec_apply(t, r, now).table == t.insert(
            suggested_key(r),
            granted_mapping(r, r.suggested_external, now),
        ),
{
}

/// Where the suggested port is below 1024, or is held by another client,
/// the request gets the lowest free port from 1024 up of its protocol,
/// and is refused only where no such port is free. This holds of every
/// request that creates or renews a mapping, and of one that deletes the
/// slot of a suggested port; it does not hold of the two requests that
/// delete by owner or by internal port and name no external port in
/// their reply.
pub proof fn lemma_fallback_is_lowest_free(t: Map<MappingKey, Mapping>, r: MapRequest, now: u64)
    requires
        !is_delete_all(r),
        !is_delete_by_internal_port(r),
        r.suggested_external < MIN_ALLOWED_PORT || (t.contains_key(suggested_key(r))
            && t[suggested_key(r)].internal_ip != r.client),
    ensures
        match spec_apply(t, r, now).reply {
            MapReply::Granted { internal_port, external_port, lifetime } => {
                &&& is_lowest_free(t, r.protocol, external_port)
                &&& internal_port == r.internal_port
                &&& lifetime == capped_lifetime(r.lifetime)
                &&& spec_apply(t, r, now).table == (if r.lifetime == 0 {
                    t
                } else {
                    t.insert(
                        MappingKey { protocol: r.protocol, external_port },
                        granted_mapping(r, external_port, now),
                    )
                })
            },
            MapReply::OutOfResources => {
                &&& spec_apply(t, r, now).table == t
                &&& forall|q: u16|
                    q >= MIN_ALLOWED_PORT ==> #[trigger] t.contains_key(port_key(r.protocol, q))
            },
        },
{
    lemma_lowest_free_from(t, r.protocol, MIN_ALLOWED_PORT as int);
    match chosen_port(t, r) {
        Some(port) => {
            assert(t.remove(port_key(r.protocol, port)) =~= t);
        },
        None => {},
    }
}

/// A stored mapping with a lifetime of `L` seconds, `0 < L <= 7200`, is not
/// expired at the clock reading at which it was stored, nor at any reading
/// less than `L` seconds later, and is expired at every reading from `L`
/// seconds later on.
pub proof fn lemma_expiry(r: MapRequest, port: u16, stored_at: u64, now: u64)
    requires
        0 < r.lifetime <= MAX_LIFETIME,
    ensures
        !granted_mapping(r, port, stored_at).spec_is_expired(stored_at),
        granted_mapping(r, port, stored_at).spec_is_expired(now) <==> now - stored_at
            >= r.lifetime * NANOS_PER_SEC,
{
}

/// A delete-all request removes exactly the mappings of the client that
/// sent it: what another client owns stays as it was, and nothing is added.
pub proof fn lemma_delete_all_is_exact(t: Map<MappingKey, Mapping>, r: MapRequest, now: u64)
    requires
        is_delete_all(r),
    ensures
        forall|k: MappingKey|
            spec_apply(t, r, now).table.contains_key(k) <==> t.contains_key(k) && t[k].internal_ip
                != r.client,
        forall|k: MappingKey| #[trigger]
            spec_apply(t, r, now).table.contains_key(k) ==> spec_apply(t, r, now).table[k] == t[k],
        spec_apply(t, r, now).reply == (MapReply::Granted {
            internal_port: 0,
            external_port: 0,
            lifetime: 0,
        }),
{
}

/// The anchor never lags behind the table: a request that changes the
/// table calls for a reload, so that the rules are derived again from
/// the table after every change.
pub proof fn lemma_every_change_reloads(t: Map<MappingKey, Mapping>, request: Request, now: u64)
    ensures
        spec_table_after(t, request, now) != t ==> spec_reloads(t, request, now),
{
    match request {
        Request::MapPort(r) => {
            lemma_lowest_free_from(t, r.protocol, MIN_ALLOWED_PORT as int);
        },
        _ => {},
    }
}

/// The two protocols have separate port spaces: a request of one protocol
/// neither reads nor changes a mapping of the other.
pub proof fn lemma_protocols_are_separate(
    t: Map<MappingKey, Mapping>,
    r: MapRequest,
    now: u64,
    other: MappingKey,
)
    requires
        table_sound(t),
        !is_delete_all(r),
        other.protocol != r.protocol,
    ensures
        spec_apply(t, r, now).table.contains_key(other) == t.contains_key(other),
        t.contains_key(other) ==> spec_apply(t, r, now).table[other] == t[other],
{
    lemma_lowest_free_from(t, r.protocol, MIN_ALLOWED_PORT as int);
}

/// Whether a datagram from `src` is let in by the LAN network written in
/// `lan_network` as `address/prefix-length`: the source has an IPv4
/// address, the text is a network, and the network covers the address.
pub open spec fn lan_accepts(lan_network: Seq<char>, src: SocketAddr) -> bool {
    match (src.spec_ipv4(), spec_parse_cidr(lan_network)) {
        (Some(ip), Some(cidr)) => cidr.covers(ip),
        _ => false,
    }
}

/// Whether `src` is a client on the LAN network `lan_network`.
pub fn is_lan_client(src: &SocketAddr, lan_network: &str) -> (accepted: bool)
    ensures
        accepted == lan_accepts(lan_network@, *src),
{
    let client_ip = match src.ipv4() {
        Some(ip) => ip,
        None => {
            return false;
        },
    };
    match Cidr::parse(lan_network) {
        Some(cidr) => cidr.contains(client_ip),
        None => false,
    }
}

/// A source is let in by the /24 network of a gateway exactly if it has an
/// IPv4 address with the gateway's first three octets. An address of the
/// neighbouring /24 is turned away.
pub proof fn lemma_lan_membership(gateway: Ipv4Addr, src: SocketAddr)
    ensures
        lan_accepts(slash24_text(gateway), src) <==> (src.spec_ipv4() matches Some(ip) && ip.a
            == gateway.a && ip.b == gateway.b && ip.c == gateway.c),
{
    match src.spec_ipv4() {
        Some(ip) => lemma_slash24_membership(gateway, ip),
        None => {},
    }
}

/// What a NAT-PMP server is started with: the interface whose traffic it
/// redirects, and the LAN network whose clients it serves.
#[derive(Debug, PartialEq, Eq)]
pub struct NatPmpServer {
    pub ext_ifname: String,
    pub lan_network: String,
}

/// The state of a running server: its settings, the mapping table, which
/// it alone owns, and the external address it last learned.
pub struct ServerState {
    pub ext_ifname: String,
    pub lan_network: String,
    pub mappings: MappingTable,
    pub external_ip: Ipv4Addr,
}

/// What wakes the server up.
#[derive(Debug, PartialEq, Eq)]
pub enum ServerEvent {
    /// A datagram arrived.
    Datagram { data: Vec<u8>, src: SocketAddr },
    /// The expiry sweep is due (every 30 seconds).
    ExpiryTick,
    /// The external address was asked for again (every 60 seconds); `None`
    /// where the query failed.
    ExternalIpQueried(Option<Ipv4Addr>),
    /// The shutdown signal changed to this value.
    ShutdownSignal(bool),
}

/// What the server wants done after an event.
#[derive(Debug, PartialEq, Eq)]
pub struct ServerAction {
    /// A reply to send to the source of the datagram.
    pub reply: Option<Vec<u8>>,
    /// What to do to the anchor.
    pub anchor: Option<AnchorUpdate>,
    /// Whether the server stops: leave the loop and drop the socket.
    pub stop: bool,
}

/// Seconds between two expiry sweeps.
pub const EXPIRY_INTERVAL_SECS: u64 = 30;

/// Seconds between two queries of the external address.
pub const IP_REFRESH_INTERVAL_SECS: u64 = 60;

impl NatPmpServer {
    /// The settings of a server. The LAN interface name is taken for later
    /// use and not kept.
    pub fn new(ext_ifname: &str, _lan_ifname: &str, lan_network: &str) -> (server: NatPmpServer)
        ensures
            server.ext_ifname@ == ext_ifname@,
            server.lan_network@ == lan_network@,
    {
        NatPmpServer {
            ext_ifname: String::from_str(ext_ifname),
            lan_network: String::from_str(lan_network),
        }
    }

    /// The /24 network of a gateway address, as in `192.168.2.0/24` for
    /// `192.168.2.1`.
    pub fn network_from_ip(ip: Ipv4Addr) -> (network: String)
        ensures
            network@ == slash24_text(ip),
    {
        proof {
            reveal_strlit(".");
            reveal_strlit(".0/24");
        }
        let mut network = String::new();
        push_decimal(&mut network, ip.a as u64);
        network.append(".");
        push_decimal(&mut network, ip.b as u64);
        network.append(".");
        push_decimal(&mut network, ip.c as u64);
        network.append(".0/24");
        assert(network@ =~= slash24_text(ip));
        network
    }

    /// The error of a server that could not bind its socket, from the
    /// text of the cause.
    pub fn bind_failure(cause: &str) -> (error: TunshareError)
        ensures
            error matches TunshareError::CommandFailed { command, message } && command@
                == "bind NAT-PMP UDP socket"@ && message@ == "Failed to bind port "@ + decimal(
                NATPMP_PORT as nat,
            ) + ": "@ + cause@,
    {
        let mut message = String::from_str("Failed to bind port ");
        push_decimal(&mut message, NATPMP_PORT as u64);
        message.append(": ");
        message.append(cause);
        TunshareError::CommandFailed {
            command: String::from_str("bind NAT-PMP UDP socket"),
            message,
        }
    }

    /// The state in which the server starts: an empty table, and the
    /// external address that was found, `0.0.0.0` where none was. Before
    /// the first event the caller flushes the anchor of what an earlier
    /// run may have left, and binds the socket.
    pub fn start(&self, external_ip: Option<Ipv4Addr>) -> (state: ServerState)
        ensures
            state.wf(),
            state.mappings@ == Map::<MappingKey, Mapping>::empty(),
            state.ext_ifname@ == self.ext_ifname@,
            state.lan_network@ == self.lan_network@,
            state.external_ip == match external_ip {
                Some(ip) => ip,
                None => Ipv4Addr { a: 0, b: 0, c: 0, d: 0 },
            },
    {
        ServerState {
            ext_ifname: self.ext_ifname.clone(),
            lan_network: self.lan_network.clone(),
            mappings: MappingTable::new(),
            external_ip: match external_ip {
                Some(ip) => ip,
                None => Ipv4Addr::unspecified(),
            },
        }
    }
}

impl ServerState {
    /// The table is well formed.
    pub open spec fn wf(&self) -> bool {
        self.mappings.wf()
    }

    /// Handles one event at clock reading `now`, in nanoseconds since the
    /// server started.
    ///
    /// A datagram from outside the LAN is dropped; one from inside is
    /// handled as a request. An expiry tick purges the expired mappings and
    /// derives the anchor again if any left. A failed query of the external
    /// address keeps the address. A shutdown signal that is set flushes the
    /// anchor and stops the server.
    pub fn step(&mut self, event: ServerEvent, now: u64) -> (action: ServerAction)
        requires
            old(self).wf(),
        ensures
            final(self).wf(),
            final(self).ext_ifname == old(self).ext_ifname,
            final(self).lan_network == old(self).lan_network,
            table_sound(old(self).mappings@) ==> table_sound(final(self).mappings@),
            match event {
                ServerEvent::Datagram { data, src } => {
                    let request = spec_parse_request(data@, src);
                    if lan_accepts(old(self).lan_network@, src) {
                        &&& final(self).mappings@ == spec_table_after(
                            old(self).mappings@,
                            request,
                            now,
                        )
                        &&& reply_bytes(action.reply) == spec_response(
                            old(self).mappings@,
                            request,
                            old(self).external_ip,
                            now,
                        )
                        &&& (action.anchor is Some <==> spec_reloads(
                            old(self).mappings@,
                            request,
                            now,
                        ))
                        &&& (action.anchor matches Some(update) ==> mirrors(
                            update,
                            old(self).ext_ifname@,
                            final(self).mappings@,
                        ))
                        &&& final(self).external_ip == old(self).external_ip
                        &&& !action.stop
                    } else {
                        &&& final(self).mappings@ == old(self).mappings@
                        &&& final(self).external_ip == old(self).external_ip
                        &&& action.reply is None
                        &&& action.anchor is None
                        &&& !action.stop
                    }
                },
                ServerEvent::ExpiryTick => {
                    &&& final(self).mappings@ == without(
                        old(self).mappings@,
                        Selector::ExpiredAt(now),
                    )
                    &&& (action.anchor is Some <==> final(self).mappings@ != old(self).mappings@)
                    &&& (action.anchor matches Some(update) ==> mirrors(
                        update,
                        old(self).ext_ifname@,
                        final(self).mappings@,
                    ))
                    &&& final(self).external_ip == old(self).external_ip
                    &&& action.reply is None
                    &&& !action.stop
                },
                ServerEvent::ExternalIpQueried(found) => {
                    &&& final(self).mappings@ == old(self).mappings@
                    &&& final(self).external_ip == match found {
                        Some(ip) => ip,
                        None => old(self).external_ip,
                    }
                    &&& action.reply is None
                    &&& action.anchor is None
                    &&& !action.stop
                },
                ServerEvent::ShutdownSignal(set) => {
                    &&& final(self).mappings@ == old(self).mappings@
                    &&& final(self).external_ip == old(self).external_ip
                    &&& action.reply is None
                    &&& action.stop == set
                    &&& action.anchor == if set {
                        Some(AnchorUpdate::Flush)
                    } else {
                        None
                    }
                },
            },
    {
        match event {
            ServerEvent::Datagram { data, src } => {
                if !is_lan_client(&src, self.lan_network.as_str()) {
                    return ServerAction { reply: None, anchor: None, stop: false };
                }
                let handled = handle_request(
                    data.as_slice(),
                    src,
                    self.external_ip,
                    now,
                    self.ext_ifname.as_str(),
                    &mut self.mappings,
                );
                ServerAction { reply: handled.response, anchor: handled.anchor, stop: false }
            },
            ServerEvent::ExpiryTick => {
                let changed = self.mappings.remove_where(Selector::ExpiredAt(now));
                let anchor = if changed {
                    Some(anchor_update(self.ext_ifname.as_str(), &self.mappings))
                } else {
                    None
                };
                ServerAction { reply: None, anchor, stop: false }
            },
            ServerEvent::ExternalIpQueried(found) => {
                match found {
                    Some(ip) => {
                        self.external_ip = ip;
                    },
                    None => {},
                }
                ServerAction { reply: None, anchor: None, stop: false }
            },
            ServerEvent::ShutdownSignal(set) => {
                if set {
                    ServerAction { reply: None, anchor: Some(AnchorUpdate::Flush), stop: true }
                } else {
                    ServerAction { reply: None, anchor: None, stop: false }
                }
            },
        }
    }
}

} // verus!
