//! The port-mapping table of the NAT-PMP server.

use crate::net::Ipv4Addr;
use std::collections::HashMap;
use vstd::std_specs::iter::IteratorSpec;
use vstd::prelude::*;

verus! {

broadcast use vstd::std_specs::hash::group_hash_axioms;

/// Nanoseconds in one second.
pub const NANOS_PER_SEC: u64 = 1_000_000_000;

/// Transport protocol of a mapping.
#[derive(Debug, Clone, Copy, PartialEq, Eq, Structural, Hash)]
pub enum Protocol {
    Udp,
    Tcp,
}

/// What identifies a mapping: one external port of one protocol.
#[derive(Debug, Clone, Copy, PartialEq, Eq, Structural, Hash)]
pub struct MappingKey {
    pub protocol: Protocol,
    pub external_port: u16,
}

/// One port forward: traffic to `external_port` goes to
/// `internal_ip:internal_port`.
#[derive(Debug, Clone, Copy, PartialEq, Eq, Structural, Hash)]
pub struct Mapping {
    pub internal_ip: Ipv4Addr,
    pub internal_port: u16,
    pub external_port: u16,
    pub protocol: Protocol,
    pub lifetime_secs: u32,
    /// Reading of the server's monotonic clock, in nanoseconds, when the
    /// mapping was stored.
    pub created_at: u64,
}

impl Mapping {
    /// The key under which the table holds this mapping.
    pub open spec fn spec_key(self) -> MappingKey {
        MappingKey { protocol: self.protocol, external_port: self.external_port }
    }

    /// Whole seconds from the mapping's creation to `now`; zero if the clock
    /// reads earlier than the creation.
    pub open spec fn age_secs(self, now: u64) -> nat {
        if now >= self.created_at {
            ((now - self.created_at) / (NANOS_PER_SEC as int)) as nat
        } else {
            0
        }
    }

    /// Whether the lifetime has run out at clock reading `now`.
    pub open spec fn spec_is_expired(self, now: u64) -> bool {
        self.age_secs(now) >= self.lifetime_secs
    }

    /// The key under which the table holds this mapping.
    pub fn key(&self) -> (k: MappingKey)
        ensures
            k == self.spec_key(),
    {
        MappingKey { protocol: self.protocol, external_port: self.external_port }
    }

    /// Whether the lifetime has run out at clock reading `now` (nanoseconds).
    pub fn is_expired(&self, now: u64) -> (expired: bool)
        ensures
            expired == self.spec_is_expired(now),
    {
        let elapsed: u64 = if now >= self.created_at {
            now - self.created_at
        } else {
            0
        };
        elapsed / NANOS_PER_SEC >= self.lifetime_secs as u64
    }
}

/// Which mappings a bulk removal takes out of the table.
#[derive(Debug, Clone, Copy, PartialEq, Eq, Structural)]
pub enum Selector {
    /// Every mapping whose internal address is this one.
    OwnedBy(Ipv4Addr),
    /// The mappings of one client that lead to one internal port of one
    /// protocol.
    Target { client: Ipv4Addr, internal_port: u16, protocol: Protocol },
    /// Every mapping whose lifetime has run out at this clock reading.
    ExpiredAt(u64),
}

impl Selector {
    /// Whether the removal takes `m`.
    pub open spec fn selects(self, m: Mapping) -> bool {
        match self {
            Selector::OwnedBy(ip) => m.internal_ip == ip,
            Selector::Target { client, internal_port, protocol } => m.internal_ip == client
                && m.internal_port == internal_port && m.protocol == protocol,
            Selector::ExpiredAt(now) => m.spec_is_expired(now),
        }
    }

    /// Whether the removal takes `m`.
    pub fn test(&self, m: &Mapping) -> (taken: bool)
        ensures
            taken == self.selects(*m),
    {
        match self {
            Selector::OwnedBy(ip) => m.internal_ip == *ip,
            Selector::Target { client, internal_port, protocol } => m.internal_ip == *client
                && m.internal_port == *internal_port && m.protocol == *protocol,
            Selector::ExpiredAt(now) => m.is_expired(*now),
        }
    }
}

/// The table `t` after every mapping that `sel` selects has left it.
pub open spec fn without(t: Map<MappingKey, Mapping>, sel: Selector) -> Map<MappingKey, Mapping> {
    t.restrict(Set::new(|k: MappingKey| !sel.selects(t[k])))
}

/// The key of `port` for `protocol`.
pub open spec fn port_key(protocol: Protocol, port: u16) -> MappingKey {
    MappingKey { protocol, external_port: port }
}

/// The lowest port from `from` up to 65535 that `protocol` has free in `t`.
pub open spec fn lowest_free_from(t: Map<MappingKey, Mapping>, protocol: Protocol, from: int) -> Option<u16>
    decreases 65536 - from,
{
    if from < 0 || from > 65535 {
        None
    } else if !t.contains_key(port_key(protocol, from as u16)) {
        Some(from as u16)
    } else {
        lowest_free_from(t, protocol, from + 1)
    }
}

/// The number that stands for a key inside the table.
pub open spec fn key_code(k: MappingKey) -> u32 {
    match k.protocol {
        Protocol::Udp => k.external_port as u32,
        Protocol::Tcp => (k.external_port + 65536) as u32,
    }
}

/// The key that a number below 131072 stands for.
pub open spec fn code_key(c: u32) -> MappingKey {
    if c < 65536 {
        MappingKey { protocol: Protocol::Udp, external_port: c as u16 }
    } else {
        MappingKey { protocol: Protocol::Tcp, external_port: (c - 65536) as u16 }
    }
}

fn encode(k: MappingKey) -> (c: u32)
    ensures
        c == key_code(k),
        c < 131072,
        code_key(c) == k,
{
    match k.protocol {
        Protocol::Udp => k.external_port as u32,
        Protocol::Tcp => k.external_port as u32 + 65536,
    }
}

fn decode(c: u32) -> (k: MappingKey)
    requires
        c < 131072,
    ensures
        k == code_key(c),
        key_code(k) == c,
{
    if c < 65536 {
        MappingKey { protocol: Protocol::Udp, external_port: c as u16 }
    } else {
        MappingKey { protocol: Protocol::Tcp, external_port: (c - 65536) as u16 }
    }
}

/// The live mappings, at most one per protocol and external port.
pub struct MappingTable {
    entries: HashMap<u32, Mapping>,
}

impl View for MappingTable {
    type V = Map<MappingKey, Mapping>;

    closed spec fn view(&self) -> Map<MappingKey, Mapping> {
        Map::new(
            |k: MappingKey| self.entries@.contains_key(key_code(k)),
            |k: MappingKey| self.entries@[key_code(k)],
        )
    }
}

impl MappingTable {
    /// Every mapping is filed under the number of its own key.
    pub closed spec fn wf(&self) -> bool {
        forall|c: u32| #[trigger]
            self.entries@.contains_key(c) ==> c < 131072 && key_code(self.entries@[c].spec_key())
                == c
    }

    /// An empty table.
    pub fn new() -> (table: MappingTable)
        ensures
            table.wf(),
            table@ == Map::<MappingKey, Mapping>::empty(),
    {
        let table = MappingTable { entries: HashMap::new() };
        assert(table@ =~= Map::<MappingKey, Mapping>::empty());
        table
    }

    /// Whether `key` is taken.
    pub fn contains_key(&self, key: MappingKey) -> (taken: bool)
        requires
            self.wf(),
        ensures
            taken == self@.contains_key(key),
    {
        let c = encode(key);
        self.entries.contains_key(&c)
    }

    /// The mapping held under `key`.
    pub fn get(&self, key: MappingKey) -> (found: Option<Mapping>)
        requires
            self.wf(),
        ensures
            found == self@.get(key),
            found matches Some(m) ==> m.spec_key() == key,
    {
        let c = encode(key);
        match self.entries.get(&c) {
            Some(m) => Some(*m),
            None => None,
        }
    }

    /// Stores `mapping` under its own key, replacing what was there.
    pub fn insert(&mut self, mapping: Mapping) -> (previous: Option<Mapping>)
        requires
            old(self).wf(),
        ensures
            final(self).wf(),
            final(self)@ == old(self)@.insert(mapping.spec_key(), mapping),
            previous == old(self)@.get(mapping.spec_key()),
    {
        let c = encode(mapping.key());
        let previous = self.entries.insert(c, mapping);
        assert(self@ =~= old(self)@.insert(mapping.spec_key(), mapping)) by {
            assert forall|k: MappingKey| key_code(k) == c implies k == mapping.spec_key() by {
                assert(code_key(key_code(k)) == k);
            }
        }
        previous
    }

    /// Removes what is held under `key`.
    pub fn remove(&mut self, key: MappingKey) -> (removed: Option<Mapping>)
        requires
            old(self).wf(),
        ensures
            final(self).wf(),
            final(self)@ == old(self)@.remove(key),
            removed == old(self)@.get(key),
    {
        let c = encode(key);
        let removed = self.entries.remove(&c);
        assert(self@ =~= old(self)@.remove(key)) by {
            assert forall|k: MappingKey| key_code(k) == c implies k == key by {
                assert(code_key(key_code(k)) == k);
            }
        }
        removed
    }

    /// The taken keys, each once, in no particular order.
    pub fn keys(&self) -> (keys: Vec<MappingKey>)
        requires
            self.wf(),
        ensures
            keys@.no_duplicates(),
            forall|k: MappingKey| keys@.contains(k) <==> self@.contains_key(k),
    {
        let mut keys: Vec<MappingKey> = Vec::new();
        let ghost codes = vstd::std_specs::hash::spec_keys_iter(&self.entries).remaining().unref();
        for c in it: self.entries.keys()
            invariant
                keys@.len() == it.index(),
                it.seq().unref() == codes,
                forall|i: int| 0 <= i < keys@.len() ==> key_code(#[trigger] keys@[i]) == *it.seq()[i],
                forall|c: u32| #[trigger] self.entries@.contains_key(c) ==> c < 131072,
                it.seq().unref().to_set() == self.entries@.dom(),
                it.seq().no_duplicates(),
        {
            assert(it.seq().unref()[it.index() as int] == *c);
            assert(it.seq().unref().to_set().contains(*c));
            keys.push(decode(*c));
        }
        proof {
            assert(keys@.len() == codes.len());
            assert forall|k: MappingKey| keys@.contains(k) implies self@.contains_key(k) by {
                let i = choose|i: int| 0 <= i < keys@.len() && keys@[i] == k;
                assert(codes[i] == key_code(k));
                assert(codes.to_set().contains(key_code(k)));
            }
            assert forall|k: MappingKey| self@.contains_key(k) implies keys@.contains(k) by {
                assert(codes.to_set().contains(key_code(k)));
                let i = choose|i: int| 0 <= i < codes.len() && codes[i] == key_code(k);
                assert(code_key(key_code(keys@[i])) == keys@[i]);
                assert(code_key(key_code(k)) == k);
                assert(keys@[i] == k);
            }
        }
        keys
    }

    /// Removes every mapping that `sel` selects and says whether any left.
    pub fn remove_where(&mut self, sel: Selector) -> (changed: bool)
        requires
            old(self).wf(),
        ensures
            final(self).wf(),
            final(self)@ == without(old(self)@, sel),
            changed == (final(self)@ != old(self)@),
    {
        let keys = self.keys();
        let ghost before = self@;
        let mut changed = false;
        let mut i: usize = 0;
        assert forall|j: int| 0 <= j < keys@.len() implies self@.contains_key(
            #[trigger] keys@[j],
        ) by {
            assert(keys@.contains(keys@[j]));
        }
        while i < keys.len()
            invariant
                self.wf(),
                i <= keys.len(),
                keys@.no_duplicates(),
                forall|k: MappingKey| keys@.contains(k) <==> before.contains_key(k),
                forall|k: MappingKey| #[trigger]
                    self@.contains_key(k) ==> before.contains_key(k) && self@[k] == before[k],
                forall|j: int|
                    0 <= j < i ==> (self@.contains_key(#[trigger] keys@[j]) <==> !sel.selects(
                        before[keys@[j]],
                    )),
                forall|j: int| i <= j < keys@.len() ==> self@.contains_key(#[trigger] keys@[j]),
                changed <==> exists|j: int| 0 <= j < i && sel.selects(before[#[trigger] keys@[j]]),
            decreases keys.len() - i,
        {
            let key = keys[i];
            let ghost prev = self@;
            assert(self@.contains_key(keys@[i as int]));
            match self.get(key) {
                Some(m) => {
                    if sel.test(&m) {
                        self.remove(key);
                        changed = true;
                    }
                },
                None => {},
            }
            proof {
                assert forall|j: int| 0 <= j < i + 1 implies (self@.contains_key(
                    #[trigger] keys@[j],
                ) <==> !sel.selects(before[keys@[j]])) by {
                    if j < i {
                        assert(keys@[j] != keys@[i as int]);
                        assert(prev.contains_key(keys@[j]) <==> !sel.selects(before[keys@[j]]));
                    }
                }
                assert forall|j: int| i + 1 <= j < keys@.len() implies self@.contains_key(
                    #[trigger] keys@[j],
                ) by {
                    assert(keys@[j] != keys@[i as int]);
                    assert(prev.contains_key(keys@[j]));
                }
            }
            i = i + 1;
        }
        proof {
            assert forall|k: MappingKey| #[trigger]
                before.contains_key(k) && !sel.selects(before[k]) implies self@.contains_key(k) by {
                assert(keys@.contains(k));
                let j = choose|j: int| 0 <= j < keys@.len() && keys@[j] == k;
                assert(self@.contains_key(keys@[j]));
            }
            assert forall|k: MappingKey| #[trigger] self@.contains_key(k) implies !sel.selects(
                before[k],
            ) by {
                assert(keys@.contains(k));
                let j = choose|j: int| 0 <= j < keys@.len() && keys@[j] == k;
                assert(self@.contains_key(keys@[j]));
            }
            assert(self@ =~= without(before, sel));
            if changed {
                let j = choose|j: int| 0 <= j < keys@.len() && sel.selects(before[#[trigger] keys@[j]]);
                assert(keys@.contains(keys@[j]));
                assert(before.contains_key(keys@[j]));
                assert(!self@.contains_key(keys@[j]));
            } else {
                assert forall|k: MappingKey| #[trigger] before.contains_key(k) implies !sel.selects(
                    before[k],
                ) by {
                    assert(keys@.contains(k));
                    let j = choose|j: int| 0 <= j < keys@.len() && keys@[j] == k;
                }
                assert(self@ =~= before);
            }
        }
        changed
    }

    /// The lowest port from 1024 up that `protocol` has free.
    pub fn lowest_free_port(&self, protocol: Protocol) -> (port: Option<u16>)
        requires
            self.wf(),
        ensures
            port == lowest_free_from(self@, protocol, 1024),
    {
        let mut p: u16 = 1024;
        loop
            invariant
                self.wf(),
                1024 <= p,
                lowest_free_from(self@, protocol, 1024) == lowest_free_from(self@, protocol, p as int),
            decreases 65535 - p,
        {
            if !self.contains_key(MappingKey { protocol, external_port: p }) {
                return Some(p);
            }
            if p == 65535 {
                assert(lowest_free_from(self@, protocol, 65536) is None);
                return None;
            }
            p = p + 1;
        }
    }

    /// Whether the table is empty.
    pub fn is_empty(&self) -> (empty: bool)
        requires
            self.wf(),
        ensures
            empty == (self@ == Map::<MappingKey, Mapping>::empty()),
    {
        let empty = self.entries.is_empty();
        proof {
            if empty {
                assert(self@ =~= Map::<MappingKey, Mapping>::empty());
            } else {
                let c = choose|c: u32| self.entries@.contains_key(c);
                assert(self.entries@.contains_key(c));
                assert(key_code(self.entries@[c].spec_key()) == c);
                assert(self@.contains_key(self.entries@[c].spec_key()));
            }
        }
        empty
    }
}

} // verus!
