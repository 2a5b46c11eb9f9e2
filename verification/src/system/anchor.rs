//! The packet-filter rules that mirror the mapping table.
//!
//! The rules live in one named anchor. They are never patched: after every
//! change of the table the whole rule text is derived again from the table,
//! and an empty table flushes the anchor instead of loading an empty text.

use crate::system::mapping::{Mapping, MappingKey, MappingTable, Protocol};
use crate::text::{decimal, push_decimal};
use vstd::prelude::*;

verus! {

/// What has to be done to the anchor so that it mirrors the table again.
#[derive(Debug, PartialEq, Eq)]
pub enum AnchorUpdate {
    /// Remove every rule of the anchor.
    Flush,
    /// Replace the anchor's rules by this text.
    Load(String),
}

/// The name of `protocol` in a rule.
pub open spec fn protocol_name(protocol: Protocol) -> Seq<char> {
    match protocol {
        Protocol::Udp => "udp"@,
        Protocol::Tcp => "tcp"@,
    }
}

/// The two rule lines of one mapping on interface `ifname`: the redirect to
/// the internal host, and the pass rule that admits the redirected traffic.
pub open spec fn rule_lines(ifname: Seq<char>, m: Mapping) -> Seq<char> {
    "rdr pass on "@ + ifname + " proto "@ + protocol_name(m.protocol) + " from any to any port "@
        + decimal(m.external_port as nat) + " -> "@ + m.internal_ip.dotted() + " port "@ + decimal(
        m.internal_port as nat,
    ) + "\n"@ + "pass in quick on "@ + ifname + " proto "@ + protocol_name(m.protocol)
        + " from any to "@ + m.internal_ip.dotted() + " port "@ + decimal(m.internal_port as nat)
        + "\n"@
}

/// The rule text of the mappings `ms`, in their order.
pub open spec fn rules_text(ifname: Seq<char>, ms: Seq<Mapping>) -> Seq<char>
    decreases ms.len(),
{
    if ms.len() == 0 {
        Seq::<char>::empty()
    } else {
        rules_text(ifname, ms.drop_last()) + rule_lines(ifname, ms.last())
    }
}

/// Whether `order` lists every key of `t` exactly once.
pub open spec fn enumerates(order: Seq<MappingKey>, t: Map<MappingKey, Mapping>) -> bool {
    &&& order.no_duplicates()
    &&& forall|k: MappingKey| order.contains(k) <==> t.contains_key(k)
}

/// The mappings of `t` in the order of their keys in `order`.
pub open spec fn in_order(order: Seq<MappingKey>, t: Map<MappingKey, Mapping>) -> Seq<Mapping> {
    Seq::new(order.len(), |i: int| t[order[i]])
}

/// Whether `update` makes the anchor mirror the table `t`: a flush for the
/// empty table, else the rule lines of every mapping, each once. The order
/// of the mappings in the text is left open.
pub open spec fn mirrors(update: AnchorUpdate, ifname: Seq<char>, t: Map<MappingKey, Mapping>) -> bool {
    match update {
        AnchorUpdate::Flush => t == Map::<MappingKey, Mapping>::empty(),
        AnchorUpdate::Load(text) => t != Map::<MappingKey, Mapping>::empty() && exists|
            order: Seq<MappingKey>,
        |
            enumerates(order, t) && text@ == rules_text(ifname, #[trigger] in_order(order, t)),
    }
}

fn protocol_str(protocol: Protocol) -> (s: &'static str)
    ensures
        s@ == protocol_name(protocol),
{
    match protocol {
        Protocol::Udp => "udp",
        Protocol::Tcp => "tcp",
    }
}

/// Appends the two rule lines of `m` to `out`.
fn push_rule_lines(out: &mut String, ifname: &str, m: &Mapping)
    ensures
        final(out)@ == old(out)@ + rule_lines(ifname@, *m),
{
    let proto = protocol_str(m.protocol);
    out.append("rdr pass on ");
    out.append(ifname);
    out.append(" proto ");
    out.append(proto);
    out.append(" from any to any port ");
    push_decimal(out, m.external_port as u64);
    out.append(" -> ");
    m.internal_ip.push_dotted(out);
    out.append(" port ");
    push_decimal(out, m.internal_port as u64);
    out.append("\n");
    out.append("pass in quick on ");
    out.append(ifname);
    out.append(" proto ");
    out.append(proto);
    out.append(" from any to ");
    m.internal_ip.push_dotted(out);
    out.append(" port ");
    push_decimal(out, m.internal_port as u64);
    out.append("\n");
    assert(out@ =~= old(out)@ + rule_lines(ifname@, *m));
}

/// Derives from the whole table what the anchor must hold.
pub fn anchor_update(ext_ifname: &str, table: &MappingTable) -> (update: AnchorUpdate)
    requires
        table.wf(),
    ensures
        mirrors(update, ext_ifname@, table@),
{
    if table.is_empty() {
        return AnchorUpdate::Flush;
    }
    let keys = table.keys();
    let mut text = String::new();
    let mut i: usize = 0;
    while i < keys.len()
        invariant
            table.wf(),
            i <= keys.len(),
            forall|k: MappingKey| keys@.contains(k) <==> table@.contains_key(k),
            text@ == rules_text(ext_ifname@, in_order(keys@.take(i as int), table@)),
        decreases keys.len() - i,
    {
        assert(keys@.contains(keys@[i as int]));
        match table.get(keys[i]) {
            Some(m) => {
                push_rule_lines(&mut text, ext_ifname, &m);
                proof {
                    let done = in_order(keys@.take(i as int), table@);
                    let next = in_order(keys@.take(i + 1), table@);
                    assert(next.drop_last() =~= done);
                    assert(next.last() == m);
                }
            },
            None => {},
        }
        i = i + 1;
    }
    proof {
        assert(keys@.take(keys@.len() as int) =~= keys@);
        assert(enumerates(keys@, table@));
    }
    AnchorUpdate::Load(text)
}

} // verus!
