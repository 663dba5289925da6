//! Discovery of printers on the local IPv4 /24: the range to scan, the
//! (host, port) probes to make, and the candidates that answered probes
//! yield. The probes themselves are made by the caller.

use vstd::prelude::*;
use crate::text::{
    all_digits, chars_of, decimal, decimal_string, digits_up_to, digits_value, has_char,
    has_char_exec, lemma_decimal_digits, lemma_decimal_injective, lemma_join_cancel, replace_char,
    replace_char_of, split_of, split_on, views_of,
};

verus! {

/// A printer found listening on the network.
pub struct NetworkPrinter {
    pub ip: String,
    pub port: u16,
    /// `raw`, `ipp` or `lpd`, from the port that answered.
    pub protocol: String,
    /// Queue name made from the address and port.
    pub name: String,
    pub is_online: bool,
}

/// One connection attempt to make.
pub struct ProbeTarget {
    pub addr: u32,
    pub ip: String,
    pub port: u16,
}

/// Bound on one connection attempt.
pub const PROBE_TIMEOUT_MS: u64 = 100;

pub const RAW_PORT: u16 = 9100;
pub const IPP_PORT: u16 = 631;
pub const LPD_PORT: u16 = 515;

/// A dotted-quad part: one to three digits, no leading zero, at most 255.
pub open spec fn octet_ok(p: Seq<char>) -> bool {
    &&& p.len() <= 3
    &&& all_digits(p)
    &&& (p.len() == 1 || p[0] != '0')
    &&& digits_value(p) <= 255
}

/// The four octets of a dotted-quad IPv4 address.
pub open spec fn ipv4_spec(s: Seq<char>) -> Option<Seq<u8>> {
    let ps = split_on(s, '.');
    if ps.len() == 4 && octet_ok(ps[0]) && octet_ok(ps[1]) && octet_ok(ps[2]) && octet_ok(ps[3]) {
        Some(
            seq![
                digits_value(ps[0]) as u8,
                digits_value(ps[1]) as u8,
                digits_value(ps[2]) as u8,
                digits_value(ps[3]) as u8,
            ],
        )
    } else {
        None
    }
}

fn octet_value(p: &str) -> (r: Option<u8>)
    ensures
        match r {
            Some(v) => octet_ok(p@) && v as int == digits_value(p@),
            None => !octet_ok(p@),
        },
{
    let cs = chars_of(p);
    if cs.len() == 0 || cs.len() > 3 {
        return None;
    }
    if cs.len() > 1 && cs[0] == '0' {
        return None;
    }
    assert(cs@.subrange(0, cs@.len() as int) =~= p@);
    match digits_up_to(&cs, 0, 255) {
        Some(v) => Some(v as u8),
        None => None,
    }
}

/// Reads a dotted-quad IPv4 address.
pub fn parse_ipv4(s: &str) -> (r: Option<Vec<u8>>)
    ensures
        match r {
            Some(v) => ipv4_spec(s@) == Some(v@),
            None => ipv4_spec(s@) is None,
        },
{
    let ps = split_of(s, '.');
    if ps.len() != 4 {
        return None;
    }
    assert(views_of(ps@)[0] == ps@[0]@);
    assert(views_of(ps@)[1] == ps@[1]@);
    assert(views_of(ps@)[2] == ps@[2]@);
    assert(views_of(ps@)[3] == ps@[3]@);
    let a = match octet_value(ps[0].as_str()) {
        Some(v) => v,
        None => return None,
    };
    let b = match octet_value(ps[1].as_str()) {
        Some(v) => v,
        None => return None,
    };
    let c = match octet_value(ps[2].as_str()) {
        Some(v) => v,
        None => return None,
    };
    let d = match octet_value(ps[3].as_str()) {
        Some(v) => v,
        None => return None,
    };
    let r = vec![a, b, c, d];
    assert(r@ =~= ipv4_spec(s@).unwrap());
    Some(r)
}

/// Whether ipnetwork reads the text as an IPv6 network.
pub uninterp spec fn ipv6_network_text(s: Seq<char>) -> bool;

/// Relies on `ipnetwork::Ipv6Network::from_str`: it reads `addr/prefix`, and
/// text without a `/` exactly when `Ipv6Addr::from_str` reads it as an
/// address (taken as a /128); the answer depends on the text alone.
#[verifier::external_body]
fn parses_as_ipv6_network(s: &str) -> (r: bool)
    ensures
        r == ipv6_network_text(s@),
{
    s.parse::<ipnetwork::Ipv6Network>().is_ok()
}

/// An IPv6 address: text without a `/` that reads as an IPv6 network.
pub open spec fn ipv6_address_text(s: Seq<char>) -> bool {
    !has_char(s, '/') && ipv6_network_text(s)
}

/// Whether the text is an IPv6 address.
pub fn is_ipv6_address(s: &str) -> (r: bool)
    ensures
        r == ipv6_address_text(s@),
{
    !has_char_exec(s, '/') && parses_as_ipv6_network(s)
}

/// The /24 a local address belongs to, written `a.b.c.0/24`. An IPv6
/// address is not supported; any other text is not an address.
pub open spec fn network_range_spec(local_ip: Seq<char>) -> Result<Seq<char>, Seq<char>> {
    match ipv4_spec(local_ip) {
        Some(o) => Ok(
            decimal(o[0] as nat) + "."@ + decimal(o[1] as nat) + "."@ + decimal(o[2] as nat)
                + ".0/24"@,
        ),
        None => if ipv6_address_text(local_ip) {
            Err("IPv6 not supported yet"@)
        } else {
            Err("Invalid IP address: invalid IP address syntax"@)
        },
    }
}

pub open spec fn result_view(r: Result<String, String>) -> Result<Seq<char>, Seq<char>> {
    match r {
        Ok(s) => Ok(s@),
        Err(e) => Err(e@),
    }
}

/// The /24 network range of a local address.
pub fn get_network_range(local_ip: &str) -> (r: Result<String, String>)
    ensures
        result_view(r) == network_range_spec(local_ip@),
{
    match parse_ipv4(local_ip) {
        Some(o) => {
            let mut s = decimal_string(o[0] as u64);
            s.append(".");
            let b = decimal_string(o[1] as u64);
            s.append(b.as_str());
            s.append(".");
            let c = decimal_string(o[2] as u64);
            s.append(c.as_str());
            s.append(".0/24");
            Ok(s)
        },
        None => {
            if is_ipv6_address(local_ip) {
                Err(String::from_str("IPv6 not supported yet"))
            } else {
                Err(String::from_str("Invalid IP address: invalid IP address syntax"))
            }
        },
    }
}

/// What ipnetwork makes of a network range: the address and prefix length
/// of an IPv4 network, `None` for anything else.
pub uninterp spec fn ipv4_network_of(s: Seq<char>) -> Option<(u32, u8)>;

/// Relies on `ipnetwork::IpNetwork::from_str`: it reads `addr/prefix` (or a
/// bare address, or `addr/netmask`), and an IPv4 network has a prefix of at
/// most 32.
#[verifier::external_body]
fn parse_ipv4_network(s: &str) -> (r: Option<(u32, u8)>)
    ensures
        r == ipv4_network_of(s@),
        r matches Some(p) ==> p.1 <= 32,
{
    match s.parse::<ipnetwork::IpNetwork>() {
        Ok(ipnetwork::IpNetwork::V4(n)) => Some((u32::from(n.ip()), n.prefix())),
        _ => None,
    }
}

/// Number of addresses in a network with this prefix length.
pub open spec fn block_size(prefix: int) -> nat
    decreases 32 - prefix,
{
    if prefix >= 32 {
        1
    } else {
        2 * block_size(prefix + 1)
    }
}

/// Lowest address of the network: `addr` with its host bits cleared.
pub open spec fn network_base(addr: u32, prefix: u8) -> int {
    addr as int - (addr as int) % (block_size(prefix as int) as int)
}

/// Relies on `ipnetwork::Ipv4Network::iter`: every address from the network
/// address up to the broadcast address, in increasing order.
#[verifier::external_body]
fn network_hosts(addr: u32, prefix: u8) -> (r: Vec<u32>)
    requires
        24 <= prefix <= 32,
    ensures
        r@.len() == block_size(prefix as int),
        forall|i: int| 0 <= i < r@.len() ==> r@[i] == network_base(addr, prefix) + i,
{
    match ipnetwork::Ipv4Network::new(addr.into(), prefix) {
        Ok(n) => n.iter().map(u32::from).collect(),
        Err(_) => Vec::new(),
    }
}

/// Dotted-quad rendering of an address.
pub open spec fn dotted(a: u32) -> Seq<char> {
    decimal((a >> 24u32) as nat) + "."@ + decimal(((a >> 16u32) & 0xffu32) as nat) + "."@ + decimal(
        ((a >> 8u32) & 0xffu32) as nat,
    ) + "."@ + decimal((a & 0xffu32) as nat)
}

/// Renders an address as a dotted quad.
pub fn dotted_string(a: u32) -> (r: String)
    ensures
        r@ == dotted(a),
{
    let mut s = decimal_string((a >> 24u32) as u64);
    s.append(".");
    let b = decimal_string(((a >> 16u32) & 0xffu32) as u64);
    s.append(b.as_str());
    s.append(".");
    let c = decimal_string(((a >> 8u32) & 0xffu32) as u64);
    s.append(c.as_str());
    s.append(".");
    let d = decimal_string((a & 0xffu32) as u64);
    s.append(d.as_str());
    s
}

/// A host worth probing: neither the network (`.0`) nor the broadcast
/// (`.255`) address of its /24.
pub open spec fn usable_host(a: u32) -> bool {
    a % 256 != 0 && a % 256 != 255
}

/// The probes for `hosts[..i]`: each usable host on the raw, IPP and LPD
/// ports, in that order.
pub open spec fn probes_for(hosts: Seq<u32>, i: int) -> Seq<(u32, u16)>
    decreases i,
{
    if i <= 0 || i > hosts.len() {
        seq![]
    } else if usable_host(hosts[i - 1]) {
        probes_for(hosts, i - 1) + seq![
            (hosts[i - 1], RAW_PORT),
            (hosts[i - 1], IPP_PORT),
            (hosts[i - 1], LPD_PORT),
        ]
    } else {
        probes_for(hosts, i - 1)
    }
}

pub open spec fn target_key(t: ProbeTarget) -> (u32, u16) {
    (t.addr, t.port)
}

/// The addresses of the network a range names.
pub open spec fn range_hosts(range: Seq<char>) -> Seq<u32> {
    let (a, p) = ipv4_network_of(range).unwrap();
    Seq::new(block_size(p as int), |i: int| (network_base(a, p) + i) as u32)
}

/// The probes to make for a network range, or why there are none: the
/// range is not an IPv4 network, or is wider than a /24.
pub fn scan_targets(range: &str) -> (r: Result<Vec<ProbeTarget>, String>)
    ensures
        match ipv4_network_of(range@) {
            None => r matches Err(m) && m@ == "Invalid network range: "@ + range@,
            Some((a, p)) => if p < 24 {
                r matches Err(m) && m@ == "Network range is wider than /24: "@ + range@
            } else {
                r matches Ok(v) && v@.map_values(|t: ProbeTarget| target_key(t)) == probes_for(
                    range_hosts(range@),
                    range_hosts(range@).len() as int,
                ) && forall|k: int| 0 <= k < v@.len() ==> (#[trigger] v@[k]).ip@ == dotted(v@[k].addr)
            },
        },
{
    let parsed = parse_ipv4_network(range);
    let (a, p) = match parsed {
        None => {
            let mut m = String::from_str("Invalid network range: ");
            m.append(range);
            return Err(m);
        },
        Some(x) => x,
    };
    if p < 24 {
        let mut m = String::from_str("Network range is wider than /24: ");
        m.append(range);
        return Err(m);
    }
    let hosts = network_hosts(a, p);
    assert(hosts@ =~= range_hosts(range@));
    let ports: [u16; 3] = [RAW_PORT, IPP_PORT, LPD_PORT];
    let mut out: Vec<ProbeTarget> = Vec::new();
    let mut i: usize = 0;
    while i < hosts.len()
        invariant
            hosts@ == range_hosts(range@),
            i <= hosts@.len(),
            out@.map_values(|t: ProbeTarget| target_key(t)) == probes_for(hosts@, i as int),
            forall|k: int| 0 <= k < out@.len() ==> (#[trigger] out@[k]).ip@ == dotted(out@[k].addr),
        decreases hosts@.len() - i,
    {
        let h = hosts[i];
        if h % 256 != 0 && h % 256 != 255 {
            let ghost before = out@;
            let ip = dotted_string(h);
            out.push(ProbeTarget { addr: h, ip: ip.clone(), port: RAW_PORT });
            out.push(ProbeTarget { addr: h, ip: ip.clone(), port: IPP_PORT });
            out.push(ProbeTarget { addr: h, ip, port: LPD_PORT });
            assert(out@.map_values(|t: ProbeTarget| target_key(t)) =~= before.map_values(
                |t: ProbeTarget| target_key(t),
            ) + seq![(h, RAW_PORT), (h, IPP_PORT), (h, LPD_PORT)]);
        }
        i = i + 1;
    }
    Ok(out)
}

} // verus!

verus! {

/// Protocol tag of a printer port.
pub open spec fn protocol_of_port(port: u16) -> Seq<char> {
    if port == IPP_PORT {
        "ipp"@
    } else if port == RAW_PORT {
        "raw"@
    } else if port == LPD_PORT {
        "lpd"@
    } else {
        "unknown"@
    }
}

/// Queue name of a network printer: `Network_Printer_<ip with _>_<port>`.
pub open spec fn printer_name_for(ip: Seq<char>, port: u16) -> Seq<char> {
    "Network_Printer_"@ + replace_char(ip, '.', '_') + "_"@ + decimal(port as nat)
}

/// The candidate an answered probe yields.
pub open spec fn candidate_of(c: NetworkPrinter, t: ProbeTarget) -> bool {
    &&& c.ip@ == t.ip@
    &&& c.port == t.port
    &&& c.protocol@ == protocol_of_port(t.port)
    &&& c.name@ == printer_name_for(t.ip@, t.port)
    &&& c.is_online
}

/// Positions `k < i` whose probe was answered, in increasing order.
pub open spec fn answered(open: Seq<bool>, i: int) -> Seq<int>
    decreases i,
{
    if i <= 0 || i > open.len() {
        seq![]
    } else if open[i - 1] {
        answered(open, i - 1).push(i - 1)
    } else {
        answered(open, i - 1)
    }
}

fn protocol_string(port: u16) -> (r: String)
    ensures
        r@ == protocol_of_port(port),
{
    if port == IPP_PORT {
        String::from_str("ipp")
    } else if port == RAW_PORT {
        String::from_str("raw")
    } else if port == LPD_PORT {
        String::from_str("lpd")
    } else {
        String::from_str("unknown")
    }
}

/// Queue name of the printer at `ip` on `port`.
pub fn printer_name(ip: &str, port: u16) -> (r: String)
    ensures
        r@ == printer_name_for(ip@, port),
{
    let mut s = String::from_str("Network_Printer_");
    proof {
        reveal_strlit("_");
    }
    let u = replace_char_of(ip, '.', "_");
    s.append(u.as_str());
    s.append("_");
    let p = decimal_string(port as u64);
    s.append(p.as_str());
    s
}

/// The printers that answered: one candidate per probe whose entry in
/// `open` is true, in probe order.
pub fn candidates_from_probes(targets: &Vec<ProbeTarget>, open: &Vec<bool>) -> (r: Vec<NetworkPrinter>)
    requires
        targets@.len() == open@.len(),
    ensures
        r@.len() == answered(open@, open@.len() as int).len(),
        forall|m: int|
            0 <= m < r@.len() ==> candidate_of(
                #[trigger] r@[m],
                targets@[answered(open@, open@.len() as int)[m]],
            ),
{
    let mut out: Vec<NetworkPrinter> = Vec::new();
    let mut i: usize = 0;
    while i < targets.len()
        invariant
            targets@.len() == open@.len(),
            i <= targets@.len(),
            out@.len() == answered(open@, i as int).len(),
            forall|m: int|
                0 <= m < out@.len() ==> candidate_of(
                    #[trigger] out@[m],
                    targets@[answered(open@, i as int)[m]],
                ),
        decreases targets@.len() - i,
    {
        if open[i] {
            let t = &targets[i];
            let c = NetworkPrinter {
                ip: t.ip.clone(),
                port: t.port,
                protocol: protocol_string(t.port),
                name: printer_name(t.ip.as_str(), t.port),
                is_online: true,
            };
            out.push(c);
        }
        i = i + 1;
    }
    out
}

proof fn lemma_answered_increasing(open: Seq<bool>, i: int)
    requires
        0 <= i <= open.len(),
    ensures
        forall|a: int, b: int|
            0 <= a < b < answered(open, i).len() ==> answered(open, i)[a] < answered(open, i)[b],
        forall|a: int| 0 <= a < answered(open, i).len() ==> 0 <= #[trigger] answered(open, i)[a] < i,
    decreases i,
{
    if i > 0 {
        lemma_answered_increasing(open, i - 1);
        let prev = answered(open, i - 1);
        let cur = answered(open, i);
        if open[i - 1] {
            assert(cur == prev.push(i - 1));
            assert forall|a: int, b: int| 0 <= a < b < cur.len() implies cur[a] < cur[b] by {
                if b < prev.len() {
                    assert(prev[a] < prev[b]);
                } else {
                    assert(0 <= prev[a] < i - 1);
                }
            }
            assert forall|a: int| 0 <= a < cur.len() implies 0 <= #[trigger] cur[a] < i by {
                if a < prev.len() {
                    assert(0 <= prev[a] < i - 1);
                }
            }
        } else {
            assert(cur == prev);
            assert forall|a: int| 0 <= a < cur.len() implies 0 <= #[trigger] cur[a] < i by {
                assert(0 <= prev[a] < i - 1);
            }
        }
    }
}

/// Probes to pairwise distinct (address, port) pairs yield candidates with
/// pairwise distinct (ip, port) pairs.
pub proof fn lemma_candidates_distinct(targets: Seq<ProbeTarget>, open: Seq<bool>, cands: Seq<NetworkPrinter>)
    requires
        targets.len() == open.len(),
        forall|a: int, b: int|
            0 <= a < b < targets.len() ==> (targets[a].ip@, targets[a].port) != (
                targets[b].ip@,
                targets[b].port,
            ),
        cands.len() == answered(open, open.len() as int).len(),
        forall|m: int|
            0 <= m < cands.len() ==> candidate_of(
                #[trigger] cands[m],
                targets[answered(open, open.len() as int)[m]],
            ),
    ensures
        forall|a: int, b: int|
            0 <= a < b < cands.len() ==> (cands[a].ip@, cands[a].port) != (cands[b].ip@, cands[b].port),
{
    lemma_answered_increasing(open, open.len() as int);
    let idx = answered(open, open.len() as int);
    assert forall|a: int, b: int| 0 <= a < b < cands.len() implies (cands[a].ip@, cands[a].port) != (
        cands[b].ip@,
        cands[b].port,
    ) by {
        assert(candidate_of(cands[a], targets[idx[a]]));
        assert(candidate_of(cands[b], targets[idx[b]]));
        assert(idx[a] < idx[b]);
        assert(0 <= idx[a]);
        assert(idx[b] < targets.len());
    }
}

} // verus!

verus! {

proof fn lemma_octets_determine(a: u32, b: u32)
    requires
        a >> 24u32 == b >> 24u32,
        (a >> 16u32) & 0xffu32 == (b >> 16u32) & 0xffu32,
        (a >> 8u32) & 0xffu32 == (b >> 8u32) & 0xffu32,
        a & 0xffu32 == b & 0xffu32,
    ensures
        a == b,
{
    assert(a == b) by (bit_vector)
        requires
            a >> 24u32 == b >> 24u32,
            (a >> 16u32) & 0xffu32 == (b >> 16u32) & 0xffu32,
            (a >> 8u32) & 0xffu32 == (b >> 8u32) & 0xffu32,
            a & 0xffu32 == b & 0xffu32,
    ;
}

proof fn lemma_no_dot_in_decimal(n: nat)
    ensures
        forall|i: int| 0 <= i < decimal(n).len() ==> decimal(n)[i] != '.',
{
    lemma_decimal_digits(n);
}

proof fn lemma_dotted_shape(a: u32)
    ensures
        dotted(a) == decimal((a >> 24u32) as nat) + seq!['.'] + (decimal(((a >> 16u32) & 0xffu32) as nat)
            + seq!['.'] + (decimal(((a >> 8u32) & 0xffu32) as nat) + seq!['.'] + decimal(
            (a & 0xffu32) as nat,
        ))),
{
    reveal_strlit(".");
    assert(dotted(a) =~= decimal((a >> 24u32) as nat) + seq!['.'] + (decimal(
        ((a >> 16u32) & 0xffu32) as nat,
    ) + seq!['.'] + (decimal(((a >> 8u32) & 0xffu32) as nat) + seq!['.'] + decimal(
        (a & 0xffu32) as nat,
    ))));
}

/// Distinct addresses have distinct dotted renderings.
pub proof fn lemma_dotted_injective(a: u32, b: u32)
    requires
        dotted(a) == dotted(b),
    ensures
        a == b,
{
    let (oa1, oa2, oa3, oa4) = (
        (a >> 24u32) as nat,
        ((a >> 16u32) & 0xffu32) as nat,
        ((a >> 8u32) & 0xffu32) as nat,
        (a & 0xffu32) as nat,
    );
    let (ob1, ob2, ob3, ob4) = (
        (b >> 24u32) as nat,
        ((b >> 16u32) & 0xffu32) as nat,
        ((b >> 8u32) & 0xffu32) as nat,
        (b & 0xffu32) as nat,
    );
    lemma_no_dot_in_decimal(oa1);
    lemma_no_dot_in_decimal(oa2);
    lemma_no_dot_in_decimal(oa3);
    lemma_no_dot_in_decimal(ob1);
    lemma_no_dot_in_decimal(ob2);
    lemma_no_dot_in_decimal(ob3);
    lemma_dotted_shape(a);
    lemma_dotted_shape(b);
    let ta = decimal(oa3) + seq!['.'] + decimal(oa4);
    let tb = decimal(ob3) + seq!['.'] + decimal(ob4);
    let ra = decimal(oa2) + seq!['.'] + ta;
    let rb = decimal(ob2) + seq!['.'] + tb;
    lemma_join_cancel(decimal(oa1), ra, decimal(ob1), rb, '.');
    lemma_join_cancel(decimal(oa2), ta, decimal(ob2), tb, '.');
    lemma_join_cancel(decimal(oa3), decimal(oa4), decimal(ob3), decimal(ob4), '.');
    lemma_decimal_injective(oa1, ob1);
    lemma_decimal_injective(oa2, ob2);
    lemma_decimal_injective(oa3, ob3);
    lemma_decimal_injective(oa4, ob4);
    lemma_octets_determine(a, b);
}

proof fn lemma_probes_distinct(hosts: Seq<u32>, i: int)
    requires
        0 <= i <= hosts.len(),
        forall|j: int, k: int| 0 <= j < k < hosts.len() ==> hosts[j] != hosts[k],
    ensures
        forall|e: int|
            0 <= e < probes_for(hosts, i).len() ==> exists|j: int|
                0 <= j < i && (#[trigger] probes_for(hosts, i)[e]).0 == hosts[j],
        forall|x: int, y: int|
            0 <= x < y < probes_for(hosts, i).len() ==> probes_for(hosts, i)[x] != probes_for(
                hosts,
                i,
            )[y],
    decreases i,
{
    if i > 0 {
        lemma_probes_distinct(hosts, i - 1);
        let prev = probes_for(hosts, i - 1);
        let cur = probes_for(hosts, i);
        let h = hosts[i - 1];
        if usable_host(h) {
            let batch = seq![(h, RAW_PORT), (h, IPP_PORT), (h, LPD_PORT)];
            assert(cur == prev + batch);
            assert forall|e: int| 0 <= e < cur.len() implies exists|j: int|
                0 <= j < i && (#[trigger] cur[e]).0 == hosts[j] by {
                if e < prev.len() {
                    assert(cur[e] == prev[e]);
                    let j = choose|j: int| 0 <= j < i - 1 && prev[e].0 == hosts[j];
                    assert(0 <= j < i && cur[e].0 == hosts[j]);
                } else {
                    assert(cur[e].0 == hosts[i - 1]);
                }
            }
            assert forall|x: int, y: int| 0 <= x < y < cur.len() implies cur[x] != cur[y] by {
                if y < prev.len() {
                    assert(cur[x] == prev[x] && cur[y] == prev[y]);
                } else if x < prev.len() {
                    assert(cur[x] == prev[x]);
                    let j = choose|j: int| 0 <= j < i - 1 && prev[x].0 == hosts[j];
                    assert(hosts[j] != hosts[i - 1]);
                    assert(cur[y].0 == h);
                } else {
                    assert(cur[x].1 != cur[y].1);
                }
            }
        } else {
            assert(cur == prev);
            assert forall|e: int| 0 <= e < cur.len() implies exists|j: int|
                0 <= j < i && (#[trigger] cur[e]).0 == hosts[j] by {
                let j = choose|j: int| 0 <= j < i - 1 && prev[e].0 == hosts[j];
                assert(0 <= j < i && cur[e].0 == hosts[j]);
            }
        }
    }
}

proof fn lemma_block_fits(a: u32, p: u8)
    requires
        24 <= p <= 32,
    ensures
        network_base(a, p) + block_size(p as int) <= 0x1_0000_0000,
        0 <= network_base(a, p),
        block_size(p as int) >= 1,
{
    reveal_with_fuel(block_size, 10);
    let s = block_size(p as int) as int;
    if p == 24 {
        assert(block_size(24) == 256);
    } else if p == 25 {
        assert(block_size(25) == 128);
    } else if p == 26 {
        assert(block_size(26) == 64);
    } else if p == 27 {
        assert(block_size(27) == 32);
    } else if p == 28 {
        assert(block_size(28) == 16);
    } else if p == 29 {
        assert(block_size(29) == 8);
    } else if p == 30 {
        assert(block_size(30) == 4);
    } else if p == 31 {
        assert(block_size(31) == 2);
    } else {
        assert(block_size(32) == 1);
    }
    assert(s >= 1 && 0x1_0000_0000int % s == 0);
    let x = a as int;
    let q = x / s;
    let k = 0x1_0000_0000int / s;
    assert(x - x % s == q * s) by (nonlinear_arith)
        requires
            s >= 1,
            q == x / s,
    ;
    assert(k * s == 0x1_0000_0000int) by (nonlinear_arith)
        requires
            s >= 1,
            k == 0x1_0000_0000int / s,
            0x1_0000_0000int % s == 0,
    ;
    assert(q >= 0) by (nonlinear_arith)
        requires
            s >= 1,
            q == x / s,
            x >= 0,
    ;
    assert(q * s >= 0) by (nonlinear_arith)
        requires
            s >= 1,
            q >= 0,
    ;
    assert(q * s + s <= 0x1_0000_0000int) by (nonlinear_arith)
        requires
            s >= 1,
            q == x / s,
            0 <= x < 0x1_0000_0000int,
            k * s == 0x1_0000_0000int,
    ;
}

/// Scanning an IPv4 range of at most a /24 never yields two candidates with
/// the same (ip, port), whichever probes are answered.
pub proof fn lemma_scan_no_duplicates(range: Seq<char>, targets: Seq<ProbeTarget>, open: Seq<bool>, cands: Seq<NetworkPrinter>)
    requires
        ipv4_network_of(range) matches Some(n) && 24 <= n.1 <= 32,
        targets.map_values(|t: ProbeTarget| target_key(t)) == probes_for(
            range_hosts(range),
            range_hosts(range).len() as int,
        ),
        forall|k: int| 0 <= k < targets.len() ==> (#[trigger] targets[k]).ip@ == dotted(targets[k].addr),
        targets.len() == open.len(),
        cands.len() == answered(open, open.len() as int).len(),
        forall|m: int|
            0 <= m < cands.len() ==> candidate_of(
                #[trigger] cands[m],
                targets[answered(open, open.len() as int)[m]],
            ),
    ensures
        forall|a: int, b: int|
            0 <= a < b < cands.len() ==> (cands[a].ip@, cands[a].port) != (cands[b].ip@, cands[b].port),
{
    let (addr, p) = ipv4_network_of(range).unwrap();
    let hosts = range_hosts(range);
    lemma_block_fits(addr, p);
    assert forall|j: int, k: int| 0 <= j < k < hosts.len() implies hosts[j] != hosts[k] by {
        assert(hosts[j] == network_base(addr, p) + j);
        assert(hosts[k] == network_base(addr, p) + k);
    }
    lemma_probes_distinct(hosts, hosts.len() as int);
    let keys = targets.map_values(|t: ProbeTarget| target_key(t));
    assert forall|a: int, b: int| 0 <= a < b < targets.len() implies (targets[a].ip@, targets[a].port)
        != (targets[b].ip@, targets[b].port) by {
        assert(keys[a] == target_key(targets[a]));
        assert(keys[b] == target_key(targets[b]));
        if targets[a].ip@ == targets[b].ip@ && targets[a].port == targets[b].port {
            lemma_dotted_injective(targets[a].addr, targets[b].addr);
        }
    }
    lemma_candidates_distinct(targets, open, cands);
}

} // verus!
