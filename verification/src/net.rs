//! Network addresses, held as plain values, and the ranking the discovery
//! layer uses to pick the address a sender should dial.

use vstd::prelude::*;
use crate::text::{append_decimal, append_hex, append_str, decimal, hex};

verus! {

/// An IP address: four octets, or eight 16-bit segments.
#[derive(Debug, Clone, Copy, PartialEq, Eq, Hash)]
pub enum IpAddress {
    V4([u8; 4]),
    V6([u16; 8]),
}

#[derive(Debug, Clone, Copy, PartialEq, Eq, Hash)]
pub struct SocketAddress {
    pub ip: IpAddress,
    pub port: u16,
}

/// Whether two addresses are the same address.
pub fn same_ip_address(a: &IpAddress, b: &IpAddress) -> (r: bool)
    ensures
        r == (*a == *b),
{
    match (a, b) {
        (IpAddress::V4(x), IpAddress::V4(y)) => {
            let r = x[0] == y[0] && x[1] == y[1] && x[2] == y[2] && x[3] == y[3];
            assert(r ==> *x =~= *y);
            r
        },
        (IpAddress::V6(x), IpAddress::V6(y)) => {
            let r = x[0] == y[0] && x[1] == y[1] && x[2] == y[2] && x[3] == y[3] && x[4] == y[4]
                && x[5] == y[5] && x[6] == y[6] && x[7] == y[7];
            assert(r ==> *x =~= *y);
            r
        },
        _ => false,
    }
}

/// Whether two socket addresses are the same address and port.
pub fn same_socket_address(a: &SocketAddress, b: &SocketAddress) -> (r: bool)
    ensures
        r == (*a == *b),
{
    a.port == b.port && same_ip_address(&a.ip, &b.ip)
}

/// 127.0.0.0/8.
pub open spec fn v4_loopback(o: [u8; 4]) -> bool {
    o@[0] == 127
}

/// 0.0.0.0.
pub open spec fn v4_unspecified(o: [u8; 4]) -> bool {
    o@[0] == 0 && o@[1] == 0 && o@[2] == 0 && o@[3] == 0
}

/// 224.0.0.0/4.
pub open spec fn v4_multicast(o: [u8; 4]) -> bool {
    224 <= o@[0] <= 239
}

/// 169.254.0.0/16.
pub open spec fn v4_link_local(o: [u8; 4]) -> bool {
    o@[0] == 169 && o@[1] == 254
}

/// 10.0.0.0/8, 172.16.0.0/12 and 192.168.0.0/16.
pub open spec fn v4_private(o: [u8; 4]) -> bool {
    o@[0] == 10 || (o@[0] == 172 && 16 <= o@[1] <= 31) || (o@[0] == 192 && o@[1] == 168)
}

/// 172.17.0.0 to 172.31.255.255, the ranges container bridges use.
pub open spec fn v4_docker(o: [u8; 4]) -> bool {
    o@[0] == 172 && 17 <= o@[1] <= 31
}

/// ::1.
pub open spec fn v6_loopback(s: [u16; 8]) -> bool {
    s@[0] == 0 && s@[1] == 0 && s@[2] == 0 && s@[3] == 0 && s@[4] == 0 && s@[5] == 0 && s@[6] == 0
        && s@[7] == 1
}

/// ::.
pub open spec fn v6_unspecified(s: [u16; 8]) -> bool {
    s@[0] == 0 && s@[1] == 0 && s@[2] == 0 && s@[3] == 0 && s@[4] == 0 && s@[5] == 0 && s@[6] == 0
        && s@[7] == 0
}

/// ff00::/8.
pub open spec fn v6_multicast(s: [u16; 8]) -> bool {
    s@[0] >= 0xff00
}

/// fe80::/10.
pub open spec fn v6_unicast_link_local(s: [u16; 8]) -> bool {
    0xfe80 <= s@[0] <= 0xfebf
}

/// fc00::/7.
pub open spec fn v6_unique_local(s: [u16; 8]) -> bool {
    0xfc00 <= s@[0] <= 0xfdff
}

/// How useful an address is to a remote sender, from 0 (useless) to 5.
pub open spec fn address_quality(a: IpAddress) -> u8 {
    match a {
        IpAddress::V4(o) => if v4_loopback(o) || v4_unspecified(o) || v4_multicast(o) {
            0
        } else if v4_docker(o) {
            1
        } else if v4_link_local(o) {
            2
        } else if v4_private(o) {
            5
        } else {
            4
        },
        IpAddress::V6(s) => if v6_loopback(s) || v6_unspecified(s) || v6_multicast(s) {
            0
        } else if v6_unicast_link_local(s) {
            2
        } else if v6_unique_local(s) {
            3
        } else {
            4
        },
    }
}

/// IPv4 wins ties of quality.
pub open spec fn family_preference(a: IpAddress) -> u8 {
    match a {
        IpAddress::V4(_) => 1,
        IpAddress::V6(_) => 0,
    }
}

/// The rank pair `(quality, family)` as one integer with the same order.
pub open spec fn rank_key(a: IpAddress) -> int {
    2 * address_quality(a) + family_preference(a)
}

/// An address a remote device could dial: not loopback, unspecified,
/// multicast or a container bridge.
pub open spec fn remote_candidate(a: IpAddress) -> bool {
    match a {
        IpAddress::V4(o) => !(v4_loopback(o) || v4_unspecified(o) || v4_multicast(o) || v4_docker(o)),
        IpAddress::V6(s) => !(v6_loopback(s) || v6_unspecified(s) || v6_multicast(s)),
    }
}

/// The best-ranked candidate address, the last one among equals.
pub open spec fn preferred_address(s: Seq<IpAddress>) -> Option<IpAddress>
    decreases s.len(),
{
    if s.len() == 0 {
        None
    } else {
        let best = preferred_address(s.drop_last());
        let a = s.last();
        if !remote_candidate(a) {
            best
        } else {
            match best {
                Some(b) => if rank_key(a) >= rank_key(b) {
                    Some(a)
                } else {
                    Some(b)
                },
                None => Some(a),
            }
        }
    }
}

pub fn is_likely_docker_ipv4(octets: [u8; 4]) -> (r: bool)
    ensures
        r == v4_docker(octets),
{
    octets[0] == 172 && 17 <= octets[1] && octets[1] <= 31
}

fn v4_quality(o: [u8; 4]) -> (r: u8)
    ensures
        r == address_quality(IpAddress::V4(o)),
{
    let loopback = o[0] == 127;
    let unspecified = o[0] == 0 && o[1] == 0 && o[2] == 0 && o[3] == 0;
    let multicast = 224 <= o[0] && o[0] <= 239;
    if loopback || unspecified || multicast {
        0
    } else if is_likely_docker_ipv4(o) {
        1
    } else if o[0] == 169 && o[1] == 254 {
        2
    } else if o[0] == 10 || (o[0] == 172 && 16 <= o[1] && o[1] <= 31) || (o[0] == 192 && o[1]
        == 168) {
        5
    } else {
        4
    }
}

fn v6_zero_prefix(s: [u16; 8]) -> (r: bool)
    ensures
        r == (s@[0] == 0 && s@[1] == 0 && s@[2] == 0 && s@[3] == 0 && s@[4] == 0 && s@[5] == 0
            && s@[6] == 0),
{
    s[0] == 0 && s[1] == 0 && s[2] == 0 && s[3] == 0 && s[4] == 0 && s[5] == 0 && s[6] == 0
}

fn v6_quality(s: [u16; 8]) -> (r: u8)
    ensures
        r == address_quality(IpAddress::V6(s)),
{
    let zero_prefix = v6_zero_prefix(s);
    let loopback = zero_prefix && s[7] == 1;
    let unspecified = zero_prefix && s[7] == 0;
    if loopback || unspecified || s[0] >= 0xff00 {
        0
    } else if 0xfe80 <= s[0] && s[0] <= 0xfebf {
        2
    } else if 0xfc00 <= s[0] && s[0] <= 0xfdff {
        3
    } else {
        4
    }
}

/// The rank `(quality, family)` by which candidate addresses are compared.
pub fn endpoint_rank(address: IpAddress) -> (r: (u8, u8))
    ensures
        r == (address_quality(address), family_preference(address)),
{
    match address {
        IpAddress::V4(o) => (v4_quality(o), 1),
        IpAddress::V6(s) => (v6_quality(s), 0),
    }
}

pub fn is_remote_selection_candidate(address: IpAddress) -> (r: bool)
    ensures
        r == remote_candidate(address),
{
    match address {
        IpAddress::V4(o) => {
            let loopback = o[0] == 127;
            let unspecified = o[0] == 0 && o[1] == 0 && o[2] == 0 && o[3] == 0;
            let multicast = 224 <= o[0] && o[0] <= 239;
            !(loopback || unspecified || multicast || is_likely_docker_ipv4(o))
        },
        IpAddress::V6(s) => {
            let zero_prefix = v6_zero_prefix(s);
            !((zero_prefix && s[7] == 1) || (zero_prefix && s[7] == 0) || s[0] >= 0xff00)
        },
    }
}

/// Whether rank `a` is at least rank `b`, comparing quality then family.
fn rank_at_least(a: (u8, u8), b: (u8, u8)) -> (r: bool)
    requires
        a.1 <= 1,
        b.1 <= 1,
    ensures
        r == (2 * a.0 + a.1 >= 2 * b.0 + b.1),
{
    a.0 > b.0 || (a.0 == b.0 && a.1 >= b.1)
}

/// The candidate address with the best rank; among equally ranked ones, the
/// last.
pub fn select_preferred_ip_address(addresses: &[IpAddress]) -> (r: Option<IpAddress>)
    ensures
        r == preferred_address(addresses@),
{
    let mut best: Option<IpAddress> = None;
    let mut i: usize = 0;
    while i < addresses.len()
        invariant
            i <= addresses@.len(),
            best == preferred_address(addresses@.subrange(0, i as int)),
        decreases addresses@.len() - i,
    {
        let a = addresses[i];
        proof {
            assert(addresses@.subrange(0, i + 1).drop_last() =~= addresses@.subrange(0, i as int));
        }
        if is_remote_selection_candidate(a) {
            best = match best {
                Some(b) => if rank_at_least(endpoint_rank(a), endpoint_rank(b)) {
                    Some(a)
                } else {
                    Some(b)
                },
                None => Some(a),
            };
        }
        i = i + 1;
    }
    assert(addresses@.subrange(0, addresses@.len() as int) =~= addresses@);
    best
}

/// A LAN IPv4 address (private and not a container bridge) is what a
/// sender should dial: it outranks every other dialable address, and its
/// quality is the highest there is.
pub proof fn lemma_lan_ipv4_outranks_all(o: [u8; 4], other: IpAddress)
    requires
        v4_private(o),
        !v4_docker(o),
        remote_candidate(other),
        !(other matches IpAddress::V4(p) && v4_private(p) && !v4_docker(p)),
    ensures
        rank_key(IpAddress::V4(o)) > rank_key(other),
        address_quality(other) < address_quality(IpAddress::V4(o)),
        forall|a: IpAddress| #[trigger] address_quality(a) <= address_quality(IpAddress::V4(o)),
{
}

/// Among the other dialable addresses: a global address (public IPv4 or
/// global IPv6) beats a unique-local IPv6, which beats a link-local one;
/// and at equal quality IPv4 beats IPv6.
pub proof fn lemma_address_classes_are_ordered(a: IpAddress, b: IpAddress)
    ensures
        (a matches IpAddress::V6(s) && v6_unique_local(s) && !v6_multicast(s))
            && (b matches IpAddress::V6(t) && v6_unicast_link_local(t))
            ==> rank_key(a) > rank_key(b),
        (a matches IpAddress::V4(o) && !v4_private(o) && !v4_docker(o) && !v4_link_local(o) && !v4_loopback(o)
            && !v4_unspecified(o) && !v4_multicast(o))
            && (b matches IpAddress::V6(t) && (v6_unique_local(t) || v6_unicast_link_local(t)))
            ==> rank_key(a) > rank_key(b),
        (a matches IpAddress::V4(o) && !v4_private(o) && !v4_docker(o) && !v4_link_local(o) && !v4_loopback(o)
            && !v4_unspecified(o) && !v4_multicast(o))
            && (b matches IpAddress::V6(t) && !v6_unique_local(t) && !v6_unicast_link_local(t) && !v6_loopback(t)
            && !v6_unspecified(t) && !v6_multicast(t))
            ==> rank_key(a) > rank_key(b) && address_quality(a) == address_quality(b),
{
}

/// Given a LAN IPv4 address among the candidates, the one picked to dial
/// is a LAN IPv4 address.
pub proof fn lemma_lan_ipv4_is_preferred(s: Seq<IpAddress>, k: int)
    requires
        0 <= k < s.len(),
        s[k] matches IpAddress::V4(o) && v4_private(o) && !v4_docker(o),
    ensures
        preferred_address(s) matches Some(IpAddress::V4(p)) && v4_private(p) && !v4_docker(p),
{
    lemma_preferred_address_is_best(s);
    let a = preferred_address(s)->0;
    match s[k] {
        IpAddress::V4(o) => {
            assert(remote_candidate(s[k]));
            assert(rank_key(s[k]) <= rank_key(a));
            if !(a matches IpAddress::V4(p) && v4_private(p) && !v4_docker(p)) {
                lemma_lan_ipv4_outranks_all(o, a);
            }
        },
        _ => {},
    }
}

/// The preferred address is a dialable one that no other dialable address
/// outranks, and there is none only when no address is dialable.
pub proof fn lemma_preferred_address_is_best(s: Seq<IpAddress>)
    ensures
        match preferred_address(s) {
            Some(a) => s.contains(a) && remote_candidate(a) && forall|j: int|
                0 <= j < s.len() && remote_candidate(#[trigger] s[j]) ==> rank_key(s[j]) <= rank_key(a),
            None => forall|j: int| 0 <= j < s.len() ==> !remote_candidate(#[trigger] s[j]),
        },
    decreases s.len(),
{
    if s.len() > 0 {
        let rest = s.drop_last();
        let a = s.last();
        lemma_preferred_address_is_best(rest);
        assert(s[s.len() - 1] == a);
        assert forall|j: int| 0 <= j < rest.len() implies rest[j] == #[trigger] s[j] by {}
        match preferred_address(rest) {
            Some(b) => {
                let k = choose|k: int| 0 <= k < rest.len() && rest[k] == b;
                assert(s[k] == b);
                assert forall|j: int|
                    0 <= j < s.len() && remote_candidate(#[trigger] s[j]) implies rank_key(s[j])
                    <= rank_key(preferred_address(s)->0) by {
                    if j < rest.len() {
                        assert(rest[j] == s[j]);
                    }
                }
            },
            None => {
                assert forall|j: int|
                    0 <= j < s.len() && remote_candidate(#[trigger] s[j]) implies j == s.len() - 1 by {
                    if j < rest.len() {
                        assert(rest[j] == s[j]);
                    }
                }
            },
        }
    }
}

/// Dotted-decimal text of an IPv4 address.
pub open spec fn ipv4_text(o: [u8; 4]) -> Seq<char> {
    decimal(o@[0] as nat) + "."@ + decimal(o@[1] as nat) + "."@ + decimal(o@[2] as nat) + "."@
        + decimal(o@[3] as nat)
}

/// Number of zero segments in a row from index `i`.
pub open spec fn zero_run(segs: Seq<u16>, i: int) -> nat
    decreases segs.len() - i,
{
    if 0 <= i < segs.len() && segs[i] == 0 {
        1 + zero_run(segs, i + 1)
    } else {
        0
    }
}

/// Start and length of the first longest run of zero segments that starts
/// before index `n`.
pub open spec fn longest_zero_run(segs: Seq<u16>, n: int) -> (int, nat)
    decreases n,
{
    if n <= 0 {
        (0, 0)
    } else {
        let best = longest_zero_run(segs, n - 1);
        let run = zero_run(segs, n - 1);
        if run > best.1 { (n - 1, run) } else { best }
    }
}

/// Segments in hexadecimal, separated by colons.
pub open spec fn hex_segments(segs: Seq<u16>) -> Seq<char>
    decreases segs.len(),
{
    if segs.len() == 0 {
        Seq::empty()
    } else if segs.len() == 1 {
        hex(segs[0] as nat)
    } else {
        hex_segments(segs.drop_last()) + ":"@ + hex(segs.last() as nat)
    }
}

/// `::ffff:a.b.c.d`, the IPv4-mapped form.
pub open spec fn ipv4_mapped(segs: Seq<u16>) -> bool {
    segs[0] == 0 && segs[1] == 0 && segs[2] == 0 && segs[3] == 0 && segs[4] == 0 && segs[5] == 0xffff
}

/// Text of an IPv6 address: an IPv4-mapped address with its IPv4 part
/// dotted, otherwise hexadecimal segments with the first longest run of two
/// or more zero segments written `::`.
pub open spec fn ipv6_text(s: [u16; 8]) -> Seq<char> {
    let segs = s@;
    if ipv4_mapped(segs) {
        "::ffff:"@ + ipv4_text([(segs[6] / 256) as u8, (segs[6] % 256) as u8, (segs[7] / 256) as u8, (segs[7] % 256) as u8])
    } else {
        let run = longest_zero_run(segs, 8);
        if run.1 > 1 {
            hex_segments(segs.subrange(0, run.0)) + "::"@ + hex_segments(segs.subrange(run.0 + run.1, 8))
        } else {
            hex_segments(segs)
        }
    }
}

pub open spec fn ip_text(ip: IpAddress) -> Seq<char> {
    match ip {
        IpAddress::V4(o) => ipv4_text(o),
        IpAddress::V6(s) => ipv6_text(s),
    }
}

/// `a.b.c.d:port`, or `[v6]:port`.
pub open spec fn socket_text(a: SocketAddress) -> Seq<char> {
    match a.ip {
        IpAddress::V4(o) => ipv4_text(o) + ":"@ + decimal(a.port as nat),
        IpAddress::V6(s) => "["@ + ipv6_text(s) + "]:"@ + decimal(a.port as nat),
    }
}

fn append_ipv4(out: &mut String, o: [u8; 4])
    ensures
        final(out)@ == old(out)@ + ipv4_text(o),
{
    append_decimal(out, o[0] as u64);
    append_str(out, ".");
    append_decimal(out, o[1] as u64);
    append_str(out, ".");
    append_decimal(out, o[2] as u64);
    append_str(out, ".");
    append_decimal(out, o[3] as u64);
    proof {
        reveal_strlit(".");
    }
    assert(final(out)@ =~= old(out)@ + ipv4_text(o));
}

fn zero_run_at(segs: &[u16; 8], i: usize) -> (r: usize)
    requires
        i <= 8,
    ensures
        r == zero_run(segs@, i as int),
        i + r <= 8,
{
    let mut j = i;
    while j < 8 && segs[j] == 0
        invariant
            i <= j <= 8,
            segs@.len() == 8,
            zero_run(segs@, i as int) == (j - i) + zero_run(segs@, j as int),
        decreases 8 - j,
    {
        j = j + 1;
    }
    j - i
}

proof fn lemma_zero_run_bounded(segs: Seq<u16>, i: int)
    requires
        0 <= i <= segs.len(),
    ensures
        i + zero_run(segs, i) <= segs.len(),
        forall|k: int| i <= k < i + zero_run(segs, i) ==> segs[k] == 0,
    decreases segs.len() - i,
{
    if i < segs.len() && segs[i] == 0 {
        lemma_zero_run_bounded(segs, i + 1);
    }
}

proof fn lemma_longest_bounded(segs: Seq<u16>, n: int)
    requires
        0 <= n <= segs.len(),
    ensures
        0 <= longest_zero_run(segs, n).0,
        longest_zero_run(segs, n).0 + longest_zero_run(segs, n).1 <= segs.len(),
    decreases n,
{
    if n > 0 {
        lemma_longest_bounded(segs, n - 1);
        lemma_zero_run_bounded(segs, n - 1);
    }
}

fn append_hex_segments(out: &mut String, segs: &[u16; 8], start: usize, end: usize)
    requires
        start <= end <= 8,
    ensures
        final(out)@ == old(out)@ + hex_segments(segs@.subrange(start as int, end as int)),
{
    let mut i = start;
    while i < end
        invariant
            start <= i <= end <= 8,
            segs@.len() == 8,
            out@ == old(out)@ + hex_segments(segs@.subrange(start as int, i as int)),
        decreases end - i,
    {
        if i > start {
            append_str(out, ":");
        }
        append_hex(out, segs[i] as u64);
        proof {
            reveal_strlit(":");
            let prev = segs@.subrange(start as int, i as int);
            let next = segs@.subrange(start as int, i + 1);
            assert(next.drop_last() =~= prev);
            assert(next.last() == segs@[i as int]);
            if i == start {
                assert(next.len() == 1);
                assert(hex_segments(prev) =~= Seq::<char>::empty());
            }
        }
        i = i + 1;
        assert(out@ =~= old(out)@ + hex_segments(segs@.subrange(start as int, i as int)));
    }
}

fn append_ipv6(out: &mut String, segs: &[u16; 8])
    ensures
        final(out)@ == old(out)@ + ipv6_text(*segs),
{
    proof {
        reveal_strlit("::ffff:");
        reveal_strlit("::");
    }
    if segs[0] == 0 && segs[1] == 0 && segs[2] == 0 && segs[3] == 0 && segs[4] == 0 && segs[5] == 0xffff {
        append_str(out, "::ffff:");
        let o: [u8; 4] = [(segs[6] / 256) as u8, (segs[6] % 256) as u8, (segs[7] / 256) as u8, (segs[7] % 256) as u8];
        append_ipv4(out, o);
        assert(out@ =~= old(out)@ + ipv6_text(*segs));
        return;
    }
    let mut best_start: usize = 0;
    let mut best_len: usize = 0;
    let mut i: usize = 0;
    while i < 8
        invariant
            i <= 8,
            segs@.len() == 8,
            (best_start as int, best_len as nat) == longest_zero_run(segs@, i as int),
        decreases 8 - i,
    {
        let run = zero_run_at(segs, i);
        if run > best_len {
            best_start = i;
            best_len = run;
        }
        i = i + 1;
    }
    proof {
        lemma_longest_bounded(segs@, 8);
    }
    if best_len > 1 {
        append_hex_segments(out, segs, 0, best_start);
        append_str(out, "::");
        append_hex_segments(out, segs, best_start + best_len, 8);
    } else {
        append_hex_segments(out, segs, 0, 8);
        assert(segs@.subrange(0, 8) =~= segs@);
    }
    assert(out@ =~= old(out)@ + ipv6_text(*segs));
}

/// The text of an IP address, as std writes it.
pub fn ip_address_text(ip: &IpAddress) -> (r: String)
    ensures
        r@ == ip_text(*ip),
{
    let mut out = String::new();
    match ip {
        IpAddress::V4(o) => append_ipv4(&mut out, *o),
        IpAddress::V6(s) => append_ipv6(&mut out, s),
    }
    assert(out@ =~= ip_text(*ip));
    out
}

/// The text of a socket address, as std writes it.
pub fn socket_address_text(address: &SocketAddress) -> (r: String)
    ensures
        r@ == socket_text(*address),
{
    let mut out = String::new();
    proof {
        reveal_strlit(":");
        reveal_strlit("[");
        reveal_strlit("]:");
    }
    match &address.ip {
        IpAddress::V4(o) => {
            append_ipv4(&mut out, *o);
            append_str(&mut out, ":");
        },
        IpAddress::V6(s) => {
            append_str(&mut out, "[");
            append_ipv6(&mut out, s);
            append_str(&mut out, "]:");
        },
    }
    append_decimal(&mut out, address.port as u64);
    assert(out@ =~= socket_text(*address));
    out
}

} // verus!
