//! Service discovery over mDNS: which local addresses are offered and
//! advertised, in what order, and how a discovered service's name, icon
//! and endpoint are read.

use vstd::prelude::*;
use vstd::string::StringExecFns;
use crate::config::{icon_glyph, ServerIcon};
use crate::icons;
use crate::text::{decimal, push_decimal, str_eq};
use crate::views::client::DiscoveredServer;
use vstd::string::StrSliceExecFns;

verus! {

broadcast use {vstd::seq_lib::to_multiset_insert, vstd::seq_lib::to_multiset_build};

/// The mDNS service type that servers register under.
pub const SERVICE_TYPE: &'static str = "_spud._tcp.local.";

/// An IP address: four octets, or eight 16-bit segments.
#[derive(Debug, Clone, Copy, PartialEq, Eq)]
pub enum IpAddress {
    V4([u8; 4]),
    V6([u16; 8]),
}

/// The address as one number that orders addresses as `std::net::IpAddr`
/// does: every IPv4 address before every IPv6 address, each family by its
/// bytes in network order.
pub open spec fn ip_key(a: IpAddress) -> int {
    match a {
        IpAddress::V4(o) => v4_value(o@),
        IpAddress::V6(s) => 4294967296 + v6_value(s@),
    }
}

/// Octets as one number, most significant first.
pub open spec fn v4_value(o: Seq<u8>) -> int {
    ((o[0] * 256 + o[1]) * 256 + o[2]) * 256 + o[3]
}

/// Segments as one number, most significant first.
pub open spec fn v6_value(s: Seq<u16>) -> int {
    ((((((s[0] * 65536 + s[1]) * 65536 + s[2]) * 65536 + s[3]) * 65536 + s[4]) * 65536 + s[5]) * 65536
        + s[6]) * 65536 + s[7]
}

proof fn lemma_digit_unique(a0: int, a1: int, b0: int, b1: int, base: int)
    by (nonlinear_arith)
    requires
        base > 0,
        0 <= a1 < base,
        0 <= b1 < base,
        a0 * base + a1 == b0 * base + b1,
    ensures
        a0 == b0,
        a1 == b1,
{
}

proof fn lemma_digit_bound(a0: int, a1: int, base: int, bound: int)
    by (nonlinear_arith)
    requires
        base > 0,
        0 <= a0 < bound,
        0 <= a1 < base,
    ensures
        0 <= a0 * base + a1 < bound * base,
{
}

proof fn lemma_v4_bound(o: Seq<u8>)
    requires
        o.len() == 4,
    ensures
        0 <= v4_value(o) < 4294967296,
{
    lemma_digit_bound(o[0] as int, o[1] as int, 256, 256);
    lemma_digit_bound(o[0] * 256 + o[1], o[2] as int, 256, 65536);
    lemma_digit_bound((o[0] * 256 + o[1]) * 256 + o[2], o[3] as int, 256, 16777216);
}

proof fn lemma_v6_bound(s: Seq<u16>)
    requires
        s.len() == 8,
    ensures
        0 <= v6_value(s),
{
    let b = 65536int;
    let x1 = s[0] * b + s[1];
    let x2 = x1 * b + s[2];
    let x3 = x2 * b + s[3];
    let x4 = x3 * b + s[4];
    let x5 = x4 * b + s[5];
    let x6 = x5 * b + s[6];
    lemma_digit_bound(s[0] as int, s[1] as int, b, b);
    lemma_digit_bound(x1, s[2] as int, b, b * b);
    lemma_digit_bound(x2, s[3] as int, b, b * b * b);
    lemma_digit_bound(x3, s[4] as int, b, b * b * b * b);
    lemma_digit_bound(x4, s[5] as int, b, b * b * b * b * b);
    lemma_digit_bound(x5, s[6] as int, b, b * b * b * b * b * b);
    lemma_digit_bound(x6, s[7] as int, b, b * b * b * b * b * b * b);
}

/// A loopback address: `127.0.0.0/8` or `::1`.
pub open spec fn is_loopback(a: IpAddress) -> bool {
    match a {
        IpAddress::V4(o) => o@[0] == 127,
        IpAddress::V6(s) => s@ == seq![0u16, 0, 0, 0, 0, 0, 0, 1],
    }
}

/// A multicast address: `224.0.0.0/4` or `ff00::/8`.
pub open spec fn is_multicast(a: IpAddress) -> bool {
    match a {
        IpAddress::V4(o) => 224 <= o@[0] <= 239,
        IpAddress::V6(s) => s@[0] >= 0xff00,
    }
}

/// The unspecified address: `0.0.0.0` or `::`.
pub open spec fn is_unspecified(a: IpAddress) -> bool {
    match a {
        IpAddress::V4(o) => o@ == seq![0u8, 0, 0, 0],
        IpAddress::V6(s) => s@ == seq![0u16, 0, 0, 0, 0, 0, 0, 0],
    }
}

/// A link-local address: `169.254.0.0/16` or `fe80::/10`.
pub open spec fn is_link_local(a: IpAddress) -> bool {
    match a {
        IpAddress::V4(o) => o@[0] == 169 && o@[1] == 254,
        IpAddress::V6(s) => 0xfe80 <= s@[0] <= 0xfebf,
    }
}

/// An address worth offering or connecting to: not loopback, multicast,
/// unspecified or link-local.
pub open spec fn usable_ip(a: IpAddress) -> bool {
    !is_loopback(a) && !is_multicast(a) && !is_unspecified(a) && !is_link_local(a)
}

/// Whether an address is worth offering or connecting to.
pub fn is_usable(a: &IpAddress) -> (r: bool)
    ensures
        r == usable_ip(*a),
{
    match a {
        IpAddress::V4(o) => {
            let unspecified = o[0] == 0 && o[1] == 0 && o[2] == 0 && o[3] == 0;
            assert(unspecified == (o@ == seq![0u8, 0, 0, 0])) by {
                if unspecified {
                    assert(o@ =~= seq![0u8, 0, 0, 0]);
                }
            }
            !(o[0] == 127) && !(224 <= o[0] && o[0] <= 239) && !unspecified && !(o[0] == 169 && o[1] == 254)
        },
        IpAddress::V6(s) => {
            let zero_prefix = s[0] == 0 && s[1] == 0 && s[2] == 0 && s[3] == 0 && s[4] == 0 && s[5] == 0
                && s[6] == 0;
            let loopback = zero_prefix && s[7] == 1;
            let unspecified = zero_prefix && s[7] == 0;
            assert(loopback == (s@ == seq![0u16, 0, 0, 0, 0, 0, 0, 1])) by {
                if loopback {
                    assert(s@ =~= seq![0u16, 0, 0, 0, 0, 0, 0, 1]);
                }
            }
            assert(unspecified == (s@ == seq![0u16, 0, 0, 0, 0, 0, 0, 0])) by {
                if unspecified {
                    assert(s@ =~= seq![0u16, 0, 0, 0, 0, 0, 0, 0]);
                }
            }
            !loopback && !(s[0] >= 0xff00) && !unspecified && !(0xfe80 <= s[0] && s[0] <= 0xfebf)
        },
    }
}

/// The address's ordering number split in two: the family (0 for IPv4)
/// and the address bits.
fn ip_order(a: &IpAddress) -> (r: (u8, u128))
    ensures
        ip_key(*a) == r.0 * 4294967296 + r.1,
        r.0 == 0 ==> r.1 < 4294967296,
        r.0 <= 1,
{
    match a {
        IpAddress::V4(o) => {
            proof {
                lemma_v4_bound(o@);
            }
            (0, (((o[0] as u128) * 256 + (o[1] as u128)) * 256 + (o[2] as u128)) * 256 + (o[3] as u128))
        },
        IpAddress::V6(s) => {
            proof {
                let b = 65536int;
                let q = s@;
                let x1 = q[0] * b + q[1];
                let x2 = x1 * b + q[2];
                let x3 = x2 * b + q[3];
                let x4 = x3 * b + q[4];
                let x5 = x4 * b + q[5];
                let x6 = x5 * b + q[6];
                lemma_digit_bound(q[0] as int, q[1] as int, b, b);
                lemma_digit_bound(x1, q[2] as int, b, b * b);
                lemma_digit_bound(x2, q[3] as int, b, b * b * b);
                lemma_digit_bound(x3, q[4] as int, b, b * b * b * b);
                lemma_digit_bound(x4, q[5] as int, b, b * b * b * b * b);
                lemma_digit_bound(x5, q[6] as int, b, b * b * b * b * b * b);
                lemma_digit_bound(x6, q[7] as int, b, b * b * b * b * b * b * b);
                assert(65536int * 65536 * 65536 * 65536 * 65536 * 65536 * 65536 * 65536 == 0x1_0000_0000_0000_0000_0000_0000_0000_0000);
            }
            let mut v: u128 = s[0] as u128;
            v = v * 65536 + s[1] as u128;
            v = v * 65536 + s[2] as u128;
            v = v * 65536 + s[3] as u128;
            v = v * 65536 + s[4] as u128;
            v = v * 65536 + s[5] as u128;
            v = v * 65536 + s[6] as u128;
            v = v * 65536 + s[7] as u128;
            (1, v)
        },
    }
}

/// Whether `a` orders before `b`.
pub fn ip_less(a: &IpAddress, b: &IpAddress) -> (r: bool)
    ensures
        r == (ip_key(*a) < ip_key(*b)),
{
    let (fa, va) = ip_order(a);
    let (fb, vb) = ip_order(b);
    if fa != fb {
        fa < fb
    } else {
        va < vb
    }
}

/// Addresses with the same ordering number are the same address.
pub proof fn lemma_ip_key_injective(a: IpAddress, b: IpAddress)
    requires
        ip_key(a) == ip_key(b),
    ensures
        a == b,
{
    match (a, b) {
        (IpAddress::V4(x), IpAddress::V4(y)) => {
            let (p, q) = (x@, y@);
            lemma_digit_unique((p[0] * 256 + p[1]) * 256 + p[2], p[3] as int, (q[0] * 256 + q[1]) * 256 + q[2], q[3] as int, 256);
            lemma_digit_unique(p[0] * 256 + p[1], p[2] as int, q[0] * 256 + q[1], q[2] as int, 256);
            lemma_digit_unique(p[0] as int, p[1] as int, q[0] as int, q[1] as int, 256);
            assert(x@ =~= y@);
            assert(x == y);
        },
        (IpAddress::V6(x), IpAddress::V6(y)) => {
            let (p, q) = (x@, y@);
            let b = 65536int;
            let p1 = p[0] * b + p[1];
            let p2 = p1 * b + p[2];
            let p3 = p2 * b + p[3];
            let p4 = p3 * b + p[4];
            let p5 = p4 * b + p[5];
            let p6 = p5 * b + p[6];
            let q1 = q[0] * b + q[1];
            let q2 = q1 * b + q[2];
            let q3 = q2 * b + q[3];
            let q4 = q3 * b + q[4];
            let q5 = q4 * b + q[5];
            let q6 = q5 * b + q[6];
            lemma_digit_unique(p6, p[7] as int, q6, q[7] as int, b);
            lemma_digit_unique(p5, p[6] as int, q5, q[6] as int, b);
            lemma_digit_unique(p4, p[5] as int, q4, q[5] as int, b);
            lemma_digit_unique(p3, p[4] as int, q3, q[4] as int, b);
            lemma_digit_unique(p2, p[3] as int, q2, q[3] as int, b);
            lemma_digit_unique(p1, p[2] as int, q1, q[2] as int, b);
            lemma_digit_unique(p[0] as int, p[1] as int, q[0] as int, q[1] as int, b);
            assert(x@ =~= y@);
            assert(x == y);
        },
        (IpAddress::V4(x), IpAddress::V6(y)) => {
            lemma_v4_bound(x@);
            lemma_v6_bound(y@);
        },
        (IpAddress::V6(x), IpAddress::V4(y)) => {
            lemma_v4_bound(y@);
            lemma_v6_bound(x@);
        },
    }
}

/// Ordered by the ordering number, equal neighbours allowed.
pub open spec fn ips_sorted(s: Seq<IpAddress>) -> bool {
    forall|i: int, j: int| 0 <= i < j < s.len() ==> ip_key(s[i]) <= ip_key(s[j])
}

/// Strictly ordered by the ordering number: sorted, and no address twice.
pub open spec fn ips_strictly_sorted(s: Seq<IpAddress>) -> bool {
    forall|i: int, j: int| 0 <= i < j < s.len() ==> ip_key(s[i]) < ip_key(s[j])
}

/// The usable addresses among `s`, in their order.
pub open spec fn usable_ips(s: Seq<IpAddress>) -> Seq<IpAddress> {
    s.filter(|a: IpAddress| usable_ip(a))
}

/// Insert `a` into an ordered list at the first place whose address
/// orders after it; with `dedup`, an address already present is not added
/// again.
fn insert_ordered(r: &mut Vec<IpAddress>, a: IpAddress, dedup: bool)
    requires
        ips_sorted(old(r)@),
        dedup ==> ips_strictly_sorted(old(r)@),
    ensures
        ips_sorted(final(r)@),
        dedup ==> ips_strictly_sorted(final(r)@),
        dedup ==> final(r)@.to_set() == old(r)@.to_set().insert(a),
        !dedup ==> final(r)@.to_multiset() == old(r)@.to_multiset().insert(a),
{
    let mut pos: usize = 0;
    while pos < r.len() && !ip_less(&a, &r[pos])
        invariant
            pos <= r@.len(),
            forall|k: int| 0 <= k < pos ==> ip_key(r@[k]) <= ip_key(a),
        decreases r@.len() - pos,
    {
        pos += 1;
    }
    let dup = pos > 0 && !ip_less(&r[pos - 1], &a);
    let ghost old_r = r@;
    if dedup && dup {
        proof {
            lemma_ip_key_injective(old_r[pos - 1], a);
            assert(old_r.contains(a));
            assert(old_r.to_set().insert(a) =~= old_r.to_set());
        }
        return;
    }
    r.insert(pos, a);
    proof {
        lemma_insert_keeps_order(old_r, pos as int, a, dedup);
    }
}

#[verifier::spinoff_prover]
#[verifier::rlimit(30)]
proof fn lemma_insert_keeps_order(old_r: Seq<IpAddress>, pos: int, a: IpAddress, dedup: bool)
    requires
        0 <= pos <= old_r.len(),
        ips_sorted(old_r),
        dedup ==> ips_strictly_sorted(old_r),
        forall|k: int| 0 <= k < pos ==> ip_key(old_r[k]) <= ip_key(a),
        pos < old_r.len() ==> ip_key(a) < ip_key(old_r[pos]),
        dedup ==> !(pos > 0 && ip_key(old_r[pos - 1]) == ip_key(a)),
    ensures
        ips_sorted(old_r.insert(pos, a)),
        dedup ==> ips_strictly_sorted(old_r.insert(pos, a)),
        old_r.insert(pos, a).to_set() == old_r.to_set().insert(a),
        old_r.insert(pos, a).to_multiset() == old_r.to_multiset().insert(a),
{
    let n = old_r.insert(pos, a);
    assert forall|k: int| pos <= k < old_r.len() implies ip_key(a) < ip_key(old_r[k]) by {
        assert(ip_key(old_r[pos]) <= ip_key(old_r[k]));
    }
    assert forall|x: int, y: int| 0 <= x < y < n.len() implies ip_key(n[x]) <= ip_key(n[y]) by {
        if x < pos && y > pos {
            assert(n[x] == old_r[x] && n[y] == old_r[y - 1]);
        } else if x == pos {
            assert(n[y] == old_r[y - 1]);
        } else if y < pos {
        } else if y == pos {
        } else {
            assert(n[x] == old_r[x - 1] && n[y] == old_r[y - 1]);
        }
    }
    if dedup {
        assert forall|x: int, y: int| 0 <= x < y < n.len() implies ip_key(n[x]) < ip_key(n[y]) by {
            if x < pos && y > pos {
                assert(n[x] == old_r[x] && n[y] == old_r[y - 1]);
            } else if x < pos && y == pos {
                assert(n[x] == old_r[x]);
                if x < pos - 1 {
                    assert(ip_key(old_r[x]) < ip_key(old_r[pos - 1]));
                }
            } else if x == pos {
                assert(n[y] == old_r[y - 1]);
            } else if y < pos {
            } else {
                assert(n[x] == old_r[x - 1] && n[y] == old_r[y - 1]);
            }
        }
    }
    assert forall|e: IpAddress| #[trigger] n.contains(e) <==> old_r.to_set().insert(a).contains(e) by {
        if n.contains(e) {
            let k = choose|k: int| 0 <= k < n.len() && n[k] == e;
            if k < pos {
                assert(old_r[k] == e);
            } else if k > pos {
                assert(old_r[k - 1] == e);
            }
        }
        if old_r.to_set().insert(a).contains(e) && e != a {
            let k = choose|k: int| 0 <= k < old_r.len() && old_r[k] == e;
            if k < pos {
                assert(n[k] == e);
            } else {
                assert(n[k + 1] == e);
            }
        }
        if e == a {
            assert(n[pos] == a);
        }
    }
    assert(n.to_set() =~= old_r.to_set().insert(a));
}

/// Put the usable addresses of `candidates` in order, IPv4 before IPv6,
/// keeping repeats when `dedup` is false and dropping them when it is true.
fn order_usable(candidates: &[IpAddress], dedup: bool) -> (r: Vec<IpAddress>)
    ensures
        ips_sorted(r@),
        dedup ==> ips_strictly_sorted(r@),
        dedup ==> r@.to_set() == usable_ips(candidates@).to_set(),
        !dedup ==> r@.to_multiset() == usable_ips(candidates@).to_multiset(),
{
    let mut r: Vec<IpAddress> = Vec::new();
    let mut i: usize = 0;
    proof {
        reveal(Seq::filter);
        assert(usable_ips(candidates@.take(0)) =~= Seq::<IpAddress>::empty());
        assert(r@ =~= Seq::<IpAddress>::empty());
    }
    while i < candidates.len()
        invariant
            i <= candidates@.len(),
            ips_sorted(r@),
            dedup ==> ips_strictly_sorted(r@),
            dedup ==> r@.to_set() == usable_ips(candidates@.take(i as int)).to_set(),
            !dedup ==> r@.to_multiset() == usable_ips(candidates@.take(i as int)).to_multiset(),
        decreases candidates@.len() - i,
    {
        let a = candidates[i];
        proof {
            assert(candidates@.take(i + 1) =~= candidates@.take(i as int).push(a));
            candidates@.take(i as int).lemma_filter_push(a, |a: IpAddress| usable_ip(a));
            usable_ips(candidates@.take(i as int)).lemma_push_to_set_commute(a);
        }
        if is_usable(&a) {
            insert_ordered(&mut r, a, dedup);
        }
        i += 1;
    }
    assert(candidates@.take(candidates@.len() as int) =~= candidates@);
    r
}

/// The interface addresses to offer: the usable ones, IPv4 before IPv6,
/// each family in ascending order, each address once.
pub fn list_interface_addrs(interface_addrs: &[IpAddress]) -> (r: Vec<IpAddress>)
    ensures
        ips_strictly_sorted(r@),
        r@.to_set() == usable_ips(interface_addrs@).to_set(),
{
    order_usable(interface_addrs, true)
}

/// The addresses of a discovered server to try: the usable ones, IPv4
/// before IPv6, each family in ascending order.
pub fn order_server_addrs(addrs: &[IpAddress]) -> (r: Vec<IpAddress>)
    ensures
        ips_sorted(r@),
        r@.to_multiset() == usable_ips(addrs@).to_multiset(),
{
    order_usable(addrs, false)
}

/// The options of the server's bind-address choice: all interfaces
/// (`0.0.0.0`), then the offered interface addresses as text.
pub fn bind_options(interface_addr_texts: &Vec<String>) -> (r: Vec<String>)
    ensures
        r@.len() == interface_addr_texts@.len() + 1,
        r@[0]@ == "0.0.0.0"@,
        forall|i: int| 0 <= i < interface_addr_texts@.len() ==> #[trigger] r@[i + 1]@ == interface_addr_texts@[i]@,
{
    let mut r: Vec<String> = Vec::new();
    r.push("0.0.0.0".to_string());
    let mut i: usize = 0;
    while i < interface_addr_texts.len()
        invariant
            i <= interface_addr_texts@.len(),
            r@.len() == i + 1,
            r@[0]@ == "0.0.0.0"@,
            forall|k: int| 0 <= k < i ==> #[trigger] r@[k + 1]@ == interface_addr_texts@[k]@,
        decreases interface_addr_texts@.len() - i,
    {
        r.push(interface_addr_texts[i].clone());
        i += 1;
    }
    r
}

/// The endpoint shown on the status page: `address:port`, with all
/// interfaces (`0.0.0.0`) for an empty address.
pub open spec fn endpoint_text(bind_address: Seq<char>, port: u16) -> Seq<char> {
    (if bind_address.len() == 0 {
        "0.0.0.0"@
    } else {
        bind_address
    }) + ":"@ + decimal(port as nat)
}

/// A human-friendly endpoint string for the status page.
pub fn display_endpoint(bind_address: &str, port: u16) -> (s: String)
    ensures
        s@ == endpoint_text(bind_address@, port),
{
    let mut s = if bind_address.unicode_len() == 0 {
        "0.0.0.0".to_string()
    } else {
        bind_address.to_string()
    };
    s.append(":");
    push_decimal(&mut s, port as u64);
    s
}

/// A service's instance name: its full name without `.` and the service
/// type at the end, or the full name when it does not end so.
pub open spec fn instance_of(fullname: Seq<char>) -> Seq<char> {
    let suffix = "."@ + SERVICE_TYPE@;
    if fullname.len() >= suffix.len() && fullname.skip(fullname.len() - suffix.len()) == suffix {
        fullname.take(fullname.len() - suffix.len())
    } else {
        fullname
    }
}

/// Strip `.` and the service type from the end of a service's full name.
pub fn strip_service_type(fullname: &str) -> (s: String)
    ensures
        s@ == instance_of(fullname@),
{
    let mut suffix = ".".to_string();
    suffix.append(SERVICE_TYPE);
    let n = fullname.unicode_len();
    let m = suffix.as_str().unicode_len();
    if n >= m {
        let tail = fullname.substring_char(n - m, n);
        if str_eq(tail, suffix.as_str()) {
            assert(tail@ =~= fullname@.skip(n - m));
            let head = fullname.substring_char(0, n - m);
            assert(head@ =~= fullname@.take(n - m));
            return head.to_string();
        }
        assert(tail@ =~= fullname@.skip(n - m));
    }
    fullname.to_string()
}

/// The glyph for a server's advertised icon name: `laptop` and `server`
/// have their own, anything else (or none) shows a desktop.
pub open spec fn icon_for(value: Option<Seq<char>>) -> char {
    match value {
        Some(v) => if v == "laptop"@ {
            icons::LAPTOP
        } else if v == "server"@ {
            icons::SERVER
        } else {
            icons::DESKTOP
        },
        None => icons::DESKTOP,
    }
}

/// The glyph for the `icon` property of a discovered service.
pub fn resolve_icon(icon_property: Option<&str>) -> (c: char)
    ensures
        c == icon_for(match icon_property {
            Some(v) => Some(v@),
            None => None,
        }),
{
    proof {
        reveal_strlit("laptop");
        reveal_strlit("server");
    }
    match icon_property {
        Some(v) => if str_eq(v, "laptop") {
            icons::LAPTOP
        } else if str_eq(v, "server") {
            icons::SERVER
        } else {
            icons::DESKTOP
        },
        None => icons::DESKTOP,
    }
}

/// The `icon` property value of a server's icon.
pub open spec fn icon_text(icon: ServerIcon) -> Seq<char> {
    match icon {
        ServerIcon::Desktop => "desktop"@,
        ServerIcon::Laptop => "laptop"@,
        ServerIcon::Server => "server"@,
    }
}

/// The `icon` property value that a server advertises.
pub fn icon_property(icon: ServerIcon) -> (s: &'static str)
    ensures
        s@ == icon_text(icon),
        icon_for(Some(s@)) == icon_glyph(icon),
{
    proof {
        reveal_strlit("desktop");
        reveal_strlit("laptop");
        reveal_strlit("server");
        assert("desktop"@.len() == 7 && "laptop"@.len() == 6 && "server"@.len() == 6);
        assert("laptop"@[0] != "server"@[0]);
    }
    match icon {
        ServerIcon::Desktop => "desktop",
        ServerIcon::Laptop => "laptop",
        ServerIcon::Server => "server",
    }
}

/// The text of a boolean property: `true` or `false`.
pub open spec fn bool_text(b: bool) -> Seq<char> {
    if b {
        "true"@
    } else {
        "false"@
    }
}

/// A boolean property read back: only `true` is true.
pub open spec fn property_flag(value: Option<Seq<char>>) -> bool {
    value == Some("true"@)
}

/// The text of a boolean property.
pub fn bool_property(b: bool) -> (s: &'static str)
    ensures
        s@ == bool_text(b),
{
    if b {
        "true"
    } else {
        "false"
    }
}

/// Read a boolean property of a discovered service.
pub fn read_flag(value: Option<&str>) -> (b: bool)
    ensures
        b == property_flag(match value {
            Some(v) => Some(v@),
            None => None,
        }),
{
    match value {
        Some(v) => str_eq(v, "true"),
        None => false,
    }
}

/// A flag advertised and read back is the flag.
pub proof fn lemma_flag_roundtrip(b: bool)
    ensures
        property_flag(Some(bool_text(b))) == b,
{
    reveal_strlit("true");
    reveal_strlit("false");
    assert("true"@.len() == 4 && "false"@.len() == 5);
}

/// The properties a server registers: its icon, name, whether it requires
/// authentication and encryption, and its host name.
pub fn registration_properties(
    name: &str,
    icon: ServerIcon,
    require_auth: bool,
    encrypt_udp: bool,
    fqdn: &str,
) -> (props: Vec<(String, String)>)
    ensures
        props@.len() == 5,
        props@[0].0@ == "icon"@ && props@[0].1@ == icon_text(icon),
        icon_for(Some(props@[0].1@)) == icon_glyph(icon),
        props@[1].0@ == "name"@ && props@[1].1@ == name@,
        props@[2].0@ == "auth"@ && props@[2].1@ == bool_text(require_auth),
        props@[3].0@ == "encrypt"@ && props@[3].1@ == bool_text(encrypt_udp),
        props@[4].0@ == "hostname"@ && props@[4].1@ == fqdn@,
{
    let mut props: Vec<(String, String)> = Vec::new();
    props.push(("icon".to_string(), icon_property(icon).to_string()));
    props.push(("name".to_string(), name.to_string()));
    props.push(("auth".to_string(), bool_property(require_auth).to_string()));
    props.push(("encrypt".to_string(), bool_property(encrypt_udp).to_string()));
    props.push(("hostname".to_string(), fqdn.to_string()));
    props
}

/// The host name a server advertises: its machine name under `.local.`.
pub fn local_fqdn(hostname: &str) -> (s: String)
    ensures
        s@ == hostname@ + ".local."@,
{
    let mut s = hostname.to_string();
    s.append(".local.");
    s
}

/// The instance name a server registers: `name-port-pid`, unique per
/// running process.
pub fn instance_name(name: &str, port: u16, pid: u32) -> (s: String)
    ensures
        s@ == name@ + "-"@ + decimal(port as nat) + "-"@ + decimal(pid as nat),
{
    let mut s = name.to_string();
    s.append("-");
    push_decimal(&mut s, port as u64);
    s.append("-");
    push_decimal(&mut s, pid as u64);
    s
}

/// The full service name a server registers: its instance name, a dot,
/// and the service type.
pub open spec fn service_fullname_text(name: Seq<char>, port: u16, pid: u32) -> Seq<char> {
    name + "-"@ + decimal(port as nat) + "-"@ + decimal(pid as nat) + "."@ + SERVICE_TYPE@
}

/// The full service name a server registers, `name-port-pid._spud._tcp.local.`;
/// stripping the service type gives the instance name back.
pub fn service_fullname(name: &str, port: u16, pid: u32) -> (s: String)
    ensures
        s@ == service_fullname_text(name@, port, pid),
        instance_of(s@) == name@ + "-"@ + decimal(port as nat) + "-"@ + decimal(pid as nat),
{
    let mut s = instance_name(name, port, pid);
    let ghost inst = s@;
    s.append(".");
    s.append(SERVICE_TYPE);
    proof {
        let suffix = "."@ + SERVICE_TYPE@;
        assert(s@ =~= inst + suffix);
        assert(s@.skip(s@.len() - suffix.len()) =~= suffix);
        assert(s@.take(s@.len() - suffix.len()) =~= inst);
        assert(s@ =~= service_fullname_text(name@, port, pid));
    }
    s
}

/// A bind address of `0.0.0.0`, `::` or nothing is advertised on all
/// interfaces.
pub open spec fn binds_all(bind_address: Seq<char>) -> bool {
    bind_address == "0.0.0.0"@ || bind_address == "::"@ || bind_address.len() == 0
}

/// Whether a bind address is advertised on all interfaces.
pub fn advertises_all_interfaces(bind_address: &str) -> (b: bool)
    ensures
        b == binds_all(bind_address@),
{
    str_eq(bind_address, "0.0.0.0") || str_eq(bind_address, "::") || bind_address.unicode_len() == 0
}

/// A server's registration with the mDNS daemon, by its full service name.
#[derive(Debug, Clone, PartialEq, Eq)]
pub struct Registration {
    fullname: String,
}

impl Registration {
    /// The registration of the service with this full name.
    pub fn registered(fullname: String) -> (r: Self)
        ensures
            r.fullname_spec() == fullname@,
    {
        Registration { fullname }
    }

    pub closed spec fn fullname_spec(&self) -> Seq<char> {
        self.fullname@
    }

    /// The full service name.
    pub fn fullname(&self) -> (s: &str)
        ensures
            s@ == self.fullname_spec(),
    {
        self.fullname.as_str()
    }
}

/// A service as the mDNS daemon resolved it, with the properties the server
/// registered.
#[derive(Debug, Clone)]
pub struct ResolvedService {
    pub fullname: String,
    pub hostname: String,
    pub port: u16,
    /// Its addresses, each with its text.
    pub addresses: Vec<(IpAddress, String)>,
    pub name_property: Option<String>,
    pub hostname_property: Option<String>,
    pub icon_property: Option<String>,
    pub auth_property: Option<String>,
    pub encrypt_property: Option<String>,
}

/// The text of an optional string.
pub open spec fn opt_text(o: Option<String>) -> Option<Seq<char>> {
    match o {
        Some(s) => Some(s@),
        None => None,
    }
}

/// The text without the dots at its end.
pub open spec fn without_trailing_dots(s: Seq<char>) -> Seq<char>
    decreases s.len(),
{
    if s.len() > 0 && s.last() == '.' {
        without_trailing_dots(s.drop_last())
    } else {
        s
    }
}

/// The addresses of address and text pairs.
pub open spec fn addr_ips(v: Seq<(IpAddress, String)>) -> Seq<IpAddress> {
    v.map_values(|p: (IpAddress, String)| p.0)
}

/// The addresses of address and port pairs.
pub open spec fn endpoint_ips(v: Seq<(IpAddress, u16)>) -> Seq<IpAddress> {
    v.map_values(|p: (IpAddress, u16)| p.0)
}

/// `s` without the dots at its end.
pub fn trim_trailing_dots(s: &str) -> (r: String)
    ensures
        r@ == without_trailing_dots(s@),
{
    let mut k: usize = s.unicode_len();
    assert(s@.take(k as int) =~= s@);
    while k > 0 && s.get_char(k - 1) == '.'
        invariant
            k <= s@.len(),
            without_trailing_dots(s@) == without_trailing_dots(s@.take(k as int)),
        decreases k,
    {
        assert(s@.take(k as int).drop_last() =~= s@.take(k - 1));
        k -= 1;
    }
    let head = s.substring_char(0, k);
    assert(head@ =~= s@.take(k as int));
    head.to_string()
}

/// Whether two addresses are the same.
pub fn ip_eq(a: &IpAddress, b: &IpAddress) -> (r: bool)
    ensures
        r == (*a == *b),
{
    let lt = ip_less(a, b);
    let gt = ip_less(b, a);
    proof {
        if !lt && !gt {
            lemma_ip_key_injective(*a, *b);
        }
    }
    !lt && !gt
}

/// The server that a resolved service describes: its name (the `name`
/// property, else the instance part of its full name), its host (the
/// `hostname` property, else the resolved host name, without trailing
/// dots), `host:port` as its address, its usable addresses with its port,
/// IPv4 first and each family in ascending order, the text of the first of
/// them, its icon, and whether it asks for authentication and encryption.
pub fn discovered_server(info: &ResolvedService) -> (d: DiscoveredServer)
    ensures
        d.fullname@ == info.fullname@,
        d.name@ == (match info.name_property {
            Some(n) => n@,
            None => instance_of(info.fullname@),
        }),
        d.host@ == without_trailing_dots(match info.hostname_property {
            Some(h) => h@,
            None => info.hostname@,
        }),
        d.port@ == decimal(info.port as nat),
        d.address@ == d.host@ + ":"@ + decimal(info.port as nat),
        ips_sorted(endpoint_ips(d.addrs@)),
        endpoint_ips(d.addrs@).to_multiset() == usable_ips(addr_ips(info.addresses@)).to_multiset(),
        forall|i: int| 0 <= i < d.addrs@.len() ==> (#[trigger] d.addrs@[i]).1 == info.port,
        match d.first_ip_text {
            Some(t) => d.addrs@.len() > 0 && exists|k: int|
                0 <= k < info.addresses@.len() && (#[trigger] info.addresses@[k]).0 == d.addrs@[0].0
                    && info.addresses@[k].1@ == t@,
            None => d.addrs@.len() == 0,
        },
        d.icon == icon_for(opt_text(info.icon_property)),
        d.auth == property_flag(opt_text(info.auth_property)),
        d.encrypt == property_flag(opt_text(info.encrypt_property)),
{
    let fullname = info.fullname.clone();
    let name = match &info.name_property {
        Some(n) => n.clone(),
        None => strip_service_type(info.fullname.as_str()),
    };
    let host = match &info.hostname_property {
        Some(h) => trim_trailing_dots(h.as_str()),
        None => trim_trailing_dots(info.hostname.as_str()),
    };
    let mut port = String::new();
    push_decimal(&mut port, info.port as u64);
    let mut address = host.clone();
    address.append(":");
    address.append(port.as_str());
    let icon = resolve_icon(match &info.icon_property {
        Some(v) => Some(v.as_str()),
        None => None,
    });
    let auth = read_flag(match &info.auth_property {
        Some(v) => Some(v.as_str()),
        None => None,
    });
    let encrypt = read_flag(match &info.encrypt_property {
        Some(v) => Some(v.as_str()),
        None => None,
    });
    let mut ips: Vec<IpAddress> = Vec::new();
    let mut i: usize = 0;
    while i < info.addresses.len()
        invariant
            i <= info.addresses@.len(),
            ips@ == addr_ips(info.addresses@).take(i as int),
        decreases info.addresses@.len() - i,
    {
        ips.push(info.addresses[i].0);
        proof {
            assert(addr_ips(info.addresses@).take(i + 1) =~= addr_ips(info.addresses@).take(i as int).push(info.addresses@[i as int].0));
        }
        i += 1;
    }
    assert(ips@ =~= addr_ips(info.addresses@));
    let ordered = order_server_addrs(ips.as_slice());
    let mut addrs: Vec<(IpAddress, u16)> = Vec::new();
    let mut j: usize = 0;
    while j < ordered.len()
        invariant
            j <= ordered@.len(),
            addrs@.len() == j,
            forall|m: int| 0 <= m < j ==> #[trigger] addrs@[m] == (ordered@[m], info.port),
        decreases ordered@.len() - j,
    {
        addrs.push((ordered[j], info.port));
        j += 1;
    }
    assert(endpoint_ips(addrs@) =~= ordered@);
    let mut first_ip_text: Option<String> = None;
    if ordered.len() > 0 {
        let target = ordered[0];
        proof {
            let us = usable_ips(ips@);
            assert(ordered@.contains(target));
            ordered@.to_multiset_ensures();
            us.to_multiset_ensures();
            assert(ordered@.to_multiset().count(target) > 0);
            assert(us.to_multiset().count(target) > 0);
            assert(us.contains(target));
            ips@.lemma_filter_contains_rev(|a: IpAddress| usable_ip(a), target);
            assert(ips@.contains(target));
        }
        let n = info.addresses.len();
        let mut k: usize = 0;
        let mut found: Option<usize> = None;
        while k < n && found.is_none()
            invariant
                n == info.addresses@.len(),
                k <= n,
                ips@ == addr_ips(info.addresses@),
                ips@.contains(target),
                found matches Some(m) ==> m < n && info.addresses@[m as int].0 == target,
                found is None ==> forall|m: int| 0 <= m < k ==> (#[trigger] info.addresses@[m]).0 != target,
            decreases n - k + (if found is None { 1int } else { 0int }),
        {
            if ip_eq(&info.addresses[k].0, &target) {
                found = Some(k);
            } else {
                k += 1;
            }
        }
        proof {
            if found is None {
                let m = choose|m: int| 0 <= m < ips@.len() && ips@[m] == target;
                assert(info.addresses@[m].0 == target);
            }
        }
        if let Some(m) = found {
            first_ip_text = Some(info.addresses[m].1.clone());
        }
    }
    DiscoveredServer {
        fullname,
        name,
        host,
        port,
        address,
        addrs,
        first_ip_text,
        icon,
        auth,
        encrypt,
    }
}

} // verus!
