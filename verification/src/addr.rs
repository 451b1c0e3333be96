use crate::text::{
    contains_char, digits_value, parse_unsigned_decimal, split_ranges, split_seq,
    unsigned_decimal_value,
};
use vstd::prelude::*;
use vstd::slice::slice_subrange;

verus! {

/// An IP address by its value: 32 bits for IPv4, 128 bits for IPv6, the
/// first octet of the written form in the highest bits.
#[derive(Debug, Clone, Copy, PartialEq, Eq, PartialOrd, Ord, Hash, Structural)]
pub enum IpAddr {
    V4(u32),
    V6(u128),
}

impl IpAddr {
    /// Whether the address is an IPv4 address.
    pub open spec fn spec_is_ipv4(&self) -> bool {
        *self is V4
    }

    /// Whether the address is an IPv6 address.
    pub open spec fn spec_is_ipv6(&self) -> bool {
        *self is V6
    }

    /// Whether the address is an IPv4 address.
    #[verifier::when_used_as_spec(spec_is_ipv4)]
    pub fn is_ipv4(&self) -> (r: bool)
        ensures
            r == (*self is V4),
    {
        match self {
            IpAddr::V4(_) => true,
            IpAddr::V6(_) => false,
        }
    }

    /// Whether the address is an IPv6 address.
    #[verifier::when_used_as_spec(spec_is_ipv6)]
    pub fn is_ipv6(&self) -> (r: bool)
        ensures
            r == (*self is V6),
    {
        match self {
            IpAddr::V4(_) => false,
            IpAddr::V6(_) => true,
        }
    }
}

/// The value of a hexadecimal digit of either case.
pub open spec fn hex_digit_value(c: char) -> Option<nat> {
    if '0' <= c && c <= '9' {
        Some((c as u32 - '0' as u32) as nat)
    } else if 'a' <= c && c <= 'f' {
        Some((c as u32 - 'a' as u32 + 10) as nat)
    } else if 'A' <= c && c <= 'F' {
        Some((c as u32 - 'A' as u32 + 10) as nat)
    } else {
        None
    }
}

/// The number that a run of hexadecimal digits writes; the empty run writes 0.
pub open spec fn hex_value(s: Seq<char>) -> Option<nat>
    decreases s.len(),
{
    if s.len() == 0 {
        Some(0)
    } else {
        match (hex_value(s.drop_last()), hex_digit_value(s.last())) {
            (Some(h), Some(d)) => Some(h * 16 + d),
            _ => None,
        }
    }
}

/// One group of an IPv6 address: one to four hexadecimal digits.
pub open spec fn hex_group_value(s: Seq<char>) -> Option<nat> {
    if 1 <= s.len() <= 4 {
        hex_value(s)
    } else {
        None
    }
}

/// One octet of an IPv4 address: one to three decimal digits that write at
/// most 255, with no zero in front of another digit.
pub open spec fn octet_value(s: Seq<char>) -> Option<nat> {
    if 1 <= s.len() <= 3 && (s.len() > 1 ==> s[0] != '0') {
        match digits_value(s) {
            Some(v) => if v <= 255 {
                Some(v)
            } else {
                None
            },
            None => None,
        }
    } else {
        None
    }
}

/// The address that `s` writes in dotted decimal: four octets between dots.
pub open spec fn ipv4_text_value(s: Seq<char>) -> Option<nat> {
    let p = split_seq(s, '.');
    if p.len() == 4 {
        match (octet_value(p[0]), octet_value(p[1]), octet_value(p[2]), octet_value(p[3])) {
            (Some(a), Some(b), Some(c), Some(d)) => Some(
                a * 0x100_0000 + b * 0x1_0000 + c * 0x100 + d,
            ),
            _ => None,
        }
    } else {
        None
    }
}

/// The position of the first `::` in `s` at or after `from`, or `s.len()`
/// where there is none.
pub open spec fn first_double_colon(s: Seq<char>, from: int) -> int
    recommends
        0 <= from,
    decreases s.len() - from,
{
    if from < 0 || from + 1 >= s.len() {
        s.len() as int
    } else if s[from] == ':' && s[from + 1] == ':' {
        from
    } else {
        first_double_colon(s, from + 1)
    }
}

/// The groups of a text between colons; the empty text has none.
pub open spec fn group_list(s: Seq<char>) -> Seq<Seq<char>> {
    if s.len() == 0 {
        seq![]
    } else {
        split_seq(s, ':')
    }
}

/// The segments that a list of hexadecimal groups writes.
pub open spec fn hex_segments(g: Seq<Seq<char>>) -> Option<Seq<nat>>
    decreases g.len(),
{
    if g.len() == 0 {
        Some(seq![])
    } else {
        match (hex_segments(g.drop_last()), hex_group_value(g.last())) {
            (Some(h), Some(x)) => Some(h.push(x)),
            _ => None,
        }
    }
}

/// The segments that a list of groups writes whose last group may be an
/// IPv4 address in dotted decimal, which stands for two segments.
pub open spec fn tail_segments(g: Seq<Seq<char>>) -> Option<Seq<nat>> {
    if g.len() > 0 && g.last().contains('.') {
        match (hex_segments(g.drop_last()), ipv4_text_value(g.last())) {
            (Some(h), Some(v)) => Some(h.push(v / 0x1_0000).push(v % 0x1_0000)),
            _ => None,
        }
    } else {
        hex_segments(g)
    }
}

/// The eight segments that `s` writes as an IPv6 address: either eight
/// segments between colons, or, around the first `::`, at most seven, with
/// zero segments in its place.
pub open spec fn ipv6_segments(s: Seq<char>) -> Option<Seq<nat>> {
    let k = first_double_colon(s, 0);
    if k >= s.len() {
        match tail_segments(split_seq(s, ':')) {
            Some(g) => if g.len() == 8 {
                Some(g)
            } else {
                None
            },
            None => None,
        }
    } else {
        match (
            hex_segments(group_list(s.take(k))),
            tail_segments(group_list(s.skip(k + 2))),
        ) {
            (Some(h), Some(t)) => if h.len() + t.len() <= 7 {
                Some(h + Seq::new((8 - h.len() - t.len()) as nat, |i: int| 0nat) + t)
            } else {
                None
            },
            _ => None,
        }
    }
}

/// The address whose eight segments are `g`, the first one highest.
pub open spec fn segments_value(g: Seq<nat>) -> nat
    recommends
        g.len() == 8,
{
    g[0] * 0x1_0000_0000_0000_0000_0000_0000_0000 + g[1] * 0x1_0000_0000_0000_0000_0000_0000
        + g[2] * 0x1_0000_0000_0000_0000_0000 + g[3] * 0x1_0000_0000_0000_0000 + g[4]
        * 0x1_0000_0000_0000 + g[5] * 0x1_0000_0000 + g[6] * 0x1_0000 + g[7]
}

/// The address that `s` writes as IPv6 text.
pub open spec fn ipv6_text_value(s: Seq<char>) -> Option<nat> {
    match ipv6_segments(s) {
        Some(g) => Some(segments_value(g)),
        None => None,
    }
}

/// The address that `s` writes, in either family.
pub open spec fn ip_text_value(s: Seq<char>) -> Option<IpAddr> {
    match ipv4_text_value(s) {
        Some(v) => Some(IpAddr::V4(v as u32)),
        None => match ipv6_text_value(s) {
            Some(v) => Some(IpAddr::V6(v as u128)),
            None => None,
        },
    }
}

/// A run of up to four hexadecimal digits writes a number below 65536.
pub proof fn lemma_hex_value_bound(s: Seq<char>)
    requires
        s.len() <= 4,
        hex_value(s) is Some,
    ensures
        s.len() == 0 ==> hex_value(s)->0 == 0,
        s.len() == 1 ==> hex_value(s)->0 < 0x10,
        s.len() == 2 ==> hex_value(s)->0 < 0x100,
        s.len() == 3 ==> hex_value(s)->0 < 0x1000,
        s.len() == 4 ==> hex_value(s)->0 < 0x1_0000,
    decreases s.len(),
{
    if s.len() > 0 {
        lemma_hex_value_bound(s.drop_last());
    }
}

/// Every segment that a list of groups writes is below 65536, and there are
/// as many segments as groups.
pub proof fn lemma_hex_segments_bound(g: Seq<Seq<char>>)
    requires
        hex_segments(g) is Some,
    ensures
        hex_segments(g)->0.len() == g.len(),
        forall|i: int| 0 <= i < g.len() ==> #[trigger] hex_segments(g)->0[i] < 0x1_0000,
    decreases g.len(),
{
    if g.len() > 0 {
        lemma_hex_segments_bound(g.drop_last());
        lemma_hex_value_bound(g.last());
    }
}

/// What dotted decimal text writes fits in 32 bits.
pub proof fn lemma_ipv4_text_value_bound(s: Seq<char>)
    requires
        ipv4_text_value(s) is Some,
    ensures
        ipv4_text_value(s)->0 < 0x1_0000_0000,
{
}

/// Every segment that a list of groups with a dotted tail writes is below 65536.
pub proof fn lemma_tail_segments_bound(g: Seq<Seq<char>>)
    requires
        tail_segments(g) is Some,
    ensures
        forall|i: int|
            0 <= i < tail_segments(g)->0.len() ==> #[trigger] tail_segments(g)->0[i] < 0x1_0000,
{
    if g.len() > 0 && g.last().contains('.') {
        lemma_hex_segments_bound(g.drop_last());
        lemma_ipv4_text_value_bound(g.last());
    } else {
        lemma_hex_segments_bound(g);
    }
}

/// What IPv6 text writes fits in 128 bits.
pub proof fn law_ipv6_text_value_fits(s: Seq<char>)
    requires
        ipv6_text_value(s) is Some,
    ensures
        ipv6_text_value(s)->0 < 0x1_0000_0000_0000_0000_0000_0000_0000_0000,
        ipv6_segments(s)->0.len() == 8,
        forall|i: int| 0 <= i < 8 ==> #[trigger] ipv6_segments(s)->0[i] < 0x1_0000,
{
    let k = first_double_colon(s, 0);
    if k >= s.len() {
        lemma_tail_segments_bound(split_seq(s, ':'));
    } else {
        let hg = group_list(s.take(k));
        let tg = group_list(s.skip(k + 2));
        lemma_hex_segments_bound(hg);
        lemma_tail_segments_bound(tg);
    }
    let g = ipv6_segments(s)->0;
    assert(g[0] < 0x1_0000 && g[1] < 0x1_0000 && g[2] < 0x1_0000 && g[3] < 0x1_0000 && g[4] < 0x1_0000
        && g[5] < 0x1_0000 && g[6] < 0x1_0000 && g[7] < 0x1_0000);
}

fn hex_digit_of(c: char) -> (r: Option<u8>)
    ensures
        r is Some <==> hex_digit_value(c) is Some,
        r is Some ==> r->0 == hex_digit_value(c)->0 && r->0 < 16,
{
    if '0' <= c && c <= '9' {
        Some((c as u32 - '0' as u32) as u8)
    } else if 'a' <= c && c <= 'f' {
        Some((c as u32 - 'a' as u32 + 10) as u8)
    } else if 'A' <= c && c <= 'F' {
        Some((c as u32 - 'A' as u32 + 10) as u8)
    } else {
        None
    }
}

fn parse_hex_group(s: &[char]) -> (r: Option<u16>)
    ensures
        r is Some <==> hex_group_value(s@) is Some,
        r is Some ==> r->0 == hex_group_value(s@)->0,
{
    if s.len() < 1 || s.len() > 4 {
        return None;
    }
    let mut acc: u32 = 0;
    let mut i: usize = 0;
    assert(s@.take(0) =~= Seq::<char>::empty());
    while i < s.len()
        invariant
            i <= s.len() <= 4,
            hex_value(s@.take(i as int)) == Some(acc as nat),
            acc < 0x1_0000,
        decreases s.len() - i,
    {
        let ghost next = s@.take(i + 1);
        proof {
            assert(next.drop_last() =~= s@.take(i as int));
            assert(next.last() == s@[i as int]);
        }
        match hex_digit_of(s[i]) {
            None => {
                proof {
                    if hex_value(s@) is Some {
                        lemma_hex_value_prefix(s@, i + 1);
                    }
                }
                return None;
            },
            Some(d) => {
                proof {
                    lemma_hex_value_bound(s@.take(i as int));
                    lemma_hex_value_bound(next);
                }
                acc = acc * 16 + d as u32;
            },
        }
        i += 1;
    }
    assert(s@.take(i as int) =~= s@);
    Some(acc as u16)
}

/// Where a run of hexadecimal digits writes a number, so does each of its
/// beginnings.
pub proof fn lemma_hex_value_prefix(s: Seq<char>, k: int)
    requires
        0 <= k <= s.len(),
        hex_value(s) is Some,
    ensures
        hex_value(s.take(k)) is Some,
    decreases s.len(),
{
    if k == s.len() {
        assert(s.take(k) =~= s);
    } else {
        lemma_hex_value_prefix(s.drop_last(), k);
        assert(s.drop_last().take(k) =~= s.take(k));
    }
}

fn parse_octet(s: &[char]) -> (r: Option<u8>)
    ensures
        r is Some <==> octet_value(s@) is Some,
        r is Some ==> r->0 == octet_value(s@)->0,
{
    if s.len() < 1 || s.len() > 3 {
        return None;
    }
    if s.len() > 1 && s[0] == '0' {
        return None;
    }
    assert(unsigned_decimal_value(s@) == if s@[0] == '+' {
        if s@.skip(1).len() == 0 {
            None
        } else {
            digits_value(s@.skip(1))
        }
    } else {
        digits_value(s@)
    });
    if s[0] == '+' {
        proof {
            lemma_digits_reject_plus(s@);
        }
        return None;
    }
    match parse_unsigned_decimal(s, 255) {
        Some(v) => Some(v as u8),
        None => None,
    }
}

/// A run of digits does not begin with `+`.
pub proof fn lemma_digits_reject_plus(s: Seq<char>)
    requires
        s.len() > 0,
        s[0] == '+',
    ensures
        digits_value(s) is None,
    decreases s.len(),
{
    if s.len() > 1 {
        lemma_digits_reject_plus(s.drop_last());
    } else {
        assert(s.last() == '+');
    }
}

/// Reads an IPv4 address in dotted decimal.
pub fn parse_ipv4(s: &[char]) -> (r: Option<u32>)
    ensures
        r is Some <==> ipv4_text_value(s@) is Some,
        r is Some ==> r->0 == ipv4_text_value(s@)->0,
{
    let ranges = split_ranges(s, '.');
    if ranges.len() != 4 {
        return None;
    }
    let a = parse_octet(slice_subrange(s, ranges[0].0, ranges[0].1));
    let b = parse_octet(slice_subrange(s, ranges[1].0, ranges[1].1));
    let c = parse_octet(slice_subrange(s, ranges[2].0, ranges[2].1));
    let d = parse_octet(slice_subrange(s, ranges[3].0, ranges[3].1));
    match (a, b, c, d) {
        (Some(a), Some(b), Some(c), Some(d)) => Some(
            a as u32 * 0x100_0000 + b as u32 * 0x1_0000 + c as u32 * 0x100 + d as u32,
        ),
        _ => None,
    }
}

/// The segments of `v` as numbers.
pub open spec fn segments_nat(v: Seq<u16>) -> Seq<nat> {
    Seq::new(v.len(), |i: int| v[i] as nat)
}

/// Where a list of groups writes segments, so does each of its beginnings.
pub proof fn lemma_hex_segments_prefix(g: Seq<Seq<char>>, k: int)
    requires
        0 <= k <= g.len(),
        hex_segments(g) is Some,
    ensures
        hex_segments(g.take(k)) is Some,
    decreases g.len(),
{
    if k == g.len() {
        assert(g.take(k) =~= g);
    } else {
        lemma_hex_segments_prefix(g.drop_last(), k);
        assert(g.drop_last().take(k) =~= g.take(k));
    }
}

fn find_double_colon(s: &[char]) -> (r: usize)
    ensures
        r == first_double_colon(s@, 0),
        r <= s.len(),
        r < s.len() ==> r + 2 <= s.len(),
{
    if s.len() < 2 {
        return s.len();
    }
    let mut i: usize = 0;
    while i < s.len() - 1
        invariant
            i <= s.len(),
            s.len() >= 2,
            first_double_colon(s@, 0) == first_double_colon(s@, i as int),
        decreases s.len() - i,
    {
        if s[i] == ':' && s[i + 1] == ':' {
            return i;
        }
        i += 1;
    }
    s.len()
}

fn parse_groups(s: &[char], dotted_tail: bool) -> (r: Option<Vec<u16>>)
    ensures
        r is Some <==> (if dotted_tail {
            tail_segments(group_list(s@))
        } else {
            hex_segments(group_list(s@))
        }) is Some,
        r is Some ==> segments_nat(r->0@) == (if dotted_tail {
            tail_segments(group_list(s@))
        } else {
            hex_segments(group_list(s@))
        })->0,
{
    let mut out: Vec<u16> = Vec::new();
    if s.len() == 0 {
        assert(segments_nat(out@) =~= Seq::<nat>::empty());
        return Some(out);
    }
    let ranges = split_ranges(s, ':');
    let n: usize = ranges.len();
    let ghost g = split_seq(s@, ':');
    let last = slice_subrange(s, ranges[n - 1].0, ranges[n - 1].1);
    let dotted: bool = dotted_tail && contains_char(last, '.');
    let count: usize = if dotted {
        n - 1
    } else {
        n
    };
    let ghost hg = g.take(count as int);
    proof {
        assert(g.last() == last@);
        if dotted {
            assert(hg =~= g.drop_last());
        } else {
            assert(hg =~= g);
        }
        assert(hg.take(0) =~= Seq::<Seq<char>>::empty());
        assert(segments_nat(out@) =~= Seq::<nat>::empty());
    }
    let mut i: usize = 0;
    while i < count
        invariant
            i <= count <= n,
            n == ranges@.len(),
            n == g.len(),
            hg == g.take(count as int),
            forall|k: int|
                0 <= k < ranges@.len() ==> (#[trigger] ranges@[k]).0 <= ranges@[k].1 <= s@.len()
                    && s@.subrange(ranges@[k].0 as int, ranges@[k].1 as int) == g[k],
            hex_segments(hg.take(i as int)) == Some(segments_nat(out@)),
            (if dotted_tail {
                tail_segments(group_list(s@))
            } else {
                hex_segments(group_list(s@))
            }) is Some ==> hex_segments(hg) is Some,
        decreases count - i,
    {
        let piece = slice_subrange(s, ranges[i].0, ranges[i].1);
        let ghost next = hg.take(i + 1);
        proof {
            assert(next.drop_last() =~= hg.take(i as int));
            assert(next.last() == g[i as int]);
        }
        match parse_hex_group(piece) {
            None => {
                proof {
                    if hex_segments(hg) is Some {
                        lemma_hex_segments_prefix(hg, i + 1);
                    }
                }
                return None;
            },
            Some(x) => {
                proof {
                    assert(segments_nat(out@.push(x)) =~= segments_nat(out@).push(x as nat));
                }
                out.push(x);
            },
        }
        i += 1;
    }
    proof {
        assert(hg.take(count as int) =~= hg);
    }
    if dotted {
        match parse_ipv4(last) {
            None => {
                return None;
            },
            Some(v) => {
                let hi: u16 = (v / 0x1_0000) as u16;
                let lo: u16 = (v % 0x1_0000) as u16;
                proof {
                    assert(segments_nat(out@.push(hi).push(lo)) =~= segments_nat(out@).push(
                        hi as nat,
                    ).push(lo as nat));
                }
                out.push(hi);
                out.push(lo);
            },
        }
    }
    Some(out)
}

/// Reads an IPv6 address in colon-separated hexadecimal, with or without
/// `::`, and with or without a dotted IPv4 address for its last 32 bits.
pub fn parse_ipv6(s: &[char]) -> (r: Option<u128>)
    ensures
        r is Some <==> ipv6_text_value(s@) is Some,
        r is Some ==> r->0 == ipv6_text_value(s@)->0,
{
    let k = find_double_colon(s);
    let mut full: Vec<u16> = Vec::new();
    if k >= s.len() {
        if s.len() == 0 {
            return None;
        }
        match parse_groups(s, true) {
            None => {
                return None;
            },
            Some(g) => {
                if g.len() != 8 {
                    return None;
                }
                full = g;
            },
        }
    } else {
        let head = parse_groups(slice_subrange(s, 0, k), false);
        let tail = parse_groups(slice_subrange(s, k + 2, s.len()), true);
        proof {
            assert(s@.subrange(0, k as int) =~= s@.take(k as int));
            assert(s@.subrange(k + 2, s@.len() as int) =~= s@.skip(k + 2));
        }
        match (head, tail) {
            (Some(h), Some(t)) => {
                if h.len() > 7 || t.len() > 7 - h.len() {
                    return None;
                }
                let gap: usize = 8 - h.len() - t.len();
                let ghost want = segments_nat(h@) + Seq::new(gap as nat, |i: int| 0nat)
                    + segments_nat(t@);
                let mut i: usize = 0;
                while i < 8
                    invariant
                        i <= 8,
                        gap == 8 - h.len() - t.len(),
                        h.len() + t.len() <= 7,
                        want == segments_nat(h@) + Seq::new(gap as nat, |i: int| 0nat)
                            + segments_nat(t@),
                        full@.len() == i,
                        forall|j: int| 0 <= j < i ==> full@[j] as nat == want[j],
                    decreases 8 - i,
                {
                    let x: u16 = if i < h.len() {
                        h[i]
                    } else if i < h.len() + gap {
                        0
                    } else {
                        t[i - h.len() - gap]
                    };
                    full.push(x);
                    i += 1;
                }
                assert(segments_nat(full@) =~= want);
            },
            _ => {
                return None;
            },
        }
    }
    proof {
        assert(segments_nat(full@) == ipv6_segments(s@)->0);
    }
    let v: u128 = full[0] as u128 * 0x1_0000_0000_0000_0000_0000_0000_0000 + full[1] as u128
        * 0x1_0000_0000_0000_0000_0000_0000 + full[2] as u128 * 0x1_0000_0000_0000_0000_0000
        + full[3] as u128 * 0x1_0000_0000_0000_0000 + full[4] as u128 * 0x1_0000_0000_0000
        + full[5] as u128 * 0x1_0000_0000 + full[6] as u128 * 0x1_0000 + full[7] as u128;
    Some(v)
}

/// Reads an IP address of either family.
pub fn parse_ip(s: &[char]) -> (r: Option<IpAddr>)
    ensures
        r == ip_text_value(s@),
{
    match parse_ipv4(s) {
        Some(v) => Some(IpAddr::V4(v)),
        None => match parse_ipv6(s) {
            Some(v) => Some(IpAddr::V6(v)),
            None => None,
        },
    }
}

/// Whether a 128-bit address is a unicast link-local one, that is, lies in
/// `fe80::/10`.
pub open spec fn is_unicast_link_local(v: u128) -> bool {
    v / 0x40_0000_0000_0000_0000_0000_0000_0000 == 0x3fa
}

/// Whether a 128-bit address lies in `fe80::/10`.
pub fn is_ipv6_unicast_link_local(v: u128) -> (r: bool)
    ensures
        r == is_unicast_link_local(v),
{
    v / 0x40_0000_0000_0000_0000_0000_0000_0000 == 0x3fa
}

/// The address `ip` with all but its first `prefix_length` bits cleared.
pub open spec fn prefix_masked(ip: IpAddr, prefix_length: usize) -> IpAddr {
    match ip {
        IpAddr::V4(v) => if prefix_length == 0 {
            IpAddr::V4(0)
        } else if prefix_length >= 32 {
            ip
        } else {
            IpAddr::V4(v & (u32::MAX << ((32 - prefix_length) as u32)))
        },
        IpAddr::V6(v) => if prefix_length == 0 {
            IpAddr::V6(0)
        } else if prefix_length >= 128 {
            ip
        } else {
            IpAddr::V6(v & (u128::MAX << ((128 - prefix_length) as u128)))
        },
    }
}

/// Clears the host bits of `ip` under a prefix of `prefix_length` bits.
pub fn apply_ip_prefix_len(ip: IpAddr, prefix_length: usize) -> (r: IpAddr)
    ensures
        r == prefix_masked(ip, prefix_length),
{
    match ip {
        IpAddr::V4(v) => if prefix_length == 0 {
            IpAddr::V4(0)
        } else if prefix_length >= 32 {
            ip
        } else {
            IpAddr::V4(v & (u32::MAX << ((32 - prefix_length) as u32)))
        },
        IpAddr::V6(v) => if prefix_length == 0 {
            IpAddr::V6(0)
        } else if prefix_length >= 128 {
            ip
        } else {
            IpAddr::V6(v & (u128::MAX << ((128 - prefix_length) as u128)))
        },
    }
}

/// An address keeps its family under any prefix, and an address that was
/// cut to a prefix is not changed by cutting it again.
pub proof fn law_prefix_masked_idempotent(ip: IpAddr, prefix_length: usize)
    ensures
        prefix_masked(ip, prefix_length) is V6 == ip is V6,
        prefix_masked(prefix_masked(ip, prefix_length), prefix_length) == prefix_masked(
            ip,
            prefix_length,
        ),
{
    match ip {
        IpAddr::V4(v) => {
            if 0 < prefix_length < 32 {
                let k = (32 - prefix_length) as u32;
                assert((v & (u32::MAX << k)) & (u32::MAX << k) == v & (u32::MAX << k))
                    by (bit_vector);
            }
        },
        IpAddr::V6(v) => {
            if 0 < prefix_length < 128 {
                let k = (128 - prefix_length) as u128;
                assert((v & (u128::MAX << k)) & (u128::MAX << k) == v & (u128::MAX << k))
                    by (bit_vector);
            }
        },
    }
}

} // verus!
