use crate::addr::{
    first_double_colon, ip_text_value, ipv4_text_value, ipv6_text_value, law_ipv6_text_value_fits,
    lemma_hex_segments_bound, octet_value, tail_segments, IpAddr,
};
use crate::dns::canonical_server;
use crate::text::{
    digit_value, digits_value, first_index_from, lemma_first_index_from, split_from, split_seq,
};
use vstd::prelude::*;

verus! {

proof fn lemma_first_double_colon(s: Seq<char>, from: int)
    requires
        0 <= from,
    ensures
        first_double_colon(s, from) < s.len() ==> 0 <= first_double_colon(s, from) && s[first_double_colon(
            s,
            from,
        )] == ':',
    decreases s.len() - from,
{
    if from + 1 < s.len() && !(s[from] == ':' && s[from + 1] == ':') {
        lemma_first_double_colon(s, from + 1);
    }
}

/// Every character of a text that is no separator is in one of the
/// pieces between the separators.
proof fn lemma_split_covers(s: Seq<char>, sep: char, from: int, p: int) -> (k: int)
    requires
        0 <= from <= p < s.len(),
        s[p] != sep,
    ensures
        0 <= k < split_from(s, sep, from).len(),
        split_from(s, sep, from)[k].contains(s[p]),
    decreases s.len() - from,
{
    lemma_first_index_from(s, sep, from);
    let i = first_index_from(s, sep, from);
    if i >= s.len() {
        let piece = s.subrange(from, s.len() as int);
        assert(piece[p - from] == s[p]);
        0
    } else if p < i {
        let piece = s.subrange(from, i);
        assert(piece[p - from] == s[p]);
        0
    } else {
        let k = lemma_split_covers(s, sep, i + 1, p);
        let rest = split_from(s, sep, i + 1);
        assert(split_from(s, sep, from) == seq![s.subrange(from, i)] + rest);
        assert((seq![s.subrange(from, i)] + rest)[k + 1] == rest[k]);
        k + 1
    }
}

/// A run of digits holds digits only.
proof fn lemma_digits_only(t: Seq<char>, i: int)
    requires
        digits_value(t) is Some,
        0 <= i < t.len(),
    ensures
        digit_value(t[i]) is Some,
    decreases t.len(),
{
    if i < t.len() - 1 {
        lemma_digits_only(t.drop_last(), i);
    }
}

/// A text in dotted decimal holds no colon.
proof fn lemma_ipv4_text_has_no_colon(s: Seq<char>)
    requires
        ipv4_text_value(s) is Some,
    ensures
        !s.contains(':'),
{
    if s.contains(':') {
        let p = choose|p: int| 0 <= p < s.len() && s[p] == ':';
        let k = lemma_split_covers(s, '.', 0, p);
        let piece = split_seq(s, '.')[k];
        assert(octet_value(piece) is Some);
        let q = choose|q: int| 0 <= q < piece.len() && piece[q] == ':';
        lemma_digits_only(piece, q);
    }
}

/// A text that writes an IPv6 address holds a colon.
proof fn lemma_ipv6_text_has_colon(s: Seq<char>)
    requires
        ipv6_text_value(s) is Some,
    ensures
        s.contains(':'),
{
    let k = first_double_colon(s, 0);
    lemma_first_double_colon(s, 0);
    if k >= s.len() {
        let g = split_seq(s, ':');
        assert(tail_segments(g) is Some);
        if g.len() > 0 && g.last().contains('.') {
            lemma_hex_segments_bound(g.drop_last());
        } else {
            lemma_hex_segments_bound(g);
        }
        assert(g.len() >= 2);
        lemma_first_index_from(s, ':', 0);
        let i = first_index_from(s, ':', 0);
        assert(i < s.len());
        assert(s[i] == ':');
    } else {
        assert(s[k] == ':');
    }
}

/// A text that writes an IPv6 address writes no IPv4 address, so it is
/// read as the IPv6 address that it writes.
pub proof fn law_ipv6_text_is_no_ipv4_text(s: Seq<char>)
    requires
        ipv6_text_value(s) is Some,
    ensures
        ipv4_text_value(s) is None,
        ip_text_value(s) == Some(IpAddr::V6(ipv6_text_value(s)->0 as u128)),
        ipv6_text_value(s)->0 as u128 == ipv6_text_value(s)->0,
{
    lemma_ipv6_text_has_colon(s);
    if ipv4_text_value(s) is Some {
        lemma_ipv4_text_has_no_colon(s);
    }
    law_ipv6_text_value_fits(s);
}

/// Two texts that write the same IPv6 address are the same name server
/// when name servers are compared, whatever their case, their zeros, and
/// an IPv4 address in their last 32 bits.
pub proof fn law_same_ipv6_address_same_server(a: Seq<char>, b: Seq<char>)
    requires
        ipv6_text_value(a) is Some,
        ipv6_text_value(a) == ipv6_text_value(b),
    ensures
        canonical_server(a) == canonical_server(b),
{
    law_ipv6_text_is_no_ipv4_text(a);
    law_ipv6_text_is_no_ipv4_text(b);
}

} // verus!
