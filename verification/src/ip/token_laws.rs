use crate::addr::{group_list, hex_segments, ipv6_segments, ipv6_text_value};
use crate::addr_fmt::{join_hex, segments_of, zero_run_len};
use crate::addr_round_trip::{
    free_of, lemma_double_colon_between, lemma_join_hex_split, lemma_joined_groups,
    lemma_segments_value, lemma_zero_run,
};
use crate::ip::model::{token_canonical, token_is_set, token_text};
use vstd::prelude::*;

verus! {

/// The first four segments of a number below `2^64` are zero.
proof fn lemma_token_segments(v: nat)
    requires
        v < 0x1_0000_0000_0000_0000,
    ensures
        zero_run_len(segments_of(v), 0) >= 4,
        zero_run_len(segments_of(v), 0) <= 8,
{
    let g = segments_of(v);
    assert(g[0] == 0 && g[1] == 0 && g[2] == 0 && g[3] == 0);
    reveal_with_fuel(zero_run_len, 9);
}

/// The text of a token is IPv6 text that writes the token; it holds no
/// dot, and the text of the token zero is `::`.
#[verifier::rlimit(50)]
pub proof fn law_token_text_reads_back(v: nat)
    requires
        v < 0x1_0000_0000_0000_0000,
    ensures
        ipv6_text_value(token_text(v)) == Some(v),
        free_of(token_text(v), '.'),
        token_text(v).len() >= 2,
        v == 0 ==> token_text(v) == seq![':', ':'],
{
    let g = segments_of(v);
    lemma_segments_value(v);
    lemma_token_segments(v);
    let k = zero_run_len(g, 0) as int;
    let b = g.skip(k);
    let t = join_hex(b);
    let c = token_text(v);
    let empty = Seq::<char>::empty();
    assert(c =~= empty + seq![':', ':'] + t);
    lemma_joined_groups(b);
    lemma_double_colon_between(empty, t, 0);
    assert(c.take(0) =~= empty);
    assert(c.skip(2) =~= t);
    assert(group_list(empty) =~= Seq::<Seq<char>>::empty());
    assert(hex_segments(group_list(empty)) == Some(Seq::<nat>::empty()));
    let segs = Seq::<nat>::empty() + Seq::new((8 - b.len()) as nat, |i: int| 0nat) + b;
    assert(ipv6_segments(c) == Some(segs));
    assert forall|i: int| 0 <= i < 8 implies segs[i] == g[i] by {
        if i < k {
            lemma_zero_run(g, 0, i);
        }
    }
    assert(segs =~= g);
    if b.len() > 0 {
        lemma_join_hex_split(b);
    }
    assert forall|i: int| 0 <= i < c.len() implies c[i] != '.' by {
        if i >= 2 {
            assert(c[i] == t[i - 2]);
        }
    }
    if v == 0 {
        assert(g[4] == 0 && g[5] == 0 && g[6] == 0 && g[7] == 0);
        reveal_with_fuel(zero_run_len, 9);
        assert(k == 8);
        assert(b =~= Seq::<nat>::empty());
        assert(c =~= seq![':', ':']);
    }
}

/// The canonical text of a token is IPv6 text that writes the same
/// token, holds no dot, and is its own canonical text; the canonical
/// text of a token that asks for the default is `::`.
pub proof fn law_token_canonical_is_fixed(t: Seq<char>)
    requires
        token_canonical(t) is Some,
    ensures
        ipv6_text_value(token_canonical(t)->0) is Some,
        t.len() > 0 ==> ipv6_text_value(token_canonical(t)->0) == ipv6_text_value(t),
        t.len() == 0 ==> ipv6_text_value(token_canonical(t)->0) == Some(0nat),
        free_of(token_canonical(t)->0, '.'),
        token_canonical(token_canonical(t)->0) == token_canonical(t),
        !token_is_set(t) ==> token_canonical(t)->0 == seq![':', ':'],
        !token_is_set(t) ==> !token_is_set(token_canonical(t)->0),
{
    let colons = seq![':', ':'];
    law_token_text_reads_back(0);
    assert(token_text(0) == colons);
    assert(token_canonical(colons) == Some(colons));
    if t.len() > 0 {
        let v = ipv6_text_value(t)->0;
        law_token_text_reads_back(v);
    }
}

} // verus!
