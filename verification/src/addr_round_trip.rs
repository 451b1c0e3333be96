use crate::addr::{
    first_double_colon, group_list, hex_digit_value, hex_group_value, hex_segments, hex_value,
    ip_text_value, ipv4_text_value, ipv6_segments, ipv6_text_value, octet_value, segments_value,
    tail_segments, IpAddr,
};
use crate::addr_fmt::{
    hex_digit, hex_text, ip_text, ipv4_text, ipv6_text, join_hex, lemma_longest_zero_run_found,
    longest_zero_run, segments_of, zero_run_len,
};
use crate::addr_laws::law_ipv6_text_is_no_ipv4_text;
use crate::text::{
    decimal_digit, decimal_text, digit_value, digits_value, first_index_from,
    lemma_first_index_from, lemma_first_index_skip, split_from, split_seq,
};
use vstd::arithmetic::div_mod::lemma_div_denominator;
use vstd::prelude::*;

verus! {

/// Whether `c` does not occur in `s`.
pub open spec fn free_of(s: Seq<char>, c: char) -> bool {
    forall|i: int| 0 <= i < s.len() ==> s[i] != c
}

/// A text without separator is its own single piece, from any position.
proof fn lemma_split_without_separator(s: Seq<char>, sep: char, from: int)
    requires
        0 <= from <= s.len(),
        forall|i: int| from <= i < s.len() ==> s[i] != sep,
    ensures
        split_from(s, sep, from) == seq![s.subrange(from, s.len() as int)],
{
    lemma_first_index_skip(s, sep, from, s.len() as int);
}

/// The pieces of a text, a separator and a last piece are the pieces of
/// the text and the last piece.
#[verifier::rlimit(50)]
proof fn lemma_split_push(x: Seq<char>, y: Seq<char>, sep: char, from: int)
    requires
        0 <= from <= x.len(),
        free_of(y, sep),
    ensures
        split_from(x + seq![sep] + y, sep, from) == split_from(x, sep, from).push(y),
    decreases x.len() - from,
{
    let s = x + seq![sep] + y;
    lemma_first_index_from(x, sep, from);
    lemma_first_index_from(s, sep, from);
    let ix = first_index_from(x, sep, from);
    let is = first_index_from(s, sep, from);
    assert(forall|j: int| 0 <= j < x.len() ==> s[j] == x[j]);
    assert(s[x.len() as int] == sep);
    if ix < x.len() {
        assert(is == ix) by {
            if is < ix {
                assert(x[is] == s[is]);
            } else if is > ix {
                assert(s[ix] == x[ix]);
            }
        }
        lemma_split_push(x, y, sep, ix + 1);
        assert(s.subrange(from, ix) =~= x.subrange(from, ix));
        assert(seq![x.subrange(from, ix)] + split_from(x, sep, ix + 1).push(y) =~= (seq![
            x.subrange(from, ix),
        ] + split_from(x, sep, ix + 1)).push(y));
    } else {
        assert(is == x.len()) by {
            if is < x.len() {
                assert(x[is] == s[is]);
            }
        }
        assert(s.subrange(from, x.len() as int) =~= x.subrange(from, x.len() as int));
        assert forall|i: int| x.len() + 1 <= i < s.len() implies s[i] != sep by {
            assert(s[i] == y[i - x.len() - 1]);
        }
        lemma_split_without_separator(s, sep, x.len() as int + 1);
        assert(s.subrange(x.len() as int + 1, s.len() as int) =~= y);
        assert(split_from(x, sep, from) == seq![x.subrange(from, x.len() as int)]);
        assert(seq![x.subrange(from, x.len() as int)] + seq![y] =~= seq![
            x.subrange(from, x.len() as int),
        ].push(y));
    }
}

/// A text without separator has itself for its one piece.
pub proof fn lemma_split_single(s: Seq<char>, sep: char)
    requires
        free_of(s, sep),
    ensures
        split_seq(s, sep) == seq![s],
{
    lemma_split_without_separator(s, sep, 0);
    assert(s.subrange(0, s.len() as int) =~= s);
}

/// The pieces of a text, a separator and a last piece without separator.
pub proof fn lemma_split_append(x: Seq<char>, y: Seq<char>, sep: char)
    requires
        free_of(y, sep),
    ensures
        split_seq(x + seq![sep] + y, sep) == split_seq(x, sep).push(y),
{
    lemma_split_push(x, y, sep, 0);
}

/// Whether `c` is a decimal digit.
pub open spec fn is_digit(c: char) -> bool {
    '0' <= c && c <= '9'
}

/// Whether `c` is a hexadecimal digit in lower case.
pub open spec fn is_lower_hex(c: char) -> bool {
    is_digit(c) || ('a' <= c && c <= 'f')
}

/// The digit that writes `d` has the value `d`.
pub proof fn lemma_decimal_digit(d: nat)
    requires
        d < 10,
    ensures
        is_digit(decimal_digit(d)),
        digit_value(decimal_digit(d)) == Some(d),
        hex_digit_value(decimal_digit(d)) == Some(d),
        d == 0 <==> decimal_digit(d) == '0',
{
}

/// The hexadecimal digit that writes `d` has the value `d`.
pub proof fn lemma_hex_digit(d: nat)
    requires
        d < 16,
    ensures
        is_lower_hex(hex_digit(d)),
        hex_digit_value(hex_digit(d)) == Some(d),
{
    if d < 10 {
        lemma_decimal_digit(d);
    }
}

/// The decimal text of a number holds digits only, writes the number,
/// and begins with a zero only where the number is zero.
pub proof fn lemma_decimal_text(n: nat)
    ensures
        decimal_text(n).len() >= 1,
        forall|i: int| 0 <= i < decimal_text(n).len() ==> is_digit(#[trigger] decimal_text(n)[i]),
        digits_value(decimal_text(n)) == Some(n),
        decimal_text(n)[0] == '0' <==> n == 0,
        n < 10 ==> decimal_text(n).len() == 1,
        10 <= n < 100 ==> decimal_text(n).len() == 2,
        100 <= n < 1000 ==> decimal_text(n).len() == 3,
    decreases n,
{
    let t = decimal_text(n);
    if n < 10 {
        lemma_decimal_digit(n);
        assert(t.drop_last() =~= Seq::<char>::empty());
        assert(digits_value(t.drop_last()) == Some(0nat));
    } else {
        lemma_decimal_text(n / 10);
        lemma_decimal_digit(n % 10);
        let h = decimal_text(n / 10);
        assert(t == h.push(decimal_digit(n % 10)));
        assert(t.drop_last() =~= h);
        assert(t.last() == decimal_digit(n % 10));
        assert(t[0] == h[0]);
        assert forall|i: int| 0 <= i < t.len() implies is_digit(#[trigger] t[i]) by {
            if i < h.len() {
                assert(t[i] == h[i]);
            }
        }
    }
}

/// The hexadecimal text of a number holds hexadecimal digits only and
/// writes the number.
pub proof fn lemma_hex_text(n: nat)
    ensures
        hex_text(n).len() >= 1,
        forall|i: int| 0 <= i < hex_text(n).len() ==> is_lower_hex(#[trigger] hex_text(n)[i]),
        hex_value(hex_text(n)) == Some(n),
        n < 0x10 ==> hex_text(n).len() == 1,
        0x10 <= n < 0x100 ==> hex_text(n).len() == 2,
        0x100 <= n < 0x1000 ==> hex_text(n).len() == 3,
        0x1000 <= n < 0x1_0000 ==> hex_text(n).len() == 4,
    decreases n,
{
    let t = hex_text(n);
    if n < 16 {
        lemma_hex_digit(n);
        assert(t.drop_last() =~= Seq::<char>::empty());
        assert(hex_value(t.drop_last()) == Some(0nat));
    } else {
        lemma_hex_text(n / 16);
        lemma_hex_digit(n % 16);
        let h = hex_text(n / 16);
        assert(t == h.push(hex_digit(n % 16)));
        assert(t.drop_last() =~= h);
        assert(t.last() == hex_digit(n % 16));
        assert forall|i: int| 0 <= i < t.len() implies is_lower_hex(#[trigger] t[i]) by {
            if i < h.len() {
                assert(t[i] == h[i]);
            }
        }
    }
}

/// The hexadecimal text of a segment is a group that writes the segment,
/// and holds neither colon nor dot.
pub proof fn lemma_hex_group_round_trip(x: nat)
    requires
        x < 0x1_0000,
    ensures
        hex_group_value(hex_text(x)) == Some(x),
        free_of(hex_text(x), ':'),
        free_of(hex_text(x), '.'),
        !hex_text(x).contains('.'),
        hex_text(x).len() >= 1,
{
    lemma_hex_text(x);
    assert forall|i: int| 0 <= i < hex_text(x).len() implies hex_text(x)[i] != ':' && hex_text(
        x,
    )[i] != '.' by {
        assert(is_lower_hex(hex_text(x)[i]));
    }
}

/// The decimal text of an octet is an octet that writes it, and holds
/// neither colon nor dot.
pub proof fn lemma_octet_round_trip(x: nat)
    requires
        x < 0x100,
    ensures
        octet_value(decimal_text(x)) == Some(x),
        free_of(decimal_text(x), ':'),
        free_of(decimal_text(x), '.'),
{
    lemma_decimal_text(x);
    assert forall|i: int| 0 <= i < decimal_text(x).len() implies decimal_text(x)[i] != ':'
        && decimal_text(x)[i] != '.' by {
        assert(is_digit(decimal_text(x)[i]));
    }
}

/// Four texts without dot, joined by dots, come apart at the dots into
/// the four.
proof fn lemma_dotted_split(da: Seq<char>, db: Seq<char>, dc: Seq<char>, dd: Seq<char>)
    requires
        free_of(da, '.'),
        free_of(db, '.'),
        free_of(dc, '.'),
        free_of(dd, '.'),
    ensures
        split_seq(da + seq!['.'] + db + seq!['.'] + dc + seq!['.'] + dd, '.') == seq![
            da,
            db,
            dc,
            dd,
        ],
{
    let t1 = da + seq!['.'] + db;
    let t2 = t1 + seq!['.'] + dc;
    lemma_split_single(da, '.');
    lemma_split_append(da, db, '.');
    lemma_split_append(t1, dc, '.');
    lemma_split_append(t2, dd, '.');
    assert(seq![da].push(db).push(dc).push(dd) =~= seq![da, db, dc, dd]);
}

/// Texts without colon, joined by a dot, are a text without colon.
proof fn lemma_dot_joined_has_no_colon(x: Seq<char>, y: Seq<char>)
    requires
        free_of(x, ':'),
        free_of(y, ':'),
    ensures
        free_of(x + seq!['.'] + y, ':'),
        (x + seq!['.'] + y).contains('.'),
{
    let t = x + seq!['.'] + y;
    assert forall|i: int| 0 <= i < t.len() implies t[i] != ':' by {
        if i < x.len() {
            assert(t[i] == x[i]);
        } else if i > x.len() {
            assert(t[i] == y[i - x.len() - 1]);
        }
    }
    assert(t[x.len() as int] == '.');
}

/// The four octets of an address make up the address.
proof fn lemma_octets_value(w: nat)
    requires
        w < 0x1_0000_0000,
    ensures
        w / 0x100_0000 < 0x100,
        (w / 0x100_0000) * 0x100_0000 + (w / 0x1_0000 % 0x100) * 0x1_0000 + (w / 0x100 % 0x100)
            * 0x100 + w % 0x100 == w,
{
    let x = w as int;
    lemma_div_denominator(x, 0x100, 0x100);
    lemma_div_denominator(x, 0x1_0000, 0x100);
    let q1 = x / 0x100;
    let q2 = x / 0x1_0000;
    let q3 = x / 0x100_0000;
    assert(q2 == q1 / 0x100);
    assert(q3 == q2 / 0x100);
    assert(x == q1 * 0x100 + x % 0x100);
    assert(q1 == q2 * 0x100 + q1 % 0x100);
    assert(q2 == q3 * 0x100 + q2 % 0x100);
}

/// The dotted decimal text of an address writes the address, and holds
/// a dot and no colon.
pub proof fn law_ipv4_text_round_trip(w: nat)
    requires
        w < 0x1_0000_0000,
    ensures
        ipv4_text_value(ipv4_text(w)) == Some(w),
        free_of(ipv4_text(w), ':'),
        ipv4_text(w).contains('.'),
{
    let a = w / 0x100_0000;
    let b = w / 0x1_0000 % 0x100;
    let c = w / 0x100 % 0x100;
    let d = w % 0x100;
    lemma_octets_value(w);
    lemma_octet_round_trip(a);
    lemma_octet_round_trip(b);
    lemma_octet_round_trip(c);
    lemma_octet_round_trip(d);
    let da = decimal_text(a);
    let db = decimal_text(b);
    let dc = decimal_text(c);
    let dd = decimal_text(d);
    lemma_dotted_split(da, db, dc, dd);
    lemma_dot_joined_has_no_colon(da, db);
    lemma_dot_joined_has_no_colon(da + seq!['.'] + db, dc);
    lemma_dot_joined_has_no_colon(da + seq!['.'] + db + seq!['.'] + dc, dd);
}

/// The hexadecimal texts of a list of segments.
pub open spec fn hex_texts(a: Seq<nat>) -> Seq<Seq<char>> {
    Seq::new(a.len(), |i: int| hex_text(a[i]))
}

/// Whether a text holds no two colons side by side, and neither begins
/// nor ends with a colon.
pub open spec fn colons_apart(h: Seq<char>) -> bool {
    &&& forall|i: int| 0 <= i < h.len() - 1 ==> !(h[i] == ':' && #[trigger] h[i + 1] == ':')
    &&& h.len() > 0 ==> h[0] != ':' && h.last() != ':'
}

/// Segments that are joined by colons come apart at the colons into
/// their hexadecimal texts.
#[verifier::rlimit(50)]
pub proof fn lemma_join_hex_split(a: Seq<nat>)
    requires
        a.len() >= 1,
        forall|i: int| 0 <= i < a.len() ==> a[i] < 0x1_0000,
    ensures
        split_seq(join_hex(a), ':') == hex_texts(a),
        join_hex(a).len() >= 1,
        colons_apart(join_hex(a)),
        free_of(join_hex(a), '.'),
    decreases a.len(),
{
    lemma_hex_group_round_trip(a.last());
    let t = hex_text(a.last());
    if a.len() == 1 {
        assert(join_hex(a) == t);
        lemma_split_single(t, ':');
        assert(hex_texts(a) =~= seq![t]);
    } else {
        let h = join_hex(a.drop_last());
        lemma_join_hex_split(a.drop_last());
        let j = join_hex(a);
        assert(j == h + seq![':'] + t);
        lemma_split_append(h, t, ':');
        assert(hex_texts(a.drop_last()).push(t) =~= hex_texts(a));
        assert forall|i: int| 0 <= i < j.len() - 1 implies !(j[i] == ':' && #[trigger] j[i + 1]
            == ':') by {
            if i + 1 < h.len() {
                assert(j[i] == h[i] && j[i + 1] == h[i + 1]);
            } else if i + 1 == h.len() {
                assert(j[i] == h.last());
            } else if i == h.len() {
                assert(j[i + 1] == t[0]);
            } else {
                assert(j[i] == t[i - h.len() - 1]);
            }
        }
        assert(j[0] == h[0]);
        assert(j.last() == t.last());
        assert forall|i: int| 0 <= i < j.len() implies j[i] != '.' by {
            if i < h.len() {
                assert(j[i] == h[i]);
            } else if i > h.len() {
                assert(j[i] == t[i - h.len() - 1]);
            }
        }
    }
}

/// The hexadecimal texts of segments are groups that write the segments.
pub proof fn lemma_hex_segments_round_trip(a: Seq<nat>)
    requires
        forall|i: int| 0 <= i < a.len() ==> a[i] < 0x1_0000,
    ensures
        hex_segments(hex_texts(a)) == Some(a),
        tail_segments(hex_texts(a)) == Some(a),
    decreases a.len(),
{
    let g = hex_texts(a);
    if a.len() == 0 {
        assert(a =~= Seq::<nat>::empty());
    } else {
        lemma_hex_segments_round_trip(a.drop_last());
        lemma_hex_group_round_trip(a.last());
        assert(g.drop_last() =~= hex_texts(a.drop_last()));
        assert(g.last() == hex_text(a.last()));
        assert(a.drop_last().push(a.last()) =~= a);
    }
}

/// A text whose colons stand apart holds no `::`.
pub proof fn lemma_no_double_colon(s: Seq<char>, from: int)
    requires
        0 <= from,
        colons_apart(s),
    ensures
        first_double_colon(s, from) == s.len(),
    decreases s.len() - from,
{
    if from + 1 < s.len() {
        assert(!(s[from] == ':' && s[from + 1] == ':'));
        lemma_no_double_colon(s, from + 1);
    }
}

/// The first `::` of a text whose colons stand apart, a `::` and more
/// text is the one between them.
pub proof fn lemma_double_colon_between(h: Seq<char>, t: Seq<char>, from: int)
    requires
        0 <= from <= h.len(),
        colons_apart(h),
    ensures
        first_double_colon(h + seq![':', ':'] + t, from) == h.len(),
    decreases h.len() - from,
{
    let s = h + seq![':', ':'] + t;
    assert(s[h.len() as int] == ':');
    assert(s[h.len() as int + 1] == ':');
    if from < h.len() {
        assert(s[from] == h[from]);
        if from + 1 < h.len() {
            assert(s[from + 1] == h[from + 1]);
            assert(!(h[from] == ':' && h[from + 1] == ':'));
        } else {
            assert(h[from] == h.last());
        }
        lemma_double_colon_between(h, t, from + 1);
    }
}

/// The segments from the start of a run of zeros on are zero for the
/// length of the run.
pub proof fn lemma_zero_run(g: Seq<nat>, i: int, j: int)
    requires
        0 <= i <= j < i + zero_run_len(g, i),
    ensures
        j < g.len(),
        g[j] == 0,
    decreases j - i,
{
    if i < j {
        lemma_zero_run(g, i + 1, j);
    }
}

/// The eight segments of an address make up the address.
#[verifier::rlimit(50)]
pub proof fn lemma_segments_value(v: nat)
    requires
        v < 0x1_0000_0000_0000_0000_0000_0000_0000_0000,
    ensures
        segments_value(segments_of(v)) == v,
        segments_of(v).len() == 8,
        forall|i: int| 0 <= i < 8 ==> #[trigger] segments_of(v)[i] < 0x1_0000,
{
    let x = v as int;
    let q1 = x / 0x1_0000;
    let q2 = x / 0x1_0000_0000;
    let q3 = x / 0x1_0000_0000_0000;
    let q4 = x / 0x1_0000_0000_0000_0000;
    let q5 = x / 0x1_0000_0000_0000_0000_0000;
    let q6 = x / 0x1_0000_0000_0000_0000_0000_0000;
    let q7 = x / 0x1_0000_0000_0000_0000_0000_0000_0000;
    lemma_div_denominator(x, 0x1_0000, 0x1_0000);
    lemma_div_denominator(x, 0x1_0000_0000, 0x1_0000);
    lemma_div_denominator(x, 0x1_0000_0000_0000, 0x1_0000);
    lemma_div_denominator(x, 0x1_0000_0000_0000_0000, 0x1_0000);
    lemma_div_denominator(x, 0x1_0000_0000_0000_0000_0000, 0x1_0000);
    lemma_div_denominator(x, 0x1_0000_0000_0000_0000_0000_0000, 0x1_0000);
    assert(q2 == q1 / 0x1_0000);
    assert(q3 == q2 / 0x1_0000);
    assert(q4 == q3 / 0x1_0000);
    assert(q5 == q4 / 0x1_0000);
    assert(q6 == q5 / 0x1_0000);
    assert(q7 == q6 / 0x1_0000);
    assert(x == q1 * 0x1_0000 + x % 0x1_0000);
    assert(q1 == q2 * 0x1_0000 + q1 % 0x1_0000);
    assert(q2 == q3 * 0x1_0000 + q2 % 0x1_0000);
    assert(q3 == q4 * 0x1_0000 + q3 % 0x1_0000);
    assert(q4 == q5 * 0x1_0000 + q4 % 0x1_0000);
    assert(q5 == q6 * 0x1_0000 + q5 % 0x1_0000);
    assert(q6 == q7 * 0x1_0000 + q6 % 0x1_0000);
    assert(q7 < 0x1_0000);
    assert(q7 % 0x1_0000 == q7);
    let g = segments_of(v);
    assert(g[0] == q7 % 0x1_0000);
    assert(g[1] == q6 % 0x1_0000);
    assert(g[2] == q5 % 0x1_0000);
    assert(g[3] == q4 % 0x1_0000);
    assert(g[4] == q3 % 0x1_0000);
    assert(g[5] == q2 % 0x1_0000);
    assert(g[6] == q1 % 0x1_0000);
    assert(g[7] == x % 0x1_0000);
}

#[verifier::rlimit(50)]
proof fn lemma_mapped_round_trip(v: nat)
    requires
        v < 0x1_0000_0000_0000_0000_0000_0000_0000_0000,
        v / 0x1_0000_0000 == 0xffff,
    ensures
        ipv6_text_value(ipv6_text(v)) == Some(v),
{
    let w = v % 0x1_0000_0000;
    let four = seq!['f', 'f', 'f', 'f'];
    let dotted = ipv4_text(w);
    let empty = Seq::<char>::empty();
    let t = four + seq![':'] + dotted;
    let text = ipv6_text(v);
    assert(text =~= empty + seq![':', ':'] + t);
    law_ipv4_text_round_trip(w);
    lemma_double_colon_between(empty, t, 0);
    assert(text.take(0) =~= empty);
    assert(text.skip(2) =~= t);
    lemma_hex_group_round_trip(0xffff);
    reveal_with_fuel(hex_text, 5);
    assert(hex_text(0xffff) =~= four);
    lemma_split_single(four, ':');
    lemma_split_append(four, dotted, ':');
    let groups = split_seq(t, ':');
    assert(groups =~= seq![four, dotted]);
    assert(group_list(t) == groups);
    assert(groups.last() == dotted);
    assert(groups.drop_last() =~= seq![four]);
    assert(seq![four].drop_last() =~= Seq::<Seq<char>>::empty());
    assert(hex_segments(seq![four]) == Some(seq![0xffffnat])) by {
        assert(seq![four].last() == four);
        assert(hex_segments(Seq::<Seq<char>>::empty()) == Some(Seq::<nat>::empty()));
        assert(Seq::<nat>::empty().push(0xffffnat) =~= seq![0xffffnat]);
    }
    let tail = seq![0xffffnat].push(w / 0x1_0000).push(w % 0x1_0000);
    assert(tail_segments(groups) == Some(tail));
    assert(group_list(empty) =~= Seq::<Seq<char>>::empty());
    let head = Seq::<nat>::empty();
    let segs = head + Seq::new(5, |i: int| 0nat) + tail;
    assert(ipv6_segments(text) == Some(segs));
    assert(segs[0] == 0 && segs[1] == 0 && segs[2] == 0 && segs[3] == 0 && segs[4] == 0);
    assert(segs[5] == 0xffff);
    assert(segs[6] == w / 0x1_0000);
    assert(segs[7] == w % 0x1_0000);
    assert(v == 0xffff * 0x1_0000_0000 + w);
}

/// Segments that are joined by colons are read back as the segments.
pub proof fn lemma_joined_groups(a: Seq<nat>)
    requires
        forall|i: int| 0 <= i < a.len() ==> a[i] < 0x1_0000,
    ensures
        hex_segments(group_list(join_hex(a))) == Some(a),
        tail_segments(group_list(join_hex(a))) == Some(a),
        colons_apart(join_hex(a)),
{
    if a.len() == 0 {
        assert(a =~= Seq::<nat>::empty());
        assert(join_hex(a).len() == 0);
    } else {
        lemma_join_hex_split(a);
        lemma_hex_segments_round_trip(a);
    }
}

/// The text of an IPv6 address writes the address.
#[verifier::rlimit(50)]
pub proof fn law_ipv6_text_round_trip(v: nat)
    requires
        v < 0x1_0000_0000_0000_0000_0000_0000_0000_0000,
    ensures
        ipv6_text_value(ipv6_text(v)) == Some(v),
{
    if v / 0x1_0000_0000 == 0xffff {
        lemma_mapped_round_trip(v);
    } else {
        let g = segments_of(v);
        lemma_segments_value(v);
        let run = longest_zero_run(g, 0);
        lemma_longest_zero_run_found(g, 0);
        let text = ipv6_text(v);
        if run.1 >= 2 {
            let st = run.0;
            let ln = run.1 as int;
            lemma_zero_run(g, st, st + ln - 1);
            let a = g.take(st);
            let b = g.skip(st + ln);
            let h = join_hex(a);
            let t = join_hex(b);
            assert(text == h + seq![':', ':'] + t);
            lemma_joined_groups(a);
            lemma_joined_groups(b);
            lemma_double_colon_between(h, t, 0);
            assert(text.take(h.len() as int) =~= h);
            assert(text.skip(h.len() as int + 2) =~= t);
            let segs = a + Seq::new(ln as nat, |i: int| 0nat) + b;
            assert(ipv6_segments(text) == Some(segs));
            assert forall|i: int| 0 <= i < 8 implies segs[i] == g[i] by {
                if st <= i < st + ln {
                    lemma_zero_run(g, st, i);
                }
            }
            assert(segs =~= g);
        } else {
            lemma_join_hex_split(g);
            lemma_hex_segments_round_trip(g);
            lemma_no_double_colon(text, 0);
        }
    }
}

/// The text of an address of either family is read as the address.
pub proof fn law_ip_text_round_trip(ip: IpAddr)
    ensures
        ip_text_value(ip_text(ip)) == Some(ip),
{
    match ip {
        IpAddr::V4(v) => {
            law_ipv4_text_round_trip(v as nat);
        },
        IpAddr::V6(v) => {
            law_ipv6_text_round_trip(v as nat);
            law_ipv6_text_is_no_ipv4_text(ipv6_text(v as nat));
        },
    }
}

} // verus!
