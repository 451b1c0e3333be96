use crate::addr::{segments_nat, IpAddr};
use crate::text::{decimal_digit, decimal_text};
use vstd::prelude::*;
use vstd::string::StringExecFns;

verus! {

/// The lower-case hexadecimal digit that writes `d`.
pub open spec fn hex_digit(d: nat) -> char
    recommends
        d < 16,
{
    if d < 10 {
        decimal_digit(d)
    } else if d == 10 {
        'a'
    } else if d == 11 {
        'b'
    } else if d == 12 {
        'c'
    } else if d == 13 {
        'd'
    } else if d == 14 {
        'e'
    } else {
        'f'
    }
}

/// The hexadecimal digits of `n`, lower case, without leading zeros.
pub open spec fn hex_text(n: nat) -> Seq<char>
    decreases n,
{
    if n < 16 {
        seq![hex_digit(n)]
    } else {
        hex_text(n / 16).push(hex_digit(n % 16))
    }
}

/// The dotted decimal form of a 32-bit address.
pub open spec fn ipv4_text(v: nat) -> Seq<char> {
    decimal_text(v / 0x100_0000) + seq!['.'] + decimal_text(v / 0x1_0000 % 0x100) + seq!['.']
        + decimal_text(v / 0x100 % 0x100) + seq!['.'] + decimal_text(v % 0x100)
}

/// The eight 16-bit segments of a 128-bit address, the highest first.
pub open spec fn segments_of(v: nat) -> Seq<nat> {
    seq![
        v / 0x1_0000_0000_0000_0000_0000_0000_0000 % 0x1_0000,
        v / 0x1_0000_0000_0000_0000_0000_0000 % 0x1_0000,
        v / 0x1_0000_0000_0000_0000_0000 % 0x1_0000,
        v / 0x1_0000_0000_0000_0000 % 0x1_0000,
        v / 0x1_0000_0000_0000 % 0x1_0000,
        v / 0x1_0000_0000 % 0x1_0000,
        v / 0x1_0000 % 0x1_0000,
        v % 0x1_0000,
    ]
}

/// The segments of `g` in hexadecimal, with a colon between neighbours.
pub open spec fn join_hex(g: Seq<nat>) -> Seq<char>
    decreases g.len(),
{
    if g.len() == 0 {
        seq![]
    } else if g.len() == 1 {
        hex_text(g[0])
    } else {
        join_hex(g.drop_last()) + seq![':'] + hex_text(g.last())
    }
}

/// How many zero segments follow one another in `g` from position `i` on.
pub open spec fn zero_run_len(g: Seq<nat>, i: int) -> nat
    decreases g.len() - i,
{
    if 0 <= i < g.len() && g[i] == 0 {
        1 + zero_run_len(g, i + 1)
    } else {
        0
    }
}

/// Where the longest run of zero segments at or after position `i` begins,
/// and how long it is; of several longest runs, the first.
pub open spec fn longest_zero_run(g: Seq<nat>, i: int) -> (int, nat)
    decreases g.len() - i,
{
    if i < 0 || i >= g.len() {
        (g.len() as int, 0)
    } else {
        let rest = longest_zero_run(g, i + 1);
        let here = zero_run_len(g, i);
        if here > 0 && here >= rest.1 {
            (i, here)
        } else {
            rest
        }
    }
}

/// No run of zero segments is longer than the longest, and none that begins
/// before it is as long.
pub proof fn law_longest_zero_run(g: Seq<nat>, i: int, j: int)
    requires
        0 <= i <= j < g.len(),
    ensures
        zero_run_len(g, j) <= longest_zero_run(g, i).1,
        j < longest_zero_run(g, i).0 ==> zero_run_len(g, j) < longest_zero_run(g, i).1
            || zero_run_len(g, j) == 0,
        longest_zero_run(g, i).1 > 0 ==> i <= longest_zero_run(g, i).0 < g.len()
            && zero_run_len(g, longest_zero_run(g, i).0) == longest_zero_run(g, i).1,
    decreases g.len() - i,
{
    if i < j {
        law_longest_zero_run(g, i + 1, j);
    }
    lemma_longest_zero_run_found(g, i);
}

/// The longest run of zero segments, where there is one, begins at or
/// after the position asked for, and has the length that is told of it.
pub proof fn lemma_longest_zero_run_found(g: Seq<nat>, i: int)
    requires
        0 <= i <= g.len(),
    ensures
        longest_zero_run(g, i).1 > 0 ==> i <= longest_zero_run(g, i).0 < g.len() && zero_run_len(
            g,
            longest_zero_run(g, i).0,
        ) == longest_zero_run(g, i).1,
        longest_zero_run(g, i).1 == 0 ==> longest_zero_run(g, i).0 == g.len(),
    decreases g.len() - i,
{
    if i < g.len() {
        lemma_longest_zero_run_found(g, i + 1);
    }
}

/// The text of a 128-bit address: an address that maps an IPv4 address is
/// written `::ffff:` and the dotted form; any other has its longest run of
/// two or more zero segments, the first of them, written as `::`.
pub open spec fn ipv6_text(v: nat) -> Seq<char> {
    if v / 0x1_0000_0000 == 0xffff {
        seq![':', ':', 'f', 'f', 'f', 'f', ':'] + ipv4_text(v % 0x1_0000_0000)
    } else {
        let g = segments_of(v);
        let run = longest_zero_run(g, 0);
        if run.1 >= 2 {
            join_hex(g.take(run.0)) + seq![':', ':'] + join_hex(g.skip(run.0 + run.1))
        } else {
            join_hex(g)
        }
    }
}

/// The text of an address of either family.
pub open spec fn ip_text(ip: IpAddr) -> Seq<char> {
    match ip {
        IpAddr::V4(v) => ipv4_text(v as nat),
        IpAddr::V6(v) => ipv6_text(v as nat),
    }
}

fn hex_digit_str(d: u8) -> (r: &'static str)
    requires
        d < 16,
    ensures
        r@ == seq![hex_digit(d as nat)],
{
    proof {
        reveal_strlit("0");
        reveal_strlit("1");
        reveal_strlit("2");
        reveal_strlit("3");
        reveal_strlit("4");
        reveal_strlit("5");
        reveal_strlit("6");
        reveal_strlit("7");
        reveal_strlit("8");
        reveal_strlit("9");
        reveal_strlit("a");
        reveal_strlit("b");
        reveal_strlit("c");
        reveal_strlit("d");
        reveal_strlit("e");
        reveal_strlit("f");
    }
    let r = if d == 0 {
        "0"
    } else if d == 1 {
        "1"
    } else if d == 2 {
        "2"
    } else if d == 3 {
        "3"
    } else if d == 4 {
        "4"
    } else if d == 5 {
        "5"
    } else if d == 6 {
        "6"
    } else if d == 7 {
        "7"
    } else if d == 8 {
        "8"
    } else if d == 9 {
        "9"
    } else if d == 10 {
        "a"
    } else if d == 11 {
        "b"
    } else if d == 12 {
        "c"
    } else if d == 13 {
        "d"
    } else if d == 14 {
        "e"
    } else {
        "f"
    };
    assert(r@ =~= seq![hex_digit(d as nat)]);
    r
}

/// Appends `n` in decimal.
pub fn push_decimal(out: &mut String, n: u16)
    ensures
        final(out)@ == old(out)@ + decimal_text(n as nat),
{
    let ghost before = out@;
    if n >= 10000 {
        out.append(hex_digit_str((n / 10000) as u8));
    }
    if n >= 1000 {
        out.append(hex_digit_str((n / 1000 % 10) as u8));
    }
    if n >= 100 {
        out.append(hex_digit_str((n / 100 % 10) as u8));
    }
    if n >= 10 {
        out.append(hex_digit_str((n / 10 % 10) as u8));
    }
    out.append(hex_digit_str((n % 10) as u8));
    proof {
        let m = n as nat;
        assert(m / 10 / 10 == m / 100);
        assert(m / 100 / 10 == m / 1000);
        assert(m / 1000 / 10 == m / 10000);
        if m >= 10000 {
            assert(decimal_text(m / 10000) == seq![decimal_digit(m / 10000)]);
        }
        if m >= 1000 {
            assert(decimal_text(m / 1000) == if m >= 10000 {
                decimal_text(m / 10000).push(decimal_digit(m / 1000 % 10))
            } else {
                seq![decimal_digit(m / 1000)]
            });
        }
        if m >= 100 {
            assert(decimal_text(m / 100) == if m >= 1000 {
                decimal_text(m / 1000).push(decimal_digit(m / 100 % 10))
            } else {
                seq![decimal_digit(m / 100)]
            });
        }
        if m >= 10 {
            assert(decimal_text(m / 10) == if m >= 100 {
                decimal_text(m / 100).push(decimal_digit(m / 10 % 10))
            } else {
                seq![decimal_digit(m / 10)]
            });
        }
        assert(out@ =~= before + decimal_text(m));
    }
}

/// Appends `n` in lower-case hexadecimal, without leading zeros.
pub fn push_hex(out: &mut String, n: u16)
    ensures
        final(out)@ == old(out)@ + hex_text(n as nat),
{
    let ghost before = out@;
    if n >= 0x1000 {
        out.append(hex_digit_str((n / 0x1000) as u8));
    }
    if n >= 0x100 {
        out.append(hex_digit_str((n / 0x100 % 16) as u8));
    }
    if n >= 0x10 {
        out.append(hex_digit_str((n / 0x10 % 16) as u8));
    }
    out.append(hex_digit_str((n % 16) as u8));
    proof {
        let m = n as nat;
        if m >= 0x1000 {
            assert(m / 16 / 16 / 16 == m / 0x1000);
            assert(m / 16 / 16 == m / 0x100);
            assert(hex_text(m / 0x1000) == seq![hex_digit(m / 0x1000)]);
            assert(hex_text(m / 0x100) == hex_text(m / 0x1000).push(hex_digit(m / 0x100 % 16)));
            assert(hex_text(m / 16) == hex_text(m / 0x100).push(hex_digit(m / 16 % 16)));
        } else if m >= 0x100 {
            assert(m / 16 / 16 == m / 0x100);
            assert(hex_text(m / 0x100) == seq![hex_digit(m / 0x100)]);
            assert(hex_text(m / 16) == hex_text(m / 0x100).push(hex_digit(m / 16 % 16)));
        } else if m >= 0x10 {
            assert(hex_text(m / 16) == seq![hex_digit(m / 16)]);
        }
        assert(out@ =~= before + hex_text(m));
    }
}

/// Appends a 32-bit address in dotted decimal.
pub fn push_ipv4(out: &mut String, v: u32)
    ensures
        final(out)@ == old(out)@ + ipv4_text(v as nat),
{
    let ghost before = out@;
    proof {
        reveal_strlit(".");
    }
    push_decimal(out, (v / 0x100_0000) as u16);
    out.append(".");
    push_decimal(out, (v / 0x1_0000 % 0x100) as u16);
    out.append(".");
    push_decimal(out, (v / 0x100 % 0x100) as u16);
    out.append(".");
    push_decimal(out, (v % 0x100) as u16);
    proof {
        assert("."@ =~= seq!['.']);
        assert(out@ =~= before + ipv4_text(v as nat));
    }
}

/// The eight segments of a 128-bit address, the highest first.
pub fn segments(v: u128) -> (g: Vec<u16>)
    ensures
        g@.len() == 8,
        segments_nat(g@) == segments_of(v as nat),
{
    let mut g: Vec<u16> = Vec::new();
    g.push((v / 0x1_0000_0000_0000_0000_0000_0000_0000 % 0x1_0000) as u16);
    g.push((v / 0x1_0000_0000_0000_0000_0000_0000 % 0x1_0000) as u16);
    g.push((v / 0x1_0000_0000_0000_0000_0000 % 0x1_0000) as u16);
    g.push((v / 0x1_0000_0000_0000_0000 % 0x1_0000) as u16);
    g.push((v / 0x1_0000_0000_0000 % 0x1_0000) as u16);
    g.push((v / 0x1_0000_0000 % 0x1_0000) as u16);
    g.push((v / 0x1_0000 % 0x1_0000) as u16);
    g.push((v % 0x1_0000) as u16);
    assert(segments_nat(g@) =~= segments_of(v as nat));
    g
}

/// Appends the segments of `g` from position `from` up to `to` in
/// hexadecimal, with a colon between neighbours.
pub fn push_hex_groups(out: &mut String, g: &Vec<u16>, from: usize, to: usize)
    requires
        from <= to <= g@.len(),
    ensures
        final(out)@ == old(out)@ + join_hex(segments_nat(g@).subrange(from as int, to as int)),
{
    let ghost before = out@;
    let ghost all = segments_nat(g@);
    let mut i: usize = from;
    proof {
        reveal_strlit(":");
        assert(all.subrange(from as int, from as int) =~= Seq::<nat>::empty());
        assert(before + join_hex(Seq::<nat>::empty()) =~= before);
    }
    while i < to
        invariant
            from <= i <= to <= g@.len(),
            all == segments_nat(g@),
            ":"@ == seq![':'],
            out@ == before + join_hex(all.subrange(from as int, i as int)),
        decreases to - i,
    {
        let ghost done = all.subrange(from as int, i as int);
        let ghost next = all.subrange(from as int, i + 1);
        proof {
            assert(next.drop_last() =~= done);
            assert(next.last() == g@[i as int] as nat);
        }
        if i > from {
            out.append(":");
        }
        push_hex(out, g[i]);
        proof {
            if i > from {
                assert(out@ =~= before + (join_hex(done) + seq![':'] + hex_text(next.last())));
            } else {
                assert(done.len() == 0);
                assert(out@ =~= before + hex_text(next.last()));
            }
        }
        i += 1;
    }
}

fn find_longest_zero_run(g: &Vec<u16>) -> (r: (usize, usize))
    ensures
        (r.0 as int, r.1 as nat) == longest_zero_run(segments_nat(g@), 0),
        r.0 + r.1 <= g@.len(),
{
    let ghost all = segments_nat(g@);
    let mut i: usize = g.len();
    let mut here: usize = 0;
    let mut best: (usize, usize) = (g.len(), 0);
    while i > 0
        invariant
            i <= g@.len(),
            all == segments_nat(g@),
            here as nat == zero_run_len(all, i as int),
            (best.0 as int, best.1 as nat) == longest_zero_run(all, i as int),
            i + here <= g.len(),
            best.0 + best.1 <= g.len(),
        decreases i,
    {
        i -= 1;
        if g[i] == 0 {
            here = here + 1;
        } else {
            here = 0;
        }
        if here > 0 && here >= best.1 {
            best = (i, here);
        }
    }
    best
}

/// Appends the text of a 128-bit address.
pub fn push_ipv6(out: &mut String, v: u128)
    ensures
        final(out)@ == old(out)@ + ipv6_text(v as nat),
{
    let ghost before = out@;
    proof {
        reveal_strlit("::ffff:");
        reveal_strlit("::");
    }
    if v / 0x1_0000_0000 == 0xffff {
        out.append("::ffff:");
        push_ipv4(out, (v % 0x1_0000_0000) as u32);
        proof {
            assert("::ffff:"@ =~= seq![':', ':', 'f', 'f', 'f', 'f', ':']);
            assert(out@ =~= before + ipv6_text(v as nat));
        }
    } else {
        let g = segments(v);
        let run = find_longest_zero_run(&g);
        if run.1 >= 2 {
            push_hex_groups(out, &g, 0, run.0);
            out.append("::");
            push_hex_groups(out, &g, run.0 + run.1, 8);
            proof {
                let all = segments_nat(g@);
                assert("::"@ =~= seq![':', ':']);
                assert(all.subrange(0, run.0 as int) =~= all.take(run.0 as int));
                assert(all.subrange(run.0 + run.1, 8) =~= all.skip(run.0 + run.1));
                assert(out@ =~= before + ipv6_text(v as nat));
            }
        } else {
            push_hex_groups(out, &g, 0, 8);
            proof {
                let all = segments_nat(g@);
                assert(all.subrange(0, 8) =~= all);
            }
        }
    }
}

impl IpAddr {
    /// The address as text.
    pub fn to_string(&self) -> (r: String)
        ensures
            r@ == ip_text(*self),
    {
        let mut out = String::new();
        match self {
            IpAddr::V4(v) => push_ipv4(&mut out, *v),
            IpAddr::V6(v) => push_ipv6(&mut out, *v),
        }
        assert(Seq::<char>::empty() + ip_text(*self) =~= ip_text(*self));
        out
    }
}

} // verus!
