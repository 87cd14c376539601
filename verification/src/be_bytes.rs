//! Big-endian integers.

use vstd::prelude::*;

verus! {

/// The `width` low-order bytes of `n`, most significant first.
pub open spec fn be_bytes(n: nat, width: nat) -> Seq<u8>
    decreases width,
{
    if width == 0 {
        seq![]
    } else {
        be_bytes(n / 256, (width - 1) as nat).push((n % 256) as u8)
    }
}

/// The number that a big-endian byte string stands for.
pub open spec fn be_value(s: Seq<u8>) -> nat
    decreases s.len(),
{
    if s.len() == 0 {
        0
    } else {
        be_value(s.drop_last()) * 256 + s.last() as nat
    }
}

/// 256 to the power `width`.
pub open spec fn byte_range(width: nat) -> nat
    decreases width,
{
    if width == 0 {
        1
    } else {
        256 * byte_range((width - 1) as nat)
    }
}

pub proof fn lemma_be_bytes_len(n: nat, width: nat)
    ensures
        be_bytes(n, width).len() == width,
    decreases width,
{
    if width > 0 {
        lemma_be_bytes_len(n / 256, (width - 1) as nat);
    }
}

pub proof fn lemma_byte_ranges()
    ensures
        byte_range(2) == 0x1_0000,
        byte_range(4) == 0x1_0000_0000,
        byte_range(8) == 0x1_0000_0000_0000_0000,
{
    reveal_with_fuel(byte_range, 9);
}

/// Only the low-order part of a number is written.
pub proof fn lemma_be_bytes_wrap(n: nat, width: nat)
    ensures
        be_bytes(n, width) == be_bytes(n % byte_range(width), width),
    decreases width,
{
    if width > 0 {
        let w = (width - 1) as nat;
        let r = byte_range(w);
        lemma_byte_range_mono(0, w);
        vstd::arithmetic::div_mod::lemma_breakdown(n as int, 256, r as int);
        let m = n % byte_range(width);
        assert(m == 256 * ((n / 256) % r) + n % 256);
        assert(m / 256 == (n / 256) % r && m % 256 == n % 256);
        lemma_be_bytes_wrap(n / 256, w);
    }
}

/// Writing a number that fits and reading it back gives the number.
pub proof fn lemma_be_roundtrip(n: nat, width: nat)
    requires
        n < byte_range(width),
    ensures
        be_value(be_bytes(n, width)) == n,
    decreases width,
{
    if width > 0 {
        let w = (width - 1) as nat;
        assert(n / 256 < byte_range(w)) by (nonlinear_arith)
            requires
                n < 256 * byte_range(w),
        ;
        lemma_be_roundtrip(n / 256, w);
        let s = be_bytes(n, width);
        assert(s.drop_last() =~= be_bytes(n / 256, w));
    }
}

/// A byte string stands for a number below the range of its width.
pub proof fn lemma_be_value_bound(s: Seq<u8>)
    ensures
        be_value(s) < byte_range(s.len()),
    decreases s.len(),
{
    if s.len() > 0 {
        lemma_be_value_bound(s.drop_last());
    }
}

/// Reading a byte string and writing the number back gives the byte string.
pub proof fn lemma_be_inverse(s: Seq<u8>)
    ensures
        be_bytes(be_value(s), s.len()) == s,
    decreases s.len(),
{
    if s.len() > 0 {
        lemma_be_inverse(s.drop_last());
        let v = be_value(s.drop_last());
        let b = s.last() as nat;
        assert((v * 256 + b) / 256 == v && (v * 256 + b) % 256 == b) by (nonlinear_arith)
            requires
                b < 256,
        ;
        assert(be_bytes(be_value(s), s.len()) =~= s);
    } else {
        assert(be_bytes(be_value(s), s.len()) =~= s);
    }
}

/// The number that up to eight big-endian bytes stand for.
pub fn be_read(s: &[u8]) -> (r: u64)
    requires
        s@.len() <= 8,
    ensures
        r == be_value(s@),
{
    let mut v: u64 = 0;
    let mut i: usize = 0;
    assert(s@.take(0) =~= seq![]);
    proof {
        lemma_byte_ranges();
    }
    while i < s.len()
        invariant
            i <= s@.len() <= 8,
            v == be_value(s@.take(i as int)),
        decreases s@.len() - i,
    {
        let ghost next = s@.take(i as int + 1);
        proof {
            assert(next.drop_last() =~= s@.take(i as int));
            lemma_be_value_bound(next);
            lemma_byte_range_mono(next.len(), 8);
            lemma_byte_ranges();
            assert(be_value(next) == v * 256 + s@[i as int]);
        }
        v = v * 256 + s[i] as u64;
        i += 1;
    }
    assert(s@.take(s@.len() as int) =~= s@);
    v
}

pub proof fn lemma_byte_range_mono(a: nat, b: nat)
    requires
        a <= b,
    ensures
        1 <= byte_range(a) <= byte_range(b),
    decreases b,
{
    if a < b {
        lemma_byte_range_mono(a, (b - 1) as nat);
    } else if a > 0 {
        lemma_byte_range_mono((a - 1) as nat, (b - 1) as nat);
    }
}

/// A 16-bit number as two big-endian bytes.
pub fn be_u16(n: u16) -> (r: [u8; 2])
    ensures
        r@ == be_bytes(n as nat, 2),
{
    let r: [u8; 2] = [(n / 256) as u8, (n % 256) as u8];
    proof {
        reveal_with_fuel(be_bytes, 3);
        assert(r@ =~= be_bytes(n as nat, 2));
    }
    r
}

/// A 32-bit number as four big-endian bytes.
pub fn be_u32(n: u32) -> (r: [u8; 4])
    ensures
        r@ == be_bytes(n as nat, 4),
{
    let a: u32 = n / 256;
    let b: u32 = a / 256;
    let c: u32 = b / 256;
    let r: [u8; 4] = [(c % 256) as u8, (b % 256) as u8, (a % 256) as u8, (n % 256) as u8];
    proof {
        reveal_with_fuel(be_bytes, 2);
        let d = (c / 256) as nat;
        assert(be_bytes(d, 0) == Seq::<u8>::empty());
        assert(be_bytes(c as nat, 1) == be_bytes(d, 0).push((c % 256) as u8));
        assert(be_bytes(b as nat, 2) == be_bytes(c as nat, 1).push((b % 256) as u8));
        assert(be_bytes(a as nat, 3) == be_bytes(b as nat, 2).push((a % 256) as u8));
        assert(be_bytes(n as nat, 4) == be_bytes(a as nat, 3).push((n % 256) as u8));
        assert(r@ =~= be_bytes(n as nat, 4));
    }
    r
}

/// Appends a 64-bit number as eight big-endian bytes.
pub fn push_be_u64(out: &mut Vec<u8>, n: u64)
    ensures
        final(out)@ == old(out)@ + be_bytes(n as nat, 8),
{
    let ghost before = out@;
    let high: u32 = (n / 0x1_0000_0000) as u32;
    let low: u32 = (n % 0x1_0000_0000) as u32;
    let a: [u8; 4] = be_u32(high);
    let b: [u8; 4] = be_u32(low);
    out.extend_from_slice(a.as_slice());
    out.extend_from_slice(b.as_slice());
    proof {
        lemma_be_split(n as nat, 4, 4);
        lemma_byte_ranges();
        assert(out@ =~= before + (be_bytes(high as nat, 4) + be_bytes(low as nat, 4)));
    }
}

/// The bytes of a number are those of its high part and of its low part.
pub proof fn lemma_be_split(n: nat, high: nat, low: nat)
    ensures
        be_bytes(n, high + low) == be_bytes(n / byte_range(low), high) + be_bytes(
            n % byte_range(low),
            low,
        ),
    decreases low,
{
    lemma_byte_range_mono(0, low);
    if low == 0 {
        assert(be_bytes(n % byte_range(0), 0) =~= seq![]);
        assert(be_bytes(n / byte_range(low), high) + Seq::<u8>::empty() =~= be_bytes(n, high));
    } else {
        let w = (low - 1) as nat;
        let r = byte_range(w);
        lemma_byte_range_mono(0, w);
        lemma_be_split(n / 256, high, w);
        vstd::arithmetic::div_mod::lemma_div_denominator(n as int, 256, r as int);
        vstd::arithmetic::div_mod::lemma_breakdown(n as int, 256, r as int);
        let m = n % byte_range(low);
        assert(m == 256 * ((n / 256) % r) + n % 256);
        assert(m / 256 == (n / 256) % r && m % 256 == n % 256);
        assert(be_bytes(n, high + low) == be_bytes(n / 256, (high + w) as nat).push(
            (n % 256) as u8,
        ));
        assert(be_bytes(m, low) == be_bytes(m / 256, w).push((m % 256) as u8));
        assert(be_bytes(n, high + low) =~= be_bytes(n / byte_range(low), high) + be_bytes(m, low));
    }
}

/// Numbers are written with the highest byte first.
pub proof fn law_highest_byte_first(n: nat, s: Seq<u8>)
    ensures
        be_bytes(n, 2) == seq![(n / 0x100 % 0x100) as u8, (n % 0x100) as u8],
        be_bytes(n, 4) == seq![
            (n / 0x100_0000 % 0x100) as u8,
            (n / 0x1_0000 % 0x100) as u8,
            (n / 0x100 % 0x100) as u8,
            (n % 0x100) as u8,
        ],
        s.len() == 2 ==> be_value(s) == s[0] * 0x100 + s[1],
        s.len() == 4 ==> be_value(s) == s[0] * 0x100_0000 + s[1] * 0x1_0000 + s[2] * 0x100 + s[3],
        s.len() == 8 ==> be_value(s) == 0x1_0000_0000 * be_value(s.take(4)) + be_value(s.skip(4)),
{
    reveal_with_fuel(be_bytes, 5);
    assert(n / 256 / 256 == n / 0x1_0000 && n / 256 / 256 / 256 == n / 0x100_0000);
    assert(be_bytes(n, 2) =~= seq![(n / 0x100 % 0x100) as u8, (n % 0x100) as u8]);
    assert(be_bytes(n, 4) =~= seq![
        (n / 0x100_0000 % 0x100) as u8,
        (n / 0x1_0000 % 0x100) as u8,
        (n / 0x100 % 0x100) as u8,
        (n % 0x100) as u8,
    ]);
    if s.len() == 2 {
        lemma_value_two(s);
    }
    if s.len() == 4 {
        lemma_value_four(s);
    }
    if s.len() == 8 {
        lemma_value_tail(s, 4);
        assert(byte_range(4) == 0x1_0000_0000) by {
            reveal_with_fuel(byte_range, 5);
        }
        let a = be_value(s.take(4));
        let r = byte_range(4);
        assert(a * r == 0x1_0000_0000 * a) by (nonlinear_arith)
            requires
                r == 0x1_0000_0000,
        ;
    }
}

proof fn lemma_value_two(s: Seq<u8>)
    requires
        s.len() == 2,
    ensures
        be_value(s) == s[0] * 0x100 + s[1],
{
    reveal_with_fuel(be_value, 3);
    assert(s.drop_last().drop_last() =~= seq![]);
}

proof fn lemma_value_four(s: Seq<u8>)
    requires
        s.len() == 4,
    ensures
        be_value(s) == s[0] * 0x100_0000 + s[1] * 0x1_0000 + s[2] * 0x100 + s[3],
{
    reveal_with_fuel(be_value, 3);
    lemma_value_two(s.drop_last().drop_last());
}

proof fn lemma_value_tail(s: Seq<u8>, n: int)
    requires
        0 <= n <= s.len(),
    ensures
        be_value(s) == be_value(s.take(n)) * byte_range((s.len() - n) as nat) + be_value(s.skip(n)),
    decreases s.len() - n,
{
    if n == s.len() {
        assert(s.take(n) =~= s);
        assert(s.skip(n) =~= seq![]);
        assert(byte_range(0) == 1);
        assert(be_value(s) * 1 == be_value(s));
    } else {
        let front = s.drop_last();
        lemma_value_tail(front, n);
        assert(front.take(n) =~= s.take(n));
        assert(front.skip(n) =~= s.skip(n).drop_last());
        assert(s.skip(n).last() == s.last());
        let a = be_value(s.take(n));
        let r = byte_range((front.len() - n) as nat);
        assert(byte_range((s.len() - n) as nat) == 256 * r);
        assert((a * r) * 256 == a * (256 * r)) by (nonlinear_arith);
        assert((a * r + be_value(front.skip(n))) * 256 == (a * r) * 256 + be_value(front.skip(n))
            * 256) by (nonlinear_arith);
    }
}

} // verus!
