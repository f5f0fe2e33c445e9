//! Big-endian integer encoding, the base layer of the private binary
//! protocol: all multi-byte integers on the wire are big-endian.

use vstd::prelude::*;

verus! {

broadcast use vstd::std_specs::vec::axiom_spec_len;

/// The value of a byte string read as an unsigned big-endian integer.
pub open spec fn be_bytes_to_nat(s: Seq<u8>) -> nat
    decreases s.len(),
{
    if s.len() == 0 {
        0
    } else {
        (be_bytes_to_nat(s.drop_last()) * 256 + s.last()) as nat
    }
}

/// The value of an 8-byte string read as a big-endian two's-complement
/// signed integer.
pub open spec fn be_bytes_to_i64(s: Seq<u8>) -> int {
    if be_bytes_to_nat(s) < 0x8000_0000_0000_0000 {
        be_bytes_to_nat(s) as int
    } else {
        be_bytes_to_nat(s) - 0x1_0000_0000_0000_0000
    }
}

/// 256 to the power n: the number of values a big-endian byte string of
/// length n can take.
pub open spec fn pow256(n: nat) -> nat
    decreases n,
{
    if n == 0 {
        1
    } else {
        256 * pow256((n - 1) as nat)
    }
}

proof fn lemma_pow256_le(a: nat, b: nat)
    requires
        a <= b,
    ensures
        pow256(a) <= pow256(b),
    decreases b,
{
    if a < b {
        lemma_pow256_le(a, (b - 1) as nat);
    }
}

/// Reads the 2-byte big-endian unsigned integer at `at`.
pub fn read_u16_be(data: &Vec<u8>, at: usize) -> (v: u16)
    requires
        at + 2 <= data.len(),
    ensures
        v as nat == be_bytes_to_nat(data@.subrange(at as int, at as int + 2)),
{
    let hi = data[at];
    let lo = data[at + 1];
    proof {
        let s = data@.subrange(at as int, at as int + 2);
        assert(s.drop_last() =~= seq![hi]);
        assert(seq![hi].drop_last() =~= Seq::<u8>::empty());
        assert(s.last() == lo);
        assert(be_bytes_to_nat(Seq::<u8>::empty()) == 0);
        assert(be_bytes_to_nat(seq![hi]) == hi);
        assert(be_bytes_to_nat(s) == hi * 256 + lo);
    }
    (hi as u16) * 256 + (lo as u16)
}

/// Reads the 8-byte big-endian unsigned integer at `at`.
pub fn read_u64_be(data: &Vec<u8>, at: usize) -> (v: u64)
    requires
        at + 8 <= data.len(),
    ensures
        v as nat == be_bytes_to_nat(data@.subrange(at as int, at as int + 8)),
{
    let mut v: u64 = 0;
    let mut i: usize = 0;
    while i < 8
        invariant
            i <= 8,
            at + 8 <= data.len(),
            v as nat == be_bytes_to_nat(data@.subrange(at as int, at as int + i as int)),
            (v as nat) < pow256(i as nat),
        decreases 8 - i,
    {
        let b = data[at + i];
        proof {
            lemma_pow256_le(i as nat, 7);
            assert(pow256(7) == 0x100_0000_0000_0000) by {
                reveal_with_fuel(pow256, 8);
            }
            let s = data@.subrange(at as int, at as int + i as int + 1);
            assert(s.drop_last() =~= data@.subrange(at as int, at as int + i as int));
            assert(s.last() == data@[at as int + i as int]);
        }
        v = v * 256 + b as u64;
        i = i + 1;
    }
    proof {
        assert(data@.subrange(at as int, at as int + 8) =~= data@.subrange(
            at as int,
            at as int + i as int,
        ));
    }
    v
}

/// Reads the 8-byte big-endian two's-complement signed integer at `at`.
pub fn read_i64_be(data: &Vec<u8>, at: usize) -> (t: i64)
    requires
        at + 8 <= data.len(),
    ensures
        t as int == be_bytes_to_i64(data@.subrange(at as int, at as int + 8)),
{
    let v = read_u64_be(data, at);
    if v < 0x8000_0000_0000_0000 {
        v as i64
    } else {
        i64::MIN + ((v - 0x8000_0000_0000_0000) as i64)
    }
}

/// Appends the 2-byte big-endian encoding of `v`.
pub fn push_u16_be(out: &mut Vec<u8>, v: u16)
    ensures
        final(out)@.len() == old(out)@.len() + 2,
        final(out)@ == old(out)@ + final(out)@.skip(old(out)@.len() as int),
        be_bytes_to_nat(final(out)@.skip(old(out)@.len() as int)) == v as nat,
{
    let hi = (v / 256) as u8;
    let lo = (v % 256) as u8;
    out.push(hi);
    out.push(lo);
    proof {
        let n = old(out)@.len() as int;
        let s = out@.skip(n);
        assert(s =~= seq![hi, lo]);
        assert(s.drop_last() =~= seq![hi]);
        assert(seq![hi].drop_last() =~= Seq::<u8>::empty());
        assert(be_bytes_to_nat(Seq::<u8>::empty()) == 0);
        assert(be_bytes_to_nat(seq![hi]) == hi);
        assert(be_bytes_to_nat(s) == hi * 256 + lo);
        assert(out@ =~= old(out)@ + s);
    }
}

/// Appends the 8-byte big-endian encoding of `v`.
pub fn push_u64_be(out: &mut Vec<u8>, v: u64)
    ensures
        final(out)@.len() == old(out)@.len() + 8,
        final(out)@ == old(out)@ + final(out)@.skip(old(out)@.len() as int),
        be_bytes_to_nat(final(out)@.skip(old(out)@.len() as int)) == v as nat,
{
    let mut rest: u64 = v;
    let mut p: u64 = 0x100_0000_0000_0000;  // 256^7
    let mut i: usize = 0;
    proof {
        assert(pow256(7) == 0x100_0000_0000_0000 && pow256(8) == 0x1_0000_0000_0000_0000) by {
            reveal_with_fuel(pow256, 9);
        }
    }
    while i < 8
        invariant
            i <= 8,
            out@.len() == old(out)@.len() + i,
            out@.subrange(0, old(out)@.len() as int) =~= old(out)@,
            i < 8 ==> p as nat == pow256((7 - i) as nat),
            (rest as nat) < pow256((8 - i) as nat),
            v as nat == be_bytes_to_nat(out@.skip(old(out)@.len() as int)) * pow256(
                (8 - i) as nat,
            ) + rest,
        decreases 8 - i,
    {
        let ghost n = old(out)@.len() as int;
        let ghost s0 = out@.skip(n);
        let ghost b = be_bytes_to_nat(s0);
        let ghost pi = pow256((7 - i) as nat);
        let ghost rest0 = rest as nat;
        let d = (rest / p) as u8;
        proof {
            assert(pow256((8 - i) as nat) == 256 * pi);
            vstd::arithmetic::div_mod::lemma_multiply_divide_lt(rest as int, pi as int, 256);
            vstd::arithmetic::div_mod::lemma_fundamental_div_mod(rest as int, pi as int);
        }
        out.push(d);
        rest = rest % p;
        if i < 7 {
            p = p / 256;
            proof {
                assert(pow256((7 - i) as nat) == 256 * pow256((6 - i) as nat));
            }
        }
        i = i + 1;
        proof {
            let s1 = out@.skip(n);
            assert(s1 =~= s0.push(d));
            assert(s1.drop_last() =~= s0);
            assert(be_bytes_to_nat(s1) == b * 256 + d);
            assert(out@.subrange(0, n) =~= old(out)@);
            // rest0 == d * pi + rest, and v == b * (256 * pi) + rest0,
            // so v == (b * 256 + d) * pi + rest.
            assert((b * 256 + d) * pi == b * (256 * pi) + d * pi) by (nonlinear_arith);
            assert(v as nat == be_bytes_to_nat(s1) * pow256((8 - i) as nat) + rest);
        }
    }
    proof {
        let bfin = be_bytes_to_nat(out@.skip(old(out)@.len() as int));
        assert(v as nat == bfin * pow256((8 - i) as nat) + rest);
        assert(pow256((8 - i) as nat) == 1);
        assert(bfin * pow256((8 - i) as nat) == bfin * 1) by (nonlinear_arith)
            requires
                pow256((8 - i) as nat) == 1,
        {
        }
        assert(v as nat == be_bytes_to_nat(out@.skip(old(out)@.len() as int)));
        assert(out@ =~= old(out)@ + out@.skip(old(out)@.len() as int));
    }
}

/// Appends the 8-byte big-endian two's-complement encoding of `t`.
pub fn push_i64_be(out: &mut Vec<u8>, t: i64)
    ensures
        final(out)@.len() == old(out)@.len() + 8,
        final(out)@ == old(out)@ + final(out)@.skip(old(out)@.len() as int),
        be_bytes_to_i64(final(out)@.skip(old(out)@.len() as int)) == t as int,
{
    let u: u64 = if t >= 0 {
        t as u64
    } else {
        ((t - i64::MIN) as u64) + 0x8000_0000_0000_0000
    };
    push_u64_be(out, u);
}

} // verus!
