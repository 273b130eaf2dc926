//! A 256-bit unsigned integer held as four 64-bit limbs, together with the
//! big-endian byte reinterpretation used for access-list storage keys.

use vstd::prelude::*;

verus! {

/// 256 raised to the power `n`.
pub open spec fn pow256(n: nat) -> nat
    decreases n,
{
    if n == 0 {
        1
    } else {
        256 * pow256((n - 1) as nat)
    }
}

/// The number a byte sequence denotes when read as a big-endian integer.
pub open spec fn be_bytes_value(s: Seq<u8>) -> nat
    decreases s.len(),
{
    if s.len() == 0 {
        0
    } else {
        be_bytes_value(s.drop_last()) * 256 + s.last() as nat
    }
}

/// A 256-bit unsigned integer; `limb0` is the least significant limb.
#[derive(Clone, Copy, Debug, PartialEq, Eq)]
pub struct U256 {
    pub limb0: u64,
    pub limb1: u64,
    pub limb2: u64,
    pub limb3: u64,
}

impl U256 {
    /// The mathematical value of this integer.
    pub open spec fn value(self) -> nat {
        self.limb0 as nat + self.limb1 as nat * pow256(8) + self.limb2 as nat * pow256(16)
            + self.limb3 as nat * pow256(24)
    }

    /// The zero value.
    pub fn zero() -> (r: U256)
        ensures
            r.value() == 0,
    {
        U256 { limb0: 0, limb1: 0, limb2: 0, limb3: 0 }
    }

    /// Widen a 64-bit value.
    pub fn from_u64(x: u64) -> (r: U256)
        ensures
            r.value() == x,
    {
        U256 { limb0: x, limb1: 0, limb2: 0, limb3: 0 }
    }

    /// Widen a 128-bit value.
    pub fn from_u128(x: u128) -> (r: U256)
        ensures
            r.value() == x,
    {
        let limb0 = (x % 0x1_0000_0000_0000_0000u128) as u64;
        let limb1 = (x / 0x1_0000_0000_0000_0000u128) as u64;
        proof {
            let c = 0x1_0000_0000_0000_0000int;
            vstd::arithmetic::div_mod::lemma_fundamental_div_mod(x as int, c);
            vstd::arithmetic::div_mod::lemma_mod_bound(x as int, c);
            let q = (x as int) / c;
            let r = (x as int) % c;
            assert((x as int) == c * q + r && 0 <= r && (x as int) < c * c && c > 0 ==> q < c)
                by (nonlinear_arith);
            assert((x as int) < c * c);
            assert(q < c);
            reveal_with_fuel(pow256, 9);
            assert(pow256(8) == 0x1_0000_0000_0000_0000);
        }
        U256 { limb0, limb1, limb2: 0, limb3: 0 }
    }

    /// Reinterpret 32 bytes as a big-endian 256-bit integer.
    pub fn from_be_bytes(b: &[u8; 32]) -> (r: U256)
        ensures
            r.value() == be_bytes_value(b@),
    {
        let limb3 = be_limb(b, 0);
        let limb2 = be_limb(b, 8);
        let limb1 = be_limb(b, 16);
        let limb0 = be_limb(b, 24);
        proof {
            lemma_be_bytes_value_split(b@, 8);
            let rest = b@.subrange(8, 32);
            lemma_be_bytes_value_split(rest, 8);
            assert(rest.subrange(0, 8) =~= b@.subrange(8, 16));
            assert(rest.subrange(8, 24) =~= b@.subrange(16, 32));
            lemma_be_bytes_value_split(b@.subrange(16, 32), 8);
            assert(b@.subrange(16, 32).subrange(0, 8) =~= b@.subrange(16, 24));
            assert(b@.subrange(16, 32).subrange(8, 16) =~= b@.subrange(24, 32));
            lemma_pow256_sum(8, 8);
            lemma_pow256_sum(8, 16);
        }
        U256 { limb0, limb1, limb2, limb3 }
    }
}

/// A big-endian value is below 256 to the length of its byte sequence.
proof fn lemma_be_bytes_value_bound(s: Seq<u8>)
    ensures
        be_bytes_value(s) < pow256(s.len()),
    decreases s.len(),
{
    if s.len() > 0 {
        lemma_be_bytes_value_bound(s.drop_last());
    }
}

/// `pow256` turns sums of exponents into products.
proof fn lemma_pow256_sum(a: nat, b: nat)
    ensures
        pow256(a + b) == pow256(a) * pow256(b),
    decreases a,
{
    if a == 0 {
        assert(pow256(b) == 1 * pow256(b));
    } else {
        lemma_pow256_sum((a - 1) as nat, b);
        assert(pow256(a + b) == 256 * pow256((a - 1) as nat + b));
        assert(256 * (pow256((a - 1) as nat) * pow256(b)) == (256 * pow256((a - 1) as nat))
            * pow256(b)) by (nonlinear_arith);
    }
}

proof fn lemma_pow256_step(n: nat)
    ensures
        pow256(n) * 256 == pow256(n + 1),
{
    lemma_pow256_sum(n, 1);
    assert(pow256(1) == 256 * pow256(0));
}

/// Splitting a byte sequence splits its big-endian value positionally.
proof fn lemma_be_bytes_value_split(s: Seq<u8>, k: int)
    requires
        0 <= k <= s.len(),
    ensures
        be_bytes_value(s) == be_bytes_value(s.subrange(0, k)) * pow256((s.len() - k) as nat)
            + be_bytes_value(s.subrange(k, s.len() as int)),
    decreases s.len() - k,
{
    if k == s.len() {
        assert(s.subrange(0, k) =~= s);
        assert(s.subrange(k, s.len() as int) =~= Seq::<u8>::empty());
        assert(be_bytes_value(Seq::<u8>::empty()) == 0);
        let p = pow256((s.len() - k) as nat);
        assert(p == 1);
        assert(p == 1 ==> be_bytes_value(s) * p == be_bytes_value(s)) by (nonlinear_arith);
    } else {
        let hi = s.subrange(0, k);
        let lo = s.subrange(k, s.len() as int);
        let s1 = s.drop_last();
        lemma_be_bytes_value_split(s1, k);
        assert(s1.subrange(0, k) =~= hi);
        assert(s1.subrange(k, s1.len() as int) =~= lo.drop_last());
        let n = (s1.len() - k) as nat;
        assert(be_bytes_value(s) == be_bytes_value(s1) * 256 + s.last() as nat);
        assert(be_bytes_value(lo) == be_bytes_value(lo.drop_last()) * 256 + lo.last() as nat);
        assert(lo.last() == s.last());
        assert(be_bytes_value(s1) == be_bytes_value(hi) * pow256(n) + be_bytes_value(
            lo.drop_last(),
        ));
        assert((be_bytes_value(hi) * pow256(n) + be_bytes_value(lo.drop_last())) * 256
            == be_bytes_value(hi) * (pow256(n) * 256) + be_bytes_value(lo.drop_last()) * 256)
            by (nonlinear_arith);
        lemma_pow256_step(n);
        assert(be_bytes_value(s) == be_bytes_value(hi) * pow256(n + 1) + be_bytes_value(
            lo.drop_last(),
        ) * 256 + s.last() as nat);
        assert((s.len() - k) as nat == n + 1);
        assert(be_bytes_value(s) == be_bytes_value(hi) * pow256(n + 1) + be_bytes_value(lo));
        assert(be_bytes_value(s) == be_bytes_value(s.subrange(0, k)) * pow256(
            (s.len() - k) as nat,
        ) + be_bytes_value(s.subrange(k, s.len() as int)));
    }
}

/// Read the eight bytes at `start` as one big-endian 64-bit limb.
fn be_limb(b: &[u8; 32], start: usize) -> (r: u64)
    requires
        start + 8 <= 32,
    ensures
        r as nat == be_bytes_value(b@.subrange(start as int, start + 8)),
{
    let mut acc: u64 = 0;
    let mut j: usize = start;
    proof {
        assert(b@.subrange(start as int, start as int) =~= Seq::<u8>::empty());
    }
    while j < start + 8
        invariant
            start <= j <= start + 8 <= 32,
            b@.len() == 32,
            acc as nat == be_bytes_value(b@.subrange(start as int, j as int)),
        decreases start + 8 - j,
    {
        proof {
            lemma_be_bytes_value_bound(b@.subrange(start as int, j as int));
            lemma_pow256_increases((j - start) as nat, 7);
            reveal_with_fuel(pow256, 8);
            assert(pow256(7) == 0x100_0000_0000_0000);
        }
        acc = acc * 256 + (b[j] as u64);
        j = j + 1;
        proof {
            assert(b@.subrange(start as int, j as int).drop_last() =~= b@.subrange(
                start as int,
                j - 1,
            ));
        }
    }
    acc
}

proof fn lemma_pow256_increases(m: nat, n: nat)
    requires
        m <= n,
    ensures
        pow256(m) <= pow256(n),
    decreases n,
{
    if m < n && n > 0 {
        lemma_pow256_increases(m, (n - 1) as nat);
        assert(pow256((n - 1) as nat) <= 256 * pow256((n - 1) as nat)) by (nonlinear_arith);
    }
}

} // verus!
