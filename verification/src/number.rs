//! The numbers of a document tree.

use vstd::arithmetic::power2::{
    lemma2_to64, lemma2_to64_rest, lemma_pow2_adds, lemma_pow2_strictly_increases,
    lemma_pow2_unfold, pow2,
};
use vstd::prelude::*;

verus! {

/// A number of a document tree. A whole number that fits is held as one; a
/// number with a fraction, and a whole number that does not fit, as a binary64
/// number.
#[derive(Debug, Clone, Copy, PartialEq, Eq, Structural)]
pub enum Number {
    /// A whole number that is not negative.
    PosInt(u64),
    /// A whole number below zero.
    NegInt(i64),
    /// Any other number.
    Float(Double),
}

/// A binary64 number, held as its IEEE-754 bit pattern: one sign bit, eleven
/// bits of exponent, fifty-two bits of fraction.
#[derive(Debug, Default, Clone, Copy, PartialEq, Eq, Structural)]
pub struct Double {
    pub bits: u64,
}

impl View for Double {
    type V = Double;

    open spec fn view(&self) -> Double {
        *self
    }
}

impl DeepView for Double {
    type V = Double;

    open spec fn deep_view(&self) -> Double {
        *self
    }
}

/// The number of binary digits of `n` after the first: the largest `e` with
/// `2^e <= n`, for an `n` above zero.
pub open spec fn log2(n: nat) -> nat
    decreases n,
{
    if n <= 1 {
        0
    } else {
        1 + log2(n / 2)
    }
}

/// The bit pattern of the binary64 number nearest to `n`, without its sign bit.
pub open spec fn nearest_bits(n: nat) -> int {
    if n == 0 {
        0
    } else {
        let e = log2(n);
        if e <= 52 {
            (1023 + e) * pow2(52) + (n - pow2(e)) * pow2((52 - e) as nat)
        } else {
            let d = pow2((e - 52) as nat);
            let q = n / d;
            let r = n % d;
            let m = if 2 * r > d || (2 * r == d && q % 2 == 1) {
                q + 1
            } else {
                q
            };
            (1023 + e) * pow2(52) + (m - pow2(52))
        }
    }
}

impl Double {
    /// Whether the number is neither an infinity nor a NaN: the eleven bits of
    /// its exponent, which stand above the fifty-two bits of its fraction, are
    /// not all ones.
    pub open spec fn finite(self) -> bool {
        (self.bits / 0x10_0000_0000_0000) % 0x800 != 0x7ff
    }

    /// The number with the bit pattern `bits`.
    pub fn from_bits(bits: u64) -> (r: Double)
        ensures
            r.bits == bits,
    {
        Double { bits }
    }

    /// The bit pattern of the number.
    pub fn to_bits(&self) -> (r: u64)
        ensures
            r == self.bits,
    {
        self.bits
    }

    /// The binary64 number nearest to the whole number `i`. Where two are
    /// equally near, it is the one whose last bit is zero.
    pub open spec fn nearest(i: int) -> Double {
        if i >= 0 {
            Double { bits: nearest_bits(i as nat) as u64 }
        } else {
            Double { bits: (0x8000_0000_0000_0000 + nearest_bits((-i) as nat)) as u64 }
        }
    }

    /// Whether the number is neither an infinity nor a NaN.
    pub fn is_finite(&self) -> (r: bool)
        ensures
            r == self.finite(),
    {
        (self.bits / 0x10_0000_0000_0000) % 0x800 != 0x7ff
    }

    /// The binary64 number nearest to `n`.
    pub fn from_u64(n: u64) -> (r: Double)
        ensures
            r == Double::nearest(n as int),
    {
        Double { bits: magnitude(n) }
    }

    /// The binary64 number nearest to `i`.
    pub fn from_i64(i: i64) -> (r: Double)
        ensures
            r == Double::nearest(i as int),
    {
        if i >= 0 {
            Double { bits: magnitude(i as u64) }
        } else if i == i64::MIN {
            Double { bits: 0x8000_0000_0000_0000 + magnitude(0x8000_0000_0000_0000) }
        } else {
            Double { bits: 0x8000_0000_0000_0000 + magnitude((-i) as u64) }
        }
    }
}

/// A number between two neighbouring powers of two has the smaller one's
/// exponent as its logarithm.
pub proof fn lemma_log2(n: nat, e: nat)
    requires
        pow2(e) <= n < pow2(e + 1),
    ensures
        log2(n) == e,
    decreases e,
{
    lemma2_to64();
    if e == 0 {
        assert(pow2(1) == 2);
    } else {
        lemma_pow2_unfold(e);
        lemma_pow2_unfold(e + 1);
        lemma_log2(n / 2, (e - 1) as nat);
    }
}

/// Two to the power `k`.
fn power_of_two(k: u64) -> (r: u64)
    requires
        k <= 63,
    ensures
        r == pow2(k as nat),
{
    let mut r: u64 = 1;
    let mut j: u64 = 0;
    proof {
        lemma2_to64();
    }
    while j < k
        invariant
            j <= k <= 63,
            r == pow2(j as nat),
        decreases k - j,
    {
        proof {
            lemma_pow2_unfold((j + 1) as nat);
            lemma_pow2_strictly_increases((j + 1) as nat, 64);
            lemma2_to64();
        }
        r = r * 2;
        j = j + 1;
    }
    r
}

/// The bit pattern of the binary64 number nearest to `n`.
fn magnitude(n: u64) -> (r: u64)
    ensures
        r == nearest_bits(n as nat),
        r < 0x8000_0000_0000_0000,
{
    if n == 0 {
        return 0;
    }
    let mut e: u64 = 0;
    let mut p: u64 = 1;
    proof {
        lemma2_to64();
    }
    while n / 2 >= p
        invariant
            p == pow2(e as nat),
            1 <= p <= n,
            e <= 63,
        decreases n - p,
    {
        proof {
            lemma_pow2_unfold((e + 1) as nat);
            lemma2_to64();
            if e >= 63 {
                lemma_pow2_strictly_increases(63, (e + 1) as nat);
            }
        }
        p = p * 2;
        e = e + 1;
    }
    proof {
        lemma_pow2_unfold((e + 1) as nat);
        lemma_log2(n as nat, e as nat);
        lemma2_to64();
        lemma2_to64_rest();
    }
    let base: u64 = (1023 + e) * 0x10_0000_0000_0000;
    if e <= 52 {
        let s = power_of_two(52 - e);
        proof {
            lemma_pow2_adds(e as nat, (52 - e) as nat);
            assert((n - p) * s < p * s) by (nonlinear_arith)
                requires
                    n - p < p,
                    s > 0,
            ;
            assert((n - p) * s >= 0) by (nonlinear_arith)
                requires
                    n - p >= 0,
                    s > 0,
            ;
        }
        base + (n - p) * s
    } else {
        let d = power_of_two(e - 52);
        let q = n / d;
        let r = n % d;
        proof {
            lemma_pow2_adds(52, (e - 52) as nat);
            lemma_pow2_unfold((e - 52) as nat);
            assert(q >= 0x10_0000_0000_0000 && q < 0x20_0000_0000_0000) by (nonlinear_arith)
                requires
                    q == n / d,
                    d > 0,
                    0x10_0000_0000_0000 * d <= n,
                    n < 0x20_0000_0000_0000 * d,
            ;
        }
        let m = if r > d / 2 || (r == d / 2 && q % 2 == 1) {
            q + 1
        } else {
            q
        };
        base + (m - 0x10_0000_0000_0000)
    }
}

} // verus!
