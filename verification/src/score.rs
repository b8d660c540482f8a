//! The confidence of a match between a text and a known license.
//!
//! A score is a number between zero and one in IEEE 754 binary32. The library
//! does no arithmetic on such numbers: it carries the bit pattern, orders
//! scores by it (among the non-negative numbers the patterns stand in the
//! order of the numbers), and derives the percentage from it in integers.

use vstd::prelude::*;
use crate::text::string_of;

verus! {

/// The bit pattern of the number one.
pub const ONE_BITS: u32 = 0x3F80_0000;

/// The bit pattern of the least score that counts as a confident match: the
/// binary32 number nearest to eight tenths.
pub const CONFIDENT_BITS: u32 = 0x3F4C_CCCD;

/// Two to the power `n`.
pub open spec fn two_to(n: nat) -> nat
    decreases n,
{
    if n == 0 {
        1
    } else {
        2 * two_to((n - 1) as nat)
    }
}

/// `n / d`, rounded to the nearest integer, a tie going to the even one.
pub open spec fn div_half_even(n: nat, d: nat) -> nat {
    let q = n / d;
    let r = n % d;
    if 2 * r > d || (2 * r == d && q % 2 == 1) {
        q + 1
    } else {
        q
    }
}

/// The significand of the number with pattern `bits`, the hidden bit included.
pub open spec fn significand(bits: u32) -> nat {
    if bits / 0x80_0000 == 0 {
        (bits % 0x80_0000) as nat
    } else {
        (0x80_0000 + bits % 0x80_0000) as nat
    }
}

/// The power of two by which the significand is divided: the number with
/// pattern `bits`, where `bits <= ONE_BITS`, is
/// `significand(bits) / two_to(scale(bits))`.
pub open spec fn scale(bits: u32) -> nat {
    if bits / 0x80_0000 == 0 {
        149
    } else {
        (150 - bits / 0x80_0000) as nat
    }
}

/// By how many bits `n` is longer than a significand.
pub open spec fn excess_bits(n: nat) -> nat
    decreases n,
{
    if n < 0x100_0000 {
        0
    } else {
        1 + excess_bits(n / 2)
    }
}

/// The score times one hundred, as binary32 arithmetic gives it (the exact
/// product rounded to a significand, ties to even), in hundredths, rounded to
/// the nearest, ties to even.
pub open spec fn hundredths(bits: u32) -> nat {
    let n = significand(bits) * 100;
    let k = excess_bits(n);
    let product = div_half_even(n, two_to(k));
    div_half_even(product * 100, two_to((scale(bits) - k) as nat))
}

/// The decimal digit `d` as a character.
pub open spec fn digit(d: nat) -> char {
    if d == 0 {
        '0'
    } else if d == 1 {
        '1'
    } else if d == 2 {
        '2'
    } else if d == 3 {
        '3'
    } else if d == 4 {
        '4'
    } else if d == 5 {
        '5'
    } else if d == 6 {
        '6'
    } else if d == 7 {
        '7'
    } else if d == 8 {
        '8'
    } else {
        '9'
    }
}

/// `h` hundredths written with two decimals, for `h` below one hundred
/// thousand: the whole part without leading zeros, a point, two digits.
pub open spec fn two_decimals(h: nat) -> Seq<char> {
    let whole = h / 100;
    let head = if whole >= 100 {
        seq![digit(whole / 100), digit(whole / 10 % 10), digit(whole % 10)]
    } else if whole >= 10 {
        seq![digit(whole / 10), digit(whole % 10)]
    } else {
        seq![digit(whole)]
    };
    head + seq!['.', digit(h / 10 % 10), digit(h % 10)]
}

/// The percentage that the score with pattern `bits` stands for, with two
/// decimals.
pub open spec fn percent_text(bits: u32) -> Seq<char> {
    two_decimals(hundredths(bits))
}

/// The confidence of a match: the bit pattern of a number from zero to one.
#[derive(Clone, Copy, Debug, PartialEq, Eq, Structural)]
pub struct Score {
    bits: u32,
}

impl DeepView for Score {
    type V = Score;

    open spec fn deep_view(&self) -> Score {
        *self
    }
}

impl Score {
    /// The pattern is that of a number from zero to one.
    #[verifier::type_invariant]
    pub closed spec fn well_formed(self) -> bool {
        self.bits <= ONE_BITS
    }

    /// The bit pattern.
    pub closed spec fn spec_bits(self) -> u32 {
        self.bits
    }

    /// The score counts as a confident match.
    pub open spec fn spec_is_confident(self) -> bool {
        self.spec_bits() >= CONFIDENT_BITS
    }

    /// The score with this bit pattern, where the pattern is that of a number
    /// from zero to one.
    pub fn from_bits(bits: u32) -> (r: Option<Score>)
        ensures
            r is Some <==> bits <= ONE_BITS,
            r matches Some(s) ==> s.spec_bits() == bits,
    {
        if bits <= ONE_BITS {
            Some(Score { bits })
        } else {
            None
        }
    }

    /// The bit pattern.
    #[verifier::when_used_as_spec(spec_bits)]
    pub fn bits(self) -> (r: u32)
        ensures
            r == self.spec_bits(),
            r <= ONE_BITS,
    {
        proof {
            use_type_invariant(&self);
        }
        self.bits
    }

    /// Whether the score counts as a confident match.
    #[verifier::when_used_as_spec(spec_is_confident)]
    pub fn is_confident(self) -> (r: bool)
        ensures
            r == self.spec_is_confident(),
    {
        self.bits >= CONFIDENT_BITS
    }

    /// The score in hundredths of a percent.
    pub fn hundredths(self) -> (r: u32)
        ensures
            r == hundredths(self.spec_bits()),
            r <= 10000,
    {
        proof {
            use_type_invariant(&self);
            lemma_two_to_values();
        }
        let bits: u32 = self.bits;
        let exponent: u32 = bits / 0x80_0000;
        let fraction: u32 = bits % 0x80_0000;
        let sig: u64 = if exponent == 0 {
            fraction as u64
        } else {
            0x80_0000u64 + fraction as u64
        };
        let scale: u32 = if exponent == 0 {
            149
        } else {
            150 - exponent
        };
        assert(sig <= two_to(scale as nat)) by {
            if exponent < 127 {
                lemma_two_to_monotonic(24, scale as nat);
            }
        }
        let n: u64 = sig * 100;
        // By how many bits the product is longer than a significand.
        let mut k: u32 = 0;
        let mut rest: u64 = n;
        while rest >= 0x100_0000
            invariant
                n < 0x8000_0000,
                k <= 7,
                rest * two_to(k as nat) <= n < (rest + 1) * two_to(k as nat),
                excess_bits(n as nat) == k + excess_bits(rest as nat),
            decreases rest,
        {
            proof {
                let t = two_to(k as nat);
                assert(two_to((k + 1) as nat) == 2 * t);
                if k >= 7 {
                    lemma_two_to_values();
                    lemma_two_to_monotonic(7, k as nat);
                    assert(rest * t >= 0x8000_0000) by (nonlinear_arith)
                        requires
                            rest >= 0x100_0000,
                            t >= 128,
                    ;
                }
                assert((rest / 2) * (2 * t) <= rest * t && (rest + 1) * t <= (rest / 2 + 1) * (2
                    * t)) by (nonlinear_arith)
                    requires
                        0 <= rest,
                        0 <= t,
                ;
            }
            rest = rest / 2;
            k = k + 1;
        }
        let unit: u64 = pow2_exec(k);
        let product: u64 = div_half_even_exec(n, unit);
        let shift: u32 = scale - k;
        proof {
            lemma_two_to_add(k as nat, shift as nat);
            let high = two_to(shift as nat);
            assert(n < 0x100_0000 * unit) by (nonlinear_arith)
                requires
                    n < (rest + 1) * unit,
                    rest < 0x100_0000,
                    unit >= 1,
            ;
            lemma_div_half_even_bound(n as nat, unit as nat, 0x100_0000);
            assert(n <= (100 * high) * unit) by (nonlinear_arith)
                requires
                    n == sig * 100,
                    sig <= unit * high,
            ;
            lemma_div_half_even_bound(n as nat, unit as nat, 100 * high);
            assert(product * 100 <= 10000 * high) by (nonlinear_arith)
                requires
                    product <= 100 * high,
            ;
            lemma_two_to_positive(shift as nat);
            lemma_div_half_even_bound((product * 100) as nat, high, 10000);
        }
        let m: u64 = product * 100;
        if shift >= 32 {
            proof {
                lemma_two_to_monotonic(32, shift as nat);
                lemma_div_half_even_small(m as nat, two_to(shift as nat));
            }
            return 0;
        }
        let d: u64 = pow2_exec(shift);
        let h: u64 = div_half_even_exec(m, d);
        h as u32
    }

    /// The percentage, with two decimals.
    pub fn percent_text(self) -> (r: String)
        ensures
            r@ == percent_text(self.spec_bits()),
    {
        let h: u32 = self.hundredths();
        let whole: u32 = h / 100;
        let mut out: Vec<char> = Vec::new();
        if whole >= 100 {
            out.push(digit_exec(whole / 100));
            out.push(digit_exec(whole / 10 % 10));
            out.push(digit_exec(whole % 10));
        } else if whole >= 10 {
            out.push(digit_exec(whole / 10));
            out.push(digit_exec(whole % 10));
        } else {
            out.push(digit_exec(whole));
        }
        out.push('.');
        out.push(digit_exec(h / 10 % 10));
        out.push(digit_exec(h % 10));
        assert(out@ == two_decimals(h as nat));
        string_of(&out)
    }
}

/// The decimal digit `d` as a character.
pub fn digit_exec(d: u32) -> (c: char)
    requires
        d <= 9,
    ensures
        c == digit(d as nat),
{
    if d == 0 {
        '0'
    } else if d == 1 {
        '1'
    } else if d == 2 {
        '2'
    } else if d == 3 {
        '3'
    } else if d == 4 {
        '4'
    } else if d == 5 {
        '5'
    } else if d == 6 {
        '6'
    } else if d == 7 {
        '7'
    } else if d == 8 {
        '8'
    } else {
        '9'
    }
}

/// Two to the power `n`, for `n` below 32.
fn pow2_exec(n: u32) -> (r: u64)
    requires
        n < 32,
    ensures
        r == two_to(n as nat),
        1 <= r <= 0x8000_0000,
{
    let mut r: u64 = 1;
    let mut i: u32 = 0;
    proof {
        lemma_two_to_values();
    }
    while i < n
        invariant
            i <= n < 32,
            r == two_to(i as nat),
            1 <= r,
            r * two_to((31 - i) as nat) == 0x8000_0000,
        decreases n - i,
    {
        assert(two_to((31 - i) as nat) == 2 * two_to((30 - i) as nat));
        assert(two_to((30 - i) as nat) >= 1) by {
            lemma_two_to_positive((30 - i) as nat);
        }
        assert(r * (2 * two_to((30 - i) as nat)) == (2 * r) * two_to((30 - i) as nat))
            by (nonlinear_arith);
        assert(2 * r <= (2 * r) * two_to((30 - i) as nat)) by (nonlinear_arith)
            requires
                two_to((30 - i) as nat) >= 1,
                r >= 1,
        ;
        r = 2 * r;
        i = i + 1;
    }
    proof {
        lemma_two_to_positive((31 - n) as nat);
        assert(r <= r * two_to((31 - n) as nat)) by (nonlinear_arith)
            requires
                two_to((31 - n) as nat) >= 1,
                r >= 1,
        ;
        lemma_two_to_values();
    }
    r
}

/// `n / d`, rounded to the nearest integer, a tie going to the even one.
fn div_half_even_exec(n: u64, d: u64) -> (r: u64)
    requires
        d >= 1,
        d <= 0x8000_0000,
        n <= 0x1_0000_0000,
    ensures
        r == div_half_even(n as nat, d as nat),
{
    let q: u64 = n / d;
    let r: u64 = n % d;
    if 2 * r > d || (2 * r == d && q % 2 == 1) {
        q + 1
    } else {
        q
    }
}

/// Some powers of two.
proof fn lemma_two_to_values()
    ensures
        two_to(0) == 1,
        two_to(7) == 128,
        two_to(23) == 0x80_0000,
        two_to(24) == 0x100_0000,
        two_to(31) == 0x8000_0000,
        two_to(32) == 0x1_0000_0000,
{
    reveal_with_fuel(two_to, 9);
    assert(two_to(8) == 256);
    assert(two_to(16) == 0x1_0000);
    assert(two_to(24) == 0x100_0000);
    assert(two_to(32) == 0x1_0000_0000);
}

/// The power of a sum is the product of the powers.
proof fn lemma_two_to_add(a: nat, b: nat)
    ensures
        two_to(a + b) == two_to(a) * two_to(b),
    decreases b,
{
    if b == 0 {
        assert(two_to(a) * 1 == two_to(a));
    } else {
        lemma_two_to_add(a, (b - 1) as nat);
        assert(two_to(a + b) == 2 * two_to((a + b - 1) as nat));
        assert(2 * (two_to(a) * two_to((b - 1) as nat)) == two_to(a) * (2 * two_to((b - 1) as nat)))
            by (nonlinear_arith);
    }
}

/// A power of two is at least one.
proof fn lemma_two_to_positive(n: nat)
    ensures
        two_to(n) >= 1,
    decreases n,
{
    if n > 0 {
        lemma_two_to_positive((n - 1) as nat);
    }
}

/// The powers of two grow with the exponent.
proof fn lemma_two_to_monotonic(a: nat, b: nat)
    requires
        a <= b,
    ensures
        two_to(a) <= two_to(b),
    decreases b,
{
    if a < b {
        lemma_two_to_monotonic(a, (b - 1) as nat);
    }
}

/// A quotient whose dividend is below half the divisor rounds to zero.
proof fn lemma_div_half_even_small(n: nat, d: nat)
    requires
        2 * n < d,
    ensures
        div_half_even(n, d) == 0,
{
    assert(n / d == 0 && n % d == n) by (nonlinear_arith)
        requires
            n < d,
    ;
}

/// A rounded quotient is at most `bound` where the dividend is at most
/// `bound` times the divisor.
proof fn lemma_div_half_even_bound(n: nat, d: nat, bound: nat)
    requires
        d >= 1,
        n <= bound * d,
    ensures
        div_half_even(n, d) <= bound,
{
    let q = n / d;
    let r = n % d;
    assert(n == q * d + r && 0 <= r < d) by (nonlinear_arith)
        requires
            q == n / d,
            r == n % d,
            d >= 1,
    ;
    if q >= bound {
        assert(q * d >= bound * d && (q > bound ==> q * d > bound * d)) by (nonlinear_arith)
            requires
                q >= bound,
                d >= 1,
        ;
    }
}

} // verus!
