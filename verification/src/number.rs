//! JavaScript numbers: IEEE 754 doubles, held by their bit pattern.
//!
//! Amounts, slots and timestamps cross the Node.js boundary as doubles. Everything here is
//! integer arithmetic on the 64 bits of the double.

use vstd::arithmetic::power2::*;
use vstd::prelude::*;

verus! {

/// Two to the 52nd power: the number of values of the fraction field.
pub const FRACTION_SPAN: u64 = 0x10_0000_0000_0000;

/// Two to the 63rd power: the weight of the sign bit.
pub const SIGN_BIT: u64 = 0x8000_0000_0000_0000;

/// A double, by its bit pattern: one sign bit, eleven exponent bits, fifty-two fraction bits.
#[derive(Clone, Copy, Debug, PartialEq, Eq, Structural)]
pub struct Number {
    pub bits: u64,
}

impl Number {
    /// Whether the sign bit is set.
    pub open spec fn is_negative(self) -> bool {
        self.bits >= SIGN_BIT
    }

    /// The exponent field.
    pub open spec fn exponent_field(self) -> int {
        (self.bits as int / FRACTION_SPAN as int) % 2048
    }

    /// The fraction field.
    pub open spec fn fraction_field(self) -> int {
        self.bits as int % FRACTION_SPAN as int
    }

    /// Neither an infinity nor a NaN.
    pub open spec fn is_finite(self) -> bool {
        self.exponent_field() != 2047
    }

    /// The significand as a whole number: a finite double is
    /// `significand * 2^exponent`, up to its sign.
    pub open spec fn significand(self) -> int {
        if self.exponent_field() == 0 {
            self.fraction_field()
        } else {
            self.fraction_field() + FRACTION_SPAN
        }
    }

    /// The power of two that scales the significand.
    pub open spec fn exponent(self) -> int {
        if self.exponent_field() == 0 {
            -1074
        } else {
            self.exponent_field() - 1075
        }
    }

    /// The absolute value, where it is a whole number.
    pub open spec fn whole_magnitude(self) -> Option<int> {
        if !self.is_finite() {
            None
        } else if self.exponent() >= 0 {
            Some(self.significand() * pow2(self.exponent() as nat))
        } else if self.significand() % (pow2((-self.exponent()) as nat) as int) == 0 {
            Some(self.significand() / (pow2((-self.exponent()) as nat) as int))
        } else {
            None
        }
    }

    /// The value, where it is a whole number.
    pub open spec fn whole(self) -> Option<int> {
        match self.whole_magnitude() {
            Some(n) => Some(if self.is_negative() { -n } else { n }),
            None => None,
        }
    }

    /// The value as an unsigned 64-bit integer, where the double is a whole number from zero to
    /// two to the 64th power. That last value, which is what the largest `u64` rounds to, stands
    /// for the largest `u64`.
    pub open spec fn unsigned(self) -> Option<u64> {
        match self.whole() {
            Some(n) => if 0 <= n <= u64::MAX {
                Some(n as u64)
            } else if n == u64::MAX + 1 {
                Some(u64::MAX)
            } else {
                None
            },
            None => None,
        }
    }
}

/// The position of the highest set bit of `v`.
pub open spec fn top_bit(v: nat) -> nat
    decreases v,
{
    if v < 2 {
        0
    } else {
        top_bit(v / 2) + 1
    }
}

/// `v` divided by `d`, rounded to the nearest whole number, halfway cases to the even one.
pub open spec fn rounded_quotient(v: nat, d: nat) -> nat {
    let q = v / d;
    let twice_rest = 2 * (v % d);
    if twice_rest > d || (twice_rest == d && q % 2 == 1) {
        q + 1
    } else {
        q
    }
}

/// The significand of the double nearest to `v`, scaled to reach from two to the 52nd power up to
/// and with two to the 53rd power.
pub open spec fn nearest_significand(v: nat) -> nat {
    let e = top_bit(v);
    if e <= 52 {
        v * pow2((52 - e) as nat)
    } else {
        rounded_quotient(v, pow2((e - 52) as nat))
    }
}

/// The bit pattern of the double nearest to `v`. A significand that rounds up to two to the 53rd
/// power carries into the exponent field.
pub open spec fn nearest_bits(v: nat) -> int {
    if v == 0 {
        0
    } else {
        (top_bit(v) + 1022) * FRACTION_SPAN + nearest_significand(v)
    }
}

impl Number {
    /// The double nearest to `v`.
    pub open spec fn nearest(v: u64) -> Number {
        Number { bits: nearest_bits(v as nat) as u64 }
    }

    /// The double nearest to `v`.
    pub open spec fn nearest_signed(v: i64) -> Number {
        if v >= 0 {
            Number { bits: nearest_bits(v as nat) as u64 }
        } else {
            Number { bits: (SIGN_BIT + nearest_bits((-v) as nat)) as u64 }
        }
    }
}

/// Two to the power `e`.
fn power(e: u64) -> (r: u64)
    requires
        e < 64,
    ensures
        r == pow2(e as nat),
{
    let mut p: u64 = 1;
    let mut i: u64 = 0;
    proof {
        lemma2_to64();
        lemma2_to64_rest();
    }
    while i < e
        invariant
            i <= e < 64,
            p == pow2(i as nat),
            pow2(63) == 0x8000_0000_0000_0000,
        decreases e - i,
    {
        proof {
            lemma_pow2_unfold((i + 1) as nat);
            if i + 1 < 63 {
                lemma_pow2_strictly_increases((i + 1) as nat, 63);
            }
        }
        p = p * 2;
        i = i + 1;
    }
    p
}

proof fn lemma_top_bit(v: nat)
    requires
        v > 0,
    ensures
        pow2(top_bit(v)) <= v < 2 * pow2(top_bit(v)),
    decreases v,
{
    if v < 2 {
        lemma2_to64();
    } else {
        lemma_top_bit(v / 2);
        lemma_pow2_unfold(top_bit(v));
    }
}

proof fn lemma_top_bit_unique(v: nat, e: nat)
    requires
        pow2(e) <= v < 2 * pow2(e),
    ensures
        e == top_bit(v),
{
    lemma_pow2_pos(e);
    lemma_top_bit(v);
    let t = top_bit(v);
    if e < t {
        lemma_pow2_unfold((e + 1) as nat);
        if e + 1 < t {
            lemma_pow2_strictly_increases((e + 1) as nat, t);
        }
    } else if t < e {
        lemma_pow2_unfold((t + 1) as nat);
        if t + 1 < e {
            lemma_pow2_strictly_increases((t + 1) as nat, e);
        }
    }
}

/// The significand of the nearest double fits fifty-three bits, the upper bound included.
proof fn lemma_nearest_significand(v: nat)
    requires
        0 < v <= u64::MAX,
    ensures
        top_bit(v) <= 63,
        FRACTION_SPAN <= nearest_significand(v) <= 2 * FRACTION_SPAN,
        top_bit(v) <= 52 ==> nearest_significand(v) < 2 * FRACTION_SPAN,
{
    lemma2_to64();
    lemma2_to64_rest();
    lemma_top_bit(v);
    let e = top_bit(v);
    if e >= 64 {
        if e > 64 {
            lemma_pow2_strictly_increases(64, e);
        }
    }
    if e <= 52 {
        let s = pow2((52 - e) as nat);
        lemma_pow2_adds(e, (52 - e) as nat);
        lemma_pow2_pos((52 - e) as nat);
        assert(pow2(e) * s <= v * s) by (nonlinear_arith)
            requires
                pow2(e) <= v,
                s > 0,
        ;
        assert(v * s < 2 * (pow2(e) * s)) by (nonlinear_arith)
            requires
                v < 2 * pow2(e),
                s > 0,
        ;
    } else {
        let d = pow2((e - 52) as nat);
        lemma_pow2_adds(52, (e - 52) as nat);
        lemma_pow2_pos((e - 52) as nat);
        let q = v / d;
        assert(FRACTION_SPAN <= q < 2 * FRACTION_SPAN) by (nonlinear_arith)
            requires
                q == v / d,
                d > 0,
                FRACTION_SPAN as nat * d <= v,
                v < 2 * (FRACTION_SPAN as nat * d),
        ;
    }
}

impl Number {
    /// The number as an unsigned integer, or `None` where it is not a whole number from zero to
    /// two to the 64th power.
    pub fn to_u64(self) -> (r: Option<u64>)
        ensures
            r == self.unsigned(),
    {
        let negative: bool = self.bits >= SIGN_BIT;
        let field: u64 = (self.bits / FRACTION_SPAN) % 2048;
        let fraction: u64 = self.bits % FRACTION_SPAN;
        proof {
            lemma2_to64();
            lemma2_to64_rest();
        }
        if field == 2047 {
            return None;
        }
        let significand: u64 = if field == 0 { fraction } else { fraction + FRACTION_SPAN };
        assert(significand == self.significand());
        if field >= 1075 {
            let shift: u64 = field - 1075;
            if negative {
                proof {
                    lemma_pow2_pos(shift as nat);
                    assert(significand * pow2(shift as nat) > 0) by (nonlinear_arith)
                        requires
                            significand > 0,
                            pow2(shift as nat) > 0,
                    ;
                }
                return None;
            }
            if shift > 12 || (shift == 12 && significand > FRACTION_SPAN) {
                proof {
                    let p = pow2(shift as nat);
                    if shift > 12 {
                        lemma_pow2_unfold(13);
                        if shift > 13 {
                            lemma_pow2_strictly_increases(13, shift as nat);
                        }
                        assert(significand * p >= 0x2_0000_0000_0000_0000) by (nonlinear_arith)
                            requires
                                significand >= 0x10_0000_0000_0000,
                                p >= 8192,
                        ;
                    } else {
                        assert(significand * p > 0x1_0000_0000_0000_0000) by (nonlinear_arith)
                            requires
                                significand > 0x10_0000_0000_0000,
                                p == 4096,
                        ;
                    }
                }
                return None;
            }
            if shift == 12 {
                assert(significand * pow2(12) == 0x1_0000_0000_0000_0000) by (nonlinear_arith)
                    requires
                        significand == 0x10_0000_0000_0000,
                        pow2(12) == 4096,
                ;
                return Some(u64::MAX);
            }
            let p: u64 = power(shift);
            proof {
                if shift < 11 {
                    lemma_pow2_strictly_increases(shift as nat, 11);
                }
                assert(significand * p < 0x1_0000_0000_0000_0000) by (nonlinear_arith)
                    requires
                        significand < 0x20_0000_0000_0000,
                        p <= 2048,
                ;
            }
            Some(significand * p)
        } else {
            let ghost shift = -self.exponent();
            proof {
                lemma_pow2_pos(shift as nat);
            }
            if significand == 0 {
                proof {
                    let p = pow2(shift as nat) as int;
                    assert(0int % p == 0 && 0int / p == 0) by (nonlinear_arith)
                        requires
                            p > 0,
                    ;
                }
                return Some(0);
            }
            if field <= 1022 {
                // Below one: the significand is less than the divisor.
                proof {
                    let p = pow2(shift as nat) as int;
                    if shift > 53 {
                        lemma_pow2_strictly_increases(53, shift as nat);
                    }
                    let s = significand as int;
                    assert(s % p == s) by (nonlinear_arith)
                        requires
                            0 < s < p,
                    ;
                }
                return None;
            }
            let divisor: u64 = power(1075 - field);
            if significand % divisor != 0 {
                return None;
            }
            let n: u64 = significand / divisor;
            proof {
                let s = significand as int;
                let p = divisor as int;
                assert(s / p > 0) by (nonlinear_arith)
                    requires
                        s > 0,
                        p > 0,
                        s % p == 0,
                ;
            }
            if negative {
                return None;
            }
            Some(n)
        }
    }

    /// The double nearest to `v`, halfway cases to the one with the even significand.
    pub fn from_u64(v: u64) -> (r: Number)
        ensures
            r == Number::nearest(v),
    {
        if v == 0 {
            return Number { bits: 0 };
        }
        proof {
            lemma2_to64();
            lemma2_to64_rest();
            lemma_nearest_significand(v as nat);
        }
        let mut e: u64 = 0;
        let mut p: u64 = 1;
        while v / p >= 2
            invariant
                v > 0,
                0 < p <= v,
                p == pow2(e as nat),
                e <= 63,
                pow2(63) == 0x8000_0000_0000_0000,
                pow2(64) == 0x1_0000_0000_0000_0000,
            decreases v - p,
        {
            proof {
                assert(v >= 2 * p) by (nonlinear_arith)
                    requires
                        v / p >= 2,
                        p > 0,
                ;
                lemma_pow2_unfold((e + 1) as nat);
                if e >= 63 {
                    assert(false);
                }
            }
            p = p * 2;
            e = e + 1;
        }
        proof {
            assert(v < 2 * p) by (nonlinear_arith)
                requires
                    v / p < 2,
                    p > 0,
            ;
            lemma_top_bit_unique(v as nat, e as nat);
        }
        let significand: u64 = if e <= 52 {
            v * power(52 - e)
        } else {
            let d: u64 = power(e - 52);
            let q: u64 = v / d;
            let rest: u64 = v % d;
            proof {
                lemma_pow2_unfold((e - 52) as nat);
                if e - 52 < 11 {
                    lemma_pow2_strictly_increases((e - 52) as nat, 11);
                }
            }
            let half: u64 = d / 2;
            if rest > half || (rest == half && q % 2 == 1) { q + 1 } else { q }
        };
        assert(significand == nearest_significand(v as nat));
        Number { bits: (e + 1022) * FRACTION_SPAN + significand }
    }

    /// The double nearest to `v`.
    pub fn from_i64(v: i64) -> (r: Number)
        ensures
            r == Number::nearest_signed(v),
    {
        if v >= 0 {
            return Number::from_u64(v as u64);
        }
        let magnitude: u64 = if v == i64::MIN { SIGN_BIT } else { (-v) as u64 };
        proof {
            lemma_nearest_significand(magnitude as nat);
        }
        let unsigned: Number = Number::from_u64(magnitude);
        Number { bits: SIGN_BIT + unsigned.bits }
    }
}

/// The whole number that the double nearest to `v` stands for.
pub open spec fn nearest_whole(v: nat) -> int {
    let e = top_bit(v);
    if e <= 52 {
        v as int
    } else {
        (nearest_significand(v) * pow2((e - 52) as nat)) as int
    }
}

/// Every unsigned integer becomes a double that is a whole number, no further from it than half
/// the distance between neighbouring doubles of its size; one up to two to the 53rd power stays
/// exactly as it is.
pub proof fn law_nearest_number(v: u64)
    ensures
        0 <= nearest_bits(v as nat) < SIGN_BIT,
        Number::nearest(v).whole() == Some(nearest_whole(v as nat)),
        v <= 2 * FRACTION_SPAN ==> nearest_whole(v as nat) == v,
        v > 2 * FRACTION_SPAN ==> 2 * (nearest_whole(v as nat) - v) <= pow2(
            (top_bit(v as nat) - 52) as nat,
        ),
        v > 2 * FRACTION_SPAN ==> 2 * (v - nearest_whole(v as nat)) <= pow2(
            (top_bit(v as nat) - 52) as nat,
        ),
        0 <= nearest_whole(v as nat) <= u64::MAX + 1,
{
    lemma2_to64();
    lemma2_to64_rest();
    let n = v as nat;
    let e = top_bit(n);
    let number = Number::nearest(v);
    if v == 0 {
        lemma_pow2_pos(1074);
        let p = pow2(1074) as int;
        assert(0int % p == 0 && 0int / p == 0) by (nonlinear_arith)
            requires
                p > 0,
        ;
    } else {
        lemma_top_bit(n);
        lemma_nearest_significand(n);
        let s = nearest_significand(n);
        assert(number.bits == (e + 1022) * FRACTION_SPAN + s);
        if e <= 52 {
            assert(number.exponent_field() == e + 1023 && number.significand() == s);
            let k = (52 - e) as nat;
            let p = pow2(k) as int;
            lemma_pow2_pos(k);
            let m = v as int;
            assert((m * p) % p == 0 && (m * p) / p == m) by (nonlinear_arith)
                requires
                    p > 0,
            ;
            if e == 52 {
                assert(s * pow2(0) == v) by (nonlinear_arith)
                    requires
                        s == v * pow2(0),
                        pow2(0) == 1,
                ;
            }
        } else {
            let k = (e - 52) as nat;
            let d = pow2(k);
            lemma_pow2_pos(k);
            lemma_pow2_unfold(k);
            if s < 2 * FRACTION_SPAN {
                assert(number.exponent_field() == e + 1023 && number.significand() == s);
            } else {
                assert(number.exponent_field() == e + 1024 && number.significand() == FRACTION_SPAN);
                lemma_pow2_unfold(k + 1);
                assert(FRACTION_SPAN * pow2(k + 1) == s * d) by (nonlinear_arith)
                    requires
                        pow2(k + 1) == 2 * d,
                        s == 2 * FRACTION_SPAN,
                ;
            }
            assert(number.whole() == Some((s * d) as int));
            let q = n / d;
            let rest = n % d;
            assert(n == q * d + rest && rest < d) by (nonlinear_arith)
                requires
                    d > 0,
                    q == n / d,
                    rest == n % d,
            ;
            assert((q + 1) * d == q * d + d) by (nonlinear_arith);
            lemma_pow2_adds(52, k);
            if k < 11 {
                lemma_pow2_strictly_increases(k, 11);
            }
            assert(s * d <= 0x1_0000_0000_0000_0000) by (nonlinear_arith)
                requires
                    s <= 0x20_0000_0000_0000,
                    d <= 2048,
            ;
            if v <= 2 * FRACTION_SPAN {
                if e > 53 {
                    lemma_pow2_strictly_increases(53, e);
                }
                assert(e == 53 && v == 2 * FRACTION_SPAN);
            }
        }
    }
}

/// An unsigned integer up to two to the 53rd power comes back unchanged from its double, and no
/// unsigned integer becomes a double that is refused.
pub proof fn law_number_round_trip(v: u64)
    ensures
        Number::nearest(v).unsigned() is Some,
        v <= 2 * FRACTION_SPAN ==> Number::nearest(v).unsigned() == Some(v),
{
    law_nearest_number(v);
}

/// A signed integer becomes the double of its absolute value with its sign.
pub proof fn law_signed_number(v: i64)
    ensures
        v >= 0 ==> Number::nearest_signed(v) == Number::nearest(v as u64),
        v < 0 ==> Number::nearest_signed(v).whole() == Some(-nearest_whole((-v) as nat)),
{
    if v < 0 {
        let magnitude = (-v) as u64;
        law_nearest_number(magnitude);
        let positive = Number::nearest(magnitude);
        let negative = Number::nearest_signed(v);
        assert(negative.bits == SIGN_BIT + positive.bits);
        assert(negative.exponent_field() == positive.exponent_field());
        assert(negative.fraction_field() == positive.fraction_field());
    }
}

/// A double is accepted only if it is exactly the double of the integer that is read: none with a
/// fraction, none below zero, none too large, no infinity and no NaN. Minus zero is read as zero.
pub proof fn law_read_only_what_it_is(x: Number, n: u64, y: Number)
    requires
        call_ensures(Number::to_u64, (x,), Some(n)),
        call_ensures(Number::from_u64, (n,), y),
    ensures
        x.bits != SIGN_BIT ==> y == x,
        x.bits == SIGN_BIT ==> n == 0,
{
    lemma2_to64();
    lemma2_to64_rest();
    let s = x.significand();
    let e = x.exponent();
    let field = x.exponent_field();
    let w = x.whole_magnitude()->Some_0;
    assert(x.bits as int == (x.bits as int / FRACTION_SPAN as int) * FRACTION_SPAN
        + x.fraction_field());
    if e >= 0 {
        let p = pow2(e as nat) as int;
        lemma_pow2_pos(e as nat);
        assert(w == s * p);
        assert(s * p >= 0x10_0000_0000_0000 * p && s * p < 0x20_0000_0000_0000 * p) by (
            nonlinear_arith)
            requires
                0x10_0000_0000_0000 <= s < 0x20_0000_0000_0000,
                p > 0,
        ;
        assert(w > 0);
        assert(!x.is_negative());
        lemma_pow2_adds(52, e as nat);
        lemma_top_bit_unique(w as nat, (52 + e) as nat);
        if w <= u64::MAX {
            assert(n == w);
            if e > 0 {
                assert((s * p) / p == s && (s * p) % p == 0) by (nonlinear_arith)
                    requires
                        p > 0,
                ;
            } else {
                assert(w * pow2(0) == s) by (nonlinear_arith)
                    requires
                        w == s * p,
                        p == 1,
                        pow2(0) == 1,
                ;
            }
            assert(nearest_significand(w as nat) == s);
        } else {
            assert(w == u64::MAX + 1);
            lemma_top_bit_unique(w as nat, 64);
            assert(e == 12);
            assert(p == 4096);
            assert(s == 0x10_0000_0000_0000) by (nonlinear_arith)
                requires
                    s * p == 0x1_0000_0000_0000_0000,
                    p == 4096,
            ;
            lemma_top_bit_unique(u64::MAX as nat, 63);
            assert(nearest_significand(u64::MAX as nat) == 0x20_0000_0000_0000);
        }
    } else {
        let k = (-e) as nat;
        let p = pow2(k) as int;
        lemma_pow2_pos(k);
        assert(s == (s / p) * p) by (nonlinear_arith)
            requires
                p > 0,
                s % p == 0,
        ;
        if w == 0 {
            assert(s == 0) by (nonlinear_arith)
                requires
                    s == (s / p) * p,
                    s / p == 0,
            ;
        } else {
            assert(w > 0) by (nonlinear_arith)
                requires
                    w != 0,
                    w == s / p,
                    s >= 0,
                    p > 0,
            ;
            assert(!x.is_negative());
            assert(p <= s) by (nonlinear_arith)
                requires
                    s == w * p,
                    w > 0,
                    p > 0,
            ;
            if k > 52 {
                if k > 53 {
                    lemma_pow2_strictly_increases(53, k);
                }
                assert(false);
            }
            let t = (52 - k) as nat;
            lemma_pow2_adds(t, k);
            let q = pow2(t) as int;
            assert(q * p == 0x10_0000_0000_0000);
            assert(q <= w < 2 * q) by (nonlinear_arith)
                requires
                    q * p <= w * p,
                    w * p < 2 * (q * p),
                    p > 0,
            ;
            lemma_top_bit_unique(w as nat, t);
            assert(n == w) by (nonlinear_arith)
                requires
                    w < 2 * q,
                    q <= 0x10_0000_0000_0000,
                    x.whole() == Some(w),
                    x.unsigned() == Some(n),
            ;
            assert(nearest_significand(w as nat) == s);
        }
    }
}

/// Every unsigned integer is accepted again once it is a double. Up to two to the 53rd power it comes
/// back as it is; above that, no further away than half the distance between neighbouring doubles,
/// and where it lies halfway, as the one whose pattern is even.
pub proof fn law_integer_comes_back(v: u64, e: nat, y: Number, back: Option<u64>)
    requires
        call_ensures(Number::from_u64, (v,), y),
        call_ensures(Number::to_u64, (y,), back),
    ensures
        back matches Some(n) && {
            &&& v <= 0x20_0000_0000_0000 ==> n == v
            &&& 53 <= e && pow2(e) <= v < pow2(e + 1) ==> {
                &&& 2 * (n - v) <= pow2((e - 52) as nat)
                &&& 2 * (v - n) <= pow2((e - 52) as nat)
                &&& 2 * (n - v) == pow2((e - 52) as nat) || 2 * (v - n) == pow2((e - 52) as nat)
                    ==> y.bits % 2 == 0
            }
        },
{
    law_nearest_number(v);
    let n = v as nat;
    if 53 <= e && pow2(e) <= v && v < pow2(e + 1) {
        lemma_pow2_unfold(e + 1);
        lemma_top_bit_unique(n, e);
        lemma2_to64();
        lemma2_to64_rest();
        if e == 53 && v == 2 * FRACTION_SPAN {
            lemma_pow2_pos(1);
        } else {
            assert(v >= 2 * FRACTION_SPAN) by {
                if e > 53 {
                    lemma_pow2_strictly_increases(53, e);
                }
            }
        }
        let k = (e - 52) as nat;
        let d = pow2(k);
        let s = nearest_significand(n);
        lemma_pow2_pos(k);
        lemma_nearest_significand(n);
        assert(y.bits == (e + 1022) * FRACTION_SPAN + s);
        assert(y.bits as int % 2 == s as int % 2);
        assert(nearest_whole(n) == s * d);
        let q = n / d;
        let rest = n % d;
        assert(n == q * d + rest && rest < d) by (nonlinear_arith)
            requires
                d > 0,
                q == n / d,
                rest == n % d,
        ;
        assert((q + 1) * d == q * d + d) by (nonlinear_arith);
        if s == q {
            if 2 * rest == d {
                assert(q % 2 == 0);
            }
        } else {
            assert(s == q + 1);
            if 2 * rest == d {
                assert(q % 2 == 1);
            }
        }
    }
}

/// A double that is read as an integer reads as twice that integer once its exponent is one more.
pub proof fn law_exponent_doubles(x: Number, n: u64, doubled: Option<u64>)
    requires
        call_ensures(Number::to_u64, (x,), Some(n)),
        1 <= n,
        2 * n <= u64::MAX,
        call_ensures(Number::to_u64, (Number { bits: (x.bits + 0x10_0000_0000_0000) as u64 },), doubled),
    ensures
        doubled == Some((2 * n) as u64),
{
    lemma2_to64();
    lemma2_to64_rest();
    let y = Number { bits: (x.bits + 0x10_0000_0000_0000) as u64 };
    let s = x.significand();
    let e = x.exponent();
    let field = x.exponent_field();
    assert(x.whole() == Some(n as int));
    assert(x.whole_magnitude()->Some_0 >= 0) by {
        if e >= 0 {
            let p = pow2(e as nat) as int;
            assert(s * p >= 0) by (nonlinear_arith)
                requires
                    s >= 0,
                    p >= 0,
            ;
        } else {
            let p = pow2((-e) as nat) as int;
            lemma_pow2_pos((-e) as nat);
            assert(s / p >= 0) by (nonlinear_arith)
                requires
                    s >= 0,
                    p > 0,
            ;
        }
    }
    assert(!x.is_negative());
    if field == 0 {
        let p = pow2(1074) as int;
        lemma_pow2_strictly_increases(53, 1074);
        assert(s / p == 0) by (nonlinear_arith)
            requires
                0 <= s < p,
        ;
        assert(false);
    }
    assert(x.bits as int == field * FRACTION_SPAN + x.fraction_field());
    if e >= 0 {
        let p = pow2(e as nat) as int;
        lemma_pow2_unfold((e + 1) as nat);
        assert(n == s * p);
        if e > 12 {
            lemma_pow2_strictly_increases(12, e as nat);
        }
        assert(e <= 12) by (nonlinear_arith)
            requires
                e <= 12 || p > 4096,
                s >= 0x10_0000_0000_0000,
                n == s * p,
                n <= u64::MAX,
        ;
        assert(y.exponent_field() == field + 1 && y.fraction_field() == x.fraction_field());
        assert(s * (2 * p) == 2 * (s * p)) by (nonlinear_arith);
    } else {
        assert(y.exponent_field() == field + 1 && y.fraction_field() == x.fraction_field());
        let k = (-e) as nat;
        let p = pow2(k) as int;
        lemma_pow2_unfold(k);
        let h = pow2((k - 1) as nat) as int;
        lemma_pow2_pos((k - 1) as nat);
        assert(p == 2 * h);
        assert(s == n * p) by (nonlinear_arith)
            requires
                s % p == 0,
                s / p == n,
                p > 0,
        ;
        let m = 2 * n;
        assert(s == m * h) by (nonlinear_arith)
            requires
                s == n * p,
                p == 2 * h,
                m == 2 * n,
        ;
        assert((m * h) % h == 0 && (m * h) / h == m) by (nonlinear_arith)
            requires
                h > 0,
        ;
        if k == 1 {
            assert(h == 1);
            assert(y.exponent() == 0);
            assert(s * pow2(0) == 2 * n) by (nonlinear_arith)
                requires
                    s == n * p,
                    p == 2,
                    pow2(0) == 1,
            ;
        } else {
            assert(y.exponent() == -(k - 1));
        }
    }
}

/// A signed integer becomes the double of its absolute value, with the sign bit set where it is
/// below zero.
pub proof fn law_sign_bit(v: i64, magnitude: u64, x: Number, y: Number)
    requires
        magnitude == if v >= 0 { v as int } else { -v },
        call_ensures(Number::from_i64, (v,), x),
        call_ensures(Number::from_u64, (magnitude,), y),
    ensures
        v >= 0 ==> x == y,
        v < 0 ==> x.bits == 0x8000_0000_0000_0000 + y.bits,
{
    law_nearest_number(magnitude);
}

/// The integers of fifty-three bits are neighbours as doubles too: their patterns follow one another,
/// starting with the one whose exponent is fifty-two and whose fraction is nothing.
pub proof fn law_neighbours(v: u64, y: Number)
    requires
        0x10_0000_0000_0000 <= v < 0x20_0000_0000_0000,
        call_ensures(Number::from_u64, (v,), y),
    ensures
        y.bits == 0x4330_0000_0000_0000 + (v - 0x10_0000_0000_0000),
{
    lemma2_to64();
    lemma2_to64_rest();
    lemma_top_bit_unique(v as nat, 52);
    assert(v * pow2(0) == v) by (nonlinear_arith)
        requires
            pow2(0) == 1,
    ;
}

} // verus!
