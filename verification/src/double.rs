//! Double-precision numbers by their IEEE 754 bit pattern: what whole number
//! one truncates to, and which one is nearest to a whole number.
use vstd::arithmetic::power2::{
    lemma2_to64, lemma2_to64_rest, lemma_pow2_adds, lemma_pow2_pos, lemma_pow2_strictly_increases,
    lemma_pow2_unfold, pow2,
};
use vstd::bits::lemma_u64_shl_is_mul;
use vstd::prelude::*;

verus! {

/// Two to the power 52: the weight of the hidden bit of a significand.
pub const HIDDEN_BIT: u64 = 0x10_0000_0000_0000;

/// Two to the power 63: the sign bit of a pattern.
pub const SIGN_BIT: u64 = 0x8000_0000_0000_0000;

/// Whether the sign bit of the pattern is set.
pub open spec fn sign_of(bits: u64) -> bool {
    bits >= SIGN_BIT
}

/// The exponent field of the pattern, from 0 to 2047.
pub open spec fn exponent_of(bits: u64) -> int {
    (bits as int / HIDDEN_BIT as int) % 0x800
}

/// The fraction field of the pattern, below two to the power 52.
pub open spec fn fraction_of(bits: u64) -> int {
    bits as int % HIDDEN_BIT as int
}

/// Whether the pattern is a NaN.
pub open spec fn is_nan(bits: u64) -> bool {
    exponent_of(bits) == 0x7ff && fraction_of(bits) != 0
}

/// Whether the pattern is a number, neither infinite nor a NaN.
pub open spec fn is_finite(bits: u64) -> bool {
    exponent_of(bits) != 0x7ff
}

/// The whole part of the magnitude of the double: the significand scaled by
/// its power of two, rounded down. An infinity comes out beyond every 64-bit
/// integer; of a NaN the result means nothing.
pub open spec fn whole_part(bits: u64) -> nat {
    let e = exponent_of(bits);
    let m = (HIDDEN_BIT + fraction_of(bits)) as nat;
    if e == 0 {
        0
    } else if e >= 1075 {
        m * pow2((e - 1075) as nat)
    } else {
        m / pow2((1075 - e) as nat)
    }
}

/// `v` moved into the range from `lo` to `hi`.
pub open spec fn clamped(v: int, lo: int, hi: int) -> int {
    if v < lo {
        lo
    } else if v > hi {
        hi
    } else {
        v
    }
}

/// The integer between `lo` and `hi` that a double converts to: zero for a
/// NaN, else the double rounded toward zero and moved into the range.
pub open spec fn to_integer(bits: u64, lo: int, hi: int) -> int {
    if is_nan(bits) {
        0
    } else if sign_of(bits) {
        clamped(-(whole_part(bits) as int), lo, hi)
    } else {
        clamped(whole_part(bits) as int, lo, hi)
    }
}

/// The number of binary digits of `n`; zero has none.
pub open spec fn bit_length(n: nat) -> nat
    decreases n,
{
    if n == 0 {
        0
    } else {
        1 + bit_length(n / 2)
    }
}

/// `n` divided by two to the power `k` and rounded to the nearest whole
/// number, to the even one where two are equally near.
pub open spec fn rounded_quotient(n: nat, k: nat) -> nat {
    let unit = pow2(k);
    let q = n / unit;
    let r = n % unit;
    if 2 * r > unit || (2 * r == unit && q % 2 == 1) {
        q + 1
    } else {
        q
    }
}

/// The pattern of the double nearest to a whole number of the given sign and
/// magnitude (below two to the power 64), the even significand winning a tie.
pub open spec fn nearest_double(negative: bool, magnitude: nat) -> int {
    if magnitude == 0 {
        0
    } else {
        let len = bit_length(magnitude);
        let significand = if len <= 53 {
            magnitude * pow2((53 - len) as nat)
        } else {
            rounded_quotient(magnitude, (len - 53) as nat)
        };
        (if negative {
            SIGN_BIT as int
        } else {
            0
        }) + (1021 + len) * HIDDEN_BIT + significand
    }
}

/// The pattern of the double nearest to the integer `i`.
pub open spec fn double_of_int(i: int) -> int {
    if i < 0 {
        nearest_double(true, (-i) as nat)
    } else {
        nearest_double(false, i as nat)
    }
}

/// A number with `len` binary digits lies between two powers of two.
pub proof fn lemma_bit_length_bounds(n: nat)
    requires
        n > 0,
    ensures
        pow2((bit_length(n) - 1) as nat) <= n < pow2(bit_length(n)),
    decreases n,
{
    lemma2_to64();
    if n == 1 {
        assert(bit_length(1) == 1 + bit_length(0));
    } else {
        lemma_bit_length_bounds(n / 2);
        let l = bit_length(n / 2);
        assert(bit_length(n) == 1 + l);
        lemma_pow2_unfold(l);
        lemma_pow2_unfold((l + 1) as nat);
    }
}

/// Two to the power `k`.
fn power_of_two(k: u32) -> (r: u64)
    requires
        k < 64,
    ensures
        r == pow2(k as nat),
{
    proof {
        lemma2_to64();
        lemma2_to64_rest();
        lemma_pow2_strictly_increases(k as nat, 64);
        lemma_u64_shl_is_mul(1, k as u64);
    }
    1u64 << (k as u64)
}

/// The whole part of the magnitude of a double, or two to the power 63
/// where it is larger.
fn whole_part_capped(bits: u64) -> (r: u64)
    ensures
        r <= SIGN_BIT,
        whole_part(bits) < SIGN_BIT ==> r == whole_part(bits),
        whole_part(bits) >= SIGN_BIT ==> r == SIGN_BIT,
{
    let e: u64 = (bits / HIDDEN_BIT) % 0x800;
    let m: u64 = HIDDEN_BIT + bits % HIDDEN_BIT;
    proof {
        lemma2_to64();
        lemma2_to64_rest();
    }
    if e == 0 {
        0
    } else if e >= 1086 {
        proof {
            if e > 1086 {
                lemma_pow2_strictly_increases(11, (e - 1075) as nat);
            }
            assert(m * pow2((e - 1075) as nat) >= SIGN_BIT) by (nonlinear_arith)
                requires
                    m >= 0x10_0000_0000_0000,
                    pow2((e - 1075) as nat) >= 0x800,
            ;
        }
        SIGN_BIT
    } else if e >= 1075 {
        let unit = power_of_two((e - 1075) as u32);
        proof {
            if e < 1085 {
                lemma_pow2_strictly_increases((e - 1075) as nat, 10);
            }
            assert(m * unit < 0x8000_0000_0000_0000) by (nonlinear_arith)
                requires
                    m < 0x20_0000_0000_0000,
                    unit <= 0x400,
            ;
        }
        m * unit
    } else if e <= 1022 {
        proof {
            if e < 1022 {
                lemma_pow2_strictly_increases(53, (1075 - e) as nat);
            }
            let unit = pow2((1075 - e) as nat);
            assert(m as nat / unit == 0) by (nonlinear_arith)
                requires
                    m < 0x20_0000_0000_0000,
                    unit >= 0x20_0000_0000_0000,
            ;
        }
        0
    } else {
        let unit = power_of_two((1075 - e) as u32);
        m / unit
    }
}

/// The 64-bit signed integer that a double converts to: zero for a NaN,
/// else the double rounded toward zero, the nearest bound where it lies
/// outside the range.
pub fn to_i64(bits: u64) -> (r: i64)
    ensures
        r == to_integer(bits, i64::MIN as int, i64::MAX as int),
{
    let e: u64 = (bits / HIDDEN_BIT) % 0x800;
    if e == 0x7ff && bits % HIDDEN_BIT != 0 {
        return 0;
    }
    let whole = whole_part_capped(bits);
    if bits >= SIGN_BIT {
        if whole >= SIGN_BIT {
            i64::MIN
        } else {
            -(whole as i64)
        }
    } else {
        if whole >= SIGN_BIT {
            i64::MAX
        } else {
            whole as i64
        }
    }
}

/// The 32-bit signed integer that a double converts to: zero for a NaN,
/// else the double rounded toward zero, the nearest bound where it lies
/// outside the range.
pub fn to_i32(bits: u64) -> (r: i32)
    ensures
        r == to_integer(bits, i32::MIN as int, i32::MAX as int),
{
    let e: u64 = (bits / HIDDEN_BIT) % 0x800;
    if e == 0x7ff && bits % HIDDEN_BIT != 0 {
        return 0;
    }
    let whole = whole_part_capped(bits);
    if bits >= SIGN_BIT {
        if whole >= 0x8000_0000 {
            i32::MIN
        } else {
            -(whole as i32)
        }
    } else {
        if whole > 0x7fff_ffff {
            i32::MAX
        } else {
            whole as i32
        }
    }
}

/// The number of binary digits of `n`.
fn length_of(n: u64) -> (r: u32)
    ensures
        r == bit_length(n as nat),
        r <= 64,
{
    let mut len: u32 = 0;
    let mut rest: u64 = n;
    proof {
        lemma2_to64();
        lemma2_to64_rest();
    }
    while rest > 0
        invariant
            bit_length(n as nat) == len + bit_length(rest as nat),
            len <= 64,
            rest as nat * pow2(len as nat) <= n,
            pow2(64) == 0x1_0000_0000_0000_0000,
        decreases rest,
    {
        proof {
            if len == 64 {
                assert(rest as nat * pow2(64) >= pow2(64)) by (nonlinear_arith)
                    requires
                        rest >= 1,
                ;
            }
            lemma_pow2_unfold((len + 1) as nat);
            assert((rest / 2) as nat * (2 * pow2(len as nat)) <= rest as nat * pow2(len as nat))
                by (nonlinear_arith)
                requires
                    (rest / 2) * 2 <= rest,
            ;
        }
        rest = rest / 2;
        len = len + 1;
    }
    len
}

/// The pattern of the double nearest to the whole number of the given sign
/// and magnitude.
pub fn of_magnitude(negative: bool, magnitude: u64) -> (r: u64)
    ensures
        r == nearest_double(negative, magnitude as nat),
{
    if magnitude == 0 {
        return 0;
    }
    let len = length_of(magnitude);
    proof {
        lemma_bit_length_bounds(magnitude as nat);
        lemma2_to64();
        lemma2_to64_rest();
    }
    let significand: u64 = if len <= 53 {
        let unit = power_of_two(53 - len);
        proof {
            vstd::arithmetic::power2::lemma_pow2_adds(len as nat, (53 - len) as nat);
            assert(magnitude * unit < 0x20_0000_0000_0000) by (nonlinear_arith)
                requires
                    magnitude < pow2(len as nat),
                    unit == pow2((53 - len) as nat),
                    pow2(len as nat) * pow2((53 - len) as nat) == 0x20_0000_0000_0000,
            ;
        }
        magnitude * unit
    } else {
        let unit = power_of_two(len - 53);
        let q = magnitude / unit;
        let r = magnitude % unit;
        proof {
            vstd::arithmetic::power2::lemma_pow2_adds(53, (len - 53) as nat);
            assert(q < 0x20_0000_0000_0000) by (nonlinear_arith)
                requires
                    q == magnitude / unit,
                    unit > 0,
                    magnitude < 0x20_0000_0000_0000 * unit,
            ;
            if len - 53 < 11 {
                lemma_pow2_strictly_increases((len - 53) as nat, 11);
            }
        }
        if 2 * r > unit || (2 * r == unit && q % 2 == 1) {
            q + 1
        } else {
            q
        }
    };
    let sign: u64 = if negative {
        SIGN_BIT
    } else {
        0
    };
    sign + (1021 + len as u64) * HIDDEN_BIT + significand
}

/// The pattern of the double nearest to `i`.
pub fn of_i64(i: i64) -> (r: u64)
    ensures
        r == double_of_int(i as int),
{
    if i < 0 {
        let magnitude: u64 = if i == i64::MIN {
            SIGN_BIT
        } else {
            (-i) as u64
        };
        of_magnitude(true, magnitude)
    } else {
        of_magnitude(false, i as u64)
    }
}


/// How one number stands to another.
#[derive(Debug, Clone, Copy, PartialEq, Eq, Structural)]
pub enum Order {
    Less,
    Equal,
    Greater,
}

/// How the integer `a` stands to the integer `b`.
pub open spec fn order_of(a: int, b: int) -> Order {
    if a < b {
        Order::Less
    } else if a == b {
        Order::Equal
    } else {
        Order::Greater
    }
}

/// The magnitude of the double, multiplied by two to the power 1074, which
/// makes a whole number of every double. An infinity comes out above every
/// double that is a number; of a NaN the result means nothing.
pub open spec fn scaled_magnitude(bits: u64) -> nat {
    let e = exponent_of(bits);
    let f = fraction_of(bits);
    if e == 0 {
        f as nat
    } else {
        ((HIDDEN_BIT + f) * pow2((e - 1) as nat)) as nat
    }
}

/// The double multiplied by two to the power 1074, with its sign.
pub open spec fn scaled(bits: u64) -> int {
    if sign_of(bits) {
        -(scaled_magnitude(bits) as int)
    } else {
        scaled_magnitude(bits) as int
    }
}

/// A whole number with `len` binary digits, times a power of two, lies
/// below the power of two that has the digits and the power together.
proof fn lemma_scaled_bounds(m: nat, shift: nat)
    requires
        m > 0,
    ensures
        pow2((bit_length(m) + shift - 1) as nat) <= m * pow2(shift) < pow2(bit_length(m) + shift),
{
    lemma_bit_length_bounds(m);
    let len = bit_length(m);
    lemma_pow2_adds((len - 1) as nat, shift);
    lemma_pow2_adds(len, shift);
    lemma_pow2_pos(shift);
    assert(pow2((len - 1) as nat) * pow2(shift) <= m * pow2(shift)) by (nonlinear_arith)
        requires
            pow2((len - 1) as nat) <= m,
            pow2(shift) > 0,
    ;
    assert(m * pow2(shift) < pow2(len) * pow2(shift)) by (nonlinear_arith)
        requires
            m < pow2(len),
            pow2(shift) > 0,
    ;
}

/// How `m1` times two to the power `s1` stands to `m2` times two to the
/// power `s2`.
pub fn order_scaled(m1: u64, s1: u32, m2: u64, s2: u32) -> (r: Order)
    requires
        s1 <= 4096,
        s2 <= 4096,
    ensures
        r == order_of(m1 * pow2(s1 as nat), m2 * pow2(s2 as nat)),
{
    proof {
        lemma_pow2_pos(s1 as nat);
        lemma_pow2_pos(s2 as nat);
    }
    if m1 == 0 || m2 == 0 {
        proof {
            assert(m2 > 0 ==> m2 * pow2(s2 as nat) > 0) by (nonlinear_arith)
                requires
                    pow2(s2 as nat) > 0,
            ;
            assert(m1 > 0 ==> m1 * pow2(s1 as nat) > 0) by (nonlinear_arith)
                requires
                    pow2(s1 as nat) > 0,
            ;
        }
        return if m1 == m2 {
            Order::Equal
        } else if m1 == 0 {
            Order::Less
        } else {
            Order::Greater
        };
    }
    let len1 = length_of(m1);
    let len2 = length_of(m2);
    let top1 = len1 + s1;
    let top2 = len2 + s2;
    proof {
        lemma_scaled_bounds(m1 as nat, s1 as nat);
        lemma_scaled_bounds(m2 as nat, s2 as nat);
        lemma_bit_length_bounds(m1 as nat);
        lemma_bit_length_bounds(m2 as nat);
    }
    if top1 < top2 {
        proof {
            if top1 < top2 - 1 {
                lemma_pow2_strictly_increases(top1 as nat, (top2 - 1) as nat);
            }
        }
        Order::Less
    } else if top1 > top2 {
        proof {
            if top2 < top1 - 1 {
                lemma_pow2_strictly_increases(top2 as nat, (top1 - 1) as nat);
            }
        }
        Order::Greater
    } else if s1 >= s2 {
        let d = s1 - s2;
        let a = widen(m1, len1, d);
        let b = m2 as u128;
        proof {
            lemma_pow2_adds(d as nat, s2 as nat);
            assert(m1 * pow2(s1 as nat) == a * pow2(s2 as nat)) by (nonlinear_arith)
                requires
                    a == m1 * pow2(d as nat),
                    pow2(s1 as nat) == pow2(d as nat) * pow2(s2 as nat),
            ;
            lemma_order_scales(a as int, b as int, pow2(s2 as nat) as int);
        }
        if a < b {
            Order::Less
        } else if a == b {
            Order::Equal
        } else {
            Order::Greater
        }
    } else {
        let d = s2 - s1;
        let a = m1 as u128;
        let b = widen(m2, len2, d);
        proof {
            lemma_pow2_adds(d as nat, s1 as nat);
            assert(m2 * pow2(s2 as nat) == b * pow2(s1 as nat)) by (nonlinear_arith)
                requires
                    b == m2 * pow2(d as nat),
                    pow2(s2 as nat) == pow2(d as nat) * pow2(s1 as nat),
            ;
            lemma_order_scales(a as int, b as int, pow2(s1 as nat) as int);
        }
        if a < b {
            Order::Less
        } else if a == b {
            Order::Equal
        } else {
            Order::Greater
        }
    }
}

/// Multiplying two numbers by the same positive number keeps their order.
proof fn lemma_order_scales(a: int, b: int, unit: int)
    requires
        unit > 0,
    ensures
        order_of(a * unit, b * unit) == order_of(a, b),
{
    assert(a < b ==> a * unit < b * unit) by (nonlinear_arith)
        requires
            unit > 0,
    ;
    assert(a > b ==> a * unit > b * unit) by (nonlinear_arith)
        requires
            unit > 0,
    ;
}

/// `m` times two to the power `d`, where the digits of `m` and `d` together
/// are no more than 64.
fn widen(m: u64, len: u32, d: u32) -> (r: u128)
    requires
        m > 0,
        len == bit_length(m as nat),
        len + d <= 64,
    ensures
        r == m * pow2(d as nat),
{
    proof {
        lemma2_to64();
        lemma2_to64_rest();
        lemma_bit_length_bounds(m as nat);
        if d < 63 {
            lemma_pow2_strictly_increases(d as nat, 63);
        }
        assert(m * pow2(d as nat) < 0x1_0000_0000_0000_0000 * 0x1_0000_0000_0000_0000)
            by (nonlinear_arith)
            requires
                m < 0x1_0000_0000_0000_0000,
                pow2(d as nat) < 0x1_0000_0000_0000_0000,
        ;
    }
    let unit = power_of_two(d);
    (m as u128) * (unit as u128)
}


/// The fields of a pattern that is put together from sign, exponent and
/// fraction are that exponent and that fraction.
proof fn lemma_fields(negative: bool, e: int, f: int)
    requires
        0 <= e < 0x800,
        0 <= f < HIDDEN_BIT,
    ensures
        ({
            let bits = ((if negative {
                SIGN_BIT as int
            } else {
                0
            }) + e * HIDDEN_BIT + f) as u64;
            &&& bits == (if negative {
                SIGN_BIT as int
            } else {
                0
            }) + e * HIDDEN_BIT + f
            &&& exponent_of(bits) == e
            &&& fraction_of(bits) == f
            &&& sign_of(bits) == negative
        }),
{
    let s: int = if negative {
        0x800
    } else {
        0
    };
    let whole = (s + e) * 0x10_0000_0000_0000 + f;
    assert(whole / 0x10_0000_0000_0000 == s + e && whole % 0x10_0000_0000_0000 == f)
        by (nonlinear_arith)
        requires
            0 <= f < 0x10_0000_0000_0000,
            whole == (s + e) * 0x10_0000_0000_0000 + f,
            s + e >= 0,
    ;
    assert(0 <= whole < 0x1_0000_0000_0000_0000) by (nonlinear_arith)
        requires
            0 <= f < 0x10_0000_0000_0000,
            whole == (s + e) * 0x10_0000_0000_0000 + f,
            0 <= s + e < 0x1000,
    ;
    assert(negative ==> whole >= 0x8000_0000_0000_0000) by (nonlinear_arith)
        requires
            whole == (s + e) * 0x10_0000_0000_0000 + f,
            f >= 0,
            negative ==> s + e >= 0x800,
    ;
    assert(!negative ==> whole < 0x8000_0000_0000_0000) by (nonlinear_arith)
        requires
            whole == (s + e) * 0x10_0000_0000_0000 + f,
            f < 0x10_0000_0000_0000,
            !negative ==> s + e < 0x800,
    ;
}

/// Widening and narrowing agree on whole numbers of up to 53 binary
/// digits: such a number has a double of its own, and that double converts
/// back to the number.
pub proof fn lemma_whole_number_comes_back(i: int)
    requires
        -0x20_0000_0000_0000 < i < 0x20_0000_0000_0000,
    ensures
        0 <= double_of_int(i) <= u64::MAX,
        to_integer(double_of_int(i) as u64, i64::MIN as int, i64::MAX as int) == i,
{
    lemma2_to64();
    lemma2_to64_rest();
    let m: nat = if i < 0 {
        (-i) as nat
    } else {
        i as nat
    };
    if m != 0 {
        lemma_bit_length_bounds(m);
        let len = bit_length(m);
        if len > 53 {
            lemma_pow2_strictly_increases(53, (len - 1) as nat);
        }
        assert(len <= 53);
        let unit = pow2((53 - len) as nat);
        let significand = m * unit;
        lemma_pow2_adds(len, (53 - len) as nat);
        lemma_pow2_adds((len - 1) as nat, (53 - len) as nat);
        lemma_pow2_pos((53 - len) as nat);
        assert(0x10_0000_0000_0000 <= significand < 0x20_0000_0000_0000) by (nonlinear_arith)
            requires
                significand == m * unit,
                unit > 0,
                pow2((len - 1) as nat) <= m < pow2(len),
                pow2(len) * unit == 0x20_0000_0000_0000,
                pow2((len - 1) as nat) * unit == 0x10_0000_0000_0000,
        ;
        let e = 1022 + len;
        let f = significand - HIDDEN_BIT;
        lemma_fields(i < 0, e as int, f as int);
        assert((1021 + len) * HIDDEN_BIT + significand == e * HIDDEN_BIT + f) by (nonlinear_arith)
            requires
                e == 1022 + len,
                f == significand - HIDDEN_BIT,
        ;
        let bits = double_of_int(i) as u64;
        assert(exponent_of(bits) == e);
        assert(fraction_of(bits) == f);
        assert(whole_part(bits) == m) by {
            if len == 53 {
                assert(significand * pow2(0) == m) by (nonlinear_arith)
                    requires
                        significand == m * unit,
                        unit == 1,
                        pow2(0) == 1,
                ;
            } else {
                assert((m * unit) / unit == m) by (nonlinear_arith)
                    requires
                        unit > 0,
                ;
            }
        }
    }
}

} // verus!
