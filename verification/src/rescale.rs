//! Rescaling of integer timestamps between rational time bases.
//!
//! A value `n` expressed in ticks of `aq_num / aq_den` seconds is converted
//! into ticks of `bq_num / bq_den` seconds, rounding to the nearest integer
//! with halfway cases rounded away from zero. The components of a time base
//! are handed to the rescaling as C `int` values, so a component above
//! `i32::MAX` stands for a negative number; a time base product that is not
//! positive, or a result that does not fit into an `i64`, gives the "null"
//! value `i64::MIN`.
use vstd::arithmetic::div_mod::*;
use vstd::arithmetic::mul::*;
use vstd::prelude::*;

verus! {

/// The value `i64::MIN`, used as the "no timestamp" marker.
pub open spec fn null_value() -> int {
    -0x8000_0000_0000_0000
}

/// The value of a `u32` taken as a C `int`.
pub open spec fn c_int_value(x: u32) -> int {
    if x <= 0x7fff_ffff {
        x as int
    } else {
        x as int - 0x1_0000_0000
    }
}

/// `m * b / c` rounded to the nearest integer, halfway cases rounded up
/// (for non-negative `m`).
pub open spec fn round_near(m: int, b: int, c: int) -> int {
    (m * b + c / 2) / c
}

/// The numerator of the scaling factor from `aq` to `bq`.
pub open spec fn scale_num(aq_num: u32, bq_den: u32) -> int {
    c_int_value(aq_num) * c_int_value(bq_den)
}

/// The denominator of the scaling factor from `aq` to `bq`.
pub open spec fn scale_den(bq_num: u32, aq_den: u32) -> int {
    c_int_value(bq_num) * c_int_value(aq_den)
}

/// The magnitude that is rescaled for `n` (`i64::MIN` counts as `-i64::MAX`).
pub open spec fn magnitude(n: int) -> int {
    if n < -0x7fff_ffff_ffff_ffff {
        0x7fff_ffff_ffff_ffff
    } else if n < 0 {
        -n
    } else {
        n
    }
}

/// The result of rescaling `n` from the time base `aq_num/aq_den` to the time
/// base `bq_num/bq_den`.
pub open spec fn rescale_spec(n: int, aq_num: u32, aq_den: u32, bq_num: u32, bq_den: u32) -> int {
    let b = scale_num(aq_num, bq_den);
    let c = scale_den(bq_num, aq_den);
    if c <= 0 || b < 0 {
        null_value()
    } else {
        let q = round_near(magnitude(n), b, c);
        if q > 0x7fff_ffff_ffff_ffff {
            null_value()
        } else if n < 0 {
            -q
        } else {
            q
        }
    }
}

/// True when rescaling from `aq` to `bq` neither meets an invalid time base
/// nor overflows for the value `n`.
pub open spec fn rescale_in_range(n: int, aq_num: u32, aq_den: u32, bq_num: u32, bq_den: u32) -> bool {
    let b = scale_num(aq_num, bq_den);
    let c = scale_den(bq_num, aq_den);
    c > 0 && b >= 0 && round_near(magnitude(n), b, c) <= 0x7fff_ffff_ffff_ffff
}

/// A time base component is usable when it is positive as a C `int`.
pub open spec fn component_valid(x: u32) -> bool {
    1 <= x <= 0x7fff_ffff
}

fn c_int_of(x: u32) -> (r: i64)
    ensures
        r == c_int_value(x),
        -0x8000_0000 <= r <= 0x7fff_ffff,
{
    if x <= 0x7fff_ffff {
        x as i64
    } else {
        x as i64 - 0x1_0000_0000
    }
}

proof fn lemma_c_int_product_bound(x: int, y: int)
    requires
        -0x8000_0000 <= x <= 0x7fff_ffff,
        -0x8000_0000 <= y <= 0x7fff_ffff,
    ensures
        -0x4000_0000_0000_0000 <= x * y <= 0x4000_0000_0000_0000,
{
    assert(-0x4000_0000_0000_0000 <= x * y <= 0x4000_0000_0000_0000) by (nonlinear_arith)
        requires
            -0x8000_0000 <= x <= 0x7fff_ffff,
            -0x8000_0000 <= y <= 0x7fff_ffff,
    ;
}

/// Rescale `n` from the time base `aq_num/aq_den` to the time base
/// `bq_num/bq_den`, rounding to the nearest value (halfway cases away from
/// zero).
pub fn rescale_q(n: i64, aq_num: u32, aq_den: u32, bq_num: u32, bq_den: u32) -> (r: i64)
    ensures
        r == rescale_spec(n as int, aq_num, aq_den, bq_num, bq_den),
{
    let an = c_int_of(aq_num);
    let ad = c_int_of(aq_den);
    let bn = c_int_of(bq_num);
    let bd = c_int_of(bq_den);
    proof {
        lemma_c_int_product_bound(an as int, bd as int);
        lemma_c_int_product_bound(bn as int, ad as int);
    }
    let b: i64 = an * bd;
    let c: i64 = bn * ad;
    if c <= 0 || b < 0 {
        return i64::MIN;
    }
    let m: u64 = if n == i64::MIN {
        0x7fff_ffff_ffff_ffff
    } else if n < 0 {
        (-n) as u64
    } else {
        n as u64
    };
    assert(m == magnitude(n as int));
    let bu: u128 = b as u128;
    let cu: u128 = c as u128;
    let mu: u128 = m as u128;
    assert(mu * bu <= 0x7fff_ffff_ffff_ffff * 0x4000_0000_0000_0000) by (nonlinear_arith)
        requires
            mu <= 0x7fff_ffff_ffff_ffff,
            bu <= 0x4000_0000_0000_0000,
    ;
    let prod: u128 = mu * bu;
    let q: u128 = (prod + cu / 2) / cu;
    assert(q == round_near(m as int, b as int, c as int));
    if q > 0x7fff_ffff_ffff_ffff {
        i64::MIN
    } else {
        let qi: i64 = q as i64;
        if n < 0 {
            -qi
        } else {
            qi
        }
    }
}


proof fn lemma_round_near_nonneg(m: int, b: int, c: int)
    requires
        m >= 0,
        b >= 0,
        c > 0,
    ensures
        round_near(m, b, c) >= 0,
{
    lemma_mul_nonnegative(m, b);
    lemma_div_pos_is_pos(m * b + c / 2, c);
}

proof fn lemma_round_near_monotone(m1: int, m2: int, b: int, c: int)
    requires
        0 <= m1 <= m2,
        b >= 0,
        c > 0,
    ensures
        round_near(m1, b, c) <= round_near(m2, b, c),
{
    lemma_mul_inequality(m1, m2, b);
    lemma_div_is_ordered(m1 * b + c / 2, m2 * b + c / 2, c);
}

proof fn lemma_round_near_exact(x: int, c: int)
    requires
        c > 0,
    ensures
        round_near(x, c, c) == x,
{
    lemma_mul_is_commutative(x, c);
    lemma_div_multiples_vanish_fancy(x, c / 2, c);
}

/// Rescaling into the same time base gives the value back (the null value
/// `i64::MIN` aside, which rescales to `-i64::MAX`).
pub proof fn lemma_rescale_same_base(n: i64, num: u32, den: u32)
    requires
        component_valid(num),
        component_valid(den),
        n != i64::MIN,
    ensures
        rescale_in_range(n as int, num, den, num, den),
        rescale_spec(n as int, num, den, num, den) == n,
{
    let c = scale_den(num, den);
    lemma_mul_strictly_positive(num as int, den as int);
    lemma_mul_is_commutative(num as int, den as int);
    assert(scale_num(num, den) == c);
    lemma_round_near_exact(magnitude(n as int), c);
}

/// Rescaling preserves order: a smaller value never rescales to a larger
/// one, as long as neither rescaling overflows.
pub proof fn lemma_rescale_monotone(
    n1: i64,
    n2: i64,
    aq_num: u32,
    aq_den: u32,
    bq_num: u32,
    bq_den: u32,
)
    requires
        n1 <= n2,
        rescale_in_range(n1 as int, aq_num, aq_den, bq_num, bq_den),
        rescale_in_range(n2 as int, aq_num, aq_den, bq_num, bq_den),
    ensures
        rescale_spec(n1 as int, aq_num, aq_den, bq_num, bq_den) <= rescale_spec(
            n2 as int,
            aq_num,
            aq_den,
            bq_num,
            bq_den,
        ),
{
    let b = scale_num(aq_num, bq_den);
    let c = scale_den(bq_num, aq_den);
    let m1 = magnitude(n1 as int);
    let m2 = magnitude(n2 as int);
    lemma_round_near_nonneg(m1, b, c);
    lemma_round_near_nonneg(m2, b, c);
    if n1 >= 0 {
        lemma_round_near_monotone(m1, m2, b, c);
    } else if n2 < 0 {
        lemma_round_near_monotone(m2, m1, b, c);
    }
}

/// When the target time base is finer than the source one by a whole
/// factor `k`, rescaling multiplies by `k` exactly, and rescaling the result
/// back into the source time base gives the original value.
pub proof fn lemma_rescale_round_trip(
    n: i64,
    aq_num: u32,
    aq_den: u32,
    bq_num: u32,
    bq_den: u32,
)
    requires
        component_valid(aq_num),
        component_valid(aq_den),
        component_valid(bq_num),
        component_valid(bq_den),
        scale_num(aq_num, bq_den) % scale_den(bq_num, aq_den) == 0,
        n != i64::MIN,
        rescale_in_range(n as int, aq_num, aq_den, bq_num, bq_den),
    ensures
        rescale_spec(n as int, aq_num, aq_den, bq_num, bq_den) == n * (scale_num(aq_num, bq_den)
            / scale_den(bq_num, aq_den)),
        rescale_in_range(
            rescale_spec(n as int, aq_num, aq_den, bq_num, bq_den),
            bq_num,
            bq_den,
            aq_num,
            aq_den,
        ),
        rescale_spec(
            rescale_spec(n as int, aq_num, aq_den, bq_num, bq_den),
            bq_num,
            bq_den,
            aq_num,
            aq_den,
        ) == n,
{
    let b = scale_num(aq_num, bq_den);
    let c = scale_den(bq_num, aq_den);
    lemma_mul_strictly_positive(aq_num as int, bq_den as int);
    lemma_mul_strictly_positive(bq_num as int, aq_den as int);
    let k = b / c;
    lemma_fundamental_div_mod(b, c);
    assert(b == c * k);
    lemma_div_pos_is_pos(b, c);
    let m = magnitude(n as int);
    // forward: (m * (c * k) + c / 2) / c == m * k
    assert(m * b == c * (m * k)) by {
        lemma_mul_is_associative(m, c, k);
        lemma_mul_is_commutative(m, c);
        lemma_mul_is_associative(c, m, k);
    }
    lemma_div_multiples_vanish_fancy(m * k, c / 2, c);
    assert(round_near(m, b, c) == m * k);
    let fwd = rescale_spec(n as int, aq_num, aq_den, bq_num, bq_den);
    if n < 0 {
        assert(fwd == -(m * k));
        assert(n * k == -(m * k)) by {
            lemma_mul_unary_negation(m, k);
        }
    }
    lemma_mul_nonnegative(m, k);
    // backward: the factor is c / b
    lemma_mul_is_commutative(bq_num as int, aq_den as int);
    lemma_mul_is_commutative(aq_num as int, bq_den as int);
    assert(scale_num(bq_num, aq_den) == c);
    assert(scale_den(aq_num, bq_den) == b);
    assert(magnitude(fwd) == m * k);
    assert((m * k) * c == m * b) by {
        lemma_mul_is_associative(m, k, c);
        lemma_mul_is_commutative(k, c);
    }
    assert(round_near(m * k, c, b) == m) by {
        lemma_mul_is_commutative(m, b);
        lemma_div_multiples_vanish_fancy(m, b / 2, b);
    }
    if n < 0 {
        if k == 0 {
            assert(b == 0) by { lemma_mul_basics(c); }
            assert(false);
        }
        lemma_mul_strictly_positive(m, k);
    }
}

/// Rescaling is exact whenever the exact result is an integer: if the time
/// base product `scale_den` is positive, `scale_num` is not negative, and
/// `n * scale_num` is a multiple of `scale_den` whose quotient fits in an
/// `i64` (and is not `i64::MIN`), the rescaled value is that quotient. For
/// example 3 ticks of 1/1 are 3000 ticks of 1/1000.
pub proof fn lemma_rescale_exact(n: i64, aq_num: u32, aq_den: u32, bq_num: u32, bq_den: u32)
    requires
        scale_den(bq_num, aq_den) > 0,
        scale_num(aq_num, bq_den) >= 0,
        n != i64::MIN,
        (n * scale_num(aq_num, bq_den)) % scale_den(bq_num, aq_den) == 0,
        -0x7fff_ffff_ffff_ffff <= (n * scale_num(aq_num, bq_den)) / scale_den(bq_num, aq_den)
            <= 0x7fff_ffff_ffff_ffff,
    ensures
        rescale_in_range(n as int, aq_num, aq_den, bq_num, bq_den),
        rescale_spec(n as int, aq_num, aq_den, bq_num, bq_den) == (n * scale_num(aq_num, bq_den))
            / scale_den(bq_num, aq_den),
{
    let b = scale_num(aq_num, bq_den);
    let c = scale_den(bq_num, aq_den);
    let k = (n * b) / c;
    lemma_fundamental_div_mod(n * b, c);
    assert(n * b == c * k);
    let m = magnitude(n as int);
    if n >= 0 {
        assert(m * b == c * k);
        lemma_div_multiples_vanish_fancy(k, c / 2, c);
        assert(round_near(m, b, c) == k);
    } else {
        assert(m == -n);
        assert(m * b == -(n * b)) by {
            lemma_mul_unary_negation(n as int, b);
        }
        assert(m * b == c * (-k)) by {
            lemma_mul_unary_negation(c, k);
            lemma_mul_is_commutative(c, -k);
            lemma_mul_is_commutative(c, k);
        }
        lemma_div_multiples_vanish_fancy(-k, c / 2, c);
        assert(round_near(m, b, c) == -k);
    }
}

/// Rescaling a value that is not negative, without overflow, gives a value
/// that is not negative.
pub proof fn lemma_rescale_nonneg(n: int, aq_num: u32, aq_den: u32, bq_num: u32, bq_den: u32)
    requires
        n >= 0,
        rescale_in_range(n, aq_num, aq_den, bq_num, bq_den),
    ensures
        rescale_spec(n, aq_num, aq_den, bq_num, bq_den) >= 0,
{
    lemma_round_near_nonneg(
        magnitude(n),
        scale_num(aq_num, bq_den),
        scale_den(bq_num, aq_den),
    );
}

/// Rescaling rounds to the nearest integer, halfway cases away from zero:
/// for `n` that is not `i64::MIN`, with `b` and `c` the products of the time
/// base components, the rescaled magnitude `q` is the integer with
/// `q * c <= |n| * b + c / 2 < (q + 1) * c`, and the result has the sign of
/// `n`.
pub proof fn lemma_rescale_nearest(n: i64, aq_num: u32, aq_den: u32, bq_num: u32, bq_den: u32)
    requires
        n != i64::MIN,
        rescale_in_range(n as int, aq_num, aq_den, bq_num, bq_den),
    ensures
        n >= 0 ==> {
            let r = rescale_spec(n as int, aq_num, aq_den, bq_num, bq_den);
            let b = scale_num(aq_num, bq_den);
            let c = scale_den(bq_num, aq_den);
            r * c <= n * b + c / 2 < (r + 1) * c
        },
        n < 0 ==> {
            let r = rescale_spec(n as int, aq_num, aq_den, bq_num, bq_den);
            let b = scale_num(aq_num, bq_den);
            let c = scale_den(bq_num, aq_den);
            (-r) * c <= (-n) * b + c / 2 < (-r + 1) * c
        },
{
    let b = scale_num(aq_num, bq_den);
    let c = scale_den(bq_num, aq_den);
    let m = magnitude(n as int);
    let q = round_near(m, b, c);
    lemma_fundamental_div_mod(m * b + c / 2, c);
    lemma_mod_bound(m * b + c / 2, c);
    assert(q * c <= m * b + c / 2 < (q + 1) * c) by {
        lemma_mul_is_commutative(q, c);
        lemma_mul_is_distributive_add(c, q, 1);
        lemma_mul_is_commutative(q + 1, c);
    }
}

} // verus!
