use vstd::prelude::*;

verus! {

/// Full scale: the fixed-point value that stands for 1.0.
pub const ONE: i64 = 1_000_000;

/// The failures that the synthesis core reports.
#[derive(Debug, Clone, Copy, PartialEq, Eq, Structural)]
pub enum SynthError {
    /// A construction parameter is out of its domain: a negative envelope
    /// time, or a zero sample rate.
    ConfigurationError,
    /// An oscillator index past the end of a mixer's bank.
    IndexError,
}

/// `a / d` rounded toward zero, as integer division in Rust does.
pub open spec fn trunc_div(a: int, d: int) -> int {
    if a >= 0 {
        a / d
    } else {
        -((-a) / d)
    }
}

/// Fixed-point product: `x * m` where `m` is in units of `ONE`, rounded
/// toward zero.
pub open spec fn scale(x: int, m: int) -> int {
    trunc_div(x * m, 1_000_000)
}

/// `x` limited to `[-cap, cap]`.
pub open spec fn clamp(x: int, cap: int) -> int {
    if x > cap {
        cap
    } else if x < -cap {
        -cap
    } else {
        x
    }
}

pub open spec fn abs(x: int) -> int {
    if x >= 0 {
        x
    } else {
        -x
    }
}

pub proof fn lemma_trunc_div_bound(a: int, d: int)
    requires
        d > 0,
    ensures
        abs(trunc_div(a, d)) * d <= abs(a),
        a >= 0 ==> trunc_div(a, d) >= 0,
        a <= 0 ==> trunc_div(a, d) <= 0,
{
    let b = abs(a);
    vstd::arithmetic::div_mod::lemma_fundamental_div_mod(b, d);
    vstd::arithmetic::div_mod::lemma_mod_bound(b, d);
    vstd::arithmetic::div_mod::lemma_div_pos_is_pos(b, d);
    let q = b / d;
    assert(q * d <= b) by (nonlinear_arith)
        requires
            b == d * q + b % d,
            b % d >= 0,
    ;
}

/// A fixed-point product is at most the product of the magnitudes, and it
/// keeps the sign of `x` under a non-negative factor.
pub proof fn lemma_scale_bound(x: int, m: int)
    ensures
        abs(scale(x, m)) * 1_000_000 <= abs(x) * abs(m),
        m >= 0 && x >= 0 ==> scale(x, m) >= 0,
        m >= 0 && x <= 0 ==> scale(x, m) <= 0,
{
    lemma_trunc_div_bound(x * m, 1_000_000);
    assert(abs(x * m) == abs(x) * abs(m)) by (nonlinear_arith);
    assert(m >= 0 && x >= 0 ==> x * m >= 0) by (nonlinear_arith);
    assert(m >= 0 && x <= 0 ==> x * m <= 0) by (nonlinear_arith);
}

/// Scaling by full scale is the identity, and by zero gives zero.
pub proof fn lemma_scale_unit(x: int)
    ensures
        scale(x, 1_000_000) == x,
        scale(x, 0) == 0,
{
    vstd::arithmetic::div_mod::lemma_div_multiples_vanish(x, 1_000_000);
    vstd::arithmetic::div_mod::lemma_div_multiples_vanish(-x, 1_000_000);
    vstd::arithmetic::div_mod::lemma_div_of0(1_000_000);
}

/// The bound on wide intermediate values: `2^95`.
pub const WIDE: i128 = 0x8000_0000_0000_0000_0000_0000;

/// The bound on fixed-point factors: `2^31`.
pub const FACTOR: i128 = 0x8000_0000;

/// Fixed-point product of a wide value by a factor in units of `ONE`,
/// rounded toward zero.
pub fn scale_wide(x: i128, m: i128) -> (r: i128)
    requires
        -WIDE * FACTOR <= x * m <= WIDE * FACTOR,
    ensures
        r == scale(x as int, m as int),
{
    let p: i128 = x * m;
    if p >= 0 {
        ((p as u128) / (ONE as u128)) as i128
    } else {
        let q: u128 = ((-p) as u128) / (ONE as u128);
        -(q as i128)
    }
}

/// The product bound that `scale_wide` asks for holds of a value within
/// `WIDE` by a factor within `FACTOR`.
pub proof fn lemma_wide_product(x: int, m: int)
    requires
        -WIDE <= x <= WIDE,
        -FACTOR <= m <= FACTOR,
    ensures
        -WIDE * FACTOR <= x * m <= WIDE * FACTOR,
{
    assert(-WIDE * FACTOR <= x * m <= WIDE * FACTOR) by (nonlinear_arith)
        requires
            -WIDE <= x <= WIDE,
            -FACTOR <= m <= FACTOR,
    ;
}

/// `x` limited to the range of `i64`.
pub open spec fn saturate(x: int) -> int {
    if x > i64::MAX {
        i64::MAX as int
    } else if x < i64::MIN {
        i64::MIN as int
    } else {
        x
    }
}

/// `x` limited to `[-cap, cap]`.
pub fn clamp_wide(x: i128, cap: u32) -> (r: i64)
    ensures
        r == clamp(x as int, cap as int),
{
    if x > cap as i128 {
        cap as i64
    } else if x < -(cap as i128) {
        -(cap as i64)
    } else {
        x as i64
    }
}

} // verus!
