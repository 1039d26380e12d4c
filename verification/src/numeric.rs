use vstd::arithmetic::div_mod::{
    lemma_div_multiples_vanish, lemma_fundamental_div_mod, lemma_fundamental_div_mod_converse,
    lemma_mod_multiples_basic,
};
use vstd::arithmetic::power::{lemma_pow0, lemma_pow_adds, lemma_pow_increases, lemma_pow_positive, pow};
use vstd::prelude::*;

use crate::datatype::{MAX_DECIMAL_PRECISION, MAX_DECIMAL_SCALE};
use crate::errors::ParadeError;

verus! {

/// Ten to the power `e`.
pub open spec fn pow10(e: nat) -> int {
    pow(10, e)
}

pub proof fn lemma_pow10_pos(e: nat)
    ensures
        pow10(e) >= 1,
{
    lemma_pow_positive(10, e);
}

/// The concrete value of the largest power of ten used by the codecs;
/// it fits the engine's 128-bit significands.
pub proof fn lemma_pow10_38()
    ensures
        pow10(38) == 100000000000000000000000000000000000000int,
{
    reveal_with_fuel(pow, 40);
}

/// A fixed-point decimal of the row store, restricted to what the
/// columnar engine's 128-bit decimals can exchange: the value is
/// `digits / 10^scale`.
#[derive(Clone, Copy, Debug, PartialEq, Eq, Structural)]
pub struct NativeNumeric {
    pub digits: i128,
    pub scale: i8,
}

impl NativeNumeric {
    /// The representable domain: significand within 128-bit decimal range
    /// and scale within the engine's supported magnitude.
    pub open spec fn wf(self) -> bool {
        &&& -pow10(38) < self.digits < pow10(38)
        &&& -(MAX_DECIMAL_SCALE as int) <= self.scale <= MAX_DECIMAL_SCALE as int
    }
}

/// Which way a value moves between the row store's fractional
/// representation and the engine's unscaled integral one.  Callers state
/// the direction explicitly; it is never inferred.
#[derive(Clone, Copy, Debug, PartialEq, Eq, Structural)]
pub enum RescaleDirection {
    /// Remove the scale: multiply by `10^scale`, yielding the unscaled
    /// 128-bit significand the columnar engine stores.
    ToUnscaled,
    /// Restore the scale: divide by `10^scale`, yielding the fractional
    /// value the row store expects.
    ToScaled,
}

/// The power-of-ten exponent by which rescaling shifts the significand:
/// the result's significand is `digits * 10^k` for the exponent `k`
/// returned here (negative `k` meaning exact division).
pub open spec fn scale_shift(value_scale: int, original_scale: int, direction: RescaleDirection) -> int {
    match direction {
        RescaleDirection::ToUnscaled => original_scale - value_scale,
        RescaleDirection::ToScaled => -value_scale,
    }
}

/// The scale tag of the rescaled result: unscaled values are integral,
/// scaled values carry the column's scale.
pub open spec fn rescaled_scale(original_scale: i8, direction: RescaleDirection) -> i8 {
    match direction {
        RescaleDirection::ToUnscaled => 0i8,
        RescaleDirection::ToScaled => original_scale,
    }
}

/// Whether shifting `digits` by `10^k` is exact (no fractional digits are
/// dropped; nothing is ever rounded).
pub open spec fn shift_is_exact(digits: int, k: int) -> bool {
    k >= 0 || digits % pow10((-k) as nat) == 0
}

/// The shifted significand `digits * 10^k`, defined when the shift is exact.
pub open spec fn shifted_digits(digits: int, k: int) -> int {
    if k >= 0 {
        digits * pow10(k as nat)
    } else {
        digits / pow10((-k) as nat)
    }
}

/// When rescaling succeeds: the shift is exact and the resulting
/// significand has at most `precision` digits.
pub open spec fn scale_ok(
    v: NativeNumeric,
    precision: u8,
    original_scale: i8,
    direction: RescaleDirection,
) -> bool {
    let k = scale_shift(v.scale as int, original_scale as int, direction);
    &&& shift_is_exact(v.digits as int, k)
    &&& -pow10(precision as nat) < shifted_digits(v.digits as int, k) < pow10(precision as nat)
}

/// The rescaled value, when rescaling succeeds.
pub open spec fn spec_rescaled(
    v: NativeNumeric,
    original_scale: i8,
    direction: RescaleDirection,
) -> NativeNumeric {
    let k = scale_shift(v.scale as int, original_scale as int, direction);
    NativeNumeric {
        digits: shifted_digits(v.digits as int, k) as i128,
        scale: rescaled_scale(original_scale, direction),
    }
}

/// `10^exponent` as a 128-bit significand.
pub fn pow10_i128(exponent: u32) -> (res: i128)
    requires
        exponent <= 38,
    ensures
        res as int == pow10(exponent as nat),
        res >= 1,
{
    let mut acc: i128 = 1;
    let mut i: u32 = 0;
    proof {
        lemma_pow0(10);
    }
    while i < exponent
        invariant
            i <= exponent <= 38,
            acc as int == pow10(i as nat),
            acc >= 1,
        decreases exponent - i,
    {
        proof {
            lemma_pow_adds(10, i as nat, 1nat);
            assert(pow(10, 1nat) == 10) by {
                reveal_with_fuel(pow, 2);
            }
            lemma_pow_increases(10, (i + 1) as nat, 38nat);
            lemma_pow10_38();
        }
        acc = acc * 10;
        i = i + 1;
    }
    acc
}

/// Converts a fixed-point decimal between the row store's fractional
/// representation and the columnar engine's unscaled one, under a column
/// type of the given `precision` and `original_scale`.
///
/// The value is shifted by `10^original_scale` — multiplied when removing
/// the scale, divided when restoring it — exactly: a value whose
/// fractional digits the target cannot carry is rejected with a scale
/// error rather than rounded, and a result of more than `precision`
/// digits (or beyond the 128-bit significand) is rejected with a
/// precision error rather than clamped.
pub fn scale_anynumeric(
    value: &NativeNumeric,
    precision: u8,
    original_scale: i8,
    direction: RescaleDirection,
) -> (res: Result<NativeNumeric, ParadeError>)
    requires
        value.wf(),
        precision <= MAX_DECIMAL_PRECISION,
        -(MAX_DECIMAL_SCALE as int) <= original_scale as int <= MAX_DECIMAL_SCALE as int,
    ensures
        res is Ok <==> scale_ok(*value, precision, original_scale, direction),
        res matches Ok(r) ==> r == spec_rescaled(*value, original_scale, direction) && r.wf(),
        res matches Err(e) ==> !scale_ok(*value, precision, original_scale, direction) && (e
            == (ParadeError::ScaleOverflow { scale: original_scale as i64 }) <==> !shift_is_exact(
            value.digits as int,
            scale_shift(value.scale as int, original_scale as int, direction),
        )) && (e == (ParadeError::ScaleOverflow { scale: original_scale as i64 }) || e
            == (ParadeError::PrecisionOverflow { precision: precision as u64 })),
{
    let ghost k_spec = scale_shift(value.scale as int, original_scale as int, direction);
    let k: i32 = match direction {
        RescaleDirection::ToUnscaled => original_scale as i32 - value.scale as i32,
        RescaleDirection::ToScaled => 0i32 - value.scale as i32,
    };
    let target_scale: i8 = match direction {
        RescaleDirection::ToUnscaled => 0i8,
        RescaleDirection::ToScaled => original_scale,
    };
    let limit: i128 = pow10_i128(precision as u32);
    proof {
        lemma_pow10_38();
        lemma_pow_increases(10, precision as nat, 38nat);
    }
    if k >= 0 {
        if value.digits == 0 {
            proof {
                lemma_pow10_pos(k as nat);
            }
            return Ok(NativeNumeric { digits: 0, scale: target_scale });
        }
        if k > 38 {
            // Any nonzero significand shifted up by more than 38 places
            // exceeds every representable precision.
            proof {
                lemma_pow10_pos(k as nat);
                lemma_pow_increases(10, 39nat, k as nat);
                assert(pow10(39nat) == 10 * pow10(38)) by {
                    lemma_pow_adds(10, 1nat, 38nat);
                    reveal_with_fuel(pow, 2);
                }
                let p10 = pow10(k as nat);
                assert(value.digits >= 1 ==> value.digits * p10 >= p10) by (nonlinear_arith)
                    requires p10 >= 1,
                ;
                assert(value.digits <= -1 ==> value.digits * p10 <= -p10) by (nonlinear_arith)
                    requires p10 >= 1,
                ;
            }
            return Err(ParadeError::PrecisionOverflow { precision: precision as u64 });
        }
        let multiplier = pow10_i128(k as u32);
        match value.digits.checked_mul(multiplier) {
            None => {
                proof {
                    assert(shifted_digits(value.digits as int, k_spec) == value.digits as int
                        * multiplier as int);
                }
                Err(ParadeError::PrecisionOverflow { precision: precision as u64 })
            },
            Some(shifted) => {
                if shifted >= limit || shifted <= -limit {
                    Err(ParadeError::PrecisionOverflow { precision: precision as u64 })
                } else {
                    Ok(NativeNumeric { digits: shifted, scale: target_scale })
                }
            },
        }
    } else {
        let negative = value.digits < 0;
        let magnitude: u128 = if negative {
            (-value.digits) as u128
        } else {
            value.digits as u128
        };
        if k < -38 {
            // The divisor 10^(-k) exceeds 10^38, which bounds every
            // representable significand: only zero divides exactly.
            proof {
                lemma_pow_increases(10, 39nat, (-k) as nat);
                assert(pow10(39nat) == 10 * pow10(38)) by {
                    lemma_pow_adds(10, 1nat, 38nat);
                    reveal_with_fuel(pow, 2);
                }
                let m = pow10((-k) as nat);
                if value.digits != 0 {
                    assert((value.digits as int) % m != 0) by (nonlinear_arith)
                        requires
                            m > pow10(38),
                            pow10(38) > 0,
                            -pow10(38) < value.digits as int,
                            (value.digits as int) < pow10(38),
                            value.digits != 0,
                    ;
                }
            }
            if value.digits == 0 {
                proof {
                    lemma_pow10_pos((-k_spec) as nat);
                    let m = pow10((-k_spec) as nat);
                    assert(0int % m == 0 && 0int / m == 0) by (nonlinear_arith)
                        requires m >= 1,
                    ;
                    assert(shift_is_exact(0, k_spec));
                    assert(shifted_digits(0, k_spec) == 0);
                }
                return Ok(NativeNumeric { digits: 0, scale: target_scale });
            }
            return Err(ParadeError::ScaleOverflow { scale: original_scale as i64 });
        }
        let divisor = pow10_i128((0 - k) as u32) as u128;
        let quotient = magnitude / divisor;
        let remainder = magnitude % divisor;
        proof {
            let m = pow10((-k_spec) as nat);
            assert(divisor as int == m);
            lemma_pow10_pos((-k_spec) as nat);
            lemma_fundamental_div_mod(magnitude as int, m);
            let q = quotient as int;
            let r = remainder as int;
            assert(q == magnitude as int / m && r == magnitude as int % m);
            assert(magnitude as int == q * m + r && 0 <= r < m);
            if negative {
                if r == 0 {
                    assert((-q) * m == value.digits as int) by (nonlinear_arith)
                        requires
                            q * m == magnitude as int,
                            value.digits as int == -(magnitude as int),
                    ;
                    lemma_mod_multiples_basic(-q, m);
                    lemma_div_multiples_vanish(-q, m);
                    assert(m * -q == -q * m) by (nonlinear_arith);
                    assert(shifted_digits(value.digits as int, k_spec) == -q);
                } else {
                    assert(value.digits as int == (-q - 1) * m + (m - r)) by (nonlinear_arith)
                        requires
                            q * m + r == magnitude as int,
                            value.digits as int == -(magnitude as int),
                    ;
                    lemma_fundamental_div_mod_converse(value.digits as int, m, -q - 1, m - r);
                    assert((value.digits as int) % m == m - r);
                    assert((value.digits as int) % m != 0);
                }
            } else {
                if r == 0 {
                    lemma_mod_multiples_basic(q, m);
                    lemma_div_multiples_vanish(q, m);
                    assert(m * q == q * m) by (nonlinear_arith);
                    assert(shifted_digits(value.digits as int, k_spec) == q);
                } else {
                    assert(value.digits as int % m == r);
                }
            }
            assert(q <= magnitude as int) by (nonlinear_arith)
                requires
                    q * m + r == magnitude as int,
                    0 <= r,
                    m >= 1,
                    q >= 0,
            ;
        }
        if remainder != 0 {
            return Err(ParadeError::ScaleOverflow { scale: original_scale as i64 });
        }
        let unsigned_quotient = quotient as i128;
        let shifted = if negative {
            -unsigned_quotient
        } else {
            unsigned_quotient
        };
        if shifted >= limit || shifted <= -limit {
            Err(ParadeError::PrecisionOverflow { precision: precision as u64 })
        } else {
            Ok(NativeNumeric { digits: shifted, scale: target_scale })
        }
    }
}

/// Law: rescaling a representable value out of its fractional form and
/// back restores it exactly.  A value is representable under
/// `(precision, scale)` when it is carried at that scale with at most
/// `precision` digits; a value carried at another scale (say `5` at scale
/// `0` under a scale-2 column) comes back as the same value at the
/// column's scale, not as the identical representation, and is excluded.
pub proof fn lemma_rescale_round_trip(v: NativeNumeric, precision: u8, scale: i8)
    requires
        v.wf(),
        precision <= MAX_DECIMAL_PRECISION,
        -(MAX_DECIMAL_SCALE as int) <= scale as int <= MAX_DECIMAL_SCALE as int,
        v.scale == scale,
        -pow10(precision as nat) < v.digits < pow10(precision as nat),
    ensures
        scale_ok(v, precision, scale, RescaleDirection::ToUnscaled),
        scale_ok(
            spec_rescaled(v, scale, RescaleDirection::ToUnscaled),
            precision,
            scale,
            RescaleDirection::ToScaled,
        ),
        spec_rescaled(
            spec_rescaled(v, scale, RescaleDirection::ToUnscaled),
            scale,
            RescaleDirection::ToScaled,
        ) == v,
{
    lemma_pow0(10);
    let u = spec_rescaled(v, scale, RescaleDirection::ToUnscaled);
    assert(scale_shift(v.scale as int, scale as int, RescaleDirection::ToUnscaled) == 0);
    assert(u.digits == v.digits && u.scale == 0);
    assert(scale_shift(u.scale as int, scale as int, RescaleDirection::ToScaled) == 0);
}

} // verus!
