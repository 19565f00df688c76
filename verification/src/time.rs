//! Rational presentation times.
//!
//! A `CMTime` carries a time as the exact rational `value / scale` seconds,
//! together with an epoch and a word of validity flags. A time lacking the
//! valid flag is not numeric; a valid time may instead be flagged indefinite
//! or positive/negative infinity. Arithmetic, rescaling and comparison are
//! implemented exactly over the integers: rescaling rounds under one of six
//! rounding policies and records that it rounded, and comparison normalizes
//! differing scales by exact cross-multiplication, never by converting to
//! floating point.

use vstd::prelude::*;

verus! {

use vstd::arithmetic::div_mod::lemma_fundamental_div_mod;
use vstd::arithmetic::div_mod::lemma_mod_division_less_than_divisor;
use vstd::arithmetic::div_mod::lemma_div_pos_is_pos;
use vstd::arithmetic::div_mod::lemma_div_nonincreasing;

pub const K_CMTIME_FLAGS_VALID: u32 = 1;
pub const K_CMTIME_FLAGS_HAS_BEEN_ROUNDED: u32 = 2;
pub const K_CMTIME_FLAGS_POSITIVE_INFINITY: u32 = 4;
pub const K_CMTIME_FLAGS_NEGATIVE_INFINITY: u32 = 8;
pub const K_CMTIME_FLAGS_INDEFINITE: u32 = 16;

pub const K_CMTIME_ROUNDING_METHOD_ROUND_HALF_AWAY_FROM_ZERO: u32 = 1;
pub const K_CMTIME_ROUNDING_METHOD_ROUND_TOWARD_ZERO: u32 = 2;
pub const K_CMTIME_ROUNDING_METHOD_ROUND_AWAY_FROM_ZERO: u32 = 3;
pub const K_CMTIME_ROUNDING_METHOD_QUICKTIME: u32 = 4;
pub const K_CMTIME_ROUNDING_METHOD_TOWARD_POSITIVE_INFINITY: u32 = 5;
pub const K_CMTIME_ROUNDING_METHOD_TOWARD_NEGATIVE_INFINITY: u32 = 6;

/// The rounding policy applied when a time is rescaled and the exact result
/// is not representable at the new scale. `QuickTime` is the legacy policy;
/// this library defines it as rounding toward zero.
#[derive(Copy, Clone, Debug, PartialEq, Eq, Structural)]
pub enum CMTimeRoundingMethod {
    HalfAwayFromZero,
    TowardZero,
    AwayFromZero,
    QuickTime,
    TowardPositiveInfinity,
    TowardNegativeInfinity,
}

impl CMTimeRoundingMethod {
    pub open spec fn spec_to_u32(&self) -> u32 {
        match self {
            Self::HalfAwayFromZero => K_CMTIME_ROUNDING_METHOD_ROUND_HALF_AWAY_FROM_ZERO,
            Self::TowardZero => K_CMTIME_ROUNDING_METHOD_ROUND_TOWARD_ZERO,
            Self::AwayFromZero => K_CMTIME_ROUNDING_METHOD_ROUND_AWAY_FROM_ZERO,
            Self::QuickTime => K_CMTIME_ROUNDING_METHOD_QUICKTIME,
            Self::TowardPositiveInfinity => K_CMTIME_ROUNDING_METHOD_TOWARD_POSITIVE_INFINITY,
            Self::TowardNegativeInfinity => K_CMTIME_ROUNDING_METHOD_TOWARD_NEGATIVE_INFINITY,
        }
    }

    #[verifier::when_used_as_spec(spec_to_u32)]
    pub fn to_u32(&self) -> (r: u32)
        ensures
            r == self.spec_to_u32(),
    {
        match self {
            Self::HalfAwayFromZero => K_CMTIME_ROUNDING_METHOD_ROUND_HALF_AWAY_FROM_ZERO,
            Self::TowardZero => K_CMTIME_ROUNDING_METHOD_ROUND_TOWARD_ZERO,
            Self::AwayFromZero => K_CMTIME_ROUNDING_METHOD_ROUND_AWAY_FROM_ZERO,
            Self::QuickTime => K_CMTIME_ROUNDING_METHOD_QUICKTIME,
            Self::TowardPositiveInfinity => K_CMTIME_ROUNDING_METHOD_TOWARD_POSITIVE_INFINITY,
            Self::TowardNegativeInfinity => K_CMTIME_ROUNDING_METHOD_TOWARD_NEGATIVE_INFINITY,
        }
    }
}

impl Default for CMTimeRoundingMethod {
    fn default() -> (r: Self)
        ensures
            r == CMTimeRoundingMethod::HalfAwayFromZero,
    {
        Self::HalfAwayFromZero
    }
}

/// The three-way outcome of comparing two times.
#[derive(Copy, Clone, Debug, PartialEq, Eq, Structural)]
pub enum TimeComparison {
    Less,
    Equal,
    Greater,
}

/// A rational time: `value / scale` seconds within `epoch`, qualified by
/// validity flags. Equality and order go through the three-way comparator,
/// which normalizes differing scales; they are not component-wise.
#[derive(Copy, Clone, Debug)]
pub struct CMTime {
    pub value: i64,
    pub scale: i32,
    pub epoch: i64,
    pub flags: u32,
}

impl CMTime {
    pub open spec fn spec_is_valid(&self) -> bool {
        self.flags & K_CMTIME_FLAGS_VALID != 0
    }

    #[verifier::when_used_as_spec(spec_is_valid)]
    pub fn is_valid(&self) -> (r: bool)
        ensures
            r == self.spec_is_valid(),
    {
        self.flags & K_CMTIME_FLAGS_VALID != 0
    }

    pub open spec fn spec_is_invalid(&self) -> bool {
        !self.spec_is_valid()
    }

    #[verifier::when_used_as_spec(spec_is_invalid)]
    pub fn is_invalid(&self) -> (r: bool)
        ensures
            r == self.spec_is_invalid(),
    {
        !self.is_valid()
    }

    pub open spec fn spec_is_indefinite(&self) -> bool {
        self.spec_is_valid() && self.flags & K_CMTIME_FLAGS_INDEFINITE != 0
    }

    #[verifier::when_used_as_spec(spec_is_indefinite)]
    pub fn is_indefinite(&self) -> (r: bool)
        ensures
            r == self.spec_is_indefinite(),
    {
        self.is_valid() && self.flags & K_CMTIME_FLAGS_INDEFINITE != 0
    }

    pub open spec fn spec_is_positive_infinity(&self) -> bool {
        self.spec_is_valid() && self.flags & K_CMTIME_FLAGS_POSITIVE_INFINITY != 0
    }

    #[verifier::when_used_as_spec(spec_is_positive_infinity)]
    pub fn is_positive_infinity(&self) -> (r: bool)
        ensures
            r == self.spec_is_positive_infinity(),
    {
        self.is_valid() && self.flags & K_CMTIME_FLAGS_POSITIVE_INFINITY != 0
    }

    pub open spec fn spec_is_negative_infinity(&self) -> bool {
        self.spec_is_valid() && self.flags & K_CMTIME_FLAGS_NEGATIVE_INFINITY != 0
    }

    #[verifier::when_used_as_spec(spec_is_negative_infinity)]
    pub fn is_negative_infinity(&self) -> (r: bool)
        ensures
            r == self.spec_is_negative_infinity(),
    {
        self.is_valid() && self.flags & K_CMTIME_FLAGS_NEGATIVE_INFINITY != 0
    }

    /// A time is numeric when it is valid and neither indefinite nor an
    /// infinity; only numeric times take part in arithmetic.
    pub open spec fn spec_is_numeric(&self) -> bool {
        self.spec_is_valid() && !self.spec_is_indefinite() && !self.spec_is_positive_infinity()
            && !self.spec_is_negative_infinity()
    }

    #[verifier::when_used_as_spec(spec_is_numeric)]
    pub fn is_numeric(&self) -> (r: bool)
        ensures
            r == self.spec_is_numeric(),
    {
        self.is_valid() && !self.is_indefinite() && !self.is_positive_infinity()
            && !self.is_negative_infinity()
    }

    pub open spec fn spec_has_been_rounded(&self) -> bool {
        self.flags & K_CMTIME_FLAGS_HAS_BEEN_ROUNDED != 0
    }

    #[verifier::when_used_as_spec(spec_has_been_rounded)]
    pub fn has_been_rounded(&self) -> (r: bool)
        ensures
            r == self.spec_has_been_rounded(),
    {
        self.flags & K_CMTIME_FLAGS_HAS_BEEN_ROUNDED != 0
    }

    /// Every time this library constructs keeps a positive scale while it is
    /// numeric; comparison and arithmetic rely on that.
    pub open spec fn well_formed(&self) -> bool {
        self.spec_is_numeric() ==> self.scale > 0
    }

    /// The flag word of a numeric time: valid, plus the rounded mark when
    /// some step of its computation was inexact.
    pub open spec fn spec_numeric_flags(rounded: bool) -> u32 {
        if rounded {
            K_CMTIME_FLAGS_VALID | K_CMTIME_FLAGS_HAS_BEEN_ROUNDED
        } else {
            K_CMTIME_FLAGS_VALID
        }
    }

    pub open spec fn spec_invalid() -> CMTime {
        CMTime { value: 0, scale: 0, epoch: 0, flags: 0 }
    }

    pub open spec fn spec_indefinite() -> CMTime {
        CMTime { value: 0, scale: 0, epoch: 0, flags: K_CMTIME_FLAGS_VALID | K_CMTIME_FLAGS_INDEFINITE }
    }

    pub open spec fn spec_positive_infinity() -> CMTime {
        CMTime { value: 0, scale: 0, epoch: 0, flags: K_CMTIME_FLAGS_VALID | K_CMTIME_FLAGS_POSITIVE_INFINITY }
    }

    pub open spec fn spec_negative_infinity() -> CMTime {
        CMTime { value: 0, scale: 0, epoch: 0, flags: K_CMTIME_FLAGS_VALID | K_CMTIME_FLAGS_NEGATIVE_INFINITY }
    }

    pub open spec fn spec_make(value: i64, scale: i32, epoch: i64, rounded: bool) -> CMTime {
        CMTime { value, scale, epoch, flags: Self::spec_numeric_flags(rounded) }
    }

    /// The time that is not a time: no flag set, compares below everything.
    pub fn invalid() -> (r: CMTime)
        ensures
            r == Self::spec_invalid(),
            r.spec_is_invalid(),
            r.well_formed(),
    {
        proof { lemma_flag_words(); }
        CMTime { value: 0, scale: 0, epoch: 0, flags: 0 }
    }

    pub fn indefinite() -> (r: CMTime)
        ensures
            r == Self::spec_indefinite(),
            r.spec_is_indefinite(),
            !r.spec_is_numeric(),
            r.well_formed(),
    {
        proof { lemma_flag_words(); }
        CMTime {
            value: 0,
            scale: 0,
            epoch: 0,
            flags: K_CMTIME_FLAGS_VALID | K_CMTIME_FLAGS_INDEFINITE,
        }
    }

    pub fn positive_infinity() -> (r: CMTime)
        ensures
            r == Self::spec_positive_infinity(),
            r.spec_is_positive_infinity(),
            !r.spec_is_numeric(),
            r.well_formed(),
    {
        proof { lemma_flag_words(); }
        CMTime {
            value: 0,
            scale: 0,
            epoch: 0,
            flags: K_CMTIME_FLAGS_VALID | K_CMTIME_FLAGS_POSITIVE_INFINITY,
        }
    }

    pub fn negative_infinity() -> (r: CMTime)
        ensures
            r == Self::spec_negative_infinity(),
            r.spec_is_negative_infinity(),
            !r.spec_is_numeric(),
            r.well_formed(),
    {
        proof { lemma_flag_words(); }
        CMTime {
            value: 0,
            scale: 0,
            epoch: 0,
            flags: K_CMTIME_FLAGS_VALID | K_CMTIME_FLAGS_NEGATIVE_INFINITY,
        }
    }

    /// The numeric time `value / scale` seconds in epoch 0.
    pub fn make(value: i64, scale: i32) -> (r: CMTime)
        requires
            scale > 0,
        ensures
            r == Self::spec_make(value, scale, 0, false),
            r.spec_is_numeric(),
            !r.spec_has_been_rounded(),
            r.well_formed(),
    {
        Self::make_with_epoch(value, scale, 0)
    }

    /// The numeric time `value / scale` seconds in the given epoch.
    pub fn make_with_epoch(value: i64, scale: i32, epoch: i64) -> (r: CMTime)
        requires
            scale > 0,
        ensures
            r == Self::spec_make(value, scale, epoch, false),
            r.spec_is_numeric(),
            !r.spec_has_been_rounded(),
            r.well_formed(),
    {
        proof { lemma_flag_words(); }
        CMTime { value, scale, epoch, flags: K_CMTIME_FLAGS_VALID }
    }

    /// The numeric time of zero seconds.
    pub fn zero() -> (r: CMTime)
        ensures
            r == Self::spec_make(0, 1, 0, false),
            r.spec_is_numeric(),
            r.value == 0,
            r.well_formed(),
    {
        Self::make(0, 1)
    }

    /// The numeric time of exactly `seconds` whole seconds, expressed at the
    /// given scale; `seconds * scale` must be representable.
    pub fn new_with_seconds(seconds: i64, scale: i32) -> (r: CMTime)
        requires
            scale > 0,
            i64::MIN <= seconds * scale <= i64::MAX,
        ensures
            r == Self::spec_make((seconds * scale) as i64, scale, 0, false),
            r.spec_is_numeric(),
            r.value == seconds * scale,
            r.well_formed(),
    {
        let v: i128 = seconds as i128 * scale as i128;
        proof { lemma_mul_i64_i32_in_range(seconds, scale); }
        Self::make(v as i64, scale)
    }
}

impl CMTime {
    /// The value this time takes when rescaled to `new_scale` under the
    /// given rounding policy: non-numeric times pass through unchanged, and
    /// a numeric result that would not fit in 64 bits becomes invalid.
    pub open spec fn spec_convert_timescale(
        &self,
        new_scale: i32,
        method: CMTimeRoundingMethod,
    ) -> CMTime {
        if !self.spec_is_numeric() {
            *self
        } else {
            let n = self.value * new_scale;
            let q = spec_div_round(n, self.scale as int, method);
            let inexact = n % (self.scale as int) != 0;
            if i64::MIN <= q <= i64::MAX {
                CMTime {
                    value: q as i64,
                    scale: new_scale,
                    epoch: self.epoch,
                    flags: Self::spec_numeric_flags(self.spec_has_been_rounded() || inexact),
                }
            } else {
                Self::spec_invalid()
            }
        }
    }

    /// Rescales this time to `new_scale`. The result represents the nearest
    /// representable rational under `method` and is marked rounded when the
    /// rescaling was inexact.
    pub fn convert_timescale(&self, new_scale: i32, method: CMTimeRoundingMethod) -> (r: CMTime)
        requires
            self.well_formed(),
            new_scale > 0,
        ensures
            r == self.spec_convert_timescale(new_scale, method),
            r.well_formed(),
    {
        proof { lemma_flag_words(); }
        if !self.is_numeric() {
            *self
        } else {
            proof { lemma_mul_i64_i32_in_range(self.value, new_scale); }
            let n: i128 = self.value as i128 * new_scale as i128;
            let (q, exact) = div_round(n, self.scale as i128, method);
            if i64::MIN as i128 <= q && q <= i64::MAX as i128 {
                let rounded = self.has_been_rounded() || !exact;
                CMTime {
                    value: q as i64,
                    scale: new_scale,
                    epoch: self.epoch,
                    flags: if rounded {
                        K_CMTIME_FLAGS_VALID | K_CMTIME_FLAGS_HAS_BEEN_ROUNDED
                    } else {
                        K_CMTIME_FLAGS_VALID
                    },
                }
            } else {
                CMTime::invalid()
            }
        }
    }
}

impl CMTime {
    /// The sum of two times. Invalidity dominates, then indefiniteness;
    /// opposite infinities cancel to invalid and a lone infinity absorbs.
    /// Numeric operands must share an epoch (otherwise the sum is invalid);
    /// a differing scale is first converted to the left operand's scale
    /// under the default rounding policy, and an unrepresentable sum is
    /// invalid.
    pub open spec fn spec_add(&self, rhs: &CMTime) -> CMTime {
        if !self.spec_is_valid() || !rhs.spec_is_valid() {
            Self::spec_invalid()
        } else if self.spec_is_indefinite() || rhs.spec_is_indefinite() {
            Self::spec_indefinite()
        } else if self.spec_is_positive_infinity() {
            if rhs.spec_is_negative_infinity() {
                Self::spec_invalid()
            } else {
                Self::spec_positive_infinity()
            }
        } else if self.spec_is_negative_infinity() {
            if rhs.spec_is_positive_infinity() {
                Self::spec_invalid()
            } else {
                Self::spec_negative_infinity()
            }
        } else if rhs.spec_is_positive_infinity() {
            Self::spec_positive_infinity()
        } else if rhs.spec_is_negative_infinity() {
            Self::spec_negative_infinity()
        } else if self.epoch != rhs.epoch {
            Self::spec_invalid()
        } else {
            let b = if self.scale == rhs.scale {
                *rhs
            } else {
                rhs.spec_convert_timescale(self.scale, CMTimeRoundingMethod::HalfAwayFromZero)
            };
            if !b.spec_is_numeric() {
                Self::spec_invalid()
            } else {
                let sum = self.value + b.value;
                if i64::MIN <= sum <= i64::MAX {
                    Self::spec_make(
                        sum as i64,
                        self.scale,
                        self.epoch,
                        self.spec_has_been_rounded() || b.spec_has_been_rounded(),
                    )
                } else {
                    Self::spec_invalid()
                }
            }
        }
    }

    pub fn add(&self, rhs: &CMTime) -> (r: CMTime)
        requires
            self.well_formed(),
            rhs.well_formed(),
        ensures
            r == self.spec_add(rhs),
            r.well_formed(),
    {
        proof { lemma_flag_words(); }
        if !self.is_valid() || !rhs.is_valid() {
            Self::invalid()
        } else if self.is_indefinite() || rhs.is_indefinite() {
            Self::indefinite()
        } else if self.is_positive_infinity() {
            if rhs.is_negative_infinity() {
                Self::invalid()
            } else {
                Self::positive_infinity()
            }
        } else if self.is_negative_infinity() {
            if rhs.is_positive_infinity() {
                Self::invalid()
            } else {
                Self::negative_infinity()
            }
        } else if rhs.is_positive_infinity() {
            Self::positive_infinity()
        } else if rhs.is_negative_infinity() {
            Self::negative_infinity()
        } else if self.epoch != rhs.epoch {
            Self::invalid()
        } else {
            let b = if self.scale == rhs.scale {
                *rhs
            } else {
                rhs.convert_timescale(self.scale, CMTimeRoundingMethod::HalfAwayFromZero)
            };
            if !b.is_numeric() {
                Self::invalid()
            } else {
                let sum: i128 = self.value as i128 + b.value as i128;
                if i64::MIN as i128 <= sum && sum <= i64::MAX as i128 {
                    let rounded = self.has_been_rounded() || b.has_been_rounded();
                    CMTime {
                        value: sum as i64,
                        scale: self.scale,
                        epoch: self.epoch,
                        flags: if rounded {
                            K_CMTIME_FLAGS_VALID | K_CMTIME_FLAGS_HAS_BEEN_ROUNDED
                        } else {
                            K_CMTIME_FLAGS_VALID
                        },
                    }
                } else {
                    Self::invalid()
                }
            }
        }
    }

    /// The difference of two times, on the same plan as `spec_add`:
    /// subtracting an infinity lands at the opposite infinity, and like
    /// infinities cancel to invalid.
    pub open spec fn spec_sub(&self, rhs: &CMTime) -> CMTime {
        if !self.spec_is_valid() || !rhs.spec_is_valid() {
            Self::spec_invalid()
        } else if self.spec_is_indefinite() || rhs.spec_is_indefinite() {
            Self::spec_indefinite()
        } else if self.spec_is_positive_infinity() {
            if rhs.spec_is_positive_infinity() {
                Self::spec_invalid()
            } else {
                Self::spec_positive_infinity()
            }
        } else if self.spec_is_negative_infinity() {
            if rhs.spec_is_negative_infinity() {
                Self::spec_invalid()
            } else {
                Self::spec_negative_infinity()
            }
        } else if rhs.spec_is_positive_infinity() {
            Self::spec_negative_infinity()
        } else if rhs.spec_is_negative_infinity() {
            Self::spec_positive_infinity()
        } else if self.epoch != rhs.epoch {
            Self::spec_invalid()
        } else {
            let b = if self.scale == rhs.scale {
                *rhs
            } else {
                rhs.spec_convert_timescale(self.scale, CMTimeRoundingMethod::HalfAwayFromZero)
            };
            if !b.spec_is_numeric() {
                Self::spec_invalid()
            } else {
                let diff = self.value - b.value;
                if i64::MIN <= diff <= i64::MAX {
                    Self::spec_make(
                        diff as i64,
                        self.scale,
                        self.epoch,
                        self.spec_has_been_rounded() || b.spec_has_been_rounded(),
                    )
                } else {
                    Self::spec_invalid()
                }
            }
        }
    }

    pub fn sub(&self, rhs: &CMTime) -> (r: CMTime)
        requires
            self.well_formed(),
            rhs.well_formed(),
        ensures
            r == self.spec_sub(rhs),
            r.well_formed(),
    {
        proof { lemma_flag_words(); }
        if !self.is_valid() || !rhs.is_valid() {
            Self::invalid()
        } else if self.is_indefinite() || rhs.is_indefinite() {
            Self::indefinite()
        } else if self.is_positive_infinity() {
            if rhs.is_positive_infinity() {
                Self::invalid()
            } else {
                Self::positive_infinity()
            }
        } else if self.is_negative_infinity() {
            if rhs.is_negative_infinity() {
                Self::invalid()
            } else {
                Self::negative_infinity()
            }
        } else if rhs.is_positive_infinity() {
            Self::negative_infinity()
        } else if rhs.is_negative_infinity() {
            Self::positive_infinity()
        } else if self.epoch != rhs.epoch {
            Self::invalid()
        } else {
            let b = if self.scale == rhs.scale {
                *rhs
            } else {
                rhs.convert_timescale(self.scale, CMTimeRoundingMethod::HalfAwayFromZero)
            };
            if !b.is_numeric() {
                Self::invalid()
            } else {
                let diff: i128 = self.value as i128 - b.value as i128;
                if i64::MIN as i128 <= diff && diff <= i64::MAX as i128 {
                    let rounded = self.has_been_rounded() || b.has_been_rounded();
                    CMTime {
                        value: diff as i64,
                        scale: self.scale,
                        epoch: self.epoch,
                        flags: if rounded {
                            K_CMTIME_FLAGS_VALID | K_CMTIME_FLAGS_HAS_BEEN_ROUNDED
                        } else {
                            K_CMTIME_FLAGS_VALID
                        },
                    }
                } else {
                    Self::invalid()
                }
            }
        }
    }

    /// This time scaled by an integer factor. An infinity keeps or flips
    /// its sign with the factor's sign; an infinity times zero is invalid.
    /// An unrepresentable product is invalid.
    pub open spec fn spec_mul(&self, rhs: i32) -> CMTime {
        if !self.spec_is_valid() {
            Self::spec_invalid()
        } else if self.spec_is_indefinite() {
            Self::spec_indefinite()
        } else if self.spec_is_positive_infinity() {
            if rhs > 0 {
                Self::spec_positive_infinity()
            } else if rhs < 0 {
                Self::spec_negative_infinity()
            } else {
                Self::spec_invalid()
            }
        } else if self.spec_is_negative_infinity() {
            if rhs > 0 {
                Self::spec_negative_infinity()
            } else if rhs < 0 {
                Self::spec_positive_infinity()
            } else {
                Self::spec_invalid()
            }
        } else {
            let p = self.value * rhs;
            if i64::MIN <= p <= i64::MAX {
                Self::spec_make(p as i64, self.scale, self.epoch, self.spec_has_been_rounded())
            } else {
                Self::spec_invalid()
            }
        }
    }

    pub fn mul(&self, rhs: i32) -> (r: CMTime)
        requires
            self.well_formed(),
        ensures
            r == self.spec_mul(rhs),
            r.well_formed(),
    {
        proof { lemma_flag_words(); }
        if !self.is_valid() {
            Self::invalid()
        } else if self.is_indefinite() {
            Self::indefinite()
        } else if self.is_positive_infinity() {
            if rhs > 0 {
                Self::positive_infinity()
            } else if rhs < 0 {
                Self::negative_infinity()
            } else {
                Self::invalid()
            }
        } else if self.is_negative_infinity() {
            if rhs > 0 {
                Self::negative_infinity()
            } else if rhs < 0 {
                Self::positive_infinity()
            } else {
                Self::invalid()
            }
        } else {
            proof { lemma_mul_i64_i32_in_range(self.value, rhs); }
            let p: i128 = self.value as i128 * rhs as i128;
            if i64::MIN as i128 <= p && p <= i64::MAX as i128 {
                CMTime {
                    value: p as i64,
                    scale: self.scale,
                    epoch: self.epoch,
                    flags: if self.has_been_rounded() {
                        K_CMTIME_FLAGS_VALID | K_CMTIME_FLAGS_HAS_BEEN_ROUNDED
                    } else {
                        K_CMTIME_FLAGS_VALID
                    },
                }
            } else {
                Self::invalid()
            }
        }
    }

    /// This time scaled by the exact ratio `multiplier / divisor`, with the
    /// quotient rounded toward zero at the unchanged scale; the result is
    /// marked rounded when the quotient was inexact. An infinity keeps or
    /// flips its sign with the ratio's sign, and an infinity scaled by a
    /// zero ratio is invalid.
    pub open spec fn spec_multiply_by_ratio(&self, multiplier: i32, divisor: i32) -> CMTime {
        if !self.spec_is_valid() {
            Self::spec_invalid()
        } else if self.spec_is_indefinite() {
            Self::spec_indefinite()
        } else if self.spec_is_positive_infinity() {
            if multiplier > 0 {
                Self::spec_positive_infinity()
            } else if multiplier < 0 {
                Self::spec_negative_infinity()
            } else {
                Self::spec_invalid()
            }
        } else if self.spec_is_negative_infinity() {
            if multiplier > 0 {
                Self::spec_negative_infinity()
            } else if multiplier < 0 {
                Self::spec_positive_infinity()
            } else {
                Self::spec_invalid()
            }
        } else {
            let n = self.value * multiplier;
            let q = spec_div_round(n, divisor as int, CMTimeRoundingMethod::TowardZero);
            let inexact = n % (divisor as int) != 0;
            if i64::MIN <= q <= i64::MAX {
                Self::spec_make(
                    q as i64,
                    self.scale,
                    self.epoch,
                    self.spec_has_been_rounded() || inexact,
                )
            } else {
                Self::spec_invalid()
            }
        }
    }

    pub fn multiply_by_ratio(&self, multiplier: i32, divisor: i32) -> (r: CMTime)
        requires
            self.well_formed(),
            divisor > 0,
        ensures
            r == self.spec_multiply_by_ratio(multiplier, divisor),
            r.well_formed(),
    {
        proof { lemma_flag_words(); }
        if !self.is_valid() {
            Self::invalid()
        } else if self.is_indefinite() {
            Self::indefinite()
        } else if self.is_positive_infinity() {
            if multiplier > 0 {
                Self::positive_infinity()
            } else if multiplier < 0 {
                Self::negative_infinity()
            } else {
                Self::invalid()
            }
        } else if self.is_negative_infinity() {
            if multiplier > 0 {
                Self::negative_infinity()
            } else if multiplier < 0 {
                Self::positive_infinity()
            } else {
                Self::invalid()
            }
        } else {
            proof { lemma_mul_i64_i32_in_range(self.value, multiplier); }
            let n: i128 = self.value as i128 * multiplier as i128;
            let (q, exact) = div_round(n, divisor as i128, CMTimeRoundingMethod::TowardZero);
            if i64::MIN as i128 <= q && q <= i64::MAX as i128 {
                let rounded = self.has_been_rounded() || !exact;
                CMTime {
                    value: q as i64,
                    scale: self.scale,
                    epoch: self.epoch,
                    flags: if rounded {
                        K_CMTIME_FLAGS_VALID | K_CMTIME_FLAGS_HAS_BEEN_ROUNDED
                    } else {
                        K_CMTIME_FLAGS_VALID
                    },
                }
            } else {
                Self::invalid()
            }
        }
    }
}

impl CMTime {
    /// The comparison class of a time: invalid times sort below negative
    /// infinity, numeric times between the infinities, and indefinite times
    /// above everything.
    pub open spec fn spec_rank(&self) -> int {
        if !self.spec_is_valid() {
            0
        } else if self.spec_is_negative_infinity() {
            1
        } else if self.spec_is_numeric() {
            2
        } else if self.spec_is_positive_infinity() {
            3
        } else {
            4
        }
    }

    /// The three-way order on times: by comparison class, and between two
    /// numeric times by epoch first and then by the exact rational value,
    /// compared by cross-multiplication.
    pub open spec fn spec_compare(&self, rhs: &CMTime) -> TimeComparison {
        let ra = self.spec_rank();
        let rb = rhs.spec_rank();
        if ra < rb {
            TimeComparison::Less
        } else if ra > rb {
            TimeComparison::Greater
        } else if ra != 2 {
            TimeComparison::Equal
        } else if self.epoch < rhs.epoch {
            TimeComparison::Less
        } else if self.epoch > rhs.epoch {
            TimeComparison::Greater
        } else if self.value * rhs.scale < rhs.value * self.scale {
            TimeComparison::Less
        } else if self.value * rhs.scale > rhs.value * self.scale {
            TimeComparison::Greater
        } else {
            TimeComparison::Equal
        }
    }

    fn rank(&self) -> (r: u8)
        ensures
            r as int == self.spec_rank(),
    {
        if !self.is_valid() {
            0
        } else if self.is_negative_infinity() {
            1
        } else if self.is_numeric() {
            2
        } else if self.is_positive_infinity() {
            3
        } else {
            4
        }
    }

    /// Compares two times exactly, normalizing differing scales by
    /// cross-multiplication over the integers.
    pub fn compare(&self, rhs: &CMTime) -> (r: TimeComparison)
        ensures
            r == self.spec_compare(rhs),
    {
        let ra = self.rank();
        let rb = rhs.rank();
        if ra < rb {
            TimeComparison::Less
        } else if ra > rb {
            TimeComparison::Greater
        } else if ra != 2 {
            TimeComparison::Equal
        } else if self.epoch < rhs.epoch {
            TimeComparison::Less
        } else if self.epoch > rhs.epoch {
            TimeComparison::Greater
        } else {
            proof {
                lemma_mul_i64_i32_in_range(self.value, rhs.scale);
                lemma_mul_i64_i32_in_range(rhs.value, self.scale);
            }
            let lhs_cross: i128 = self.value as i128 * rhs.scale as i128;
            let rhs_cross: i128 = rhs.value as i128 * self.scale as i128;
            if lhs_cross < rhs_cross {
                TimeComparison::Less
            } else if lhs_cross > rhs_cross {
                TimeComparison::Greater
            } else {
                TimeComparison::Equal
            }
        }
    }
}

impl PartialEq for CMTime {
    /// Two times are equal when the comparator says so: `1/2` equals
    /// `2/4`, whatever their scales.
    fn eq(&self, other: &CMTime) -> (r: bool) {
        matches!(self.compare(other), TimeComparison::Equal)
    }
}

impl vstd::std_specs::cmp::PartialEqSpecImpl for CMTime {
    open spec fn obeys_eq_spec() -> bool {
        true
    }

    open spec fn eq_spec(&self, other: &CMTime) -> bool {
        self.spec_compare(other) == TimeComparison::Equal
    }
}

impl PartialOrd for CMTime {
    /// The three-way comparator's verdict, as a standard ordering.
    fn partial_cmp(&self, other: &CMTime) -> (r: Option<core::cmp::Ordering>) {
        match self.compare(other) {
            TimeComparison::Less => Some(core::cmp::Ordering::Less),
            TimeComparison::Equal => Some(core::cmp::Ordering::Equal),
            TimeComparison::Greater => Some(core::cmp::Ordering::Greater),
        }
    }
}

impl vstd::std_specs::cmp::PartialOrdSpecImpl for CMTime {
    open spec fn obeys_partial_cmp_spec() -> bool {
        true
    }

    open spec fn partial_cmp_spec(&self, other: &CMTime) -> Option<core::cmp::Ordering> {
        match self.spec_compare(other) {
            TimeComparison::Less => Some(core::cmp::Ordering::Less),
            TimeComparison::Equal => Some(core::cmp::Ordering::Equal),
            TimeComparison::Greater => Some(core::cmp::Ordering::Greater),
        }
    }
}

/// For numeric times of one epoch, the order of `spec_compare` is the order
/// of the exact rational values `value / scale`: cross-multiplying by the
/// positive scales preserves it each way.
pub proof fn lemma_compare_matches_rational(a: CMTime, b: CMTime)
    requires
        a.well_formed(),
        b.well_formed(),
        a.spec_is_numeric(),
        b.spec_is_numeric(),
        a.epoch == b.epoch,
    ensures
        (a.spec_compare(&b) == TimeComparison::Less) <==> a.value * b.scale < b.value * a.scale,
        (a.spec_compare(&b) == TimeComparison::Equal) <==> a.value * b.scale == b.value * a.scale,
        (a.spec_compare(&b) == TimeComparison::Greater) <==> a.value * b.scale > b.value * a.scale,
{
}

/// `spec_compare` is asymmetric: swapping the operands swaps Less and
/// Greater and preserves Equal.
pub proof fn lemma_compare_asymmetric(a: CMTime, b: CMTime)
    requires
        a.well_formed(),
        b.well_formed(),
    ensures
        (a.spec_compare(&b) == TimeComparison::Less) <==> (b.spec_compare(&a)
            == TimeComparison::Greater),
        (a.spec_compare(&b) == TimeComparison::Equal) <==> (b.spec_compare(&a)
            == TimeComparison::Equal),
{
}

/// `spec_compare` is reflexive: every well-formed time equals itself.
pub proof fn lemma_compare_reflexive(a: CMTime)
    requires
        a.well_formed(),
    ensures
        a.spec_compare(&a) == TimeComparison::Equal,
{
}

/// `spec_compare` is transitive, so together with asymmetry and
/// reflexivity it is a strict total order on the comparison classes.
pub proof fn lemma_compare_transitive(a: CMTime, b: CMTime, c: CMTime)
    requires
        a.well_formed(),
        b.well_formed(),
        c.well_formed(),
        a.spec_compare(&b) == TimeComparison::Less,
        b.spec_compare(&c) == TimeComparison::Less,
    ensures
        a.spec_compare(&c) == TimeComparison::Less,
{
    if a.spec_rank() == 2 && b.spec_rank() == 2 && c.spec_rank() == 2 && a.epoch == b.epoch
        && b.epoch == c.epoch {
        if a.value * b.scale < b.value * a.scale && b.value * c.scale < c.value * b.scale {
            assert(a.value * c.scale < c.value * a.scale) by (nonlinear_arith)
                requires
                    a.scale > 0,
                    b.scale > 0,
                    c.scale > 0,
                    a.value * b.scale < b.value * a.scale,
                    b.value * c.scale < c.value * b.scale,
            ;
        }
    }
}

/// Equal times compare alike against any third time, so `spec_compare`
/// orders the equivalence classes of Equal totally.
pub proof fn lemma_compare_equal_congruent(a: CMTime, b: CMTime, c: CMTime)
    requires
        a.well_formed(),
        b.well_formed(),
        c.well_formed(),
        a.spec_compare(&b) == TimeComparison::Equal,
    ensures
        a.spec_compare(&c) == b.spec_compare(&c),
{
    if a.spec_rank() == 2 && b.spec_rank() == 2 && c.spec_rank() == 2 && a.epoch == b.epoch
        && b.epoch == c.epoch {
        assert(a.value * c.scale < c.value * a.scale <==> b.value * c.scale < c.value * b.scale)
            by (nonlinear_arith)
            requires
                a.scale > 0,
                b.scale > 0,
                c.scale > 0,
                a.value * b.scale == b.value * a.scale,
        ;
        assert(a.value * c.scale > c.value * a.scale <==> b.value * c.scale > c.value * b.scale)
            by (nonlinear_arith)
            requires
                a.scale > 0,
                b.scale > 0,
                c.scale > 0,
                a.value * b.scale == b.value * a.scale,
        ;
    }
}

/// Rescaling a numeric time is exact to within one tick of the new scale:
/// writing the result over the common denominator `scale * new_scale`, the
/// rescaled numerator differs from the exact one by less than `scale`,
/// that is, the represented rational moves by less than `1 / new_scale`
/// seconds. When the exact result is representable it is recovered exactly,
/// and the rounded mark is withheld.
pub proof fn lemma_convert_timescale_precision(t: CMTime, new_scale: i32, m: CMTimeRoundingMethod)
    requires
        t.well_formed(),
        t.spec_is_numeric(),
        new_scale > 0,
    ensures
        t.spec_convert_timescale(new_scale, m).spec_is_numeric() ==> -(t.scale as int)
            < t.spec_convert_timescale(new_scale, m).value * t.scale - t.value * new_scale < t.scale,
        (t.value * new_scale) % (t.scale as int) == 0
            && t.spec_convert_timescale(new_scale, m).spec_is_numeric() ==> {
            &&& t.spec_convert_timescale(new_scale, m).value * t.scale == t.value * new_scale
            &&& t.spec_convert_timescale(new_scale, m).spec_has_been_rounded()
                == t.spec_has_been_rounded()
        },
    {
    lemma_flag_words();
    let n = t.value * new_scale;
    lemma_div_round_error(n, t.scale as int, m);
    let r = t.spec_convert_timescale(new_scale, m);
    if r.spec_is_numeric() {
        assert(r.value == spec_div_round(n, t.scale as int, m));
    }
}

/// A whole-second time is stored without loss: the time built from
/// `seconds` at any positive scale divides back to exactly `seconds`.
pub proof fn lemma_new_with_seconds_exact(seconds: i64, scale: i32)
    requires
        scale > 0,
        i64::MIN <= seconds * scale <= i64::MAX,
    ensures
        CMTime::spec_make((seconds * scale) as i64, scale, 0, false).value as int / (scale as int)
            == seconds,
{
    vstd::arithmetic::div_mod::lemma_div_multiples_vanish(seconds as int, scale as int);
    assert(seconds * scale == scale * seconds) by (nonlinear_arith);
}

/// Ground facts about the five flag bits in the words this library builds.
proof fn lemma_flag_words()
    by (bit_vector)
    ensures
        0u32 & 1u32 == 0,
        1u32 & 1u32 != 0,
        1u32 & 2u32 == 0,
        1u32 & 4u32 == 0,
        1u32 & 8u32 == 0,
        1u32 & 16u32 == 0,
        (1u32 | 2u32) & 1u32 != 0,
        (1u32 | 2u32) & 2u32 != 0,
        (1u32 | 2u32) & 4u32 == 0,
        (1u32 | 2u32) & 8u32 == 0,
        (1u32 | 2u32) & 16u32 == 0,
        (1u32 | 4u32) & 1u32 != 0,
        (1u32 | 4u32) & 2u32 == 0,
        (1u32 | 4u32) & 4u32 != 0,
        (1u32 | 4u32) & 8u32 == 0,
        (1u32 | 4u32) & 16u32 == 0,
        (1u32 | 8u32) & 1u32 != 0,
        (1u32 | 8u32) & 2u32 == 0,
        (1u32 | 8u32) & 4u32 == 0,
        (1u32 | 8u32) & 8u32 != 0,
        (1u32 | 8u32) & 16u32 == 0,
        (1u32 | 16u32) & 1u32 != 0,
        (1u32 | 16u32) & 2u32 == 0,
        (1u32 | 16u32) & 4u32 == 0,
        (1u32 | 16u32) & 8u32 == 0,
        (1u32 | 16u32) & 16u32 != 0,
{
}

/// What the flag word of a numeric result means: a time whose flags are
/// `spec_numeric_flags(rounded)` is numeric, and carries the rounded mark
/// exactly when `rounded` holds.
pub proof fn lemma_numeric_flags_meaning(t: CMTime, rounded: bool)
    requires
        t.flags == CMTime::spec_numeric_flags(rounded),
    ensures
        t.spec_is_numeric(),
        t.spec_has_been_rounded() == rounded,
{
    lemma_flag_words();
}

/// What the flag words of the non-numeric constants mean: the invalid,
/// indefinite and infinite times each answer exactly their own predicate,
/// and none of them is numeric.
pub proof fn lemma_time_constants_meaning()
    ensures
        CMTime::spec_invalid().spec_is_invalid(),
        !CMTime::spec_invalid().spec_is_numeric(),
        CMTime::spec_indefinite().spec_is_indefinite(),
        !CMTime::spec_indefinite().spec_is_numeric(),
        CMTime::spec_positive_infinity().spec_is_positive_infinity(),
        !CMTime::spec_positive_infinity().spec_is_numeric(),
        CMTime::spec_negative_infinity().spec_is_negative_infinity(),
        !CMTime::spec_negative_infinity().spec_is_numeric(),
{
    lemma_flag_words();
}

/// The product of an `i64` and an `i32` stays far inside the `i128` range.
proof fn lemma_mul_i64_i32_in_range(a: i64, b: i32)
    by (nonlinear_arith)
    ensures
        i64::MIN * i32::MIN >= a * b >= i64::MAX * i32::MIN,
        i128::MIN < a * b < i128::MAX,
{
}

/// A number and its negation are divisible by `d` together.
proof fn lemma_neg_mod_zero(n: int, d: int)
    requires
        d > 0,
    ensures
        (n % d == 0) <==> ((-n) % d == 0),
{
    vstd::arithmetic::div_mod::lemma_add_mod_noop(-n, n, d);
    vstd::arithmetic::div_mod::lemma_mod_multiples_basic(0, d);
    lemma_mod_division_less_than_divisor(n, d);
    lemma_mod_division_less_than_divisor(-n, d);
    if n % d == 0 {
        vstd::arithmetic::div_mod::lemma_small_mod(((-n) % d) as nat, d as nat);
    }
    if (-n) % d == 0 {
        vstd::arithmetic::div_mod::lemma_small_mod((n % d) as nat, d as nat);
    }
}

/// Whether a rounding policy moves the quotient one step up in magnitude,
/// given the sign of the dividend, the remainder of the division of its
/// magnitude, and the divisor.
pub open spec fn spec_rounds_up(m: CMTimeRoundingMethod, negative: bool, r0: int, d: int) -> bool {
    match m {
        CMTimeRoundingMethod::HalfAwayFromZero => 2 * r0 >= d,
        CMTimeRoundingMethod::TowardZero => false,
        CMTimeRoundingMethod::AwayFromZero => r0 > 0,
        CMTimeRoundingMethod::QuickTime => false,
        CMTimeRoundingMethod::TowardPositiveInfinity => !negative && r0 > 0,
        CMTimeRoundingMethod::TowardNegativeInfinity => negative && r0 > 0,
    }
}

/// The rounded quotient of `n / d` under a rounding policy, for `d > 0`:
/// the division is performed on the magnitude of `n` and the sign restored,
/// so that each policy behaves symmetrically or asymmetrically around zero
/// exactly as its name says.
pub open spec fn spec_div_round(n: int, d: int, m: CMTimeRoundingMethod) -> int {
    let a = if n >= 0 { n } else { -n };
    let q0 = a / d;
    let r0 = a % d;
    let qa = if spec_rounds_up(m, n < 0, r0, d) { q0 + 1 } else { q0 };
    if n >= 0 { qa } else { -qa }
}

/// Rounded division on the magnitude-and-sign plan of `spec_div_round`.
/// Also reports whether the division was exact.
fn div_round(n: i128, d: i128, m: CMTimeRoundingMethod) -> (r: (i128, bool))
    requires
        0 < d <= i64::MAX,
        i128::MIN < n,
    ensures
        r.0 == spec_div_round(n as int, d as int, m),
        r.1 == (n % d == 0),
{
    let negative = n < 0;
    let a: u128 = if negative { (-n) as u128 } else { n as u128 };
    let ad: u128 = d as u128;
    let q0: u128 = a / ad;
    let r0: u128 = a % ad;
    proof {
        lemma_fundamental_div_mod(a as int, ad as int);
        lemma_mod_division_less_than_divisor(a as int, ad as int);
        lemma_div_pos_is_pos(a as int, ad as int);
        lemma_div_nonincreasing(a as int, ad as int);
        if negative {
            assert(a == -(n as int));
            lemma_neg_mod_zero(n as int, d as int);
        }
    }
    let up: bool = match m {
        CMTimeRoundingMethod::HalfAwayFromZero => 2 * r0 >= ad,
        CMTimeRoundingMethod::TowardZero => false,
        CMTimeRoundingMethod::AwayFromZero => r0 > 0,
        CMTimeRoundingMethod::QuickTime => false,
        CMTimeRoundingMethod::TowardPositiveInfinity => !negative && r0 > 0,
        CMTimeRoundingMethod::TowardNegativeInfinity => negative && r0 > 0,
    };
    let qa: u128 = if up { q0 + 1 } else { q0 };
    proof {
        if up {
            assert(r0 > 0);
            assert(ad * q0 >= q0) by (nonlinear_arith)
                requires
                    ad >= 1,
                    q0 >= 0,
            ;
        }
        assert(qa <= a);
    }
    let q: i128 = if negative { -(qa as i128) } else { qa as i128 };
    (q, r0 == 0)
}

/// Rounded division misses the exact quotient by less than one: for `d > 0`,
/// the rounded quotient `q` satisfies `|q * d - n| < d`, and when `d`
/// divides `n` the quotient is exact.
pub proof fn lemma_div_round_error(n: int, d: int, m: CMTimeRoundingMethod)
    requires
        d > 0,
    ensures
        -d < spec_div_round(n, d, m) * d - n < d,
        n % d == 0 ==> spec_div_round(n, d, m) * d == n,
{
    let a = if n >= 0 { n } else { -n };
    let q0 = a / d;
    let r0 = a % d;
    lemma_fundamental_div_mod(a, d);
    lemma_mod_division_less_than_divisor(a, d);
    if n < 0 {
        lemma_neg_mod_zero(n, d);
    }
    let up = spec_rounds_up(m, n < 0, r0, d);
    let qa = if up { q0 + 1 } else { q0 };
    assert((q0 + 1) * d == q0 * d + d) by (nonlinear_arith);
    assert(q0 * d == d * q0) by (nonlinear_arith);
    // qa * d - a is -r0 when the policy keeps the quotient, d - r0 when it
    // rounds up; both lie strictly inside (-d, d].
    if up {
        assert(r0 > 0);
        assert(qa * d - a == d - r0);
    } else {
        assert(qa * d - a == -r0);
    }
    if n >= 0 {
        assert(spec_div_round(n, d, m) == qa);
    } else {
        assert(spec_div_round(n, d, m) == -qa);
        assert((-qa) * d == -(qa * d)) by (nonlinear_arith);
    }
}

} // verus!

