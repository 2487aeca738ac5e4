//! A time interval stored in two bytes, at a fixed precision.
//!
//! `PicoDuration<P>` counts units of `P` milliseconds in a `u16`. Zero stays
//! zero, anything shorter than one unit is kept as one unit, and anything
//! beyond the largest count saturates: every conversion is total.

use crate::interval::{
    duration_nanos, duration_text, duration_text_under, format_duration, formatter_text,
    write_duration, NANOS_PER_MILLI,
};
use std::cmp::Ordering;
use std::time::Duration;
use vstd::prelude::*;

pub mod laws;

verus! {

/// The largest count of units that a `PicoDuration` holds.
pub const MAX_UNITS: u16 = 65535;

/// Milliseconds in one second.
pub const MILLIS_PER_SEC: u64 = 1000;

/// The count of whole units of `p` in `amount`, held to `MAX_UNITS`.
///
/// A precision of zero has no quotient: every positive amount lies beyond
/// each of its multiples, so it counts as the largest.
pub open spec fn saturating_quotient(p: nat, amount: nat) -> nat {
    if p == 0 || amount / p > MAX_UNITS {
        MAX_UNITS as nat
    } else {
        amount / p
    }
}

/// The count that stands for `millis` milliseconds at a precision of `p`
/// milliseconds: zero for zero, one for anything up to one unit, and the
/// saturating quotient beyond.
pub open spec fn quantize(p: nat, millis: nat) -> nat {
    if millis == 0 {
        0
    } else if millis <= p {
        1
    } else {
        saturating_quotient(p, millis)
    }
}

/// The count that stands for an interval of `nanos` nanoseconds at a
/// precision of `p` milliseconds. Only the interval of no length at all counts
/// as zero: one below a millisecond is still kept as one unit.
pub open spec fn quantize_nanos(p: nat, nanos: nat) -> nat {
    if nanos == 0 {
        0
    } else if nanos / (NANOS_PER_MILLI as nat) <= p {
        1
    } else {
        saturating_quotient(p, nanos / (NANOS_PER_MILLI as nat))
    }
}

/// The longest interval that a `Duration` is built with here, in
/// nanoseconds: `u64::MAX` seconds and all but one nanosecond of another.
pub open spec fn longest_nanos() -> nat {
    u64::MAX as nat * 1_000_000_000 + 999_999_999
}

/// The nanoseconds that `units` units of `p` milliseconds expand to, held to
/// `longest_nanos` where a `Duration` cannot hold the product.
pub open spec fn expand(p: nat, units: nat) -> nat {
    let nanos = (units * p) * (NANOS_PER_MILLI as nat);
    if nanos <= longest_nanos() {
        nanos
    } else {
        longest_nanos()
    }
}

/// Stores a time interval at a precision of `P` milliseconds in two bytes.
///
/// For `P = 1000` (one second) this reaches a little over 18 hours. Intervals
/// shorter than one unit are stored as one unit.
#[derive(Clone, Copy, Eq, Ord, Hash)]
pub struct PicoDuration<const P: u64>(u16);

impl<const P: u64> View for PicoDuration<P> {
    type V = nat;

    /// The stored count of units.
    closed spec fn view(&self) -> nat {
        self.0 as nat
    }
}

impl<const P: u64> PicoDuration<P> {
    /// The nanoseconds that this value expands to.
    pub open spec fn nanos(self) -> nat {
        expand(P as nat, self@)
    }

    /// The whole milliseconds that this value expands to.
    pub open spec fn millis(self) -> nat {
        self.nanos() / (NANOS_PER_MILLI as nat)
    }

    /// A value is known by its count: no two values share one, and no count
    /// exceeds `MAX_UNITS`.
    pub proof fn lemma_view_injective(self, other: Self)
        ensures
            self@ <= MAX_UNITS,
            self@ == other@ <==> self == other,
    {
    }

    /// The value that holds `units` units, for `units` up to `MAX_UNITS`.
    pub closed spec fn with_units(units: nat) -> Self {
        PicoDuration(units as u16)
    }

    /// `with_units` builds the value with the count it is given.
    pub proof fn lemma_with_units(units: nat)
        requires
            units <= MAX_UNITS,
        ensures
            Self::with_units(units)@ == units,
    {
    }

    /// No time at all, in specifications.
    pub open spec fn spec_zero() -> Self {
        Self::with_units(0)
    }

    /// The smallest interval that is not zero, in specifications.
    pub open spec fn spec_min_value() -> Self {
        Self::with_units(1)
    }

    /// The saturated maximum, in specifications.
    pub open spec fn spec_max_value() -> Self {
        Self::with_units(MAX_UNITS as nat)
    }

    /// No time at all.
    #[verifier::when_used_as_spec(spec_zero)]
    pub fn zero() -> (r: Self)
        ensures
            r == Self::spec_zero(),
            r@ == 0,
    {
        PicoDuration(0)
    }

    /// The smallest interval that is not zero: one unit.
    #[verifier::when_used_as_spec(spec_min_value)]
    pub fn min_value() -> (r: Self)
        ensures
            r == Self::spec_min_value(),
            r@ == 1,
    {
        PicoDuration(1)
    }

    /// The saturated maximum: `MAX_UNITS` units.
    #[verifier::when_used_as_spec(spec_max_value)]
    pub fn max_value() -> (r: Self)
        ensures
            r == Self::spec_max_value(),
            r@ == MAX_UNITS,
    {
        PicoDuration(MAX_UNITS)
    }

    /// What `from_millis` returns, in specifications.
    pub open spec fn spec_from_millis(millis: u64) -> Self {
        Self::with_units(quantize(P as nat, millis as nat))
    }

    /// What `from_secs` returns, in specifications.
    pub open spec fn spec_from_secs(secs: u64) -> Self {
        Self::with_units(quantize(P as nat, secs as nat * (MILLIS_PER_SEC as nat)))
    }

    /// Encodes an interval given in milliseconds.
    #[verifier::when_used_as_spec(spec_from_millis)]
    pub fn from_millis(millis: u64) -> (r: Self)
        ensures
            r == Self::spec_from_millis(millis),
            r@ == quantize(P as nat, millis as nat),
    {
        if millis == 0 {
            return Self::zero();
        }
        if millis <= P {
            return Self::min_value();
        }
        if P == 0 {
            return Self::max_value();
        }
        let value: u64 = millis / P;
        if value > MAX_UNITS as u64 {
            return Self::max_value();
        }
        PicoDuration(value as u16)
    }

    /// Encodes an interval given in seconds: the value that stands for
    /// `secs * 1000` milliseconds, however large that product is.
    #[verifier::when_used_as_spec(spec_from_secs)]
    pub fn from_secs(secs: u64) -> (r: Self)
        ensures
            r == Self::spec_from_secs(secs),
            r@ == quantize(P as nat, secs as nat * (MILLIS_PER_SEC as nat)),
    {
        if secs == 0 {
            return Self::zero();
        }
        let secs_precision: u64 = P / MILLIS_PER_SEC;
        if secs <= secs_precision {
            return Self::min_value();
        }
        if P == 0 {
            return Self::max_value();
        }
        let millis: u128 = secs as u128 * MILLIS_PER_SEC as u128;
        let value: u128 = millis / P as u128;
        if value > MAX_UNITS as u128 {
            return Self::max_value();
        }
        PicoDuration(value as u16)
    }

    /// Expands the value to a `Duration` of `units * P` milliseconds. Where
    /// that is more than a `Duration` holds, the result is the longest one.
    pub fn to_duration(self) -> (d: Duration)
        ensures
            duration_nanos(d) == self.nanos(),
    {
        match (self.0 as u64).checked_mul(P) {
            Some(millis) => Duration::from_millis(millis),
            None => {
                assert(self.0 as u128 * P as u128 <= 0xffff * 0xffff_ffff_ffff_ffff)
                    by (nonlinear_arith);
                let total: u128 = self.0 as u128 * P as u128;
                let secs: u128 = total / MILLIS_PER_SEC as u128;
                if secs > u64::MAX as u128 {
                    Duration::new(u64::MAX, 999_999_999)
                } else {
                    let rest: u128 = total % MILLIS_PER_SEC as u128;
                    assert(rest * 1_000_000 < 1_000_000_000);
                    let nanos: u128 = rest * (NANOS_PER_MILLI as u128);
                    Duration::new(secs as u64, nanos as u32)
                }
            },
        }
    }

    /// Renders the expanded interval, so that the text does not depend on the
    /// precision that the value is stored at.
    pub fn to_string(&self) -> (text: String)
        ensures
            text@ == duration_text(self.nanos()),
    {
        let duration = self.to_duration();
        format_duration(&duration)
    }
}

impl<const P: u64> Default for PicoDuration<P> {
    /// The default is no time at all.
    fn default() -> (r: Self)
        ensures
            r@ == 0,
    {
        Self::zero()
    }
}

impl<const P: u64> PartialEq for PicoDuration<P> {
    fn eq(&self, other: &Self) -> (r: bool) {
        self.0 == other.0
    }
}

impl<const P: u64> vstd::std_specs::cmp::PartialEqSpecImpl for PicoDuration<P> {
    open spec fn obeys_eq_spec() -> bool {
        true
    }

    /// Two values are equal when their counts are.
    open spec fn eq_spec(&self, other: &Self) -> bool {
        self@ == other@
    }
}

impl<const P: u64> PartialEq<Duration> for PicoDuration<P> {
    fn eq(&self, other: &Duration) -> (r: bool) {
        self.to_duration().as_nanos() == other.as_nanos()
    }
}

impl<const P: u64> vstd::std_specs::cmp::PartialEqSpecImpl<Duration> for PicoDuration<P> {
    open spec fn obeys_eq_spec() -> bool {
        true
    }

    /// A value equals a `Duration` when its expansion is that interval.
    open spec fn eq_spec(&self, other: &Duration) -> bool {
        self.nanos() == duration_nanos(*other)
    }
}

impl<const P: u64> PartialOrd for PicoDuration<P> {
    fn partial_cmp(&self, other: &Self) -> (r: Option<Ordering>) {
        if self.0 < other.0 {
            Some(Ordering::Less)
        } else if self.0 == other.0 {
            Some(Ordering::Equal)
        } else {
            Some(Ordering::Greater)
        }
    }
}

impl<const P: u64> vstd::std_specs::cmp::PartialOrdSpecImpl for PicoDuration<P> {
    open spec fn obeys_partial_cmp_spec() -> bool {
        true
    }

    /// Values are ordered by their counts.
    open spec fn partial_cmp_spec(&self, other: &Self) -> Option<Ordering> {
        if self@ < other@ {
            Some(Ordering::Less)
        } else if self@ == other@ {
            Some(Ordering::Equal)
        } else {
            Some(Ordering::Greater)
        }
    }
}

impl<const P: u64> From<Duration> for PicoDuration<P> {
    /// Encodes an interval. Only the interval of no length becomes zero.
    fn from(duration: Duration) -> (r: Self)
        ensures
            r@ == quantize_nanos(P as nat, duration_nanos(duration)),
    {
        if duration.is_zero() {
            return Self::zero();
        }
        let millis: u128 = duration.as_millis();
        if millis <= P as u128 {
            return Self::min_value();
        }
        if P == 0 {
            return Self::max_value();
        }
        let value: u128 = millis / P as u128;
        if value > MAX_UNITS as u128 {
            return Self::max_value();
        }
        PicoDuration(value as u16)
    }
}

impl<const P: u64> vstd::std_specs::convert::FromSpecImpl<Duration> for PicoDuration<P> {
    open spec fn obeys_from_spec() -> bool {
        true
    }

    open spec fn from_spec(duration: Duration) -> Self {
        Self::with_units(quantize_nanos(P as nat, duration_nanos(duration)))
    }
}

impl<const P: u64> vstd::std_specs::convert::FromSpecImpl<PicoDuration<P>> for Duration {
    /// A `Duration` cannot be written down in a specification, so the result
    /// is described by its length instead: see `from`.
    open spec fn obeys_from_spec() -> bool {
        false
    }

    open spec fn from_spec(duration: PicoDuration<P>) -> Self {
        arbitrary()
    }
}

impl<const P: u64> From<PicoDuration<P>> for Duration {
    /// Expands a value, as `PicoDuration::to_duration` does.
    fn from(duration: PicoDuration<P>) -> (d: Duration)
        ensures
            duration_nanos(d) == duration.nanos(),
    {
        duration.to_duration()
    }
}

impl<const P: u64> std::fmt::Debug for PicoDuration<P> {
    /// Writes the expanded interval, and not the stored count: where it
    /// succeeds, the formatter has been handed what a `Duration` of that
    /// length writes under the formatter's flags.
    fn fmt(&self, f: &mut std::fmt::Formatter<'_>) -> (r: std::fmt::Result)
        ensures
            r is Ok ==> formatter_text(*final(f)) == formatter_text(*old(f)) + duration_text_under(
                *old(f),
                self.nanos(),
            ),
    {
        let duration = self.to_duration();
        write_duration(&duration, f)
    }
}

} // verus!
