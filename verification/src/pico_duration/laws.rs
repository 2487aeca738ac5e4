//! What holds of every `PicoDuration`, whatever its precision.

use crate::interval::{duration_nanos, NANOS_PER_MILLI};
use crate::pico_duration::{
    expand, longest_nanos, quantize, quantize_nanos, PicoDuration, MAX_UNITS,
};
use std::time::Duration;
use vstd::prelude::*;
use vstd::std_specs::cmp::{PartialEqIs, PartialOrdIs};
use vstd::std_specs::convert::FromSpec;

verus! {

/// `from_millis` by cases: zero gives zero; anything up to one unit gives the
/// minimum; a quotient beyond `MAX_UNITS` gives the maximum; and any other
/// input is floored to a multiple of the precision.
pub proof fn law_from_millis_cases<const P: u64>(millis: u64)
    ensures
        PicoDuration::<P>::from_millis(0) == PicoDuration::<P>::zero(),
        0 < millis <= P ==> PicoDuration::<P>::from_millis(millis) == PicoDuration::<P>::min_value(),
        P > 0 && millis / P > MAX_UNITS ==> PicoDuration::<P>::from_millis(millis)
            == PicoDuration::<P>::max_value(),
        P > 0 && millis > P && millis / P <= MAX_UNITS ==> PicoDuration::<P>::from_millis(
            millis,
        ).millis() == (millis / P) * P,
{
    if P > 0 {
        lemma_quotient_bounds(millis as nat, P as nat);
        assert(millis / P >= 2 <==> millis as nat >= 2 * (P as nat));
        PicoDuration::<P>::lemma_with_units(quantize(P as nat, millis as nat));
    }
}

/// The named values in order: zero lies below the minimum, and every value
/// other than zero lies from the minimum up to the maximum.
pub proof fn law_named_values_ordered<const P: u64>(d: PicoDuration<P>)
    ensures
        PicoDuration::<P>::zero().is_lt(&PicoDuration::<P>::min_value()),
        PicoDuration::<P>::min_value().is_le(&PicoDuration::<P>::max_value()),
        PicoDuration::<P>::zero().is_le(&d),
        d != PicoDuration::<P>::zero() ==> PicoDuration::<P>::min_value().is_le(&d),
        d.is_le(&PicoDuration::<P>::max_value()),
{
    PicoDuration::<P>::lemma_with_units(0);
    PicoDuration::<P>::lemma_with_units(1);
    PicoDuration::<P>::lemma_with_units(MAX_UNITS as nat);
    d.lemma_view_injective(PicoDuration::<P>::zero());
}

/// Encoding keeps the order of its inputs: a longer interval never gets a
/// smaller value. This holds of milliseconds, of seconds and of `Duration`s.
pub proof fn law_encoding_is_monotonic<const P: u64>(a: u64, b: u64, x: Duration, y: Duration)
    ensures
        a <= b ==> PicoDuration::<P>::from_millis(a).is_le(&PicoDuration::<P>::from_millis(b)),
        a <= b ==> PicoDuration::<P>::from_secs(a).is_le(&PicoDuration::<P>::from_secs(b)),
        duration_nanos(x) <= duration_nanos(y) ==> PicoDuration::<P>::from_spec(x).is_le(
            &PicoDuration::<P>::from_spec(y),
        ),
{
    let p = P as nat;
    if a <= b {
        lemma_quantize_monotonic(p, a as nat, b as nat);
        lemma_quantize_monotonic(p, a as nat * 1000, b as nat * 1000);
    }
    lemma_quantize_bounded(p, a as nat);
    lemma_quantize_bounded(p, b as nat);
    lemma_quantize_bounded(p, a as nat * 1000);
    lemma_quantize_bounded(p, b as nat * 1000);
    PicoDuration::<P>::lemma_with_units(quantize(p, a as nat));
    PicoDuration::<P>::lemma_with_units(quantize(p, b as nat));
    PicoDuration::<P>::lemma_with_units(quantize(p, a as nat * 1000));
    PicoDuration::<P>::lemma_with_units(quantize(p, b as nat * 1000));
    let (n, m) = (duration_nanos(x), duration_nanos(y));
    if n <= m {
        lemma_quantize_nanos_monotonic(p, n, m);
    }
    lemma_quantize_nanos_bounded(p, n);
    lemma_quantize_nanos_bounded(p, m);
    PicoDuration::<P>::lemma_with_units(quantize_nanos(p, n));
    PicoDuration::<P>::lemma_with_units(quantize_nanos(p, m));
}

/// An interval that was measured as more than nothing is never recorded as
/// zero.
pub proof fn law_positive_is_never_zero<const P: u64>(millis: u64, secs: u64, x: Duration)
    ensures
        millis > 0 ==> PicoDuration::<P>::from_millis(millis) != PicoDuration::<P>::zero(),
        secs > 0 ==> PicoDuration::<P>::from_secs(secs) != PicoDuration::<P>::zero(),
        duration_nanos(x) > 0 ==> PicoDuration::<P>::from_spec(x) != PicoDuration::<P>::zero(),
{
    let p = P as nat;
    lemma_quantize_bounded(p, millis as nat);
    lemma_quantize_bounded(p, secs as nat * 1000);
    lemma_quantize_nanos_bounded(p, duration_nanos(x));
    PicoDuration::<P>::lemma_with_units(quantize(p, millis as nat));
    PicoDuration::<P>::lemma_with_units(quantize(p, secs as nat * 1000));
    PicoDuration::<P>::lemma_with_units(quantize_nanos(p, duration_nanos(x)));
    PicoDuration::<P>::lemma_with_units(0);
}

/// Seconds are encoded as the milliseconds they amount to.
pub proof fn law_secs_are_millis<const P: u64>(secs: u64)
    requires
        secs * 1000 <= u64::MAX,
    ensures
        PicoDuration::<P>::from_secs(secs) == PicoDuration::<P>::from_millis(
            (secs * 1000) as u64,
        ),
{
}

/// A `Duration` of whole milliseconds is encoded as that many milliseconds.
pub proof fn law_whole_millis_are_millis<const P: u64>(x: Duration, millis: u64)
    requires
        duration_nanos(x) == millis * NANOS_PER_MILLI,
    ensures
        PicoDuration::<P>::from_spec(x) == PicoDuration::<P>::from_millis(millis),
{
    assert((millis as nat * (NANOS_PER_MILLI as nat)) / (NANOS_PER_MILLI as nat) == millis as nat)
        by (nonlinear_arith);
}

/// Encoding loses what lies below the precision once and no more: the
/// expansion of a value is encoded as that value again.
pub proof fn law_round_trip_is_stable<const P: u64>(millis: u64)
    requires
        P > 0,
    ensures
        PicoDuration::<P>::from_millis(millis).millis() <= if millis <= P {
            P
        } else {
            millis
        },
        PicoDuration::<P>::from_millis(
            PicoDuration::<P>::from_millis(millis).millis() as u64,
        ) == PicoDuration::<P>::from_millis(millis),
{
    let p = P as nat;
    let units = quantize(p, millis as nat);
    lemma_quantize_bounded(p, millis as nat);
    PicoDuration::<P>::lemma_with_units(units);
    lemma_quotient_bounds(millis as nat, p);
    assert(units * p <= if millis as nat <= p { p } else { millis as nat }) by (nonlinear_arith)
        requires
            millis == 0 ==> units == 0,
            0 < millis <= p ==> units == 1,
            millis > p ==> units <= millis as nat / p,
            (millis as nat / p) * p <= millis,
    ;
    lemma_expansion_within_u64(p, units);
    let back = expand(p, units) / (NANOS_PER_MILLI as nat);
    assert(back == units * p);
    assert(back / p == units && (units >= 1 ==> back >= p) && (units >= 2 ==> back > p)) by (nonlinear_arith)
        requires
            back == units * p,
            p > 0,
    ;
    assert(quantize(p, back) == units);
}

/// The order of two values is the order of what they expand to.
pub proof fn law_order_follows_expansion<const P: u64>(a: PicoDuration<P>, b: PicoDuration<P>)
    ensures
        a.is_le(&b) ==> a.millis() <= b.millis(),
        a.is_eq(&b) <==> a == b,
        P > 0 && (MAX_UNITS as nat) * (P as nat) <= u64::MAX ==> (a.is_lt(&b) <==> a.millis()
            < b.millis()),
{
    a.lemma_view_injective(b);
    let p = P as nat;
    if a@ <= b@ {
        assert(a@ * p <= b@ * p) by (nonlinear_arith)
            requires
                a@ <= b@,
        ;
    }
    if p > 0 && (MAX_UNITS as nat) * p <= u64::MAX {
        assert(a@ * p <= (MAX_UNITS as nat) * p && b@ * p <= (MAX_UNITS as nat) * p)
            by (nonlinear_arith)
            requires
                a@ <= MAX_UNITS,
                b@ <= MAX_UNITS,
        ;
        assert(a@ < b@ <==> a@ * p < b@ * p) by (nonlinear_arith)
            requires
                p > 0,
        ;
    }
}

/// Where `units * p` milliseconds fit 64 bits, they expand without loss.
pub proof fn lemma_expansion_within_u64(p: nat, units: nat)
    requires
        units * p <= u64::MAX,
    ensures
        expand(p, units) == (units * p) * (NANOS_PER_MILLI as nat),
        expand(p, units) / (NANOS_PER_MILLI as nat) == units * p,
{
    let millis = units * p;
    assert(millis * 1_000_000 <= longest_nanos());
    assert((millis * 1_000_000) / 1_000_000 == millis);
}

/// No count that `quantize` gives exceeds `MAX_UNITS`.
pub proof fn lemma_quantize_bounded(p: nat, millis: nat)
    ensures
        quantize(p, millis) <= MAX_UNITS,
        millis > 0 ==> quantize(p, millis) >= 1,
{
    if p > 0 {
        lemma_quotient_bounds(millis, p);
        assert(millis / p >= 1 <==> millis >= 1 * p);
    }
}

/// No count that `quantize_nanos` gives exceeds `MAX_UNITS`.
pub proof fn lemma_quantize_nanos_bounded(p: nat, nanos: nat)
    ensures
        quantize_nanos(p, nanos) <= MAX_UNITS,
        nanos > 0 ==> quantize_nanos(p, nanos) >= 1,
{
    if p > 0 {
        lemma_quotient_bounds(nanos / (NANOS_PER_MILLI as nat), p);
        assert((nanos / (NANOS_PER_MILLI as nat)) / p >= 1 <==> nanos / (NANOS_PER_MILLI as nat)
            >= 1 * p);
    }
}

/// `quantize` keeps the order of the amounts it is given.
pub proof fn lemma_quantize_monotonic(p: nat, a: nat, b: nat)
    requires
        a <= b,
    ensures
        quantize(p, a) <= quantize(p, b),
{
    lemma_quantize_bounded(p, a);
    lemma_quantize_bounded(p, b);
    if p > 0 {
        lemma_quotient_bounds(a, p);
        lemma_quotient_bounds(b, p);
        assert(b / p >= a / p <==> b >= (a / p) * p);
    }
}

/// `quantize_nanos` keeps the order of the lengths it is given.
pub proof fn lemma_quantize_nanos_monotonic(p: nat, a: nat, b: nat)
    requires
        a <= b,
    ensures
        quantize_nanos(p, a) <= quantize_nanos(p, b),
{
    let (x, y) = (a / (NANOS_PER_MILLI as nat), b / (NANOS_PER_MILLI as nat));
    assert(x <= y);
    lemma_quantize_nanos_bounded(p, a);
    lemma_quantize_nanos_bounded(p, b);
    if p > 0 {
        lemma_quotient_bounds(x, p);
        lemma_quotient_bounds(y, p);
        assert(y / p >= x / p <==> y >= (x / p) * p);
    }
}

/// The quotient `a / d` is the count `q` with `q * d <= a < (q + 1) * d`.
pub proof fn lemma_quotient_bounds(a: nat, d: nat)
    requires
        d > 0,
    ensures
        (a / d) * d <= a < (a / d + 1) * d,
        forall|k: nat| (a / d >= k) <==> (a >= #[trigger] (k * d)),
{
    assert((a / d) * d <= a < (a / d + 1) * d) by (nonlinear_arith)
        requires
            d > 0,
    ;
    assert forall|k: nat| (a / d >= k) <==> (a >= #[trigger] (k * d)) by {
        assert((a / d >= k) <==> (a >= k * d)) by (nonlinear_arith)
            requires
                d > 0,
                (a / d) * d <= a < (a / d + 1) * d,
        ;
    }
}

} // verus!
