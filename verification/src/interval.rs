//! What this crate takes for granted about `std::time::Duration` and about
//! formatting one.
//!
//! A `Duration` is opaque to the verifier. Its length in nanoseconds is given
//! a name here, and each `std` function that the crate calls is described by
//! what its documentation says it does to that length. None of these
//! statements is proved.

use std::time::Duration;
use vstd::prelude::*;

verus! {

/// Nanoseconds in one millisecond.
pub const NANOS_PER_MILLI: u64 = 1_000_000;

/// The length of a `Duration` in nanoseconds: the number that
/// `Duration::as_nanos` returns for it.
pub uninterp spec fn duration_nanos(d: Duration) -> nat;

/// How a `Duration` of the given length in nanoseconds reads when it is
/// formatted with `{:?}`, for instance `1.5s` or `42ms`.
pub uninterp spec fn duration_text(nanos: nat) -> Seq<char>;

/// Trusted: `Duration::from_millis` builds the interval that lasts exactly
/// `millis` milliseconds.
pub assume_specification[ Duration::from_millis ](millis: u64) -> (d: Duration)
    ensures
        duration_nanos(d) == millis as nat * 1_000_000,
;

/// Trusted: `Duration::new` builds the interval of `secs` whole seconds and
/// `nanos` nanoseconds more. With a billion nanoseconds or more it carries
/// into the seconds and may panic, so those are left out.
pub assume_specification[ Duration::new ](secs: u64, nanos: u32) -> (d: Duration)
    requires
        nanos < 1_000_000_000,
    ensures
        duration_nanos(d) == secs as nat * 1_000_000_000 + nanos as nat,
;

/// Trusted: `Duration::as_nanos` returns the total number of nanoseconds that
/// the interval contains.
pub assume_specification[ Duration::as_nanos ](d: &Duration) -> (nanos: u128)
    ensures
        nanos as nat == duration_nanos(*d),
;

/// Trusted: `Duration::as_millis` returns the number of whole milliseconds
/// that the interval contains, dropping what is left of a millisecond.
pub assume_specification[ Duration::as_millis ](d: &Duration) -> (millis: u128)
    ensures
        millis as nat == duration_nanos(*d) / 1_000_000,
;

/// Trusted: `Duration::is_zero` is true exactly for the interval that spans
/// no time.
pub assume_specification[ Duration::is_zero ](d: &Duration) -> (zero: bool)
    ensures
        zero == (duration_nanos(*d) == 0),
;

/// Trusted: formats the interval as `Duration`'s `Debug` implementation
/// does. The text depends on the length of the interval alone.
#[verifier::external_body]
pub(crate) fn format_duration(d: &Duration) -> (text: String)
    ensures
        text@ == duration_text(duration_nanos(*d)),
{
    format!("{:?}", d)
}

/// Trusted: `std::fmt::Formatter` is carried through and never looked into.
#[verifier::external_type_specification]
#[verifier::external_body]
pub struct ExFormatter<'a>(std::fmt::Formatter<'a>);

/// Trusted: `std::fmt::Error` is carried through and never looked into.
#[verifier::external_type_specification]
#[verifier::external_body]
pub struct ExFmtError(std::fmt::Error);

/// The text that a formatter has been handed so far.
pub uninterp spec fn formatter_text(f: std::fmt::Formatter<'_>) -> Seq<char>;

/// How a `Duration` of the given length in nanoseconds reads when its `Debug`
/// implementation writes it into the formatter `f`, whose width, precision
/// and other flags it honours.
pub uninterp spec fn duration_text_under(f: std::fmt::Formatter<'_>, nanos: nat) -> Seq<char>;

/// Trusted: writes the interval into the formatter as `Duration`'s `Debug`
/// implementation does. Where it succeeds, the formatter has been handed the
/// interval's text under its own flags, after what it held before. Nothing is
/// claimed of a call that fails.
#[verifier::external_body]
pub(crate) fn write_duration(d: &Duration, f: &mut std::fmt::Formatter<'_>) -> (r:
    std::fmt::Result)
    ensures
        r is Ok ==> formatter_text(*final(f)) == formatter_text(*old(f)) + duration_text_under(
            *old(f),
            duration_nanos(*d),
        ),
{
    std::fmt::Debug::fmt(d, f)
}

} // verus!
