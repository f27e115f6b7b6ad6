//! The decomposer: from a canonical pair to a `DurationParts` breakdown.

use vstd::prelude::*;
use crate::arith::{tdiv, tmod, lemma_tdiv_bound, lemma_tdiv_tmod};
use crate::types::{DefaultFormatter, DurationParts};
use crate::{Duration, FormattedDuration, Formatter, Truncate};

verus! {

/// Entry point on native duration values: pairs the value, converted
/// to its canonical pair, with a truncation level and a formatter.
pub trait DurationExt {
    /// The canonical pair this native value converts to.
    spec fn as_canonical(&self) -> Duration;

    /// Readies the value for rendering with the built-in labels.
    fn human(&self, truncate: Truncate) -> (r: FormattedDuration<DefaultFormatter>)
        ensures
            r.duration == self.as_canonical(),
            r.truncate_option == truncate,
    ;

    /// Readies the value for rendering with a caller-chosen formatter.
    fn human_with_format<F: Formatter>(&self, truncate: Truncate, fmt: F) -> (r:
        FormattedDuration<F>)
        ensures
            r.duration == self.as_canonical(),
            r.truncate_option == truncate,
            r.formatter == fmt,
    ;
}

/// Average Gregorian year, in seconds.
pub const SECONDS_IN_YEAR: i64 = 31_556_952;

/// Average month (30.44 days), in seconds.
pub const SECONDS_IN_MONTH: i64 = 2_630_016;

/// The breakdown of a canonical pair: a fixed cascading division with
/// truncating (round-toward-zero) semantics, so components carry the
/// sign of the input they are cut from.
pub open spec fn spec_decompose(secs: int, nanos: int) -> DurationParts {
    let ydays = tmod(secs, SECONDS_IN_YEAR as int);
    let mdays = tmod(ydays, SECONDS_IN_MONTH as int);
    let day_secs = tmod(mdays, 86400);
    DurationParts {
        original_seconds: secs as i64,
        original_nanos: nanos as i32,
        years: tdiv(secs, SECONDS_IN_YEAR as int) as i64,
        months: tdiv(ydays, SECONDS_IN_MONTH as int) as i64,
        days: tdiv(mdays, 86400) as i64,
        hours: tdiv(day_secs, 3600) as i64,
        minutes: tdiv(tmod(day_secs, 3600), 60) as i64,
        seconds: tmod(day_secs, 60) as i64,
        millis: tdiv(nanos, 1_000_000) as i32,
        micros: tmod(tdiv(nanos, 1000), 1000) as i32,
        nanos: tmod(nanos, 1000) as i32,
    }
}

/// Splits a signed seconds value into its magnitude.
pub(crate) fn magnitude_u64(x: i64) -> (m: u64)
    ensures
        m == if x >= 0 {
            x as int
        } else {
            -(x as int)
        },
{
    if x >= 0 {
        x as u64
    } else {
        (-(x as i128)) as u64
    }
}

/// Splits a signed nanosecond value into its magnitude.
pub(crate) fn magnitude_u32(x: i32) -> (m: u32)
    ensures
        m == if x >= 0 {
            x as int
        } else {
            -(x as int)
        },
{
    if x >= 0 {
        x as u32
    } else {
        (-(x as i64)) as u32
    }
}

/// Applies the sign of the original input to a component magnitude.
fn apply_sign_i64(neg: bool, m: u64) -> (r: i64)
    requires
        m <= 0x7fff_ffff_ffff_ffff,
    ensures
        r == if neg {
            -(m as int)
        } else {
            m as int
        },
{
    if neg {
        -(m as i64)
    } else {
        m as i64
    }
}

/// Applies the sign of the original input to a component magnitude.
fn apply_sign_i32(neg: bool, m: u32) -> (r: i32)
    requires
        m <= 0x7fff_ffff,
    ensures
        r == if neg {
            -(m as int)
        } else {
            m as int
        },
{
    if neg {
        -(m as i32)
    } else {
        m as i32
    }
}

/// Decomposes a canonical `(seconds, nanoseconds)` pair into the nine
/// magnitude components.  Total over the whole `i64`/`i32` domain and
/// never panics; all division is truncating, matching the native
/// division the components are specified with.
pub fn decompose(seconds: i64, nanos: i32) -> (p: DurationParts)
    ensures
        p == spec_decompose(seconds as int, nanos as int),
{
    let neg_s = seconds < 0;
    let smag = magnitude_u64(seconds);
    let years_m = smag / 31_556_952;
    let yrem = smag % 31_556_952;
    let months_m = yrem / 2_630_016;
    let mrem = yrem % 2_630_016;
    let days_m = mrem / 86400;
    let drem = mrem % 86400;
    let hours_m = drem / 3600;
    let minutes_m = (drem % 3600) / 60;
    let secs_m = drem % 60;

    let neg_n = nanos < 0;
    let nmag = magnitude_u32(nanos);
    let millis_m = nmag / 1_000_000;
    let micros_m = (nmag / 1000) % 1000;
    let nanos_m = nmag % 1000;

    proof {
        vstd::arithmetic::div_mod::lemma_mod_bound(smag as int, 31_556_952);
        vstd::arithmetic::div_mod::lemma_mod_bound(yrem as int, 2_630_016);
        vstd::arithmetic::div_mod::lemma_mod_bound(mrem as int, 86400);
        vstd::arithmetic::div_mod::lemma_mod_bound(drem as int, 3600);
        vstd::arithmetic::div_mod::lemma_mod_bound(drem as int, 60);
        vstd::arithmetic::div_mod::lemma_multiply_divide_lt(
            smag as int,
            31_556_952,
            584_942_417_356,
        );
        vstd::arithmetic::div_mod::lemma_multiply_divide_lt(yrem as int, 2_630_016, 12);
        vstd::arithmetic::div_mod::lemma_multiply_divide_lt(mrem as int, 86400, 31);
        vstd::arithmetic::div_mod::lemma_multiply_divide_lt(drem as int, 3600, 24);
        vstd::arithmetic::div_mod::lemma_mod_bound(drem as int % 3600, 60);
        vstd::arithmetic::div_mod::lemma_multiply_divide_lt(drem as int % 3600, 60, 60);
        vstd::arithmetic::div_mod::lemma_multiply_divide_lt(nmag as int, 1_000_000, 4295);
        vstd::arithmetic::div_mod::lemma_mod_bound(nmag as int / 1000, 1000);
        vstd::arithmetic::div_mod::lemma_mod_bound(nmag as int, 1000);
    }
    let p = DurationParts {
        original_seconds: seconds,
        original_nanos: nanos,
        years: apply_sign_i64(neg_s, years_m),
        months: apply_sign_i64(neg_s, months_m),
        days: apply_sign_i64(neg_s, days_m),
        hours: apply_sign_i64(neg_s, hours_m),
        minutes: apply_sign_i64(neg_s, minutes_m),
        seconds: apply_sign_i64(neg_s, secs_m),
        millis: apply_sign_i32(neg_n, millis_m),
        micros: apply_sign_i32(neg_n, micros_m),
        nanos: apply_sign_i32(neg_n, nanos_m),
    };
    proof {
        assert(p =~= spec_decompose(seconds as int, nanos as int));
    }
    p
}

/// Every component of a breakdown lies within its documented bounds:
/// months within 11, days within 30, hours within 23, minutes and
/// seconds within 59, and the sub-second components within 999 whenever
/// the nanosecond input is itself within a second.  Years are bounded
/// only by the input domain.  Components carry the sign of the input.
pub proof fn lemma_decompose_bounds(secs: int, nanos: int)
    ensures
        -11 <= spec_decompose(secs, nanos).months <= 11,
        -30 <= spec_decompose(secs, nanos).days <= 30,
        -23 <= spec_decompose(secs, nanos).hours <= 23,
        -59 <= spec_decompose(secs, nanos).minutes <= 59,
        -59 <= spec_decompose(secs, nanos).seconds <= 59,
        -1_000_000_000 < nanos < 1_000_000_000 ==> -999 <= spec_decompose(secs, nanos).millis
            <= 999,
        -999 <= spec_decompose(secs, nanos).micros <= 999,
        -999 <= spec_decompose(secs, nanos).nanos <= 999,
        secs >= 0 ==> spec_decompose(secs, nanos).months >= 0 && spec_decompose(secs, nanos).days
            >= 0 && spec_decompose(secs, nanos).hours >= 0 && spec_decompose(secs, nanos).minutes
            >= 0 && spec_decompose(secs, nanos).seconds >= 0,
        secs <= 0 ==> spec_decompose(secs, nanos).months <= 0 && spec_decompose(secs, nanos).days
            <= 0 && spec_decompose(secs, nanos).hours <= 0 && spec_decompose(secs, nanos).minutes
            <= 0 && spec_decompose(secs, nanos).seconds <= 0,
{
    let ydays = tmod(secs, SECONDS_IN_YEAR as int);
    let mdays = tmod(ydays, SECONDS_IN_MONTH as int);
    let day_secs = tmod(mdays, 86400);
    lemma_tdiv_tmod(secs, SECONDS_IN_YEAR as int);
    lemma_tdiv_tmod(ydays, SECONDS_IN_MONTH as int);
    lemma_tdiv_tmod(mdays, 86400);
    lemma_tdiv_tmod(day_secs, 3600);
    lemma_tdiv_tmod(day_secs, 60);
    lemma_tdiv_tmod(tmod(day_secs, 3600), 60);
    lemma_tdiv_bound(ydays, SECONDS_IN_MONTH as int, 11);
    lemma_tdiv_bound(mdays, 86400, 30);
    lemma_tdiv_bound(day_secs, 3600, 23);
    lemma_tdiv_bound(tmod(day_secs, 3600), 60, 59);
    if -1_000_000_000 < nanos < 1_000_000_000 {
        lemma_tdiv_bound(nanos, 1_000_000, 999);
    }
    lemma_tdiv_tmod(nanos, 1000);
    lemma_tdiv_tmod(tdiv(nanos, 1000), 1000);
}

} // verus!
