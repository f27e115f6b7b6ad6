//! Adapters between native duration representations and the canonical pair.
//!
//! Three native representations are supported: `time::Duration` (signed
//! seconds and sign-matched sub-second nanoseconds), `chrono::TimeDelta`
//! (bounded to `i64::MAX` milliseconds either way), and the unsigned
//! `core::time::Duration`.  Each native value denotes a total length in
//! nanoseconds; that length is named by an uninterpreted spec function
//! per representation, and the few native accessors the adapters call
//! are trusted to relate their results to it, exactly as the crates'
//! sources show.

use vstd::prelude::*;
use crate::arith::{lemma_recompose_tdiv_tmod, lemma_tdiv_tmod, tdiv, tmod};
use crate::prelude::DurationExt;
use crate::types::DefaultFormatter;
use crate::{Duration, FormattedDuration, Formatter, Truncate};

verus! {

#[verifier::external_type_specification]
#[verifier::external_body]
pub struct ExSignedDuration(time::SignedDuration);

/// What a `time::Duration` holds: its length in nanoseconds.
pub uninterp spec fn time_duration_nanos(d: time::SignedDuration) -> int;

/// Relies on `time::SignedDuration::whole_seconds`: returns the stored
/// whole-second field, which is the length in nanoseconds divided by a
/// second, rounded toward zero.
pub assume_specification[ time::SignedDuration::whole_seconds ](d: time::SignedDuration) -> (r:
    i64)
    ensures
        r == tdiv(time_duration_nanos(d), 1_000_000_000),
;

/// Relies on `time::SignedDuration::subsec_nanoseconds`: returns the
/// stored sub-second field, the remainder of the length past the whole
/// seconds, carrying the sign of the length.
pub assume_specification[ time::SignedDuration::subsec_nanoseconds ](d: time::SignedDuration) -> (
    r: i32)
    ensures
        r == tmod(time_duration_nanos(d), 1_000_000_000),
;

/// Relies on `time::SignedDuration::new`: for a sub-second nanosecond
/// argument no carry is needed, so it never panics and the parts are
/// summed into the stored length.
pub assume_specification[ time::SignedDuration::new ](seconds: i64, nanoseconds: i32) -> (r:
    time::SignedDuration)
    requires
        -999_999_999 <= nanoseconds <= 999_999_999,
    ensures
        time_duration_nanos(r) == seconds * 1_000_000_000 + nanoseconds,
;

#[verifier::external_type_specification]
#[verifier::external_body]
pub struct ExTimeDelta(chrono::TimeDelta);

/// What a `chrono::TimeDelta` holds: its length in nanoseconds.
pub uninterp spec fn chrono_delta_nanos(d: chrono::TimeDelta) -> int;

/// The representable range of a `chrono::TimeDelta`, in nanoseconds:
/// `i64::MAX` milliseconds either way.
pub open spec fn chrono_in_bounds(total: int) -> bool {
    -9_223_372_036_854_775_807_000_000 <= total <= 9_223_372_036_854_775_807_000_000
}

/// Relies on `chrono::TimeDelta::num_seconds`: the whole seconds of the
/// length, rounded toward zero.
pub assume_specification[ chrono::TimeDelta::num_seconds ](d: &chrono::TimeDelta) -> (r: i64)
    ensures
        r == tdiv(chrono_delta_nanos(*d), 1_000_000_000),
;

/// Relies on `chrono::TimeDelta::subsec_nanos`: the remainder of the
/// length past the whole seconds, carrying the sign of the length.
pub assume_specification[ chrono::TimeDelta::subsec_nanos ](d: &chrono::TimeDelta) -> (r: i32)
    ensures
        r == tmod(chrono_delta_nanos(*d), 1_000_000_000),
;

/// Relies on `chrono::TimeDelta::new`: `Some` exactly when the
/// sub-second part is within a second and the denoted length is in
/// range, in which case the parts are summed into the stored length.
pub assume_specification[ chrono::TimeDelta::new ](secs: i64, nanos: u32) -> (r: Option<
    chrono::TimeDelta,
>)
    ensures
        r is Some <==> (nanos < 1_000_000_000 && chrono_in_bounds(
            secs * 1_000_000_000 + nanos as int,
        )),
        r matches Some(d) ==> chrono_delta_nanos(d) == secs * 1_000_000_000 + nanos as int,
;

/// What a `core::time::Duration` holds: its (non-negative) length in
/// nanoseconds.
pub uninterp spec fn std_duration_nanos(d: core::time::Duration) -> int;

/// Relies on `core::time::Duration::as_secs`: the whole seconds of the
/// length.
pub assume_specification[ core::time::Duration::as_secs ](d: &core::time::Duration) -> (r: u64)
    ensures
        r == std_duration_nanos(*d) / 1_000_000_000,
;

/// Relies on `core::time::Duration::subsec_nanos`: the sub-second part
/// of the length, always below one second.
pub assume_specification[ core::time::Duration::subsec_nanos ](d: &core::time::Duration) -> (r:
    u32)
    ensures
        r == std_duration_nanos(*d) % 1_000_000_000,
;

/// Relies on `core::time::Duration::new`: for a sub-second nanosecond
/// argument no carry is needed, so it never panics and the parts are
/// summed into the stored length.
pub assume_specification[ core::time::Duration::new ](secs: u64, nanos: u32) -> (r:
    core::time::Duration)
    requires
        nanos < 1_000_000_000,
    ensures
        std_duration_nanos(r) == secs * 1_000_000_000 + nanos as int,
;

impl Duration {
    /// The canonical pair of a `time::Duration`: whole seconds and the
    /// sign-carrying sub-second remainder of its length.
    pub fn from_time(d: time::Duration) -> (r: Duration)
        ensures
            r.secs == tdiv(time_duration_nanos(d), 1_000_000_000),
            r.nanos == tmod(time_duration_nanos(d), 1_000_000_000),
            r.wf(),
            r.total_nanos() == time_duration_nanos(d),
    {
        let secs = d.whole_seconds();
        let nanos = d.subsec_nanoseconds();
        proof {
            lemma_tdiv_tmod(time_duration_nanos(d), 1_000_000_000);
        }
        Duration { secs, nanos }
    }

    /// The `time::Duration` of the same length as this canonical pair.
    pub fn to_time(self) -> (r: time::Duration)
        requires
            -999_999_999 <= self.nanos <= 999_999_999,
        ensures
            time_duration_nanos(r) == self.total_nanos(),
    {
        time::Duration::new(self.secs, self.nanos)
    }

    /// The canonical pair of a `chrono::TimeDelta`: whole seconds and
    /// the sign-carrying sub-second remainder of its length.
    pub fn from_chrono(d: chrono::TimeDelta) -> (r: Duration)
        ensures
            r.secs == tdiv(chrono_delta_nanos(d), 1_000_000_000),
            r.nanos == tmod(chrono_delta_nanos(d), 1_000_000_000),
            r.wf(),
            r.total_nanos() == chrono_delta_nanos(d),
    {
        let secs = d.num_seconds();
        let nanos = d.subsec_nanos();
        proof {
            lemma_tdiv_tmod(chrono_delta_nanos(d), 1_000_000_000);
        }
        Duration { secs, nanos }
    }

    /// The `chrono::TimeDelta` of the same length as this canonical
    /// pair, which must lie within chrono's representable range.
    pub fn to_chrono(self) -> (r: chrono::TimeDelta)
        requires
            self.wf(),
            chrono_in_bounds(self.total_nanos()),
        ensures
            chrono_delta_nanos(r) == self.total_nanos(),
    {
        let secs: i64 = if self.nanos >= 0 {
            self.secs
        } else {
            self.secs - 1
        };
        let nanos: u32 = if self.nanos >= 0 {
            self.nanos as u32
        } else {
            (self.nanos + 1_000_000_000) as u32
        };
        let converted = chrono::TimeDelta::new(secs, nanos);
        match converted {
            Some(r) => r,
            None => {
                proof {
                    assert(secs * 1_000_000_000 + nanos as int == self.total_nanos());
                    assert(false);
                }
                vstd::pervasive::unreached()
            },
        }
    }

    /// The canonical pair of a `core::time::Duration`: its whole
    /// seconds (clamped to the canonical range, which a native value
    /// can exceed) and its sub-second nanoseconds.
    pub fn from_std(d: core::time::Duration) -> (r: Duration)
        ensures
            r.wf(),
            r.nanos == std_duration_nanos(d) % 1_000_000_000,
            r.secs == if std_duration_nanos(d) / 1_000_000_000 <= i64::MAX {
                std_duration_nanos(d) / 1_000_000_000
            } else {
                i64::MAX as int
            },
            std_duration_nanos(d) / 1_000_000_000 <= i64::MAX ==> r.total_nanos()
                == std_duration_nanos(d),
    {
        let s = d.as_secs();
        let n = d.subsec_nanos();
        let secs: i64 = if s > 0x7fff_ffff_ffff_ffff {
            0x7fff_ffff_ffff_ffff
        } else {
            s as i64
        };
        proof {
            vstd::arithmetic::div_mod::lemma_fundamental_div_mod(std_duration_nanos(d), 1_000_000_000);
            vstd::arithmetic::div_mod::lemma_mod_bound(std_duration_nanos(d), 1_000_000_000);
        }
        Duration { secs, nanos: n as i32 }
    }

    /// The `core::time::Duration` of the magnitude of this canonical
    /// pair: a representation without negative support takes the
    /// absolute value of each part.
    pub fn to_std(self) -> (r: core::time::Duration)
        requires
            -999_999_999 <= self.nanos <= 999_999_999,
        ensures
            std_duration_nanos(r) == vstd::math::abs(self.secs as int) * 1_000_000_000
                + vstd::math::abs(self.nanos as int),
            self.wf() ==> std_duration_nanos(r) == vstd::math::abs(self.total_nanos()),
    {
        let s = crate::prelude::magnitude_u64(self.secs);
        let n = crate::prelude::magnitude_u32(self.nanos);
        let r = core::time::Duration::new(s, n);
        proof {
            if self.wf() {
                assert(s * 1_000_000_000 + n == vstd::math::abs(self.total_nanos()));
            }
        }
        r
    }

    /// Dividing the total length of a well-formed canonical pair back
    /// into whole seconds and a remainder reproduces the pair: the
    /// adapters lose nothing that the native type can hold.
    pub proof fn lemma_round_trip(self)
        requires
            self.wf(),
        ensures
            tdiv(self.total_nanos(), 1_000_000_000) == self.secs,
            tmod(self.total_nanos(), 1_000_000_000) == self.nanos,
    {
        lemma_recompose_tdiv_tmod(self.secs as int, self.nanos as int, 1_000_000_000);
    }
}

impl DurationExt for time::SignedDuration {
    open spec fn as_canonical(&self) -> Duration {
        Duration {
            secs: tdiv(time_duration_nanos(*self), 1_000_000_000) as i64,
            nanos: tmod(time_duration_nanos(*self), 1_000_000_000) as i32,
        }
    }

    fn human(&self, truncate: Truncate) -> (r: FormattedDuration<DefaultFormatter>) {
        self.human_with_format(truncate, DefaultFormatter)
    }

    fn human_with_format<F: Formatter>(&self, truncate: Truncate, fmt: F) -> (r: FormattedDuration<
        F,
    >) {
        let duration = Duration::from_time(*self);
        FormattedDuration { duration, truncate_option: truncate, formatter: fmt }
    }
}

impl DurationExt for chrono::TimeDelta {
    open spec fn as_canonical(&self) -> Duration {
        Duration {
            secs: tdiv(chrono_delta_nanos(*self), 1_000_000_000) as i64,
            nanos: tmod(chrono_delta_nanos(*self), 1_000_000_000) as i32,
        }
    }

    fn human(&self, truncate: Truncate) -> (r: FormattedDuration<DefaultFormatter>) {
        self.human_with_format(truncate, DefaultFormatter)
    }

    fn human_with_format<F: Formatter>(&self, truncate: Truncate, fmt: F) -> (r: FormattedDuration<
        F,
    >) {
        let duration = Duration::from_chrono(*self);
        FormattedDuration { duration, truncate_option: truncate, formatter: fmt }
    }
}

impl DurationExt for core::time::Duration {
    open spec fn as_canonical(&self) -> Duration {
        Duration {
            secs: (if std_duration_nanos(*self) / 1_000_000_000 <= i64::MAX {
                std_duration_nanos(*self) / 1_000_000_000
            } else {
                i64::MAX as int
            }) as i64,
            nanos: (std_duration_nanos(*self) % 1_000_000_000) as i32,
        }
    }

    fn human(&self, truncate: Truncate) -> (r: FormattedDuration<DefaultFormatter>) {
        self.human_with_format(truncate, DefaultFormatter)
    }

    fn human_with_format<F: Formatter>(&self, truncate: Truncate, fmt: F) -> (r: FormattedDuration<
        F,
    >) {
        let duration = Duration::from_std(*self);
        FormattedDuration { duration, truncate_option: truncate, formatter: fmt }
    }
}

} // verus!
