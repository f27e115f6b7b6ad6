//! The duration breakdown snapshot and the built-in label sets.

use vstd::prelude::*;
use crate::{Formatter, Truncate, Unit};

verus! {

/// The nine magnitude components of a duration, together with the
/// original canonical pair they were derived from.
///
/// Components are remainders of a fixed cascading division (see
/// [`crate::prelude::decompose`]); each carries the sign of the
/// original input, so for negative durations the components are the
/// negated magnitudes.
#[derive(Debug, Copy, Clone)]
pub struct DurationParts {
    pub original_seconds: i64,
    pub original_nanos: i32,
    pub years: i64,
    pub months: i64,
    pub days: i64,
    pub hours: i64,
    pub minutes: i64,
    pub seconds: i64,
    pub millis: i32,
    pub micros: i32,
    pub nanos: i32,
}

impl DurationParts {
    /// Whether the original duration is exactly zero.
    pub fn is_empty(&self) -> (r: bool)
        ensures
            r == (self.original_seconds == 0 && self.original_nanos == 0),
    {
        self.original_seconds == 0 && self.original_nanos == 0
    }
}

/// The built-in label set: `year(s)`, `month(s)`, `day(s)`, and the
/// abbreviations `h`, `m`, `s`, `ms`, `µs`, `ns`.
pub struct DefaultFormatter;

impl Formatter for DefaultFormatter {
    open spec fn labels(&self) -> spec_fn(Truncate) -> (Seq<char>, Seq<char>) {
        |t: Truncate|
            (match t {
                Truncate::Year => ("year"@, "years"@),
                Truncate::Month => ("month"@, "months"@),
                Truncate::Day => ("day"@, "days"@),
                Truncate::Hour => ("h"@, "h"@),
                Truncate::Minute => ("m"@, "m"@),
                Truncate::Second => ("s"@, "s"@),
                Truncate::Millis => ("ms"@, "ms"@),
                Truncate::Micro => ("µs"@, "µs"@),
                Truncate::Nano => ("ns"@, "ns"@),
            })
    }

    fn get(&self, truncate: Truncate) -> (u: Unit) {
        match truncate {
            Truncate::Year => Unit::new("year", "years"),
            Truncate::Month => Unit::new("month", "months"),
            Truncate::Day => Unit::new("day", "days"),
            Truncate::Hour => Unit::new("h", "h"),
            Truncate::Minute => Unit::new("m", "m"),
            Truncate::Second => Unit::new("s", "s"),
            Truncate::Millis => Unit::new("ms", "ms"),
            Truncate::Micro => Unit::new("µs", "µs"),
            Truncate::Nano => Unit::new("ns", "ns"),
        }
    }

    fn format(&self, parts: DurationParts, truncate: Truncate) -> (s: String) {
        self.format_default(parts, truncate)
    }
}

/// A caller-supplied label set: one label pair per unit.  Swapping the
/// vocabulary changes nothing of the cascade algorithm, whose contract
/// is shared by every formatter.
pub struct CustomFormatter {
    pub year: Unit,
    pub month: Unit,
    pub day: Unit,
    pub hour: Unit,
    pub minute: Unit,
    pub second: Unit,
    pub millis: Unit,
    pub micro: Unit,
    pub nano: Unit,
}

impl CustomFormatter {
    /// Builds a label set from the nine label pairs, coarsest first.
    pub fn new(
        year: Unit,
        month: Unit,
        day: Unit,
        hour: Unit,
        minute: Unit,
        second: Unit,
        millis: Unit,
        micro: Unit,
        nano: Unit,
    ) -> (c: CustomFormatter)
        ensures
            c == (CustomFormatter {
                year,
                month,
                day,
                hour,
                minute,
                second,
                millis,
                micro,
                nano,
            }),
    {
        CustomFormatter { year, month, day, hour, minute, second, millis, micro, nano }
    }

    /// The label pair this set holds for a unit.
    pub open spec fn unit_of(&self, t: Truncate) -> &Unit {
        match t {
            Truncate::Year => &self.year,
            Truncate::Month => &self.month,
            Truncate::Day => &self.day,
            Truncate::Hour => &self.hour,
            Truncate::Minute => &self.minute,
            Truncate::Second => &self.second,
            Truncate::Millis => &self.millis,
            Truncate::Micro => &self.micro,
            Truncate::Nano => &self.nano,
        }
    }
}

impl Formatter for CustomFormatter {
    open spec fn labels(&self) -> spec_fn(Truncate) -> (Seq<char>, Seq<char>) {
        |t: Truncate| (self.unit_of(t).one@, self.unit_of(t).many@)
    }

    fn get(&self, truncate: Truncate) -> (u: Unit) {
        match truncate {
            Truncate::Year => self.year.duplicate(),
            Truncate::Month => self.month.duplicate(),
            Truncate::Day => self.day.duplicate(),
            Truncate::Hour => self.hour.duplicate(),
            Truncate::Minute => self.minute.duplicate(),
            Truncate::Second => self.second.duplicate(),
            Truncate::Millis => self.millis.duplicate(),
            Truncate::Micro => self.micro.duplicate(),
            Truncate::Nano => self.nano.duplicate(),
        }
    }

    fn format(&self, parts: DurationParts, truncate: Truncate) -> (s: String) {
        self.format_default(parts, truncate)
    }
}

} // verus!
