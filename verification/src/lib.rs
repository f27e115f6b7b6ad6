//! Human-readable rendering of elapsed-time intervals.
//!
//! A signed `(seconds, nanoseconds)` pair is decomposed into nine
//! calendar-like components under fixed average unit lengths, and the
//! components are rendered from the coarsest unit down to a chosen
//! truncation level, with leading zero components suppressed and unit
//! labels pluralized.

pub mod arith;
pub mod digits;
pub mod impls;
pub mod prelude;
pub mod types;

use vstd::prelude::*;
use vstd::math::abs;
use vstd::string::StringExecFns;
use crate::digits::{push_decimal, spec_decimal};
use crate::prelude::{decompose, spec_decompose};
use crate::types::DurationParts;

verus! {

/// The canonical pair every conversion funnels through: signed whole
/// seconds plus a sub-second nanosecond part.  The nanosecond part
/// stays within a second and never opposes the sign of the seconds, so
/// the pair denotes `secs * 1_000_000_000 + nanos` nanoseconds.
#[derive(Debug, Copy, Clone)]
pub struct Duration {
    pub secs: i64,
    pub nanos: i32,
}

impl Duration {
    /// Well-formedness of a canonical pair: the nanosecond part is a
    /// proper sub-second remainder carrying the same sign as the
    /// seconds.
    pub open spec fn wf(self) -> bool {
        &&& -999_999_999 <= self.nanos <= 999_999_999
        &&& self.secs > 0 ==> self.nanos >= 0
        &&& self.secs < 0 ==> self.nanos <= 0
    }

    /// The total length of the duration in nanoseconds.
    pub open spec fn total_nanos(self) -> int {
        self.secs * 1_000_000_000 + self.nanos
    }
}

/// The smallest unit that will appear in rendered output; every finer
/// component is dropped entirely.  Ordered from finest to coarsest.
#[derive(Debug, Clone, Copy, PartialEq, Eq, Structural)]
pub enum Truncate {
    Nano,
    Micro,
    Millis,
    Second,
    Minute,
    Hour,
    Day,
    Month,
    Year,
}

impl Default for Truncate {
    /// Rendering stops at milliseconds unless a caller chooses otherwise.
    fn default() -> (t: Truncate)
        ensures
            t == Truncate::Millis,
    {
        Truncate::Millis
    }
}

/// The label pair of one unit: the word used for a magnitude of one,
/// and the word used for any other magnitude.
pub struct Unit {
    pub one: String,
    pub many: String,
}

/// Whether a unit produces a fragment: a non-zero magnitude always
/// does, and the truncation-level unit does when nothing has been
/// emitted yet.
pub open spec fn spec_emits(v: int, allow_zero: bool, started: bool) -> bool {
    v != 0 || (allow_zero && !started)
}

/// The label chosen for a magnitude: singular exactly at one.
pub open spec fn spec_label(v: int, one: Seq<char>, many: Seq<char>) -> Seq<char> {
    if v == 1 {
        one
    } else {
        many
    }
}

/// The text a unit contributes: nothing when suppressed, otherwise a
/// separating space (except for the first fragment), the decimal
/// magnitude, and the label.
pub open spec fn spec_unit_fragment(
    v: int,
    allow_zero: bool,
    started: bool,
    one: Seq<char>,
    many: Seq<char>,
) -> Seq<char> {
    if spec_emits(v, allow_zero, started) {
        (if started {
            seq![' ']
        } else {
            Seq::<char>::empty()
        }) + spec_decimal(v) + spec_label(v, one, many)
    } else {
        Seq::<char>::empty()
    }
}

impl Unit {
    /// Builds a label pair from the two words.
    pub fn new(one: &str, many: &str) -> (u: Unit)
        ensures
            u.one@ == one@,
            u.many@ == many@,
    {
        Unit { one: one.to_owned(), many: many.to_owned() }
    }

    /// A fresh copy of the label pair.
    pub fn duplicate(&self) -> (u: Unit)
        ensures
            u.one@ == self.one@,
            u.many@ == self.many@,
    {
        Unit { one: self.one.clone(), many: self.many.clone() }
    }

    /// Appends this unit's fragment for the given magnitude to `out`,
    /// updating the "has anything been emitted yet" flag.
    pub fn format(&self, value: u64, allow_zero: bool, started: &mut bool, out: &mut String)
        ensures
            final(out)@ == old(out)@ + spec_unit_fragment(
                value as int,
                allow_zero,
                *old(started),
                self.one@,
                self.many@,
            ),
            *final(started) == (*old(started) || spec_emits(value as int, allow_zero, *old(started))),
    {
        if value != 0 || (allow_zero && !*started) {
            if *started {
                out.append(" ");
            }
            push_decimal(out, value);
            if value == 1 {
                out.append(self.one.as_str());
            } else {
                out.append(self.many.as_str());
            }
            *started = true;
            proof {
                reveal_strlit(" ");
                assert(out@ =~= old(out)@ + spec_unit_fragment(
                    value as int,
                    allow_zero,
                    *old(started),
                    self.one@,
                    self.many@,
                ));
            }
        } else {
            proof {
                assert(out@ =~= old(out)@ + spec_unit_fragment(
                    value as int,
                    allow_zero,
                    *old(started),
                    self.one@,
                    self.many@,
                ));
            }
        }
    }
}

/// The cascade order: units from the coarsest down to the finest.
pub open spec fn cascade_unit(i: int) -> Truncate {
    if i == 0 {
        Truncate::Year
    } else if i == 1 {
        Truncate::Month
    } else if i == 2 {
        Truncate::Day
    } else if i == 3 {
        Truncate::Hour
    } else if i == 4 {
        Truncate::Minute
    } else if i == 5 {
        Truncate::Second
    } else if i == 6 {
        Truncate::Millis
    } else if i == 7 {
        Truncate::Micro
    } else {
        Truncate::Nano
    }
}

/// The signed component of a breakdown at a cascade position.
pub open spec fn spec_component(parts: DurationParts, i: int) -> int {
    if i == 0 {
        parts.years as int
    } else if i == 1 {
        parts.months as int
    } else if i == 2 {
        parts.days as int
    } else if i == 3 {
        parts.hours as int
    } else if i == 4 {
        parts.minutes as int
    } else if i == 5 {
        parts.seconds as int
    } else if i == 6 {
        parts.millis as int
    } else if i == 7 {
        parts.micros as int
    } else {
        parts.nanos as int
    }
}

/// A unit-naming strategy: the sole extension point.  A label set
/// supplies the words; the cascade algorithm itself is shared through
/// [`Formatter::format_default`], whose contract pins the rendered
/// text exactly, so every formatter renders consistently.
pub trait Formatter: Sized {
    /// The label table: for each unit, its singular and plural words.
    spec fn labels(&self) -> spec_fn(Truncate) -> (Seq<char>, Seq<char>);

    /// The label pair used for a unit.
    fn get(&self, truncate: Truncate) -> (u: Unit)
        ensures
            u.one@ == self.labels()(truncate).0,
            u.many@ == self.labels()(truncate).1,
    ;

    /// Renders a breakdown down to the truncation level.
    fn format(&self, parts: DurationParts, truncate: Truncate) -> (s: String)
        ensures
            s@ == spec_format(self.labels(), parts, truncate),
    ;

    /// The shared cascade algorithm: walks the units from years down
    /// to the truncation level, suppressing leading zero components,
    /// pluralizing labels, separating fragments with single spaces,
    /// and emitting a sign and the all-zero fragment where called for.
    fn format_default(&self, parts: DurationParts, truncate: Truncate) -> (s: String)
        ensures
            s@ == spec_format(self.labels(), parts, truncate),
    {
        let mut out = String::new();
        if parts.is_empty() {
            let u = self.get(truncate);
            let mut started = false;
            u.format(0, true, &mut started, &mut out);
            proof {
                assert(out@ =~= spec_format(self.labels(), parts, truncate));
            }
            return out;
        }
        if parts.original_seconds < 0 {
            out.append("-");
        }
        let mut started = false;
        let mut i: usize = 0;
        proof {
            reveal_strlit("-");
            assert(spec_format(self.labels(), parts, truncate) =~= out@ + spec_cascade(
                self.labels(),
                parts,
                truncate,
                0,
                false,
            ));
        }
        while i < 9
            invariant
                i <= 9,
                forall|j: int| 0 <= j < i ==> cascade_unit(j) != truncate,
                spec_format(self.labels(), parts, truncate) == out@ + spec_cascade(
                    self.labels(),
                    parts,
                    truncate,
                    i as int,
                    started,
                ),
            decreases 9 - i,
        {
            let t = cascade_unit_at(i);
            let v = component_magnitude(&parts, i);
            let u = self.get(t);
            let is_trunc = t == truncate;
            u.format(v, is_trunc, &mut started, &mut out);
            if is_trunc {
                proof {
                    assert(out@ =~= spec_format(self.labels(), parts, truncate));
                }
                return out;
            }
            proof {
                assert(spec_format(self.labels(), parts, truncate) =~= out@ + spec_cascade(
                    self.labels(),
                    parts,
                    truncate,
                    i as int + 1,
                    started,
                ));
            }
            i += 1;
        }
        proof {
            match truncate {
                Truncate::Year => assert(cascade_unit(0) == truncate),
                Truncate::Month => assert(cascade_unit(1) == truncate),
                Truncate::Day => assert(cascade_unit(2) == truncate),
                Truncate::Hour => assert(cascade_unit(3) == truncate),
                Truncate::Minute => assert(cascade_unit(4) == truncate),
                Truncate::Second => assert(cascade_unit(5) == truncate),
                Truncate::Millis => assert(cascade_unit(6) == truncate),
                Truncate::Micro => assert(cascade_unit(7) == truncate),
                Truncate::Nano => assert(cascade_unit(8) == truncate),
            }
            assert(false);
        }
        out
    }
}

/// The text of the cascade from position `i` on: each unit in order
/// contributes its fragment, and the walk stops at the truncation
/// level.
pub open spec fn spec_cascade(
    labels: spec_fn(Truncate) -> (Seq<char>, Seq<char>),
    parts: DurationParts,
    truncate: Truncate,
    i: int,
    started: bool,
) -> Seq<char>
    decreases 9 - i,
{
    if i < 0 || i >= 9 {
        Seq::<char>::empty()
    } else {
        let t = cascade_unit(i);
        let v = abs(spec_component(parts, i)) as int;
        let frag = spec_unit_fragment(v, t == truncate, started, labels(t).0, labels(t).1);
        if t == truncate {
            frag
        } else {
            frag + spec_cascade(
                labels,
                parts,
                truncate,
                i + 1,
                started || spec_emits(v, t == truncate, started),
            )
        }
    }
}

/// The full rendered text of a breakdown: the all-zero short-circuit,
/// otherwise a sign for negative durations followed by the cascade.
pub open spec fn spec_format(
    labels: spec_fn(Truncate) -> (Seq<char>, Seq<char>),
    parts: DurationParts,
    truncate: Truncate,
) -> Seq<char> {
    if parts.original_seconds == 0 && parts.original_nanos == 0 {
        spec_decimal(0) + labels(truncate).1
    } else {
        (if parts.original_seconds < 0 {
            seq!['-']
        } else {
            Seq::<char>::empty()
        }) + spec_cascade(labels, parts, truncate, 0, false)
    }
}

/// Law: a breakdown of an exactly-zero duration renders as exactly one
/// fragment, `0` followed by the plural label of the truncation-level
/// unit, whatever that level is — no sign, no space.
pub proof fn lemma_zero_single_fragment(
    labels: spec_fn(Truncate) -> (Seq<char>, Seq<char>),
    parts: DurationParts,
    truncate: Truncate,
)
    requires
        parts.original_seconds == 0,
        parts.original_nanos == 0,
    ensures
        spec_format(labels, parts, truncate) == seq!['0'] + labels(truncate).1,
{
    assert(spec_format(labels, parts, truncate) =~= seq!['0'] + labels(truncate).1);
}

/// Law: a breakdown with negative original seconds always renders with
/// a leading `-`, whatever the truncation level and the labels.
pub proof fn lemma_negative_prefixed(
    labels: spec_fn(Truncate) -> (Seq<char>, Seq<char>),
    parts: DurationParts,
    truncate: Truncate,
)
    requires
        parts.original_seconds < 0,
    ensures
        spec_format(labels, parts, truncate).len() >= 1,
        spec_format(labels, parts, truncate)[0] == '-',
{
}

/// Law: truncation at the year level always renders a single fragment:
/// the cascade stops at its first unit, before months.
pub proof fn lemma_year_single_fragment(
    labels: spec_fn(Truncate) -> (Seq<char>, Seq<char>),
    parts: DurationParts,
)
    ensures
        spec_format(labels, parts, Truncate::Year) == if parts.original_seconds == 0
            && parts.original_nanos == 0 {
            seq!['0'] + labels(Truncate::Year).1
        } else {
            (if parts.original_seconds < 0 {
                seq!['-']
            } else {
                Seq::<char>::empty()
            }) + spec_decimal(abs(parts.years as int) as int) + spec_label(
                abs(parts.years as int) as int,
                labels(Truncate::Year).0,
                labels(Truncate::Year).1,
            )
        },
{
    if parts.original_seconds == 0 && parts.original_nanos == 0 {
        lemma_zero_single_fragment(labels, parts, Truncate::Year);
    } else {
        let sign: Seq<char> = if parts.original_seconds < 0 {
            seq!['-']
        } else {
            Seq::<char>::empty()
        };
        let v = abs(parts.years as int) as int;
        assert(spec_cascade(labels, parts, Truncate::Year, 0, false) == spec_unit_fragment(
            v,
            true,
            false,
            labels(Truncate::Year).0,
            labels(Truncate::Year).1,
        ));
        assert(spec_format(labels, parts, Truncate::Year) =~= sign + spec_decimal(v) + spec_label(
            v,
            labels(Truncate::Year).0,
            labels(Truncate::Year).1,
        ));
    }
}

/// Law: rendering is a pure function of the breakdown, the truncation
/// level and the label set — two renderings of identical inputs are
/// identical character for character.
pub proof fn lemma_format_deterministic(
    labels: spec_fn(Truncate) -> (Seq<char>, Seq<char>),
    parts: DurationParts,
    truncate: Truncate,
    s1: Seq<char>,
    s2: Seq<char>,
)
    requires
        s1 == spec_format(labels, parts, truncate),
        s2 == spec_format(labels, parts, truncate),
    ensures
        s1 == s2,
{
}

/// The cascade unit at a position.
fn cascade_unit_at(i: usize) -> (t: Truncate)
    requires
        i < 9,
    ensures
        t == cascade_unit(i as int),
{
    if i == 0 {
        Truncate::Year
    } else if i == 1 {
        Truncate::Month
    } else if i == 2 {
        Truncate::Day
    } else if i == 3 {
        Truncate::Hour
    } else if i == 4 {
        Truncate::Minute
    } else if i == 5 {
        Truncate::Second
    } else if i == 6 {
        Truncate::Millis
    } else if i == 7 {
        Truncate::Micro
    } else {
        Truncate::Nano
    }
}

/// The magnitude of the component at a cascade position.
fn component_magnitude(parts: &DurationParts, i: usize) -> (v: u64)
    requires
        i < 9,
    ensures
        v == abs(spec_component(*parts, i as int)),
{
    if i == 0 {
        crate::prelude::magnitude_u64(parts.years)
    } else if i == 1 {
        crate::prelude::magnitude_u64(parts.months)
    } else if i == 2 {
        crate::prelude::magnitude_u64(parts.days)
    } else if i == 3 {
        crate::prelude::magnitude_u64(parts.hours)
    } else if i == 4 {
        crate::prelude::magnitude_u64(parts.minutes)
    } else if i == 5 {
        crate::prelude::magnitude_u64(parts.seconds)
    } else if i == 6 {
        crate::prelude::magnitude_u32(parts.millis) as u64
    } else if i == 7 {
        crate::prelude::magnitude_u32(parts.micros) as u64
    } else {
        crate::prelude::magnitude_u32(parts.nanos) as u64
    }
}

/// A duration paired with a truncation level and a formatter, ready to
/// be rendered as text.
pub struct FormattedDuration<F: Formatter> {
    pub duration: Duration,
    pub truncate_option: Truncate,
    pub formatter: F,
}

impl<F: Formatter> FormattedDuration<F> {
    /// Renders the duration: decomposes the canonical pair and formats
    /// the breakdown down to the truncation level.
    pub fn to_text(&self) -> (s: String)
        ensures
            s@ == spec_format(
                self.formatter.labels(),
                spec_decompose(self.duration.secs as int, self.duration.nanos as int),
                self.truncate_option,
            ),
    {
        let parts = decompose(self.duration.secs, self.duration.nanos);
        self.formatter.format(parts, self.truncate_option)
    }
}

} // verus!

