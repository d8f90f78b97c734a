//! Instants on a time scale, written as a count of whole seconds and a
//! sub-second part that may run over one second to encode a leap second.
use crate::calendar::display_datetime;
use crate::calendar::displayed_text;
use crate::calendar::format_datetime;
use crate::calendar::formatted_text;
use crate::calendar::parse_timestamp;
use crate::calendar::parsed_timestamp;
use crate::error::Error;
use crate::error::ErrorView;
use crate::error::text_result;
use vstd::prelude::*;

verus! {

/// Nanoseconds in one second.
pub const NANOS_PER_SEC: u32 = 1_000_000_000;

/// Seconds from 1970-01-01T00:00:00 to the first instant that can be written
/// down, midnight of January 1 of the year -262143.
pub const MIN_TIMESTAMP: i64 = -8_334_601_228_800;

/// Seconds from 1970-01-01T00:00:00 to the last second that can be written
/// down, 23:59:59 of December 31 of the year 262142.
pub const MAX_TIMESTAMP: i64 = 8_210_266_876_799;

/// The mathematical value of a [`DateTime`].
///
/// `secs` counts the seconds since 1970-01-01T00:00:00 up to the second that
/// the calendar fields name, every day taken as 86400 seconds. `nanos` is the
/// time elapsed since the start of that second. A value of `nanos` of one
/// second or more says that the instant lies in a leap second that follows
/// the named second.
pub struct Instant {
    pub secs: int,
    pub nanos: int,
}

impl Instant {
    /// Whether the instant can be held by a [`DateTime`]: the second lies in
    /// the supported years, the sub-second part is below two seconds, and a
    /// leap second follows a second numbered 59 only.
    pub open spec fn representable(self) -> bool {
        &&& MIN_TIMESTAMP <= self.secs <= MAX_TIMESTAMP
        &&& 0 <= self.nanos < 2 * NANOS_PER_SEC
        &&& (self.nanos >= NANOS_PER_SEC ==> self.secs % 60 == 59)
    }

    /// The text that stands for the instant in messages: the date, a space
    /// and the time.
    pub open spec fn displayed(self) -> Seq<char> {
        displayed_text(self.secs, self.nanos)
    }

    /// The text that the format `fmt` renders the instant as, or `None`
    /// where the format cannot render it.
    pub open spec fn formatted(self, fmt: Seq<char>) -> Option<Seq<char>> {
        formatted_text(self.secs, self.nanos, fmt)
    }

    /// Whether the sub-second part carries no leap second.
    pub open spec fn is_continuous(self) -> bool {
        0 <= self.nanos < NANOS_PER_SEC
    }

    /// The time elapsed since 1970-01-01T00:00:00 in nanoseconds, the whole
    /// sub-second part counted.
    pub open spec fn elapsed_nanos(self) -> int {
        self.secs * NANOS_PER_SEC + self.nanos
    }

    /// `self` comes strictly before `other` in calendar order: by the named
    /// second first, by the sub-second part second.
    pub open spec fn before(self, other: Instant) -> bool {
        self.secs < other.secs || (self.secs == other.secs && self.nanos < other.nanos)
    }

    /// `self` comes before `other` in calendar order or equals it.
    pub open spec fn not_after(self, other: Instant) -> bool {
        !other.before(self)
    }

    /// The same elapsed time with the sub-second part carried into the
    /// seconds, so that what is left of it is below one second.
    pub open spec fn normalized(self) -> Instant {
        Instant {
            secs: self.secs + self.nanos / (NANOS_PER_SEC as int),
            nanos: self.nanos % (NANOS_PER_SEC as int),
        }
    }

    /// The instant moved by whole seconds.
    pub open spec fn plus_seconds(self, seconds: int) -> Instant {
        Instant { secs: self.secs + seconds, nanos: self.nanos }
    }

    /// The continuous instant whose elapsed time is that of `self` plus
    /// `millis` milliseconds.
    pub open spec fn plus_millis(self, millis: int) -> Instant {
        let total = self.elapsed_nanos() + millis * 1_000_000;
        Instant { secs: total / (NANOS_PER_SEC as int), nanos: total % (NANOS_PER_SEC as int) }
    }

    /// The instant with whole seconds added to its sub-second part, which is
    /// how a leap second is shown.
    pub open spec fn with_correction(self, seconds: int) -> Instant {
        Instant { secs: self.secs, nanos: self.nanos + seconds * NANOS_PER_SEC }
    }
}

/// The instant that `text` names under the format `fmt`, or `None` where the
/// text does not match the format or names an instant that is not
/// representable.
pub open spec fn parsed_instant(text: Seq<char>, fmt: Seq<char>) -> Option<Instant> {
    match parsed_timestamp(text, fmt) {
        Some(p) => {
            let instant = Instant { secs: p.0, nanos: p.1 };
            if instant.representable() {
                Some(instant)
            } else {
                None
            }
        },
        None => None,
    }
}

/// The mathematical value of the outcome of a conversion between instants.
pub open spec fn instant_result(r: Result<DateTime, Error>) -> Result<Instant, ErrorView> {
    match r {
        Ok(datetime) => Ok(datetime@),
        Err(e) => Err(e@),
    }
}

/// What a conversion between texts gives: the text is read under the format
/// `fmt`, the instant is converted by `convert`, and the result is written
/// under the same format.
///
/// A text that is no datetime under the format gives a parse error that
/// holds the text, an error of the conversion is passed on, and a result
/// that the format cannot render gives a format error that holds the text.
pub open spec fn converted_text(
    text: Seq<char>,
    fmt: Seq<char>,
    convert: spec_fn(Instant) -> Result<Instant, ErrorView>,
) -> Result<Seq<char>, ErrorView> {
    match parsed_instant(text, fmt) {
        None => Err(ErrorView::DatetimeParseError(text)),
        Some(instant) => match convert(instant) {
            Err(e) => Err(e),
            Ok(converted) => match converted.formatted(fmt) {
                None => Err(ErrorView::DatetimeFormatError(text)),
                Some(written) => Ok(written),
            },
        },
    }
}

/// An instant as the library holds it.
///
/// The calendar second is kept as a count of seconds since
/// 1970-01-01T00:00:00, the sub-second part in nanoseconds. Every value is
/// representable in the sense of [`Instant::representable`].
#[derive(Debug, Clone, Copy, PartialEq, Eq, Structural)]
pub struct DateTime {
    secs: i64,
    nanos: u32,
}

impl View for DateTime {
    type V = Instant;

    closed spec fn view(&self) -> Instant {
        Instant { secs: self.secs as int, nanos: self.nanos as int }
    }
}

impl DateTime {
    /// What holds of every value: its instant is representable.
    #[verifier::type_invariant]
    pub open spec fn is_valid(self) -> bool {
        self@.representable()
    }

    /// The instant with the given second and sub-second part, if it is
    /// representable.
    pub fn from_timestamp(secs: i64, nanos: u32) -> (r: Option<DateTime>)
        ensures
            r is Some <==> (Instant { secs: secs as int, nanos: nanos as int }).representable(),
            r matches Some(dt) ==> dt@ == (Instant { secs: secs as int, nanos: nanos as int }),
    {
        if secs < MIN_TIMESTAMP || secs > MAX_TIMESTAMP || nanos >= 2 * NANOS_PER_SEC {
            return None;
        }
        if nanos >= NANOS_PER_SEC {
            let second_of_minute = secs.checked_rem_euclid(60);
            if second_of_minute != Some(59) {
                return None;
            }
        }
        Some(DateTime { secs, nanos })
    }

    /// Reads the instant that `text` names under the format `fmt`.
    pub fn parse_from_str(text: &str, fmt: &str) -> (r: Option<DateTime>)
        ensures
            r matches Some(dt) ==> parsed_instant(text@, fmt@) == Some(dt@),
            r is None ==> parsed_instant(text@, fmt@) is None,
    {
        match parse_timestamp(text, fmt) {
            Some(p) => DateTime::from_timestamp(p.0, p.1),
            None => None,
        }
    }

    /// Writes the instant under the format `fmt`; `None` where the format
    /// cannot render it.
    pub fn format(&self, fmt: &str) -> (r: Option<String>)
        ensures
            r matches Some(text) ==> self@.formatted(fmt@) == Some(text@),
            r is None ==> self@.formatted(fmt@) is None,
    {
        format_datetime(self, fmt)
    }

    /// Writes the instant as it stands in messages: the date, a space and
    /// the time.
    pub fn display(&self) -> (text: String)
        ensures
            text@ == self@.displayed(),
    {
        display_datetime(self)
    }

    /// Seconds since 1970-01-01T00:00:00 of the second that the calendar
    /// fields name.
    pub fn timestamp(&self) -> (secs: i64)
        ensures
            secs == self@.secs,
            self@.representable(),
    {
        proof {
            use_type_invariant(self);
        }
        self.secs
    }

    /// Nanoseconds since the start of the named second; one second or more
    /// inside a leap second.
    pub fn nanosecond(&self) -> (nanos: u32)
        ensures
            nanos == self@.nanos,
            self@.representable(),
    {
        proof {
            use_type_invariant(self);
        }
        self.nanos
    }

    /// The continuous instant that lies `seconds` whole seconds after the
    /// elapsed time of `self`; `None` where it is not representable.
    pub fn shifted(&self, seconds: i64) -> (r: Option<DateTime>)
        ensures
            r is Some <==> self@.normalized().plus_seconds(seconds as int).representable(),
            r matches Some(dt) ==> dt@ == self@.normalized().plus_seconds(seconds as int),
    {
        proof {
            use_type_invariant(self);
        }
        let carried: bool = self.nanos >= NANOS_PER_SEC;
        let base: i64 = if carried {
            self.secs + 1
        } else {
            self.secs
        };
        let nanos: u32 = if carried {
            self.nanos - NANOS_PER_SEC
        } else {
            self.nanos
        };
        match base.checked_add(seconds) {
            Some(secs) => DateTime::from_timestamp(secs, nanos),
            None => None,
        }
    }

    /// The continuous instant that lies `millis` milliseconds after the
    /// elapsed time of `self`; `None` where it is not representable.
    pub fn shifted_millis(&self, millis: i64) -> (r: Option<DateTime>)
        ensures
            r is Some <==> self@.normalized().plus_millis(millis as int).representable(),
            r matches Some(dt) ==> dt@ == self@.normalized().plus_millis(millis as int),
    {
        proof {
            use_type_invariant(self);
        }
        let total: i128 = self.secs as i128 * 1_000_000_000 + self.nanos as i128 + millis as i128
            * 1_000_000;
        let secs: i128 = match total.checked_div_euclid(1_000_000_000) {
            Some(secs) => secs,
            None => 0,
        };
        let nanos: i128 = match total.checked_rem_euclid(1_000_000_000) {
            Some(nanos) => nanos,
            None => 0,
        };
        if secs < MIN_TIMESTAMP as i128 || secs > MAX_TIMESTAMP as i128 {
            return None;
        }
        DateTime::from_timestamp(secs as i64, nanos as u32)
    }

    /// Whether `self` comes strictly before `other` in calendar order.
    pub fn is_before(&self, other: &DateTime) -> (b: bool)
        ensures
            b == self@.before(other@),
    {
        self.secs < other.secs || (self.secs == other.secs && self.nanos < other.nanos)
    }
}

/// The outcome of a conversion between texts once its result has been
/// written under the format: the text that was written, or, where the format
/// could not render the result, a format error that holds `text`, the text
/// that was converted.
pub fn written_text(text: &str, written: Option<String>) -> (r: Result<String, Error>)
    ensures
        text_result(r) == match written {
            Some(out) => Ok::<Seq<char>, ErrorView>(out@),
            None => Err(ErrorView::DatetimeFormatError(text@)),
        },
{
    match written {
        Some(out) => Ok(out),
        None => Err(Error::DatetimeFormatError(text.to_owned())),
    }
}

/// Turns an instant that may lie in a leap second into continuous elapsed
/// time: the whole sub-second part is added to the seconds as a duration.
///
/// Returns `None` where the result is past the last representable second,
/// which happens only for a leap second after that very second.
pub fn normalize_leap(datetime: &DateTime) -> (r: Option<DateTime>)
    ensures
        r is Some <==> datetime@.normalized().representable(),
        r matches Some(dt) ==> dt@ == datetime@.normalized(),
        datetime@.is_continuous() ==> r == Some(*datetime),
{
    proof {
        use_type_invariant(datetime);
    }
    datetime.shifted(0)
}

/// Puts whole seconds back on the sub-second part of a continuous instant, so
/// that it is shown as a leap second.
///
/// Returns `None` where the result is not representable: where the
/// sub-second part would reach two seconds, or the named second is not
/// numbered 59.
pub fn denormalize_leap(datetime: &DateTime, corr_seconds: u32) -> (r: Option<DateTime>)
    ensures
        r is Some <==> datetime@.with_correction(corr_seconds as int).representable(),
        r matches Some(dt) ==> dt@ == datetime@.with_correction(corr_seconds as int),
{
    let secs: i64 = datetime.timestamp();
    let nanos: u32 = datetime.nanosecond();
    if corr_seconds == 0 {
        DateTime::from_timestamp(secs, nanos)
    } else if corr_seconds == 1 && nanos < NANOS_PER_SEC {
        DateTime::from_timestamp(secs, nanos + NANOS_PER_SEC)
    } else {
        assert(nanos + corr_seconds * NANOS_PER_SEC >= 2 * NANOS_PER_SEC) by (nonlinear_arith)
            requires
                (corr_seconds >= 2 && nanos >= 0) || (corr_seconds == 1 && nanos >= NANOS_PER_SEC),
        ;
        None
    }
}

} // verus!
