use vstd::prelude::*;
use std::fmt::Write;
use chrono::{Datelike, Timelike};
use crate::signal::{FormError, FormFieldSignal, commit_validates, view_opt};

verus! {

/// The earliest year that a calendar date can have.
pub const MIN_YEAR: i32 = -262143;

/// The latest year that a calendar date can have.
pub const MAX_YEAR: i32 = 262142;

pub open spec fn is_leap_year(year: int) -> bool {
    year % 4 == 0 && (year % 100 != 0 || year % 400 == 0)
}

pub open spec fn days_in_month(year: int, month: int) -> int {
    if month == 2 {
        if is_leap_year(year) { 29 } else { 28 }
    } else if month == 4 || month == 6 || month == 9 || month == 11 {
        30
    } else {
        31
    }
}

/// A calendar date of the proleptic Gregorian calendar.
#[derive(Clone, Copy, Debug, PartialEq, Eq, Structural)]
pub struct NaiveDate {
    pub year: i32,
    pub month: u32,
    pub day: u32,
}

/// A date with a time of day, without a time zone. `secs` counts the
/// seconds since midnight; `nanos` reaches past one second only on a leap
/// second, which follows the last second of a minute.
#[derive(Clone, Copy, Debug, PartialEq, Eq, Structural)]
pub struct NaiveDateTime {
    pub date: NaiveDate,
    pub secs: u32,
    pub nanos: u32,
}

/// An instant with a fixed offset from UTC, in seconds east.
#[derive(Clone, Copy, Debug, PartialEq, Eq, Structural)]
pub struct FixedOffsetDateTime {
    pub utc: NaiveDateTime,
    pub offset: i32,
}

/// An instant shown in UTC.
#[derive(Clone, Copy, Debug, PartialEq, Eq, Structural)]
pub struct UtcDateTime {
    pub utc: NaiveDateTime,
}

/// An instant shown in the machine's local time zone.
#[derive(Clone, Copy, Debug, PartialEq, Eq, Structural)]
pub struct LocalDateTime {
    pub utc: NaiveDateTime,
}

impl NaiveDate {
    /// A date that exists in the calendar, within the years chrono holds.
    pub open spec fn wf(self) -> bool {
        &&& MIN_YEAR <= self.year <= MAX_YEAR
        &&& 1 <= self.month <= 12
        &&& 1 <= self.day <= days_in_month(self.year as int, self.month as int)
    }
}

impl NaiveDateTime {
    /// A valid date with a time of day that exists on it.
    pub open spec fn wf(self) -> bool {
        &&& self.date.wf()
        &&& self.secs < 86_400
        &&& self.nanos < 2_000_000_000
        &&& self.nanos >= 1_000_000_000 ==> self.secs % 60 == 59
    }

    /// Year, month, day, seconds since midnight and nanoseconds.
    pub open spec fn fields(self) -> (int, int, int, int, int) {
        (self.date.year as int, self.date.month as int, self.date.day as int, self.secs as int, self.nanos as int)
    }
}

impl FixedOffsetDateTime {
    pub open spec fn wf(self) -> bool {
        self.utc.wf() && -86_400 < self.offset < 86_400
    }
}

impl UtcDateTime {
    pub open spec fn wf(self) -> bool {
        self.utc.wf()
    }
}

impl LocalDateTime {
    pub open spec fn wf(self) -> bool {
        self.utc.wf()
    }
}

/// What chrono's `NaiveDate::format` writes for a date by a pattern, if the
/// pattern can be written for a date.
pub uninterp spec fn date_formatted(ymd: (int, int, int), fmt: Seq<char>) -> Option<Seq<char>>;

/// The date that chrono's `NaiveDate::parse_from_str` reads by a pattern.
pub uninterp spec fn date_parsed(text: Seq<char>, fmt: Seq<char>) -> Option<(int, int, int)>;

/// What chrono's `NaiveDateTime::format` writes by a pattern.
pub uninterp spec fn datetime_formatted(fields: (int, int, int, int, int), fmt: Seq<char>) -> Option<Seq<char>>;

/// The date and time that chrono's `NaiveDateTime::parse_from_str` reads.
pub uninterp spec fn datetime_parsed(text: Seq<char>, fmt: Seq<char>) -> Option<(int, int, int, int, int)>;

/// What chrono's `DateTime<FixedOffset>::format` writes for an instant (as
/// UTC fields) and an offset.
pub uninterp spec fn offset_datetime_formatted(fields: (int, int, int, int, int), offset: int, fmt: Seq<char>) -> Option<Seq<char>>;

/// The instant (as UTC fields) and offset that chrono's
/// `DateTime::parse_from_str` reads.
pub uninterp spec fn offset_datetime_parsed(text: Seq<char>, fmt: Seq<char>) -> Option<((int, int, int, int, int), int)>;

/// What chrono's `DateTime<Utc>::format` writes for an instant.
pub uninterp spec fn utc_datetime_formatted(fields: (int, int, int, int, int), fmt: Seq<char>) -> Option<Seq<char>>;

/// Relies on chrono's `NaiveDate::format`, written out through its
/// `Display`, which fails where the pattern asks for what a date lacks.
#[verifier::external_body]
fn format_date(d: NaiveDate, fmt: &str) -> (r: Option<String>)
    requires
        d.wf(),
    ensures
        view_opt(r) == date_formatted((d.year as int, d.month as int, d.day as int), fmt@),
{
    let date = chrono::NaiveDate::from_ymd_opt(d.year, d.month, d.day).unwrap();
    let mut out = String::new();
    match write!(out, "{}", date.format(fmt)) {
        Ok(()) => Some(out),
        Err(_) => None,
    }
}

/// Relies on chrono's `NaiveDate::parse_from_str`, which yields a valid
/// date; the error is kept as its `Display` text.
#[verifier::external_body]
fn parse_date(text: &str, fmt: &str) -> (r: Result<NaiveDate, String>)
    ensures
        date_parsed(text@, fmt@) is Some <==> r.is_ok(),
        r is Ok ==> r->Ok_0.wf() && date_parsed(text@, fmt@) == Some(
            (r->Ok_0.year as int, r->Ok_0.month as int, r->Ok_0.day as int),
        ),
{
    chrono::NaiveDate::parse_from_str(text, fmt)
        .map(|d| NaiveDate { year: d.year(), month: d.month(), day: d.day() })
        .map_err(|e| e.to_string())
}

/// Relies on chrono's `NaiveDateTime::format`, written out through its
/// `Display`, which fails on a pattern that cannot be written.
#[verifier::external_body]
fn format_datetime(v: NaiveDateTime, fmt: &str) -> (r: Option<String>)
    requires
        v.wf(),
    ensures
        view_opt(r) == datetime_formatted(v.fields(), fmt@),
{
    let time = chrono::NaiveTime::from_num_seconds_from_midnight_opt(v.secs, v.nanos).unwrap();
    let date = chrono::NaiveDate::from_ymd_opt(v.date.year, v.date.month, v.date.day).unwrap();
    let mut out = String::new();
    match write!(out, "{}", date.and_time(time).format(fmt)) {
        Ok(()) => Some(out),
        Err(_) => None,
    }
}

/// Relies on chrono's `NaiveDateTime::parse_from_str`, which yields a valid
/// date and time; the error is kept as its `Display` text.
#[verifier::external_body]
fn parse_datetime(text: &str, fmt: &str) -> (r: Result<NaiveDateTime, String>)
    ensures
        datetime_parsed(text@, fmt@) is Some <==> r.is_ok(),
        r is Ok ==> r->Ok_0.wf() && datetime_parsed(text@, fmt@) == Some(r->Ok_0.fields()),
{
    chrono::NaiveDateTime::parse_from_str(text, fmt).map(|d| NaiveDateTime {
        date: NaiveDate { year: d.year(), month: d.month(), day: d.day() },
        secs: d.num_seconds_from_midnight(),
        nanos: d.nanosecond(),
    }).map_err(|e| e.to_string())
}

/// Relies on chrono's `DateTime<FixedOffset>::format`, written out through
/// its `Display`, which fails on a pattern that cannot be written.
#[verifier::external_body]
fn format_offset_datetime(v: FixedOffsetDateTime, fmt: &str) -> (r: Option<String>)
    requires
        v.wf(),
    ensures
        view_opt(r) == offset_datetime_formatted(v.utc.fields(), v.offset as int, fmt@),
{
    let u = v.utc;
    let time = chrono::NaiveTime::from_num_seconds_from_midnight_opt(u.secs, u.nanos).unwrap();
    let naive = chrono::NaiveDate::from_ymd_opt(u.date.year, u.date.month, u.date.day).unwrap().and_time(time);
    let offset = chrono::FixedOffset::east_opt(v.offset).unwrap();
    let mut out = String::new();
    match write!(out, "{}", chrono::DateTime::<chrono::FixedOffset>::from_naive_utc_and_offset(naive, offset).format(fmt)) {
        Ok(()) => Some(out),
        Err(_) => None,
    }
}

/// Relies on chrono's `DateTime::parse_from_str`, which yields an instant
/// with a valid offset; the error is kept as its `Display` text.
#[verifier::external_body]
fn parse_offset_datetime(text: &str, fmt: &str) -> (r: Result<FixedOffsetDateTime, String>)
    ensures
        offset_datetime_parsed(text@, fmt@) is Some <==> r.is_ok(),
        r is Ok ==> r->Ok_0.wf() && offset_datetime_parsed(text@, fmt@) == Some(
            (r->Ok_0.utc.fields(), r->Ok_0.offset as int),
        ),
{
    chrono::DateTime::parse_from_str(text, fmt).map(|d| {
        let u = d.naive_utc();
        FixedOffsetDateTime {
            utc: NaiveDateTime {
                date: NaiveDate { year: u.year(), month: u.month(), day: u.day() },
                secs: u.num_seconds_from_midnight(),
                nanos: u.nanosecond(),
            },
            offset: d.offset().local_minus_utc(),
        }
    }).map_err(|e| e.to_string())
}

/// Relies on chrono's `DateTime<Utc>::format`, written out through its
/// `Display`, which fails on a pattern that cannot be written.
#[verifier::external_body]
fn format_utc_datetime(v: UtcDateTime, fmt: &str) -> (r: Option<String>)
    requires
        v.wf(),
    ensures
        view_opt(r) == utc_datetime_formatted(v.utc.fields(), fmt@),
{
    let u = v.utc;
    let time = chrono::NaiveTime::from_num_seconds_from_midnight_opt(u.secs, u.nanos).unwrap();
    let naive = chrono::NaiveDate::from_ymd_opt(u.date.year, u.date.month, u.date.day).unwrap().and_time(time);
    let mut out = String::new();
    match write!(out, "{}", chrono::DateTime::<chrono::Utc>::from_naive_utc_and_offset(naive, chrono::Utc).format(fmt)) {
        Ok(()) => Some(out),
        Err(_) => None,
    }
}

/// Relies on chrono's `DateTime<Local>::format` after
/// `with_timezone(&Local)`; the text depends on the machine's time zone, so
/// nothing is stated of it.
#[verifier::external_body]
fn format_local_datetime(v: LocalDateTime, fmt: &str) -> (r: Option<String>)
    requires
        v.wf(),
{
    let u = v.utc;
    let time = chrono::NaiveTime::from_num_seconds_from_midnight_opt(u.secs, u.nanos).unwrap();
    let naive = chrono::NaiveDate::from_ymd_opt(u.date.year, u.date.month, u.date.day).unwrap().and_time(time);
    let local = chrono::DateTime::<chrono::Utc>::from_naive_utc_and_offset(naive, chrono::Utc).with_timezone(&chrono::Local);
    let mut out = String::new();
    match write!(out, "{}", local.format(fmt)) {
        Ok(()) => Some(out),
        Err(_) => None,
    }
}

/// The date and time with the given fields.
pub open spec fn naive_datetime_from(f: (int, int, int, int, int)) -> NaiveDateTime {
    NaiveDateTime {
        date: NaiveDate { year: f.0 as i32, month: f.1 as u32, day: f.2 as u32 },
        secs: f.3 as u32,
        nanos: f.4 as u32,
    }
}

/// Options of a date field: the pattern, in chrono's strftime syntax, by
/// which its text is written and read.
#[derive(Clone, Debug)]
pub struct NaiveDateConfig {
    pub format: &'static str,
}

impl Default for NaiveDateConfig {
    /// The pattern `%F`.
    fn default() -> (r: NaiveDateConfig)
        ensures
            r.format@ == "%F"@,
    {
        NaiveDateConfig { format: "%F" }
    }
}

/// Options of a date-time field: the pattern, in chrono's strftime syntax, by
/// which its text is written and read.
#[derive(Clone, Debug)]
pub struct NaiveDateTimeConfig {
    pub format: &'static str,
}

impl Default for NaiveDateTimeConfig {
    /// The pattern `%FT%T`.
    fn default() -> (r: NaiveDateTimeConfig)
        ensures
            r.format@ == "%FT%T"@,
    {
        NaiveDateTimeConfig { format: "%FT%T" }
    }
}

/// Options of a fixed-offset date-time field: the pattern, in chrono's strftime syntax, by
/// which its text is written and read.
#[derive(Clone, Debug)]
pub struct FixedOffsetDateTimeConfig {
    pub format: &'static str,
}

impl Default for FixedOffsetDateTimeConfig {
    /// The pattern `%+`.
    fn default() -> (r: FixedOffsetDateTimeConfig)
        ensures
            r.format@ == "%+"@,
    {
        FixedOffsetDateTimeConfig { format: "%+" }
    }
}

/// Options of a UTC date-time field: the pattern, in chrono's strftime syntax, by
/// which its text is written and read.
#[derive(Clone, Debug)]
pub struct UtcDateTimeConfig {
    pub format: &'static str,
}

impl Default for UtcDateTimeConfig {
    /// The pattern `%+`.
    fn default() -> (r: UtcDateTimeConfig)
        ensures
            r.format@ == "%+"@,
    {
        UtcDateTimeConfig { format: "%+" }
    }
}

/// Options of a local date-time field: the pattern, in chrono's strftime syntax, by
/// which its text is written and read.
#[derive(Clone, Debug)]
pub struct LocalDateTimeConfig {
    pub format: &'static str,
}

impl Default for LocalDateTimeConfig {
    /// The pattern `%FT%T`.
    fn default() -> (r: LocalDateTimeConfig)
        ensures
            r.format@ == "%FT%T"@,
    {
        LocalDateTimeConfig { format: "%FT%T" }
    }
}

impl NaiveDate {
    /// The text that the pattern `fmt` writes for this value, if it can.
    pub open spec fn text_in(self, fmt: Seq<char>) -> Option<Seq<char>> {
        date_formatted((self.year as int, self.month as int, self.day as int), fmt)
    }

    /// The value that the pattern `fmt` reads from `text`, if any.
    pub open spec fn parsed_from(text: Seq<char>, fmt: Seq<char>) -> Option<NaiveDate> {
        match date_parsed(text, fmt) {
            Some(p) => Some(NaiveDate { year: p.0 as i32, month: p.1 as u32, day: p.2 as u32 }),
            None => None,
        }
    }

    /// The texts that a field starts with, seeded from `initial`: `None`
    /// where the pattern cannot write it.
    pub open spec fn initial_text(initial: Option<NaiveDate>, fmt: Seq<char>) -> Option<Option<Seq<char>>> {
        match initial {
            None => Some(None),
            Some(v) => match v.text_in(fmt) {
                Some(t) => Some(Some(t)),
                None => None,
            },
        }
    }

    /// A field seeded from `initial`: its text, as current and baseline
    /// text, or the empty text where there is none. `None` where the
    /// pattern cannot write `initial`.
    pub fn default_signal(config: &NaiveDateConfig, initial: Option<NaiveDate>) -> (r: Option<FormFieldSignal>)
        requires
            initial is Some ==> initial->0.wf(),
        ensures
            r is Some <==> NaiveDate::initial_text(initial, config.format@) is Some,
            r is Some ==> view_opt(r->0.initial) == NaiveDate::initial_text(initial, config.format@)->0,
            r is Some ==> r->0.value@ == match r->0.initial {
                Some(t) => t@,
                None => Seq::<char>::empty(),
            },
            r is Some ==> r->0.error is None,
    {
        let text = match initial {
            Some(v) => match format_date(v, config.format) {
                Some(t) => Some(t),
                None => {
                    return None;
                },
            },
            None => None,
        };
        Some(FormFieldSignal::new_with_default_value(text))
    }

    /// A field holding the text of `self`, with the text of `initial` as
    /// its baseline. `None` where the pattern cannot write one of them.
    pub fn into_signal(self, config: &NaiveDateConfig, initial: Option<NaiveDate>) -> (r: Option<FormFieldSignal>)
        requires
            self.wf(),
            initial is Some ==> initial->0.wf(),
        ensures
            r is Some <==> self.text_in(config.format@) is Some && NaiveDate::initial_text(initial, config.format@) is Some,
            r is Some ==> r->0.value@ == self.text_in(config.format@)->0,
            r is Some ==> view_opt(r->0.initial) == NaiveDate::initial_text(initial, config.format@)->0,
            r is Some ==> r->0.error is None,
    {
        let text = match format_date(self, config.format) {
            Some(t) => t,
            None => {
                return None;
            },
        };
        let baseline = match initial {
            Some(v) => match format_date(v, config.format) {
                Some(t) => Some(t),
                None => {
                    return None;
                },
            },
            None => None,
        };
        Some(FormFieldSignal::new(text, baseline))
    }

    /// Parses the field's current text by the configured pattern.
    pub fn try_from_signal(signal: &FormFieldSignal, config: &NaiveDateConfig) -> (r: Result<NaiveDate, FormError>)
        ensures
            r.is_ok() == NaiveDate::parsed_from(signal.value@, config.format@) is Some,
            r is Ok ==> r->Ok_0.wf() && NaiveDate::parsed_from(signal.value@, config.format@) == Some(r->Ok_0),
    {
        match parse_date(signal.value.as_str(), config.format) {
            Ok(v) => Ok(v),
            Err(message) => Err(FormError::parse(message)),
        }
    }

    /// A commit event: validates the text, unless the field is optional and
    /// empty, and records the outcome in the error slot.
    pub fn commit(signal: &mut FormFieldSignal, config: &NaiveDateConfig, is_optional: bool)
        ensures
            final(signal).value == old(signal).value,
            final(signal).initial == old(signal).initial,
            !commit_validates(old(signal).value@, is_optional) ==> final(signal).error is None,
            commit_validates(old(signal).value@, is_optional) ==> (final(signal).error is None
                <==> NaiveDate::parsed_from(old(signal).value@, config.format@) is Some),
    {
        let outcome = if signal.needs_validation(is_optional) {
            Some(NaiveDate::try_from_signal(signal, config))
        } else {
            None
        };
        signal.settle(outcome);
    }
}

impl NaiveDateTime {
    /// The text that the pattern `fmt` writes for this value, if it can.
    pub open spec fn text_in(self, fmt: Seq<char>) -> Option<Seq<char>> {
        datetime_formatted(self.fields(), fmt)
    }

    /// The value that the pattern `fmt` reads from `text`, if any.
    pub open spec fn parsed_from(text: Seq<char>, fmt: Seq<char>) -> Option<NaiveDateTime> {
        match datetime_parsed(text, fmt) {
            Some(p) => Some(naive_datetime_from(p)),
            None => None,
        }
    }

    /// The texts that a field starts with, seeded from `initial`: `None`
    /// where the pattern cannot write it.
    pub open spec fn initial_text(initial: Option<NaiveDateTime>, fmt: Seq<char>) -> Option<Option<Seq<char>>> {
        match initial {
            None => Some(None),
            Some(v) => match v.text_in(fmt) {
                Some(t) => Some(Some(t)),
                None => None,
            },
        }
    }

    /// A field seeded from `initial`: its text, as current and baseline
    /// text, or the empty text where there is none. `None` where the
    /// pattern cannot write `initial`.
    pub fn default_signal(config: &NaiveDateTimeConfig, initial: Option<NaiveDateTime>) -> (r: Option<FormFieldSignal>)
        requires
            initial is Some ==> initial->0.wf(),
        ensures
            r is Some <==> NaiveDateTime::initial_text(initial, config.format@) is Some,
            r is Some ==> view_opt(r->0.initial) == NaiveDateTime::initial_text(initial, config.format@)->0,
            r is Some ==> r->0.value@ == match r->0.initial {
                Some(t) => t@,
                None => Seq::<char>::empty(),
            },
            r is Some ==> r->0.error is None,
    {
        let text = match initial {
            Some(v) => match format_datetime(v, config.format) {
                Some(t) => Some(t),
                None => {
                    return None;
                },
            },
            None => None,
        };
        Some(FormFieldSignal::new_with_default_value(text))
    }

    /// A field holding the text of `self`, with the text of `initial` as
    /// its baseline. `None` where the pattern cannot write one of them.
    pub fn into_signal(self, config: &NaiveDateTimeConfig, initial: Option<NaiveDateTime>) -> (r: Option<FormFieldSignal>)
        requires
            self.wf(),
            initial is Some ==> initial->0.wf(),
        ensures
            r is Some <==> self.text_in(config.format@) is Some && NaiveDateTime::initial_text(initial, config.format@) is Some,
            r is Some ==> r->0.value@ == self.text_in(config.format@)->0,
            r is Some ==> view_opt(r->0.initial) == NaiveDateTime::initial_text(initial, config.format@)->0,
            r is Some ==> r->0.error is None,
    {
        let text = match format_datetime(self, config.format) {
            Some(t) => t,
            None => {
                return None;
            },
        };
        let baseline = match initial {
            Some(v) => match format_datetime(v, config.format) {
                Some(t) => Some(t),
                None => {
                    return None;
                },
            },
            None => None,
        };
        Some(FormFieldSignal::new(text, baseline))
    }

    /// Parses the field's current text by the configured pattern.
    pub fn try_from_signal(signal: &FormFieldSignal, config: &NaiveDateTimeConfig) -> (r: Result<NaiveDateTime, FormError>)
        ensures
            r.is_ok() == NaiveDateTime::parsed_from(signal.value@, config.format@) is Some,
            r is Ok ==> r->Ok_0.wf() && NaiveDateTime::parsed_from(signal.value@, config.format@) == Some(r->Ok_0),
    {
        match parse_datetime(signal.value.as_str(), config.format) {
            Ok(v) => Ok(v),
            Err(message) => Err(FormError::parse(message)),
        }
    }

    /// A commit event: validates the text, unless the field is optional and
    /// empty, and records the outcome in the error slot.
    pub fn commit(signal: &mut FormFieldSignal, config: &NaiveDateTimeConfig, is_optional: bool)
        ensures
            final(signal).value == old(signal).value,
            final(signal).initial == old(signal).initial,
            !commit_validates(old(signal).value@, is_optional) ==> final(signal).error is None,
            commit_validates(old(signal).value@, is_optional) ==> (final(signal).error is None
                <==> NaiveDateTime::parsed_from(old(signal).value@, config.format@) is Some),
    {
        let outcome = if signal.needs_validation(is_optional) {
            Some(NaiveDateTime::try_from_signal(signal, config))
        } else {
            None
        };
        signal.settle(outcome);
    }
}

impl FixedOffsetDateTime {
    /// The text that the pattern `fmt` writes for this value, if it can.
    pub open spec fn text_in(self, fmt: Seq<char>) -> Option<Seq<char>> {
        offset_datetime_formatted(self.utc.fields(), self.offset as int, fmt)
    }

    /// The value that the pattern `fmt` reads from `text`, if any.
    pub open spec fn parsed_from(text: Seq<char>, fmt: Seq<char>) -> Option<FixedOffsetDateTime> {
        match offset_datetime_parsed(text, fmt) {
            Some(p) => Some(FixedOffsetDateTime { utc: naive_datetime_from(p.0), offset: p.1 as i32 }),
            None => None,
        }
    }

    /// The texts that a field starts with, seeded from `initial`: `None`
    /// where the pattern cannot write it.
    pub open spec fn initial_text(initial: Option<FixedOffsetDateTime>, fmt: Seq<char>) -> Option<Option<Seq<char>>> {
        match initial {
            None => Some(None),
            Some(v) => match v.text_in(fmt) {
                Some(t) => Some(Some(t)),
                None => None,
            },
        }
    }

    /// A field seeded from `initial`: its text, as current and baseline
    /// text, or the empty text where there is none. `None` where the
    /// pattern cannot write `initial`.
    pub fn default_signal(config: &FixedOffsetDateTimeConfig, initial: Option<FixedOffsetDateTime>) -> (r: Option<FormFieldSignal>)
        requires
            initial is Some ==> initial->0.wf(),
        ensures
            r is Some <==> FixedOffsetDateTime::initial_text(initial, config.format@) is Some,
            r is Some ==> view_opt(r->0.initial) == FixedOffsetDateTime::initial_text(initial, config.format@)->0,
            r is Some ==> r->0.value@ == match r->0.initial {
                Some(t) => t@,
                None => Seq::<char>::empty(),
            },
            r is Some ==> r->0.error is None,
    {
        let text = match initial {
            Some(v) => match format_offset_datetime(v, config.format) {
                Some(t) => Some(t),
                None => {
                    return None;
                },
            },
            None => None,
        };
        Some(FormFieldSignal::new_with_default_value(text))
    }

    /// A field holding the text of `self`, with the text of `initial` as
    /// its baseline. `None` where the pattern cannot write one of them.
    pub fn into_signal(self, config: &FixedOffsetDateTimeConfig, initial: Option<FixedOffsetDateTime>) -> (r: Option<FormFieldSignal>)
        requires
            self.wf(),
            initial is Some ==> initial->0.wf(),
        ensures
            r is Some <==> self.text_in(config.format@) is Some && FixedOffsetDateTime::initial_text(initial, config.format@) is Some,
            r is Some ==> r->0.value@ == self.text_in(config.format@)->0,
            r is Some ==> view_opt(r->0.initial) == FixedOffsetDateTime::initial_text(initial, config.format@)->0,
            r is Some ==> r->0.error is None,
    {
        let text = match format_offset_datetime(self, config.format) {
            Some(t) => t,
            None => {
                return None;
            },
        };
        let baseline = match initial {
            Some(v) => match format_offset_datetime(v, config.format) {
                Some(t) => Some(t),
                None => {
                    return None;
                },
            },
            None => None,
        };
        Some(FormFieldSignal::new(text, baseline))
    }

    /// Parses the field's current text by the configured pattern.
    pub fn try_from_signal(signal: &FormFieldSignal, config: &FixedOffsetDateTimeConfig) -> (r: Result<FixedOffsetDateTime, FormError>)
        ensures
            r.is_ok() == FixedOffsetDateTime::parsed_from(signal.value@, config.format@) is Some,
            r is Ok ==> r->Ok_0.wf() && FixedOffsetDateTime::parsed_from(signal.value@, config.format@) == Some(r->Ok_0),
    {
        match parse_offset_datetime(signal.value.as_str(), config.format) {
            Ok(v) => Ok(v),
            Err(message) => Err(FormError::parse(message)),
        }
    }

    /// A commit event: validates the text, unless the field is optional and
    /// empty, and records the outcome in the error slot.
    pub fn commit(signal: &mut FormFieldSignal, config: &FixedOffsetDateTimeConfig, is_optional: bool)
        ensures
            final(signal).value == old(signal).value,
            final(signal).initial == old(signal).initial,
            !commit_validates(old(signal).value@, is_optional) ==> final(signal).error is None,
            commit_validates(old(signal).value@, is_optional) ==> (final(signal).error is None
                <==> FixedOffsetDateTime::parsed_from(old(signal).value@, config.format@) is Some),
    {
        let outcome = if signal.needs_validation(is_optional) {
            Some(FixedOffsetDateTime::try_from_signal(signal, config))
        } else {
            None
        };
        signal.settle(outcome);
    }
}

impl UtcDateTime {
    /// The text that the pattern `fmt` writes for this value, if it can.
    pub open spec fn text_in(self, fmt: Seq<char>) -> Option<Seq<char>> {
        utc_datetime_formatted(self.utc.fields(), fmt)
    }

    /// The value that the pattern `fmt` reads from `text`, if any.
    pub open spec fn parsed_from(text: Seq<char>, fmt: Seq<char>) -> Option<UtcDateTime> {
        match offset_datetime_parsed(text, fmt) {
            Some(p) => Some(UtcDateTime { utc: naive_datetime_from(p.0) }),
            None => None,
        }
    }

    /// The texts that a field starts with, seeded from `initial`: `None`
    /// where the pattern cannot write it.
    pub open spec fn initial_text(initial: Option<UtcDateTime>, fmt: Seq<char>) -> Option<Option<Seq<char>>> {
        match initial {
            None => Some(None),
            Some(v) => match v.text_in(fmt) {
                Some(t) => Some(Some(t)),
                None => None,
            },
        }
    }

    /// A field seeded from `initial`: its text, as current and baseline
    /// text, or the empty text where there is none. `None` where the
    /// pattern cannot write `initial`.
    pub fn default_signal(config: &UtcDateTimeConfig, initial: Option<UtcDateTime>) -> (r: Option<FormFieldSignal>)
        requires
            initial is Some ==> initial->0.wf(),
        ensures
            r is Some <==> UtcDateTime::initial_text(initial, config.format@) is Some,
            r is Some ==> view_opt(r->0.initial) == UtcDateTime::initial_text(initial, config.format@)->0,
            r is Some ==> r->0.value@ == match r->0.initial {
                Some(t) => t@,
                None => Seq::<char>::empty(),
            },
            r is Some ==> r->0.error is None,
    {
        let text = match initial {
            Some(v) => match format_utc_datetime(v, config.format) {
                Some(t) => Some(t),
                None => {
                    return None;
                },
            },
            None => None,
        };
        Some(FormFieldSignal::new_with_default_value(text))
    }

    /// A field holding the text of `self`, with the text of `initial` as
    /// its baseline. `None` where the pattern cannot write one of them.
    pub fn into_signal(self, config: &UtcDateTimeConfig, initial: Option<UtcDateTime>) -> (r: Option<FormFieldSignal>)
        requires
            self.wf(),
            initial is Some ==> initial->0.wf(),
        ensures
            r is Some <==> self.text_in(config.format@) is Some && UtcDateTime::initial_text(initial, config.format@) is Some,
            r is Some ==> r->0.value@ == self.text_in(config.format@)->0,
            r is Some ==> view_opt(r->0.initial) == UtcDateTime::initial_text(initial, config.format@)->0,
            r is Some ==> r->0.error is None,
    {
        let text = match format_utc_datetime(self, config.format) {
            Some(t) => t,
            None => {
                return None;
            },
        };
        let baseline = match initial {
            Some(v) => match format_utc_datetime(v, config.format) {
                Some(t) => Some(t),
                None => {
                    return None;
                },
            },
            None => None,
        };
        Some(FormFieldSignal::new(text, baseline))
    }

    /// Parses the field's current text by the configured pattern.
    pub fn try_from_signal(signal: &FormFieldSignal, config: &UtcDateTimeConfig) -> (r: Result<UtcDateTime, FormError>)
        ensures
            r.is_ok() == UtcDateTime::parsed_from(signal.value@, config.format@) is Some,
            r is Ok ==> r->Ok_0.wf() && UtcDateTime::parsed_from(signal.value@, config.format@) == Some(r->Ok_0),
    {
        match parse_offset_datetime(signal.value.as_str(), config.format) {
            Ok(v) => Ok(UtcDateTime { utc: v.utc }),
            Err(message) => Err(FormError::parse(message)),
        }
    }

    /// A commit event: validates the text, unless the field is optional and
    /// empty, and records the outcome in the error slot.
    pub fn commit(signal: &mut FormFieldSignal, config: &UtcDateTimeConfig, is_optional: bool)
        ensures
            final(signal).value == old(signal).value,
            final(signal).initial == old(signal).initial,
            !commit_validates(old(signal).value@, is_optional) ==> final(signal).error is None,
            commit_validates(old(signal).value@, is_optional) ==> (final(signal).error is None
                <==> UtcDateTime::parsed_from(old(signal).value@, config.format@) is Some),
    {
        let outcome = if signal.needs_validation(is_optional) {
            Some(UtcDateTime::try_from_signal(signal, config))
        } else {
            None
        };
        signal.settle(outcome);
    }
}

impl LocalDateTime {
    /// The value that the pattern `fmt` reads from `text`, if any.
    pub open spec fn parsed_from(text: Seq<char>, fmt: Seq<char>) -> Option<LocalDateTime> {
        match offset_datetime_parsed(text, fmt) {
            Some(p) => Some(LocalDateTime { utc: naive_datetime_from(p.0) }),
            None => None,
        }
    }

    /// A field seeded from `initial`: its text, as current and baseline
    /// text, or the empty text where there is none. `None` where the
    /// pattern cannot write `initial`.
    pub fn default_signal(config: &LocalDateTimeConfig, initial: Option<LocalDateTime>) -> (r: Option<FormFieldSignal>)
        requires
            initial is Some ==> initial->0.wf(),
        ensures
            initial is None ==> r is Some && r->0.initial is None,
            r is Some ==> (r->0.initial is Some <==> initial is Some),
            r is Some ==> r->0.value@ == match r->0.initial {
                Some(t) => t@,
                None => Seq::<char>::empty(),
            },
            r is Some ==> r->0.error is None,
    {
        let text = match initial {
            Some(v) => match format_local_datetime(v, config.format) {
                Some(t) => Some(t),
                None => {
                    return None;
                },
            },
            None => None,
        };
        Some(FormFieldSignal::new_with_default_value(text))
    }

    /// A field holding the text of `self`, with the text of `initial` as
    /// its baseline. `None` where the pattern cannot write one of them.
    pub fn into_signal(self, config: &LocalDateTimeConfig, initial: Option<LocalDateTime>) -> (r: Option<FormFieldSignal>)
        requires
            self.wf(),
            initial is Some ==> initial->0.wf(),
        ensures
            r is Some ==> (r->0.initial is Some <==> initial is Some),
            r is Some ==> r->0.error is None,
    {
        let text = match format_local_datetime(self, config.format) {
            Some(t) => t,
            None => {
                return None;
            },
        };
        let baseline = match initial {
            Some(v) => match format_local_datetime(v, config.format) {
                Some(t) => Some(t),
                None => {
                    return None;
                },
            },
            None => None,
        };
        Some(FormFieldSignal::new(text, baseline))
    }

    /// Parses the field's current text by the configured pattern.
    pub fn try_from_signal(signal: &FormFieldSignal, config: &LocalDateTimeConfig) -> (r: Result<LocalDateTime, FormError>)
        ensures
            r.is_ok() == LocalDateTime::parsed_from(signal.value@, config.format@) is Some,
            r is Ok ==> r->Ok_0.wf() && LocalDateTime::parsed_from(signal.value@, config.format@) == Some(r->Ok_0),
    {
        match parse_offset_datetime(signal.value.as_str(), config.format) {
            Ok(v) => Ok(LocalDateTime { utc: v.utc }),
            Err(message) => Err(FormError::parse(message)),
        }
    }

    /// A commit event: validates the text, unless the field is optional and
    /// empty, and records the outcome in the error slot.
    pub fn commit(signal: &mut FormFieldSignal, config: &LocalDateTimeConfig, is_optional: bool)
        ensures
            final(signal).value == old(signal).value,
            final(signal).initial == old(signal).initial,
            !commit_validates(old(signal).value@, is_optional) ==> final(signal).error is None,
            commit_validates(old(signal).value@, is_optional) ==> (final(signal).error is None
                <==> LocalDateTime::parsed_from(old(signal).value@, config.format@) is Some),
    {
        let outcome = if signal.needs_validation(is_optional) {
            Some(LocalDateTime::try_from_signal(signal, config))
        } else {
            None
        };
        signal.settle(outcome);
    }
}

} // verus!
