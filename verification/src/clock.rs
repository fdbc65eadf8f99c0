//! Calendar dates, times of day and moments with an offset from UTC, held as
//! plain numbers, with their canonical text.
use crate::text::{fixed_decimal, decimal, push_decimal, push_fixed_decimal};
use vstd::prelude::*;

verus! {

/// Whether `year` of the proleptic Gregorian calendar has a 29th of February.
pub open spec fn is_leap_year(year: int) -> bool {
    year % 4 == 0 && (year % 100 != 0 || year % 400 == 0)
}

/// The number of days of month `month` (1 to 12) in `year`.
pub open spec fn days_in_month(year: int, month: int) -> int {
    if month == 2 {
        if is_leap_year(year) {
            29
        } else {
            28
        }
    } else if month == 4 || month == 6 || month == 9 || month == 11 {
        30
    } else {
        31
    }
}

/// The number of days of `year` that lie before the first of `month`.
pub open spec fn days_before_month(year: int, month: int) -> int
    decreases month,
{
    if month <= 1 {
        0
    } else {
        days_before_month(year, month - 1) + days_in_month(year, month - 1)
    }
}

/// Whether `(year, month, day)` is a date of the calendar, within the years
/// -9999 to 9999.
pub open spec fn valid_date(year: int, month: int, day: int) -> bool {
    &&& -9999 <= year <= 9999
    &&& 1 <= month <= 12
    &&& 1 <= day <= days_in_month(year, month)
}

/// Whether `(hour, minute, second, nanosecond)` is a time of day.
pub open spec fn valid_time(hour: int, minute: int, second: int, nanosecond: int) -> bool {
    &&& 0 <= hour <= 23
    &&& 0 <= minute <= 59
    &&& 0 <= second <= 59
    &&& 0 <= nanosecond <= 999_999_999
}

/// Whether `(hours, minutes, seconds)` is an offset from UTC: each part in
/// range, and no two parts of opposite sign.
pub open spec fn valid_offset(hours: int, minutes: int, seconds: int) -> bool {
    &&& -25 <= hours <= 25
    &&& -59 <= minutes <= 59
    &&& -59 <= seconds <= 59
    &&& (hours > 0 ==> minutes >= 0 && seconds >= 0)
    &&& (hours < 0 ==> minutes <= 0 && seconds <= 0)
    &&& (minutes > 0 ==> seconds >= 0)
    &&& (minutes < 0 ==> seconds <= 0)
}

/// The absolute value of `i`.
pub open spec fn magnitude(i: int) -> nat {
    if i < 0 {
        (-i) as nat
    } else {
        i as nat
    }
}

/// The text of a date: the year in four digits, with a minus sign before a
/// negative one, then month and day in two digits each, joined by `-`.
pub open spec fn date_text(year: int, month: int, day: int) -> Seq<char> {
    (if year < 0 {
        seq!['-']
    } else {
        Seq::<char>::empty()
    }) + fixed_decimal(magnitude(year), 4) + seq!['-'] + fixed_decimal(month as nat, 2) + seq!['-']
        + fixed_decimal(day as nat, 2)
}

/// The first `width` of the nine decimal places of a second that `n` counts,
/// without trailing zeros but with at least one digit.
pub open spec fn fraction_text(n: nat, width: nat) -> Seq<char>
    decreases width,
{
    if width > 1 && n % 10 == 0 {
        fraction_text(n / 10, (width - 1) as nat)
    } else {
        fixed_decimal(n, width)
    }
}

/// The text of a time of day: the hour without padding, minute and second in
/// two digits each, then the fraction of the second.
pub open spec fn time_text(hour: int, minute: int, second: int, nanosecond: int) -> Seq<char> {
    decimal(hour as nat) + seq![':'] + fixed_decimal(minute as nat, 2) + seq![':'] + fixed_decimal(
        second as nat,
        2,
    ) + seq!['.'] + fraction_text(nanosecond as nat, 9)
}

/// The text of an offset from UTC: a sign, then hours, minutes and seconds in
/// two digits each, joined by `:`.
pub open spec fn offset_text(hours: int, minutes: int, seconds: int) -> Seq<char> {
    (if hours < 0 || minutes < 0 || seconds < 0 {
        seq!['-']
    } else {
        seq!['+']
    }) + fixed_decimal(magnitude(hours), 2) + seq![':'] + fixed_decimal(magnitude(minutes), 2)
        + seq![':'] + fixed_decimal(magnitude(seconds), 2)
}

/// A date of the proleptic Gregorian calendar.
#[derive(Clone, Copy, Debug, PartialEq, Eq)]
pub struct Date {
    pub(crate) year: i32,
    pub(crate) month: u8,
    pub(crate) day: u8,
}

/// A time of day, to the nanosecond.
#[derive(Clone, Copy, Debug, PartialEq, Eq)]
pub struct Time {
    pub(crate) hour: u8,
    pub(crate) minute: u8,
    pub(crate) second: u8,
    pub(crate) nanosecond: u32,
}

/// An offset from UTC, in hours, minutes and seconds.
#[derive(Clone, Copy, Debug, PartialEq, Eq)]
pub struct UtcOffset {
    pub(crate) hours: i8,
    pub(crate) minutes: i8,
    pub(crate) seconds: i8,
}

/// A date and a time of day at an offset from UTC.
#[derive(Clone, Copy, Debug, PartialEq, Eq)]
pub struct OffsetDateTime {
    pub(crate) date: Date,
    pub(crate) time: Time,
    pub(crate) offset: UtcOffset,
}

impl View for Date {
    type V = (int, int, int);

    /// Year, month and day.
    closed spec fn view(&self) -> (int, int, int) {
        (self.year as int, self.month as int, self.day as int)
    }
}

impl View for Time {
    type V = (int, int, int, int);

    /// Hour, minute, second and nanosecond.
    closed spec fn view(&self) -> (int, int, int, int) {
        (self.hour as int, self.minute as int, self.second as int, self.nanosecond as int)
    }
}

impl View for UtcOffset {
    type V = (int, int, int);

    /// Hours, minutes and seconds.
    closed spec fn view(&self) -> (int, int, int) {
        (self.hours as int, self.minutes as int, self.seconds as int)
    }
}

impl View for OffsetDateTime {
    type V = ((int, int, int), (int, int, int, int), (int, int, int));

    /// The views of date, time and offset.
    closed spec fn view(&self) -> ((int, int, int), (int, int, int, int), (int, int, int)) {
        (self.date@, self.time@, self.offset@)
    }
}

fn leap(year: i32) -> (r: bool)
    requires
        -9999 <= year <= 9999,
    ensures
        r == is_leap_year(year as int),
{
    let shifted: u32 = (year + 10000) as u32;
    assert(is_leap_year(year as int) == is_leap_year(shifted as int)) by {
        assert((year + 10000) % 4 == year % 4);
        assert((year + 10000) % 100 == year % 100);
        assert((year + 10000) % 400 == year % 400);
    }
    shifted % 4 == 0 && (shifted % 100 != 0 || shifted % 400 == 0)
}

fn month_length(year: i32, month: u8) -> (r: u8)
    requires
        -9999 <= year <= 9999,
    ensures
        r == days_in_month(year as int, month as int),
{
    if month == 2 {
        if leap(year) {
            29
        } else {
            28
        }
    } else if month == 4 || month == 6 || month == 9 || month == 11 {
        30
    } else {
        31
    }
}

impl Date {
    #[verifier::type_invariant]
    spec fn well_formed(self) -> bool {
        valid_date(self.year as int, self.month as int, self.day as int)
    }

    /// Whether this is a date of the calendar. It holds of every date that
    /// this library hands out.
    pub open spec fn valid(self) -> bool {
        valid_date(self@.0, self@.1, self@.2)
    }

    /// The canonical text of the date.
    pub open spec fn text(self) -> Seq<char> {
        date_text(self@.0, self@.1, self@.2)
    }

    /// The day of the year, from 1.
    pub open spec fn spec_ordinal(self) -> int {
        days_before_month(self@.0, self@.1) + self@.2
    }

    /// Does nothing when run; to the verifier it shows that a date at hand
    /// is a date of the calendar.
    pub fn known_valid(&self)
        ensures
            self.valid(),
    {
        proof {
            use_type_invariant(self);
        }
    }

    /// The date of the given year, month and day, if there is such a date.
    pub fn new(year: i32, month: u8, day: u8) -> (r: Option<Date>)
        ensures
            r is Some <==> valid_date(year as int, month as int, day as int),
            r matches Some(d) ==> d@ == (year as int, month as int, day as int),
    {
        if year < -9999 || year > 9999 || month < 1 || month > 12 || day < 1 {
            return None;
        }
        if day > month_length(year, month) {
            return None;
        }
        Some(Date { year, month, day })
    }

    pub fn year(&self) -> (r: i32)
        ensures
            r == self@.0,
    {
        self.year
    }

    pub fn month(&self) -> (r: u8)
        ensures
            r == self@.1,
    {
        self.month
    }

    pub fn day(&self) -> (r: u8)
        ensures
            r == self@.2,
    {
        self.day
    }

    /// The day of the year, from 1.
    pub fn ordinal(&self) -> (r: u16)
        ensures
            r == self.spec_ordinal(),
            1 <= r <= 366,
    {
        proof {
            use_type_invariant(self);
            reveal_with_fuel(days_before_month, 13);
        }
        let mut total: u16 = 0;
        let mut m: u8 = 1;
        while m < self.month
            invariant
                1 <= m <= self.month <= 12,
                -9999 <= self.year <= 9999,
                total == days_before_month(self.year as int, m as int),
                total <= 31 * (m - 1),
            decreases self.month - m,
        {
            total = total + month_length(self.year, m) as u16;
            m = m + 1;
        }
        total + self.day as u16
    }

    /// The canonical text.
    pub fn to_text(&self) -> (r: String)
        ensures
            r@ == self.text(),
    {
        let mut out = String::new();
        self.push_text(&mut out);
        assert(out@ =~= self.text());
        out
    }

    /// Appends the canonical text of the date to `out`.
    pub fn push_text(&self, out: &mut String)
        ensures
            final(out)@ == old(out)@ + self.text(),
    {
        proof {
            use_type_invariant(self);
        }
        let ghost before = out@;
        if self.year < 0 {
            out.push('-');
            push_fixed_decimal(out, (-self.year) as u64, 4);
        } else {
            push_fixed_decimal(out, self.year as u64, 4);
        }
        out.push('-');
        push_fixed_decimal(out, self.month as u64, 2);
        out.push('-');
        push_fixed_decimal(out, self.day as u64, 2);
        assert(out@ =~= before + self.text());
    }
}


impl Time {
    #[verifier::type_invariant]
    spec fn well_formed(self) -> bool {
        valid_time(
            self.hour as int,
            self.minute as int,
            self.second as int,
            self.nanosecond as int,
        )
    }

    /// Whether this is a time of day. It holds of every time that this
    /// library hands out.
    pub open spec fn valid(self) -> bool {
        valid_time(self@.0, self@.1, self@.2, self@.3)
    }

    /// The canonical text of the time.
    pub open spec fn text(self) -> Seq<char> {
        time_text(self@.0, self@.1, self@.2, self@.3)
    }

    /// Does nothing when run; to the verifier it shows that a time at hand
    /// is a time of day.
    pub fn known_valid(&self)
        ensures
            self.valid(),
    {
        proof {
            use_type_invariant(self);
        }
    }

    /// The time of the given hour, minute, second and nanosecond, if there
    /// is such a time.
    pub fn new(hour: u8, minute: u8, second: u8, nanosecond: u32) -> (r: Option<Time>)
        ensures
            r is Some <==> valid_time(hour as int, minute as int, second as int, nanosecond as int),
            r matches Some(t) ==> t@ == (
                hour as int,
                minute as int,
                second as int,
                nanosecond as int,
            ),
    {
        if hour > 23 || minute > 59 || second > 59 || nanosecond > 999_999_999 {
            return None;
        }
        Some(Time { hour, minute, second, nanosecond })
    }

    pub fn hour(&self) -> (r: u8)
        ensures
            r == self@.0,
    {
        self.hour
    }

    pub fn minute(&self) -> (r: u8)
        ensures
            r == self@.1,
    {
        self.minute
    }

    pub fn second(&self) -> (r: u8)
        ensures
            r == self@.2,
    {
        self.second
    }

    pub fn nanosecond(&self) -> (r: u32)
        ensures
            r == self@.3,
    {
        self.nanosecond
    }

    /// The canonical text.
    pub fn to_text(&self) -> (r: String)
        ensures
            r@ == self.text(),
    {
        let mut out = String::new();
        self.push_text(&mut out);
        assert(out@ =~= self.text());
        out
    }

    /// Appends the canonical text of the time to `out`.
    pub fn push_text(&self, out: &mut String)
        ensures
            final(out)@ == old(out)@ + self.text(),
    {
        let ghost before = out@;
        push_decimal(out, self.hour as u64);
        out.push(':');
        push_fixed_decimal(out, self.minute as u64, 2);
        out.push(':');
        push_fixed_decimal(out, self.second as u64, 2);
        out.push('.');
        let mut n: u32 = self.nanosecond;
        let mut width: u8 = 9;
        while width > 1 && n % 10 == 0
            invariant
                1 <= width <= 9,
                fraction_text(n as nat, width as nat) == fraction_text(self.nanosecond as nat, 9),
            decreases width,
        {
            n = n / 10;
            width = width - 1;
        }
        push_fixed_decimal(out, n as u64, width);
        assert(out@ =~= before + self.text());
    }
}

impl UtcOffset {
    #[verifier::type_invariant]
    spec fn well_formed(self) -> bool {
        valid_offset(self.hours as int, self.minutes as int, self.seconds as int)
    }

    /// Whether this is an offset from UTC. It holds of every offset that
    /// this library hands out.
    pub open spec fn valid(self) -> bool {
        valid_offset(self@.0, self@.1, self@.2)
    }

    /// The canonical text of the offset.
    pub open spec fn text(self) -> Seq<char> {
        offset_text(self@.0, self@.1, self@.2)
    }

    /// Does nothing when run; to the verifier it shows that an offset at
    /// hand is an offset from UTC.
    pub fn known_valid(&self)
        ensures
            self.valid(),
    {
        proof {
            use_type_invariant(self);
        }
    }

    /// The offset of the given hours, minutes and seconds, if the three are
    /// in range and agree in sign.
    pub fn new(hours: i8, minutes: i8, seconds: i8) -> (r: Option<UtcOffset>)
        ensures
            r is Some <==> valid_offset(hours as int, minutes as int, seconds as int),
            r matches Some(o) ==> o@ == (hours as int, minutes as int, seconds as int),
    {
        if hours < -25 || hours > 25 || minutes < -59 || minutes > 59 || seconds < -59 || seconds
            > 59 {
            return None;
        }
        if (hours > 0 && (minutes < 0 || seconds < 0)) || (hours < 0 && (minutes > 0 || seconds
            > 0)) {
            return None;
        }
        if (minutes > 0 && seconds < 0) || (minutes < 0 && seconds > 0) {
            return None;
        }
        Some(UtcOffset { hours, minutes, seconds })
    }

    /// No offset: UTC itself.
    pub fn utc() -> (r: UtcOffset)
        ensures
            r@ == (0int, 0int, 0int),
    {
        UtcOffset { hours: 0, minutes: 0, seconds: 0 }
    }

    pub fn hours(&self) -> (r: i8)
        ensures
            r == self@.0,
    {
        self.hours
    }

    pub fn minutes(&self) -> (r: i8)
        ensures
            r == self@.1,
    {
        self.minutes
    }

    pub fn seconds(&self) -> (r: i8)
        ensures
            r == self@.2,
    {
        self.seconds
    }

    /// The canonical text.
    pub fn to_text(&self) -> (r: String)
        ensures
            r@ == self.text(),
    {
        let mut out = String::new();
        self.push_text(&mut out);
        assert(out@ =~= self.text());
        out
    }

    /// Appends the canonical text of the offset to `out`.
    pub fn push_text(&self, out: &mut String)
        ensures
            final(out)@ == old(out)@ + self.text(),
    {
        proof {
            use_type_invariant(self);
        }
        let ghost before = out@;
        if self.hours < 0 || self.minutes < 0 || self.seconds < 0 {
            out.push('-');
        } else {
            out.push('+');
        }
        push_fixed_decimal(out, unsigned(self.hours), 2);
        out.push(':');
        push_fixed_decimal(out, unsigned(self.minutes), 2);
        out.push(':');
        push_fixed_decimal(out, unsigned(self.seconds), 2);
        assert(out@ =~= before + self.text());
    }
}

fn unsigned(i: i8) -> (r: u64)
    requires
        -128 < i,
    ensures
        r == magnitude(i as int),
{
    if i < 0 {
        (-i) as u64
    } else {
        i as u64
    }
}

impl OffsetDateTime {
    /// The canonical text of the moment: date, time and offset, each
    /// separated from the next by one space.
    pub open spec fn text(self) -> Seq<char> {
        date_text(self@.0.0, self@.0.1, self@.0.2) + seq![' '] + time_text(
            self@.1.0,
            self@.1.1,
            self@.1.2,
            self@.1.3,
        ) + seq![' '] + offset_text(self@.2.0, self@.2.1, self@.2.2)
    }

    /// The moment of `date` and `time` at `offset`.
    pub fn new(date: Date, time: Time, offset: UtcOffset) -> (r: OffsetDateTime)
        ensures
            r@ == (date@, time@, offset@),
    {
        OffsetDateTime { date, time, offset }
    }

    /// The moment of `date` and `time` taken as UTC.
    pub fn utc(date: Date, time: Time) -> (r: OffsetDateTime)
        ensures
            r@ == (date@, time@, (0int, 0int, 0int)),
    {
        OffsetDateTime { date, time, offset: UtcOffset::utc() }
    }

    pub fn date(&self) -> (r: Date)
        ensures
            r@ == self@.0,
    {
        self.date
    }

    pub fn time(&self) -> (r: Time)
        ensures
            r@ == self@.1,
    {
        self.time
    }

    pub fn offset(&self) -> (r: UtcOffset)
        ensures
            r@ == self@.2,
    {
        self.offset
    }

    /// The canonical text.
    pub fn to_text(&self) -> (r: String)
        ensures
            r@ == self.text(),
    {
        let mut out = String::new();
        self.push_text(&mut out);
        assert(out@ =~= self.text());
        out
    }

    /// Appends the canonical text of the moment to `out`.
    pub fn push_text(&self, out: &mut String)
        ensures
            final(out)@ == old(out)@ + self.text(),
    {
        let ghost before = out@;
        self.date.push_text(out);
        out.push(' ');
        self.time.push_text(out);
        out.push(' ');
        self.offset.push_text(out);
        assert(out@ =~= before + self.text());
    }
}

/// The month of the day of `year` that has the place `ordinal`, looked for
/// from month `month` on.
pub open spec fn month_from(year: int, ordinal: int, month: int) -> int
    decreases 12 - month,
{
    if month >= 12 || ordinal <= days_before_month(year, month + 1) {
        month
    } else {
        month_from(year, ordinal, month + 1)
    }
}

/// The date of `year` whose day of the year is `ordinal`, if the year has
/// that many days.
pub open spec fn date_of_ordinal(year: int, ordinal: int) -> Option<(int, int, int)> {
    if -9999 <= year <= 9999 && 1 <= ordinal <= days_before_month(year, 13) {
        let month = month_from(year, ordinal, 1);
        Some((year, month, ordinal - days_before_month(year, month)))
    } else {
        None
    }
}

/// The offset that hours, minutes and seconds in range stand for: where a
/// smaller part disagrees in sign with a larger one, its sign is turned.
pub open spec fn mended_offset(hours: int, minutes: int, seconds: int) -> Option<(int, int, int)> {
    if -25 <= hours <= 25 && -59 <= minutes <= 59 && -59 <= seconds <= 59 {
        let minutes = if (hours > 0 && minutes < 0) || (hours < 0 && minutes > 0) {
            -minutes
        } else {
            minutes
        };
        let seconds = if (hours > 0 && seconds < 0) || (hours < 0 && seconds > 0) || (minutes > 0
            && seconds < 0) || (minutes < 0 && seconds > 0) {
            -seconds
        } else {
            seconds
        };
        Some((hours, minutes, seconds))
    } else {
        None
    }
}

/// A date is found again from its year and its day of the year.
pub proof fn lemma_ordinal_comes_back(year: int, month: int, day: int)
    requires
        valid_date(year, month, day),
    ensures
        date_of_ordinal(year, days_before_month(year, month) + day) == Some((year, month, day)),
{
    reveal_with_fuel(days_before_month, 14);
    reveal_with_fuel(month_from, 13);
}

/// An offset whose parts agree in sign stands for itself.
pub proof fn lemma_valid_offset_is_mended(hours: int, minutes: int, seconds: int)
    requires
        valid_offset(hours, minutes, seconds),
    ensures
        mended_offset(hours, minutes, seconds) == Some((hours, minutes, seconds)),
{
}

impl Date {
    /// The date of `year` whose day of the year is `ordinal`, if the year
    /// has that many days.
    pub fn from_ordinal(year: i32, ordinal: u16) -> (r: Option<Date>)
        ensures
            match r {
                Some(date) => date_of_ordinal(year as int, ordinal as int) == Some(date@),
                None => date_of_ordinal(year as int, ordinal as int) is None,
            },
    {
        if year < -9999 || year > 9999 || ordinal < 1 {
            return None;
        }
        proof {
            reveal_with_fuel(days_before_month, 14);
        }
        let days_in_year: u16 = if leap(year) {
            366
        } else {
            365
        };
        if ordinal > days_in_year {
            return None;
        }
        let mut month: u8 = 1;
        let mut before: u16 = 0;
        loop
            invariant_except_break
                1 <= month <= 12,
                -9999 <= year <= 9999,
                before == days_before_month(year as int, month as int),
                before < ordinal,
                1 <= ordinal <= days_before_month(year as int, 13),
                month_from(year as int, ordinal as int, 1) == month_from(
                    year as int,
                    ordinal as int,
                    month as int,
                ),
            ensures
                1 <= month <= 12,
                -9999 <= year <= 9999,
                month == month_from(year as int, ordinal as int, 1),
                before == days_before_month(year as int, month as int),
                before < ordinal <= before + days_in_month(year as int, month as int),
            decreases 12 - month,
        {
            let length = month_length(year, month) as u16;
            proof {
                reveal_with_fuel(days_before_month, 14);
                reveal_with_fuel(month_from, 2);
            }
            if month >= 12 || ordinal <= before + length {
                break;
            }
            before = before + length;
            month = month + 1;
        }
        Some(Date { year, month, day: (ordinal - before) as u8 })
    }
}

impl UtcOffset {
    /// The offset of the given hours, minutes and seconds, if each is in
    /// range; where a smaller part disagrees in sign with a larger one, its
    /// sign is turned.
    pub fn from_hms(hours: i8, minutes: i8, seconds: i8) -> (r: Option<UtcOffset>)
        ensures
            match r {
                Some(offset) => mended_offset(hours as int, minutes as int, seconds as int)
                    == Some(offset@),
                None => mended_offset(hours as int, minutes as int, seconds as int) is None,
            },
    {
        if hours < -25 || hours > 25 || minutes < -59 || minutes > 59 || seconds < -59 || seconds
            > 59 {
            return None;
        }
        let minutes = if (hours > 0 && minutes < 0) || (hours < 0 && minutes > 0) {
            -minutes
        } else {
            minutes
        };
        let seconds = if (hours > 0 && seconds < 0) || (hours < 0 && seconds > 0) || (minutes > 0
            && seconds < 0) || (minutes < 0 && seconds > 0) {
            -seconds
        } else {
            seconds
        };
        Some(UtcOffset { hours, minutes, seconds })
    }
}

/// The error of the `time` crate.
#[verifier::external_type_specification]
#[verifier::external_body]
pub struct ExTimeError(time::Error);

/// What `time::Date::parse` reads from `text` under the format description
/// that `format` spells out: year, month and day, or `None` where the
/// description or the text is refused.
pub uninterp spec fn parsed_date(text: Seq<char>, format: Seq<char>) -> Option<(int, int, int)>;

/// What `time::Time::parse` reads from `text` under the format description
/// that `format` spells out: hour, minute, second and nanosecond, or `None`
/// where the description or the text is refused.
pub uninterp spec fn parsed_time(text: Seq<char>, format: Seq<char>) -> Option<
    (int, int, int, int),
>;

/// What `time::PrimitiveDateTime::parse` reads from `text` under the format
/// description that `format` spells out: the date and the time of day, or
/// `None` where the description or the text is refused.
pub uninterp spec fn parsed_date_time(text: Seq<char>, format: Seq<char>) -> Option<
    ((int, int, int), (int, int, int, int)),
>;

/// Calls `time::format_description::parse_borrowed` (first version of the
/// syntax) on `format` and `time::Date::parse` on `text` with what it gave.
/// The contract names the outcome `parsed_date`; nothing more is claimed of it.
#[verifier::external_body]
pub(crate) fn date_from_text(text: &str, format: &str) -> (r: Result<Date, time::Error>)
    ensures
        match r {
            Ok(date) => parsed_date(text@, format@) == Some(date@),
            Err(_) => parsed_date(text@, format@) is None,
        },
{
    let items = time::format_description::parse_borrowed::<1>(format)?;
    let date = time::Date::parse(text, &items)?;
    Ok(Date { year: date.year(), month: date.month().into(), day: date.day() })
}

/// Calls `time::format_description::parse_borrowed` (first version of the
/// syntax) on `format` and `time::Time::parse` on `text` with what it gave.
/// The contract names the outcome `parsed_time`; nothing more is claimed of it.
#[verifier::external_body]
pub(crate) fn time_from_text(text: &str, format: &str) -> (r: Result<Time, time::Error>)
    ensures
        match r {
            Ok(time) => parsed_time(text@, format@) == Some(time@),
            Err(_) => parsed_time(text@, format@) is None,
        },
{
    let items = time::format_description::parse_borrowed::<1>(format)?;
    let t = time::Time::parse(text, &items)?;
    Ok(Time { hour: t.hour(), minute: t.minute(), second: t.second(), nanosecond: t.nanosecond() })
}

/// Calls `time::format_description::parse_borrowed` (first version of the
/// syntax) on `format` and `time::PrimitiveDateTime::parse` on `text` with
/// what it gave. The contract names the outcome `parsed_date_time`; nothing
/// more is claimed of it.
#[verifier::external_body]
pub(crate) fn date_time_from_text(text: &str, format: &str) -> (r: Result<
    (Date, Time),
    time::Error,
>)
    ensures
        match r {
            Ok(pair) => parsed_date_time(text@, format@) == Some((pair.0@, pair.1@)),
            Err(_) => parsed_date_time(text@, format@) is None,
        },
{
    let items = time::format_description::parse_borrowed::<1>(format)?;
    let m = time::PrimitiveDateTime::parse(text, &items)?;
    let date = Date { year: m.year(), month: m.month().into(), day: m.day() };
    let time = Time {
        hour: m.hour(),
        minute: m.minute(),
        second: m.second(),
        nanosecond: m.nanosecond(),
    };
    Ok((date, time))
}


/// What `time::UtcOffset::parse` reads from `text` under the format
/// description that `format` spells out: hours, minutes and seconds, or
/// `None` where the description or the text is refused.
pub uninterp spec fn parsed_offset(text: Seq<char>, format: Seq<char>) -> Option<(int, int, int)>;

/// Calls `time::format_description::parse_borrowed` (first version of the
/// syntax) on `format` and `time::UtcOffset::parse` on `text` with what it
/// gave. The contract names the outcome `parsed_offset`; nothing more is
/// claimed of it.
#[verifier::external_body]
pub(crate) fn offset_from_text(text: &str, format: &str) -> (r: Result<UtcOffset, time::Error>)
    ensures
        match r {
            Ok(offset) => parsed_offset(text@, format@) == Some(offset@),
            Err(_) => parsed_offset(text@, format@) is None,
        },
{
    let items = time::format_description::parse_borrowed::<1>(format)?;
    let (hours, minutes, seconds) = time::UtcOffset::parse(text, &items)?.as_hms();
    Ok(UtcOffset { hours, minutes, seconds })
}

} // verus!
