use crate::error::{Error, ErrorView};
use vstd::prelude::*;
use vstd::string::{StrSliceExecFns, StringExecFns};

verus! {

/// A date and a time of day as a calendar and a clock show them somewhere,
/// without a word on where. The fields are plain numbers: whether they
/// name a day that exists is what [`valid_local`] says.
#[derive(Clone, Copy, Debug, PartialEq, Eq, Structural)]
pub struct LocalDateTime {
    pub year: u16,
    pub month: u8,
    pub day: u8,
    pub hour: u8,
    pub minute: u8,
    pub second: u8,
    pub millisecond: u16,
}

/// Whether `year` is a leap year of the Gregorian calendar.
pub open spec fn is_leap(year: int) -> bool {
    year % 4 == 0 && (year % 100 != 0 || year % 400 == 0)
}

/// The number of days of a month.
pub open spec fn days_in_month(year: int, month: int) -> int {
    if month == 2 {
        if is_leap(year) {
            29
        } else {
            28
        }
    } else if month == 4 || month == 6 || month == 9 || month == 11 {
        30
    } else {
        31
    }
}

/// The number of days of a year.
pub open spec fn days_in_year(year: int) -> int {
    if is_leap(year) {
        366
    } else {
        365
    }
}

/// Whether the fields name a day that exists, in a year of four digits,
/// and a time of that day.
pub open spec fn valid_local(l: LocalDateTime) -> bool {
    &&& l.year <= 9999
    &&& 1 <= l.month <= 12
    &&& 1 <= l.day <= days_in_month(l.year as int, l.month as int)
    &&& l.hour < 24
    &&& l.minute < 60
    &&& l.second < 60
    &&& l.millisecond < 1000
}

/// Whether an offset from UTC, in minutes, is less than a day.
pub open spec fn valid_offset(minutes: int) -> bool {
    -1440 < minutes < 1440
}

/// The days of the years from the year 0 up to `year`, without it.
pub open spec fn days_before_year(year: int) -> int
    decreases year,
{
    if year <= 0 {
        0
    } else {
        days_before_year(year - 1) + days_in_year(year - 1)
    }
}

/// The days of the months of `year` from January up to `month`, without
/// it.
pub open spec fn days_before_month(year: int, month: int) -> int
    decreases month,
{
    if month <= 1 {
        0
    } else {
        days_before_month(year, month - 1) + days_in_month(year, month - 1)
    }
}

/// The days from the first of January 1970 to the day of `l`.
pub open spec fn days_since_epoch(l: LocalDateTime) -> int {
    days_before_year(l.year as int) + days_before_month(l.year as int, l.month as int) + (l.day
        - 1) - days_before_year(1970)
}

/// The milliseconds from the midnight that began the first of January 1970
/// to the moment of `l`, both taken in the same place.
pub open spec fn local_millis(l: LocalDateTime) -> int {
    (((days_since_epoch(l) * 24 + l.hour) * 60 + l.minute) * 60 + l.second) * 1000 + l.millisecond
}

/// The mathematical value of a [`DateTime`].
pub struct DateTimeView {
    pub local: LocalDateTime,
    /// How far the place is ahead of UTC, in minutes.
    pub offset_minutes: int,
}

impl DateTimeView {
    /// Whether the date exists and the offset is less than a day.
    pub open spec fn valid(self) -> bool {
        valid_local(self.local) && valid_offset(self.offset_minutes)
    }

    /// The moment, in milliseconds since the midnight that began the first
    /// of January 1970 in UTC: a clock that is ahead of UTC shows a moment
    /// later than it is there.
    pub open spec fn instant(self) -> int {
        local_millis(self.local) - self.offset_minutes * 60_000
    }
}

/// A moment: a date and a time of day, and how far the place where they
/// were read is ahead of UTC. A value of this type always names a day that
/// exists.
#[derive(Clone, Copy, Debug, PartialEq, Eq)]
pub struct DateTime {
    local: LocalDateTime,
    offset_minutes: i16,
}

impl View for DateTime {
    type V = DateTimeView;

    closed spec fn view(&self) -> DateTimeView {
        DateTimeView { local: self.local, offset_minutes: self.offset_minutes as int }
    }
}

impl DeepView for DateTime {
    type V = DateTimeView;

    open spec fn deep_view(&self) -> DateTimeView {
        self@
    }
}

/// The leap years from the year 0 up to `year`, without it.
pub open spec fn leap_years_before(year: int) -> int {
    if year <= 0 {
        0
    } else {
        (year - 1) / 4 - (year - 1) / 100 + (year - 1) / 400 + 1
    }
}

/// The days before a year are 365 for each year and one more for each
/// leap year.
pub proof fn lemma_days_before_year(year: int)
    requires
        0 <= year,
    ensures
        days_before_year(year) == 365 * year + leap_years_before(year),
    decreases year,
{
    if year > 0 {
        lemma_days_before_year(year - 1);
    }
}

/// The days before each month, in a year that is a leap year or not.
pub open spec fn month_start(leap: bool, month: int) -> int {
    let shift: int = if leap && month > 2 {
        1
    } else {
        0
    };
    if month <= 1 {
        0
    } else if month == 2 {
        31
    } else if month == 3 {
        59 + shift
    } else if month == 4 {
        90 + shift
    } else if month == 5 {
        120 + shift
    } else if month == 6 {
        151 + shift
    } else if month == 7 {
        181 + shift
    } else if month == 8 {
        212 + shift
    } else if month == 9 {
        243 + shift
    } else if month == 10 {
        273 + shift
    } else if month == 11 {
        304 + shift
    } else {
        334 + shift
    }
}

/// The days before a month are what the table of month starts says.
pub proof fn lemma_days_before_month(year: int, month: int)
    requires
        1 <= month <= 12,
    ensures
        days_before_month(year, month) == month_start(is_leap(year), month),
    decreases month,
{
    if month > 1 {
        lemma_days_before_month(year, month - 1);
    }
}

/// Whether `year` is a leap year.
pub fn leap_year(year: u16) -> (r: bool)
    ensures
        r == is_leap(year as int),
{
    year % 4 == 0 && (year % 100 != 0 || year % 400 == 0)
}

/// The number of days of a month; 31 for a month that is none.
pub fn month_length(year: u16, month: u8) -> (r: u8)
    ensures
        r == days_in_month(year as int, month as int),
{
    if month == 2 {
        if leap_year(year) {
            29
        } else {
            28
        }
    } else if month == 4 || month == 6 || month == 9 || month == 11 {
        30
    } else {
        31
    }
}

impl LocalDateTime {
    /// Whether the fields name a day that exists, in a year of four
    /// digits, and a time of that day.
    pub fn is_valid(&self) -> (r: bool)
        ensures
            r == valid_local(*self),
    {
        self.year <= 9999 && 1 <= self.month && self.month <= 12 && 1 <= self.day && self.day
            <= month_length(self.year, self.month) && self.hour < 24 && self.minute < 60
            && self.second < 60 && self.millisecond < 1000
    }
}

impl DateTime {
    #[verifier::type_invariant]
    spec fn well_formed(self) -> bool {
        valid_local(self.local) && valid_offset(self.offset_minutes as int)
    }

    /// The moment that a calendar and a clock show as `local` in a place
    /// that is `offset_minutes` ahead of UTC.
    ///
    /// Without an offset there is no moment: the offset is not guessed, and
    /// `MissingField` says that it is missing. A date that does not exist,
    /// or an offset of a day or more, is refused as `InvalidType`.
    pub fn from_local(local: LocalDateTime, offset_minutes: Option<i16>) -> (r: Result<
        DateTime,
        Error,
    >)
        ensures
            match offset_minutes {
                None => r matches Err(e) && e@ == (ErrorView::MissingField { field: "offset"@ }),
                Some(minutes) => if !valid_local(local) {
                    r matches Err(e) && e@ == (ErrorView::InvalidType { field: "date"@ })
                } else if !valid_offset(minutes as int) {
                    r matches Err(e) && e@ == (ErrorView::InvalidType { field: "offset"@ })
                } else {
                    &&& r matches Ok(moment)
                    &&& moment@ == (DateTimeView { local, offset_minutes: minutes as int })
                    &&& moment@.instant() == local_millis(local) - minutes * 60_000
                },
            },
    {
        match offset_minutes {
            None => Err(Error::MissingField { field: "offset".to_owned() }),
            Some(minutes) => {
                if !local.is_valid() {
                    Err(Error::InvalidType { field: "date".to_owned() })
                } else if minutes <= -1440 || minutes >= 1440 {
                    Err(Error::InvalidType { field: "offset".to_owned() })
                } else {
                    Ok(DateTime { local, offset_minutes: minutes })
                }
            },
        }
    }

    /// The date and the time of day.
    pub fn local(&self) -> (r: LocalDateTime)
        ensures
            r == self@.local,
            self@.valid(),
    {
        proof {
            use_type_invariant(self);
        }
        self.local
    }

    /// How far the place is ahead of UTC, in minutes.
    pub fn offset_minutes(&self) -> (r: i16)
        ensures
            r == self@.offset_minutes,
            self@.valid(),
    {
        proof {
            use_type_invariant(self);
        }
        self.offset_minutes
    }

    /// The moment, in milliseconds since the midnight that began the first
    /// of January 1970 in UTC.
    pub fn epoch_millis(&self) -> (r: i64)
        ensures
            r == self@.instant(),
    {
        proof {
            use_type_invariant(self);
        }
        let days: i64 = days_to_year(self.local.year) + days_to_month(
            self.local.year,
            self.local.month,
        ) + (self.local.day as i64 - 1) - days_to_year(1970);
        let hours: i64 = days * 24 + self.local.hour as i64;
        let minutes: i64 = hours * 60 + self.local.minute as i64;
        let seconds: i64 = minutes * 60 + self.local.second as i64;
        let millis: i64 = seconds * 1000 + self.local.millisecond as i64;
        millis - self.offset_minutes as i64 * 60_000
    }
}

/// The days of the years from the year 0 up to `year`, without it.
fn days_to_year(year: u16) -> (r: i64)
    requires
        year <= 9999,
    ensures
        r == days_before_year(year as int),
        0 <= r <= 3_652_500,
{
    proof {
        lemma_days_before_year(year as int);
    }
    let year: i64 = year as i64;
    if year == 0 {
        0
    } else {
        365 * year + (year - 1) / 4 - (year - 1) / 100 + (year - 1) / 400 + 1
    }
}

/// The days of the months of `year` from January up to `month`, without
/// it.
fn days_to_month(year: u16, month: u8) -> (r: i64)
    requires
        1 <= month <= 12,
    ensures
        r == days_before_month(year as int, month as int),
        0 <= r <= 335,
{
    proof {
        lemma_days_before_month(year as int, month as int);
    }
    let shift: i64 = if leap_year(year) && month > 2 {
        1
    } else {
        0
    };
    match month {
        1 => 0,
        2 => 31,
        3 => 59 + shift,
        4 => 90 + shift,
        5 => 120 + shift,
        6 => 151 + shift,
        7 => 181 + shift,
        8 => 212 + shift,
        9 => 243 + shift,
        10 => 273 + shift,
        11 => 304 + shift,
        _ => 334 + shift,
    }
}

/// The character that a digit is written as.
#[verifier::opaque]
pub open spec fn digit(n: int) -> char {
    if n == 0 {
        '0'
    } else if n == 1 {
        '1'
    } else if n == 2 {
        '2'
    } else if n == 3 {
        '3'
    } else if n == 4 {
        '4'
    } else if n == 5 {
        '5'
    } else if n == 6 {
        '6'
    } else if n == 7 {
        '7'
    } else if n == 8 {
        '8'
    } else {
        '9'
    }
}

/// The digit that a character is, if it is one.
#[verifier::opaque]
pub open spec fn digit_value(c: char) -> Option<int> {
    if c == '0' {
        Some(0)
    } else if c == '1' {
        Some(1)
    } else if c == '2' {
        Some(2)
    } else if c == '3' {
        Some(3)
    } else if c == '4' {
        Some(4)
    } else if c == '5' {
        Some(5)
    } else if c == '6' {
        Some(6)
    } else if c == '7' {
        Some(7)
    } else if c == '8' {
        Some(8)
    } else if c == '9' {
        Some(9)
    } else {
        None
    }
}

/// The text of a date and a time of day: four digits of the year, two of
/// the month and of the day, `T`, and two digits each of the hour, the
/// minute and the second, as in `2024-08-20T18:07:14`.
pub open spec fn date_time_text(l: LocalDateTime) -> Seq<char> {
    let year = l.year as int;
    let month = l.month as int;
    let day = l.day as int;
    let hour = l.hour as int;
    let minute = l.minute as int;
    let second = l.second as int;
    seq![
        digit(year / 1000),
        digit(year / 100 % 10),
        digit(year / 10 % 10),
        digit(year % 10),
        '-',
        digit(month / 10),
        digit(month % 10),
        '-',
        digit(day / 10),
        digit(day % 10),
        'T',
        digit(hour / 10),
        digit(hour % 10),
        ':',
        digit(minute / 10),
        digit(minute % 10),
        ':',
        digit(second / 10),
        digit(second % 10),
    ]
}

/// The text of the milliseconds: nothing where there are none, a point and
/// three digits where there are some.
pub open spec fn fraction_text(millisecond: int) -> Seq<char> {
    if millisecond == 0 {
        Seq::empty()
    } else {
        seq![
            '.',
            digit(millisecond / 100),
            digit(millisecond / 10 % 10),
            digit(millisecond % 10),
        ]
    }
}

/// The text of an offset from UTC: `Z` where there is none, the sign and
/// two digits each of the hours and the minutes where there is one, as in
/// `+07:00`.
pub open spec fn offset_text(minutes: int) -> Seq<char> {
    let ahead: int = if minutes < 0 {
        -minutes
    } else {
        minutes
    };
    if minutes == 0 {
        seq!['Z']
    } else {
        seq![
            if minutes < 0 {
                '-'
            } else {
                '+'
            },
            digit(ahead / 60 / 10),
            digit(ahead / 60 % 10),
            ':',
            digit(ahead % 60 / 10),
            digit(ahead % 60 % 10),
        ]
    }
}

/// The text that a moment is written as: the date and the time of day,
/// the milliseconds where there are some, and the offset from UTC, as in
/// `2024-08-20T18:07:14+07:00`, `2024-08-20T18:07:14.256+07:00` and
/// `2024-08-20T11:07:14Z`.
pub open spec fn wire(dt: DateTimeView) -> Seq<char> {
    date_time_text(dt.local) + fraction_text(dt.local.millisecond as int) + offset_text(
        dt.offset_minutes,
    )
}

/// The number that the two characters from `at` on are, if both are
/// digits.
pub open spec fn number2(s: Seq<char>, at: int) -> Option<int> {
    match digit_value(s[at]) {
        None => None,
        Some(tens) => match digit_value(s[at + 1]) {
            None => None,
            Some(ones) => Some(tens * 10 + ones),
        },
    }
}

/// The number that the three characters from `at` on are, if all are
/// digits.
pub open spec fn number3(s: Seq<char>, at: int) -> Option<int> {
    match number2(s, at) {
        None => None,
        Some(front) => match digit_value(s[at + 2]) {
            None => None,
            Some(ones) => Some(front * 10 + ones),
        },
    }
}

/// The number that the four characters from `at` on are, if all are
/// digits.
pub open spec fn number4(s: Seq<char>, at: int) -> Option<int> {
    match number3(s, at) {
        None => None,
        Some(front) => match digit_value(s[at + 3]) {
            None => None,
            Some(ones) => Some(front * 10 + ones),
        },
    }
}

/// Whether a text is at most as long as the longest moment, and begins
/// with a date and a time of day as digits between their separators.
/// Between the date and the time of day stands `T`, which may be written
/// small, or a space.
pub open spec fn laid_out(s: Seq<char>) -> bool {
    &&& 19 <= s.len() <= 35
    &&& s[4] == '-'
    &&& s[7] == '-'
    &&& (s[10] == 'T' || s[10] == 't' || s[10] == ' ')
    &&& s[13] == ':'
    &&& s[16] == ':'
    &&& number4(s, 0) is Some
    &&& number2(s, 5) is Some
    &&& number2(s, 8) is Some
    &&& number2(s, 11) is Some
    &&& number2(s, 14) is Some
    &&& number2(s, 17) is Some
}

/// Whether the time of day is followed by a point, and so by
/// milliseconds.
pub open spec fn has_fraction(s: Seq<char>) -> bool {
    s.len() > 19 && s[19] == '.'
}

/// How many digits stand in a row from `at` on, counted up to `most`.
pub open spec fn digits_run(s: Seq<char>, at: int, most: int) -> int
    decreases most,
{
    if most <= 0 || at < 0 || at >= s.len() || digit_value(s[at]) is None {
        0
    } else {
        1 + digits_run(s, at + 1, most - 1)
    }
}

/// How many digits stand behind the point, counted up to nine.
pub open spec fn fraction_digits(s: Seq<char>) -> int {
    if has_fraction(s) {
        digits_run(s, 20, 9)
    } else {
        0
    }
}

/// Where a text goes on behind the seconds and their fraction.
pub open spec fn offset_start(s: Seq<char>) -> int {
    if has_fraction(s) {
        20 + fraction_digits(s)
    } else {
        19
    }
}

/// The digit at the place `i` behind the point; zero where the fraction
/// does not go so far.
pub open spec fn fraction_digit(s: Seq<char>, i: int) -> int {
    if i < fraction_digits(s) {
        digit_value(s[20 + i])->Some_0
    } else {
        0
    }
}

/// The milliseconds of a text: none where it has no point; where it has
/// one, what the digits behind it say, of which there are one to nine. A
/// moment holds milliseconds, so digits behind the third must be zero: a
/// finer fraction is refused, and so is a point without a digit.
pub open spec fn parse_millis(s: Seq<char>) -> Option<int> {
    if !has_fraction(s) {
        Some(0)
    } else if fraction_digits(s) == 0 {
        None
    } else if !(forall|i: int| 3 <= i < fraction_digits(s) ==> #[trigger] s[20 + i] == '0') {
        None
    } else {
        Some(fraction_digit(s, 0) * 100 + fraction_digit(s, 1) * 10 + fraction_digit(s, 2))
    }
}

/// What a run of digits is: as many as are counted are digits, and where
/// the count stops short, the next character is none.
pub proof fn lemma_digits_run(s: Seq<char>, at: int, most: int)
    requires
        0 <= at,
        0 <= most,
    ensures
        0 <= digits_run(s, at, most) <= most,
        at + digits_run(s, at, most) <= s.len() || digits_run(s, at, most) == 0,
        forall|i: int|
            0 <= i < digits_run(s, at, most) ==> digit_value(#[trigger] s[at + i]) is Some,
        digits_run(s, at, most) < most && at + digits_run(s, at, most) < s.len() ==> digit_value(
            s[at + digits_run(s, at, most)],
        ) is None,
    decreases most,
{
    if most <= 0 || at >= s.len() || digit_value(s[at]) is None {
    } else {
        lemma_digits_run(s, at + 1, most - 1);
        let rest = digits_run(s, at + 1, most - 1);
        assert forall|i: int| 0 <= i < 1 + rest implies digit_value(#[trigger] s[at + i])
            is Some by {
            if i > 0 {
                assert(digit_value(s[at + 1 + (i - 1)]) is Some);
            }
        }
    }
}

/// The offset that a text ends with from `at` on, in minutes: `Z`, which
/// may be written small, for none, or a sign, hours and minutes. A text
/// that ends at `at` has no offset, and that is not taken for UTC.
pub open spec fn parse_offset(s: Seq<char>, at: int) -> Result<int, ErrorView> {
    if s.len() == at {
        Err(ErrorView::MissingField { field: "offset"@ })
    } else if s.len() == at + 1 && (s[at] == 'Z' || s[at] == 'z') {
        Ok(0)
    } else if s.len() == at + 6 && (s[at] == '+' || s[at] == '-') && s[at + 3] == ':' {
        match number2(s, at + 1) {
            None => Err(ErrorView::InvalidType { field: "offset"@ }),
            Some(hours) => match number2(s, at + 4) {
                None => Err(ErrorView::InvalidType { field: "offset"@ }),
                Some(minutes) => if hours < 24 && minutes < 60 {
                    Ok(
                        if s[at] == '-' {
                            -(hours * 60 + minutes)
                        } else {
                            hours * 60 + minutes
                        },
                    )
                } else {
                    Err(ErrorView::InvalidType { field: "offset"@ })
                },
            },
        }
    } else {
        Err(ErrorView::InvalidType { field: "offset"@ })
    }
}

/// The date and the time of day that a text that is laid out begins with.
pub open spec fn parse_local(s: Seq<char>, millis: int) -> LocalDateTime {
    LocalDateTime {
        year: number4(s, 0)->Some_0 as u16,
        month: number2(s, 5)->Some_0 as u8,
        day: number2(s, 8)->Some_0 as u8,
        hour: number2(s, 11)->Some_0 as u8,
        minute: number2(s, 14)->Some_0 as u8,
        second: number2(s, 17)->Some_0 as u8,
        millisecond: millis as u16,
    }
}

/// The moment that a text names.
///
/// The text holds the date as `2024-08-20`; then `T`, which may be written
/// small, or a space; the time of day as `18:07:14`; where the seconds
/// have a fraction, a point and one to nine digits; and the offset from
/// UTC, as `Z`, which may be written small, or as `+07:00`.
///
/// A text that is not laid out as a date and a time of day, or names a
/// day that does not exist or a second beyond the fifty-ninth, or has a
/// fraction finer than a millisecond, is refused as `InvalidType` of the
/// date; one that goes on in another way than with an offset, as
/// `InvalidType` of the offset; and one that ends without an offset, as
/// `MissingField`.
pub open spec fn parse_wire(s: Seq<char>) -> Result<DateTimeView, ErrorView> {
    if !laid_out(s) {
        Err(ErrorView::InvalidType { field: "date"@ })
    } else {
        match parse_millis(s) {
            None => Err(ErrorView::InvalidType { field: "date"@ }),
            Some(millis) => if !valid_local(parse_local(s, millis)) {
                Err(ErrorView::InvalidType { field: "date"@ })
            } else {
                match parse_offset(s, offset_start(s)) {
                    Err(e) => Err(e),
                    Ok(offset_minutes) => Ok(
                        DateTimeView { local: parse_local(s, millis), offset_minutes },
                    ),
                }
            },
        }
    }
}

/// A character that is a digit is one of the ten.
pub proof fn lemma_digit_value_range(c: char)
    ensures
        digit_value(c) is Some ==> 0 <= digit_value(c)->Some_0 < 10,
{
    reveal(digit_value);
}

/// A moment that is read from text names a day that exists, and an offset
/// of less than a day.
pub proof fn lemma_parse_wire_valid(s: Seq<char>)
    requires
        parse_wire(s) is Ok,
    ensures
        parse_wire(s)->Ok_0.valid(),
{
    let at = offset_start(s);
    lemma_digits_run(s, 20, 9);
    if has_fraction(s) {
        lemma_digit_value_range(s[20]);
        lemma_digit_value_range(s[21]);
        lemma_digit_value_range(s[22]);
        assert(fraction_digits(s) >= 1);
        assert(digit_value(s[20 + 0int]) is Some);
        if fraction_digits(s) >= 2 {
            assert(digit_value(s[20 + 1int]) is Some);
        }
        if fraction_digits(s) >= 3 {
            assert(digit_value(s[20 + 2int]) is Some);
        }
    }
    if s.len() == at + 6 {
        lemma_digit_value_range(s[at + 1]);
        lemma_digit_value_range(s[at + 2]);
        lemma_digit_value_range(s[at + 4]);
        lemma_digit_value_range(s[at + 5]);
    }
}

/// A digit is read back from the character that it is written as.
pub proof fn lemma_digit_value(n: int)
    requires
        0 <= n < 10,
    ensures
        digit_value(digit(n)) == Some(n),
{
    reveal(digit);
    reveal(digit_value);
}

/// A number below a hundred is read back from its two digits.
pub proof fn lemma_number2(s: Seq<char>, at: int, n: int)
    requires
        0 <= n < 100,
        0 <= at,
        at + 1 < s.len(),
        s[at] == digit(n / 10),
        s[at + 1] == digit(n % 10),
    ensures
        number2(s, at) == Some(n),
{
    lemma_digit_value(n / 10);
    lemma_digit_value(n % 10);
}

/// A number below a thousand is read back from its three digits.
pub proof fn lemma_number3(s: Seq<char>, at: int, n: int)
    requires
        0 <= n < 1000,
        0 <= at,
        at + 2 < s.len(),
        s[at] == digit(n / 100),
        s[at + 1] == digit(n / 10 % 10),
        s[at + 2] == digit(n % 10),
    ensures
        number3(s, at) == Some(n),
{
    lemma_number2(s, at, n / 10);
    lemma_digit_value(n % 10);
}

/// A number below ten thousand is read back from its four digits.
pub proof fn lemma_number4(s: Seq<char>, at: int, n: int)
    requires
        0 <= n < 10000,
        0 <= at,
        at + 3 < s.len(),
        s[at] == digit(n / 1000),
        s[at + 1] == digit(n / 100 % 10),
        s[at + 2] == digit(n / 10 % 10),
        s[at + 3] == digit(n % 10),
    ensures
        number4(s, at) == Some(n),
{
    lemma_number3(s, at, n / 10);
    lemma_digit_value(n % 10);
}

/// Where a text goes on behind the date and the time of day of a moment
/// that is written.
pub open spec fn offset_at(millisecond: int) -> int {
    if millisecond == 0 {
        19
    } else {
        23
    }
}

/// A text that begins with the date and the time of day of `l` as they are
/// written is laid out, and names them.
pub proof fn lemma_date_time_read(s: Seq<char>, l: LocalDateTime, millis: int)
    requires
        valid_local(l),
        19 <= s.len() <= 35,
        s.subrange(0, 19) == date_time_text(l),
        millis == l.millisecond,
    ensures
        laid_out(s),
        parse_local(s, millis) == l,
{
    let a = date_time_text(l);
    assert(a.len() == 19);
    assert forall|i: int| 0 <= i < 19 implies s[i] == a[i] by {
        assert(s.subrange(0, 19)[i] == s[i]);
    }
    assert(s[0] == a[0] && s[1] == a[1] && s[2] == a[2] && s[3] == a[3]);
    lemma_number4(s, 0, l.year as int);
    assert(s[5] == a[5] && s[6] == a[6]);
    lemma_number2(s, 5, l.month as int);
    assert(s[8] == a[8] && s[9] == a[9]);
    lemma_number2(s, 8, l.day as int);
    assert(s[11] == a[11] && s[12] == a[12]);
    lemma_number2(s, 11, l.hour as int);
    assert(s[14] == a[14] && s[15] == a[15]);
    lemma_number2(s, 14, l.minute as int);
    assert(s[17] == a[17] && s[18] == a[18]);
    lemma_number2(s, 17, l.second as int);
    assert(s[4] == a[4] && s[7] == a[7] && s[10] == a[10] && s[13] == a[13] && s[16] == a[16]);
}

/// A text that ends with an offset as it is written names that offset.
pub proof fn lemma_offset_read(s: Seq<char>, at: int, minutes: int)
    requires
        valid_offset(minutes),
        0 <= at,
        s.len() == at + offset_text(minutes).len(),
        s.subrange(at, s.len() as int) == offset_text(minutes),
    ensures
        parse_offset(s, at) == Ok::<int, ErrorView>(minutes),
{
    let o = offset_text(minutes);
    assert forall|i: int| 0 <= i < o.len() implies s[at + i] == o[i] by {
        assert(s.subrange(at, s.len() as int)[i] == s[at + i]);
    }
    if minutes == 0 {
        assert(s[at] == o[0]);
    } else {
        let ahead: int = if minutes < 0 {
            -minutes
        } else {
            minutes
        };
        assert(o.len() == 6);
        assert(s[at] == o[0] && s[at + 1] == o[1] && s[at + 2] == o[2] && s[at + 3] == o[3]
            && s[at + 4] == o[4] && s[at + 5] == o[5]);
        lemma_number2(s, at + 1, ahead / 60);
        lemma_number2(s, at + 4, ahead % 60);
    }
}

/// A text that goes on behind the seconds with the milliseconds as they
/// are written, and then with the first character of an offset, names
/// those milliseconds, and goes on with the offset behind them.
pub proof fn lemma_fraction_read(s: Seq<char>, millis: int)
    requires
        0 <= millis < 1000,
        s.len() > offset_at(millis),
        s.subrange(19, offset_at(millis)) == fraction_text(millis),
        ({
            let next = s[offset_at(millis)];
            next == 'Z' || next == '+' || next == '-'
        }),
    ensures
        has_fraction(s) <==> millis != 0,
        parse_millis(s) == Some(millis),
        offset_start(s) == offset_at(millis),
{
    let f = fraction_text(millis);
    if millis != 0 {
        assert(f.len() == 4);
        assert forall|i: int| 0 <= i < 4 implies s[19 + i] == f[i] by {
            assert(s.subrange(19, 23)[i] == s[19 + i]);
        }
        assert(s[19] == f[0] && s[20] == f[1] && s[21] == f[2] && s[22] == f[3]);
        lemma_digit_value(millis / 100);
        lemma_digit_value(millis / 10 % 10);
        lemma_digit_value(millis % 10);
        assert(digit_value(s[23]) is None) by {
            reveal(digit_value);
        }
        assert(digits_run(s, 20, 9) == 3) by {
            reveal_with_fuel(digits_run, 5);
        }
        assert(fraction_digit(s, 0) == millis / 100);
        assert(fraction_digit(s, 1) == millis / 10 % 10);
        assert(fraction_digit(s, 2) == millis % 10);
    } else {
        assert(f.len() == 0);
    }
}

/// A moment is read back from the text that it is written as, and so the
/// text names the instant of the moment.
pub proof fn lemma_wire_round_trip(dt: DateTimeView)
    requires
        dt.valid(),
    ensures
        parse_wire(wire(dt)) == Ok::<DateTimeView, ErrorView>(dt),
        parse_wire(wire(dt))->Ok_0.instant() == dt.instant(),
{
    let s = wire(dt);
    let l = dt.local;
    let millis = l.millisecond as int;
    let a = date_time_text(l);
    let f = fraction_text(millis);
    let o = offset_text(dt.offset_minutes);
    let at = offset_at(millis);
    assert(a.len() == 19);
    assert(f.len() == at - 19);
    assert(o.len() == 1 || o.len() == 6);
    assert(s.len() == at + o.len());
    assert(s.subrange(0, 19) =~= a);
    assert(s.subrange(19, at) =~= f);
    assert(s.subrange(at, s.len() as int) =~= o);
    assert(s[at] == o[0]);
    lemma_date_time_read(s, l, millis);
    lemma_fraction_read(s, millis);
    lemma_offset_read(s, at, dt.offset_minutes);
}

/// A character that is a digit is the character that its digit is
/// written as.
pub proof fn lemma_digit_of_value(c: char)
    requires
        digit_value(c) is Some,
    ensures
        0 <= digit_value(c)->Some_0 < 10,
        digit(digit_value(c)->Some_0) == c,
{
    reveal(digit);
    reveal(digit_value);
}

/// Two characters that are read as a number are the two digits of the
/// number.
pub proof fn lemma_number2_text(s: Seq<char>, at: int)
    requires
        number2(s, at) is Some,
    ensures
        0 <= number2(s, at)->Some_0 < 100,
        s[at] == digit(number2(s, at)->Some_0 / 10),
        s[at + 1] == digit(number2(s, at)->Some_0 % 10),
{
    lemma_digit_of_value(s[at]);
    lemma_digit_of_value(s[at + 1]);
}

/// Three characters that are read as a number are the three digits of the
/// number.
pub proof fn lemma_number3_text(s: Seq<char>, at: int)
    requires
        number3(s, at) is Some,
    ensures
        0 <= number3(s, at)->Some_0 < 1000,
        s[at] == digit(number3(s, at)->Some_0 / 100),
        s[at + 1] == digit(number3(s, at)->Some_0 / 10 % 10),
        s[at + 2] == digit(number3(s, at)->Some_0 % 10),
{
    lemma_number2_text(s, at);
    lemma_digit_of_value(s[at + 2]);
}

/// Four characters that are read as a number are the four digits of the
/// number.
pub proof fn lemma_number4_text(s: Seq<char>, at: int)
    requires
        number4(s, at) is Some,
    ensures
        0 <= number4(s, at)->Some_0 < 10000,
        s[at] == digit(number4(s, at)->Some_0 / 1000),
        s[at + 1] == digit(number4(s, at)->Some_0 / 100 % 10),
        s[at + 2] == digit(number4(s, at)->Some_0 / 10 % 10),
        s[at + 3] == digit(number4(s, at)->Some_0 % 10),
{
    lemma_number3_text(s, at);
    lemma_digit_of_value(s[at + 3]);
}

/// Whether a text that names a moment has the form in which moments are
/// written: with `T` between the date and the time of day, with a point
/// and three digits behind the seconds where the milliseconds are not
/// zero, and there only, and with `Z` for no offset from UTC, and for that
/// only.
pub open spec fn written_form(s: Seq<char>) -> bool {
    match parse_wire(s) {
        Err(_) => false,
        Ok(dt) => {
            &&& s[10] == 'T'
            &&& has_fraction(s) <==> dt.local.millisecond != 0
            &&& has_fraction(s) ==> fraction_digits(s) == 3
            &&& s[offset_start(s)] == 'Z' <==> dt.offset_minutes == 0
        },
    }
}

/// A text that is laid out with `T` begins with the date and the time of
/// day that it names, as they are written.
pub proof fn lemma_date_time_written(s: Seq<char>, millis: int)
    requires
        laid_out(s),
        s[10] == 'T',
    ensures
        s.subrange(0, 19) == date_time_text(parse_local(s, millis)),
{
    lemma_number4_text(s, 0);
    lemma_number2_text(s, 5);
    lemma_number2_text(s, 8);
    lemma_number2_text(s, 11);
    lemma_number2_text(s, 14);
    lemma_number2_text(s, 17);
    let a = date_time_text(parse_local(s, millis));
    assert(a.len() == 19);
    assert forall|i: int| 0 <= i < 19 implies s[i] == a[i] by {
        if i < 10 {
        } else {
        }
    }
    assert(s.subrange(0, 19) =~= a);
}

/// A text with three digits behind the point, which say milliseconds
/// other than none, holds them as they are written.
pub proof fn lemma_fraction_written(s: Seq<char>)
    requires
        has_fraction(s),
        fraction_digits(s) == 3,
        parse_millis(s) is Some,
        parse_millis(s)->Some_0 != 0,
    ensures
        0 < parse_millis(s)->Some_0 < 1000,
        s.len() >= 23,
        s.subrange(19, 23) == fraction_text(parse_millis(s)->Some_0),
{
    lemma_digits_run(s, 20, 9);
    assert(digit_value(s[20 + 0int]) is Some);
    assert(digit_value(s[20 + 1int]) is Some);
    assert(digit_value(s[20 + 2int]) is Some);
    lemma_digit_of_value(s[20]);
    lemma_digit_of_value(s[21]);
    lemma_digit_of_value(s[22]);
    let m = parse_millis(s)->Some_0;
    let f = fraction_text(m);
    assert(f.len() == 4);
    assert(s.subrange(19, 23) =~= f);
}

/// A text that ends with an offset, with `Z` for none and for that only,
/// ends with the offset as it is written.
pub proof fn lemma_offset_written(s: Seq<char>, at: int)
    requires
        0 <= at < s.len(),
        parse_offset(s, at) is Ok,
        s[at] == 'Z' <==> parse_offset(s, at)->Ok_0 == 0,
    ensures
        s.subrange(at, s.len() as int) == offset_text(parse_offset(s, at)->Ok_0),
{
    let minutes = parse_offset(s, at)->Ok_0;
    let o = offset_text(minutes);
    if s.len() == at + 6 && s[at] != 'Z' && s[at] != 'z' {
        lemma_number2_text(s, at + 1);
        lemma_number2_text(s, at + 4);
        let hours = number2(s, at + 1)->Some_0;
        let mins = number2(s, at + 4)->Some_0;
        let ahead = hours * 60 + mins;
        assert(ahead / 60 == hours && ahead % 60 == mins);
        assert(o.len() == 6);
        assert(s.subrange(at, s.len() as int) =~= o);
    } else {
        assert(s.subrange(at, s.len() as int) =~= o);
    }
}

/// A text in the form in which moments are written is written again as it
/// was read, character by character: its offset is kept, and not turned
/// into another that names the same instant.
pub proof fn lemma_wire_reproduces(s: Seq<char>)
    requires
        written_form(s),
    ensures
        wire(parse_wire(s)->Ok_0) == s,
{
    let dt = parse_wire(s)->Ok_0;
    let millis = parse_millis(s)->Some_0;
    let at = offset_start(s);
    lemma_digits_run(s, 20, 9);
    lemma_date_time_written(s, millis);
    if has_fraction(s) {
        lemma_fraction_written(s);
    } else {
        assert(s.subrange(19, 19) =~= fraction_text(0));
    }
    lemma_offset_written(s, at);
    assert(s =~= s.subrange(0, 19) + s.subrange(19, at) + s.subrange(at, s.len() as int));
}

/// The character that the digit `c` is, if it is one.
fn read_digit(c: char) -> (r: Option<u8>)
    ensures
        match r {
            Some(n) => n < 10 && digit_value(c) == Some(n as int),
            None => digit_value(c) is None,
        },
{
    proof {
        reveal(digit_value);
    }
    if c == '0' {
        Some(0)
    } else if c == '1' {
        Some(1)
    } else if c == '2' {
        Some(2)
    } else if c == '3' {
        Some(3)
    } else if c == '4' {
        Some(4)
    } else if c == '5' {
        Some(5)
    } else if c == '6' {
        Some(6)
    } else if c == '7' {
        Some(7)
    } else if c == '8' {
        Some(8)
    } else if c == '9' {
        Some(9)
    } else {
        None
    }
}

/// The number that the two characters from `at` on are.
fn read2(c: &Vec<char>, at: usize) -> (r: Option<u8>)
    requires
        at + 1 < c.len(),
    ensures
        match r {
            Some(n) => n < 100 && number2(c@, at as int) == Some(n as int),
            None => number2(c@, at as int) is None,
        },
{
    let tens = read_digit(c[at])?;
    let ones = read_digit(c[at + 1])?;
    Some(tens * 10 + ones)
}

/// The number that the three characters from `at` on are.
fn read3(c: &Vec<char>, at: usize) -> (r: Option<u16>)
    requires
        at + 2 < c.len(),
    ensures
        match r {
            Some(n) => n < 1000 && number3(c@, at as int) == Some(n as int),
            None => number3(c@, at as int) is None,
        },
{
    let front = read2(c, at)?;
    let ones = read_digit(c[at + 2])?;
    let front: u16 = front as u16;
    let ones: u16 = ones as u16;
    Some(front * 10 + ones)
}

/// The number that the four characters from `at` on are.
fn read4(c: &Vec<char>, at: usize) -> (r: Option<u16>)
    requires
        at + 3 < c.len(),
    ensures
        match r {
            Some(n) => n < 10000 && number4(c@, at as int) == Some(n as int),
            None => number4(c@, at as int) is None,
        },
{
    let front = read3(c, at)?;
    let ones = read_digit(c[at + 3])?;
    let ones: u16 = ones as u16;
    Some(front * 10 + ones)
}

/// The text of one digit.
fn digit_text(n: u8) -> (r: &'static str)
    requires
        n < 10,
    ensures
        r@ == seq![digit(n as int)],
{
    proof {
        reveal(digit);
        reveal_strlit("0");
        reveal_strlit("1");
        reveal_strlit("2");
        reveal_strlit("3");
        reveal_strlit("4");
        reveal_strlit("5");
        reveal_strlit("6");
        reveal_strlit("7");
        reveal_strlit("8");
        reveal_strlit("9");
    }
    let r = match n {
        0 => "0",
        1 => "1",
        2 => "2",
        3 => "3",
        4 => "4",
        5 => "5",
        6 => "6",
        7 => "7",
        8 => "8",
        _ => "9",
    };
    assert(r@ =~= seq![digit(n as int)]);
    r
}

/// Writes one digit behind what is written.
fn push_digit(out: &mut String, n: u16)
    requires
        n < 10,
    ensures
        final(out)@ == old(out)@.push(digit(n as int)),
{
    let piece = digit_text(n as u8);
    out.append(piece);
    assert(out@ =~= old(out)@.push(digit(n as int)));
}

/// Writes the two digits of a number below a hundred behind what is
/// written.
fn push2(out: &mut String, n: u16)
    requires
        n < 100,
    ensures
        final(out)@ == old(out)@.push(digit(n as int / 10)).push(digit(n as int % 10)),
{
    push_digit(out, n / 10);
    push_digit(out, n % 10);
}

/// Writes one of the separators behind what is written.
fn push_mark(out: &mut String, mark: char)
    ensures
        final(out)@ == old(out)@.push(
            if mark == '-' || mark == 'T' || mark == ':' || mark == '.' {
                mark
            } else {
                '+'
            },
        ),
{
    proof {
        reveal_strlit("-");
        reveal_strlit("T");
        reveal_strlit(":");
        reveal_strlit(".");
        reveal_strlit("+");
    }
    let piece = if mark == '-' {
        "-"
    } else if mark == 'T' {
        "T"
    } else if mark == ':' {
        ":"
    } else if mark == '.' {
        "."
    } else {
        "+"
    };
    out.append(piece);
    assert(out@ =~= old(out)@.push(piece@[0]));
}

/// The characters of a text, where it has at most `limit` of them.
fn characters(text: &str, limit: usize) -> (r: Option<Vec<char>>)
    ensures
        match r {
            Some(c) => c@ == text@ && text@.len() <= limit,
            None => text@.len() > limit,
        },
{
    let n = text.unicode_len();
    if n > limit {
        return None;
    }
    let mut c: Vec<char> = Vec::new();
    let mut i: usize = 0;
    while i < n
        invariant
            i <= n,
            n == text@.len(),
            c@ == text@.take(i as int),
        decreases n - i,
    {
        c.push(text.get_char(i));
        assert(c@ =~= text@.take(i + 1));
        i += 1;
    }
    assert(text@.take(n as int) =~= text@);
    Some(c)
}

/// Counts the digits that stand in a row from `at` on, up to `most`.
fn count_digits(c: &Vec<char>, at: usize, most: usize) -> (r: usize)
    requires
        at <= c.len(),
        most <= 9,
    ensures
        r == digits_run(c@, at as int, most as int),
        r <= most,
        at + r <= c.len(),
{
    let mut i: usize = 0;
    while i < most && at + i < c.len() && read_digit(c[at + i]).is_some()
        invariant
            i <= most,
            most <= 9,
            at + i <= c.len(),
            digits_run(c@, at as int, most as int) == i + digits_run(
                c@,
                at + i,
                most - i,
            ),
        decreases most - i,
    {
        i += 1;
    }
    i
}

/// Reads the milliseconds behind the point, and where the text goes on
/// behind them.
fn read_fraction(c: &Vec<char>) -> (r: Option<(u16, usize)>)
    requires
        has_fraction(c@),
    ensures
        match r {
            Some((millisecond, start)) => parse_millis(c@) == Some(millisecond as int)
                && millisecond < 1000 && start == offset_start(c@) && start <= c.len() && start
                <= 29,
            None => parse_millis(c@) is None,
        },
{
    let k = count_digits(c, 20, 9);
    proof {
        lemma_digits_run(c@, 20, 9);
    }
    if k == 0 {
        return None;
    }
    let mut i: usize = 3;
    while i < k
        invariant
            3 <= i,
            k <= 9,
            20 + k <= c.len(),
            k == fraction_digits(c@),
            forall|j: int| 3 <= j < i ==> #[trigger] c@[20 + j] == '0',
        decreases k - i,
    {
        if c[20 + i] != '0' {
            return None;
        }
        i += 1;
    }
    assert(digit_value(c@[20 + 0int]) is Some);
    let hundreds: u16 = match read_digit(c[20]) {
        Some(d) => d as u16,
        None => 0,
    };
    let tens: u16 = if k >= 2 {
        assert(digit_value(c@[20 + 1int]) is Some);
        match read_digit(c[21]) {
            Some(d) => d as u16,
            None => 0,
        }
    } else {
        0
    };
    let ones: u16 = if k >= 3 {
        assert(digit_value(c@[20 + 2int]) is Some);
        match read_digit(c[22]) {
            Some(d) => d as u16,
            None => 0,
        }
    } else {
        0
    };
    Some((hundreds * 100 + tens * 10 + ones, 20 + k))
}

/// Reads the offset that the characters end with from `at` on.
fn read_offset(c: &Vec<char>, at: usize) -> (r: Result<i16, Error>)
    requires
        at <= c.len(),
        at <= 29,
    ensures
        match r {
            Ok(minutes) => parse_offset(c@, at as int) == Ok::<int, ErrorView>(minutes as int)
                && valid_offset(minutes as int),
            Err(e) => parse_offset(c@, at as int) == Err::<int, ErrorView>(e@),
        },
{
    let n = c.len();
    if n == at {
        return Err(Error::MissingField { field: "offset".to_owned() });
    }
    if n == at + 1 && (c[at] == 'Z' || c[at] == 'z') {
        return Ok(0);
    }
    if n == at + 6 && (c[at] == '+' || c[at] == '-') && c[at + 3] == ':' {
        let hours = match read2(c, at + 1) {
            Some(hours) => hours,
            None => { return Err(Error::InvalidType { field: "offset".to_owned() }); },
        };
        let minutes = match read2(c, at + 4) {
            Some(minutes) => minutes,
            None => { return Err(Error::InvalidType { field: "offset".to_owned() }); },
        };
        if hours < 24 && minutes < 60 {
            let ahead: i16 = hours as i16 * 60 + minutes as i16;
            if c[at] == '-' {
                return Ok(-ahead);
            } else {
                return Ok(ahead);
            }
        }
    }
    Err(Error::InvalidType { field: "offset".to_owned() })
}

/// Writes a date and a time of day behind what is written.
fn push_date_time(out: &mut String, l: LocalDateTime)
    requires
        valid_local(l),
    ensures
        final(out)@ == old(out)@ + date_time_text(l),
{
    push_digit(out, l.year / 1000);
    push_digit(out, l.year / 100 % 10);
    push_digit(out, l.year / 10 % 10);
    push_digit(out, l.year % 10);
    push_mark(out, '-');
    push2(out, l.month as u16);
    push_mark(out, '-');
    push2(out, l.day as u16);
    let ghost date = out@;
    push_mark(out, 'T');
    push2(out, l.hour as u16);
    push_mark(out, ':');
    push2(out, l.minute as u16);
    push_mark(out, ':');
    push2(out, l.second as u16);
    proof {
        let a = date_time_text(l);
        let n = old(out)@.len() as int;
        assert(a.len() == 19);
        assert(date.len() == n + 10);
        assert(date =~= old(out)@ + a.subrange(0, 10));
        assert(out@.len() == n + 19);
        assert(out@ =~= date + a.subrange(10, 19));
        assert(out@ =~= old(out)@ + a);
    }
}

/// Writes the milliseconds behind what is written, where there are some.
fn push_fraction(out: &mut String, millisecond: u16)
    requires
        millisecond < 1000,
    ensures
        final(out)@ == old(out)@ + fraction_text(millisecond as int),
{
    if millisecond != 0 {
        push_mark(out, '.');
        push_digit(out, millisecond / 100);
        push_digit(out, millisecond / 10 % 10);
        push_digit(out, millisecond % 10);
        proof {
            let f = fraction_text(millisecond as int);
            assert(f.len() == 4);
            assert(out@ =~= old(out)@ + f);
        }
    } else {
        assert(out@ =~= old(out)@ + fraction_text(0));
    }
}

/// Writes an offset from UTC behind what is written.
fn push_offset(out: &mut String, minutes: i16)
    requires
        valid_offset(minutes as int),
    ensures
        final(out)@ == old(out)@ + offset_text(minutes as int),
{
    if minutes == 0 {
        proof {
            reveal_strlit("Z");
        }
        out.append("Z");
        assert(out@ =~= old(out)@ + offset_text(0));
    } else {
        let ahead: u16 = if minutes < 0 {
            (-minutes) as u16
        } else {
            minutes as u16
        };
        push_mark(out, if minutes < 0 { '-' } else { '+' });
        push2(out, ahead / 60);
        push_mark(out, ':');
        push2(out, ahead % 60);
        proof {
            let o = offset_text(minutes as int);
            assert(o.len() == 6);
            assert(out@ =~= old(out)@ + o);
        }
    }
}

impl DateTime {
    /// Writes the moment as text: the date and the time of day, the
    /// milliseconds where there are some, and the offset, which is `Z`
    /// where there is none.
    pub fn to_wire(&self) -> (r: String)
        ensures
            r@ == wire(self@),
    {
        proof {
            use_type_invariant(self);
        }
        let mut out = String::new();
        push_date_time(&mut out, self.local);
        push_fraction(&mut out, self.local.millisecond);
        push_offset(&mut out, self.offset_minutes);
        assert(out@ =~= wire(self@));
        out
    }

    /// Reads a moment from text. A text in the form in which moments are
    /// written is read in full; of the other forms of such a text, those
    /// are read that a moment can hold.
    pub fn from_wire(text: &str) -> (r: Result<DateTime, Error>)
        ensures
            match r {
                Ok(moment) => parse_wire(text@) == Ok::<DateTimeView, ErrorView>(moment@),
                Err(e) => parse_wire(text@) == Err::<DateTimeView, ErrorView>(e@),
            },
    {
        let c = match characters(text, 35) {
            Some(c) => c,
            None => { return Err(Error::InvalidType { field: "date".to_owned() }); },
        };
        if c.len() < 19 || c[4] != '-' || c[7] != '-' || c[13] != ':' || c[16] != ':' {
            return Err(Error::InvalidType { field: "date".to_owned() });
        }
        if c[10] != 'T' && c[10] != 't' && c[10] != ' ' {
            return Err(Error::InvalidType { field: "date".to_owned() });
        }
        let year = read4(&c, 0);
        let month = read2(&c, 5);
        let day = read2(&c, 8);
        let hour = read2(&c, 11);
        let minute = read2(&c, 14);
        let second = read2(&c, 17);
        let (year, month, day, hour, minute, second) = match (
            year,
            month,
            day,
            hour,
            minute,
            second,
        ) {
            (Some(year), Some(month), Some(day), Some(hour), Some(minute), Some(second)) => (
                year,
                month,
                day,
                hour,
                minute,
                second,
            ),
            _ => { return Err(Error::InvalidType { field: "date".to_owned() }); },
        };
        let fraction = c.len() > 19 && c[19] == '.';
        let (millisecond, start) = if fraction {
            match read_fraction(&c) {
                Some(read) => read,
                None => { return Err(Error::InvalidType { field: "date".to_owned() }); },
            }
        } else {
            (0, 19)
        };
        let local = LocalDateTime { year, month, day, hour, minute, second, millisecond };
        if !local.is_valid() {
            return Err(Error::InvalidType { field: "date".to_owned() });
        }
        let offset_minutes = read_offset(&c, start)?;
        Ok(DateTime { local, offset_minutes })
    }
}

} // verus!
