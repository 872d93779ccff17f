use chrono::Datelike;
use vstd::prelude::*;

verus! {

/// Smallest year a calendar date may carry.
pub const MIN_YEAR: i32 = -262143;

/// Largest year a calendar date may carry.
pub const MAX_YEAR: i32 = 262142;

/// A calendar date held as plain year, month (1..=12) and day (1..=31).
#[derive(Clone, Copy, Debug, PartialEq, Eq, Structural)]
pub struct Date {
    pub year: i32,
    pub month: u32,
    pub day: u32,
}

impl Date {
    pub open spec fn wf(self) -> bool {
        &&& MIN_YEAR <= self.year <= MAX_YEAR
        &&& 1 <= self.month <= 12
        &&& 1 <= self.day <= 31
    }

    /// True when `self` falls on an earlier day than `other`.
    pub open spec fn before(self, other: Date) -> bool {
        ||| self.year < other.year
        ||| (self.year == other.year && self.month < other.month)
        ||| (self.year == other.year && self.month == other.month && self.day < other.day)
    }

    /// True when the month and day of `self` come earlier in the year than those of `other`.
    pub open spec fn month_day_before(self, other: Date) -> bool {
        self.month < other.month || (self.month == other.month && self.day < other.day)
    }

    pub fn new(year: i32, month: u32, day: u32) -> (r: Option<Date>)
        ensures
            r matches Some(d) ==> d == (Date { year, month, day }) && d.wf(),
            r is None <==> !(Date { year, month, day }).wf(),
    {
        if MIN_YEAR <= year && year <= MAX_YEAR && 1 <= month && month <= 12 && 1 <= day && day <= 31 {
            Some(Date { year, month, day })
        } else {
            None
        }
    }
}

/// The (year, month, day) that chrono's `NaiveDate::parse_from_str` reads from
/// a text in the `%Y-%m-%d` format, or `None` where it rejects the text.
pub uninterp spec fn parsed_ymd(s: Seq<char>) -> Option<(int, int, int)>;

pub open spec fn ymd_of(d: Date) -> (int, int, int) {
    (d.year as int, d.month as int, d.day as int)
}

/// Relies on chrono's `NaiveDate::parse_from_str` with the format `%Y-%m-%d`:
/// the result depends on the text alone, and a date it yields is a valid one.
#[verifier::external_body]
fn parse_iso_date(s: &str) -> (r: Option<Date>)
    ensures
        r is None <==> parsed_ymd(s@) is None,
        r matches Some(d) ==> d.wf() && parsed_ymd(s@) == Some(ymd_of(d)),
{
    match chrono::NaiveDate::parse_from_str(s, "%Y-%m-%d") {
        Ok(d) => Some(Date { year: d.year(), month: d.month(), day: d.day() }),
        Err(_) => None,
    }
}

/// Relies on chrono's `Utc::now`: today's date in UTC, a valid date of whatever day it is.
#[verifier::external_body]
fn today_utc() -> (r: Date)
    ensures
        r.wf(),
{
    let d = chrono::Utc::now().naive_utc().date();
    Date { year: d.year(), month: d.month(), day: d.day() }
}

/// Whole years completed between `birth` and `today`.
pub open spec fn age_years(birth: Date, today: Date) -> int {
    if today.month_day_before(birth) {
        today.year - birth.year - 1
    } else {
        today.year - birth.year
    }
}

/// The number of whole years completed on `today` by someone born on `birth`:
/// the difference of the years, less one when this year's birthday is still to come.
pub fn age_on(birth: Date, today: Date) -> (r: i32)
    requires
        birth.wf(),
        today.wf(),
    ensures
        r == age_years(birth, today),
{
    let mut age: i32 = today.year - birth.year;
    if today.month < birth.month || (today.month == birth.month && today.day < birth.day) {
        age = age - 1;
    }
    age
}

/// The date that `dob` names in the `YYYY-MM-DD` format, as a valid date.
pub open spec fn parsed_date(dob: Seq<char>) -> Option<Date> {
    match parsed_ymd(dob) {
        Some((y, m, d)) => Some(Date { year: y as i32, month: m as u32, day: d as u32 }),
        None => None,
    }
}

/// The age on `today` of someone whose birth date is written `dob`, or 0 where
/// `dob` is not a valid `YYYY-MM-DD` date.
pub open spec fn age_or_zero(dob: Seq<char>, today: Date) -> int {
    match parsed_date(dob) {
        Some(birth) => age_years(birth, today),
        None => 0,
    }
}

/// The age on `today` for the birth date written `dob` in `YYYY-MM-DD` form;
/// `None` where the text is not such a date.
pub fn calculate_age(dob: &str, today: Date) -> (r: Option<i32>)
    requires
        today.wf(),
    ensures
        r is None <==> parsed_date(dob@) is None,
        r matches Some(a) ==> a == age_years(parsed_date(dob@)->Some_0, today),
{
    match parse_iso_date(dob) {
        Some(birth) => Some(age_on(birth, today)),
        None => None,
    }
}

/// The age for `dob` on `today`, where a text that is no valid date counts as age 0.
pub fn age_at(dob: &str, today: Date) -> (r: i32)
    requires
        today.wf(),
    ensures
        r == age_or_zero(dob@, today),
{
    match calculate_age(dob, today) {
        Some(a) => a,
        None => 0,
    }
}

/// The age for `dob` today (in UTC); 0 where `dob` is no valid date.
pub fn current_age(dob: &str) -> (r: i32)
    ensures
        exists|today: Date| today.wf() && r == age_or_zero(dob@, today),
        parsed_date(dob@) is None ==> r == 0,
{
    let today = today_utc();
    age_at(dob, today)
}

/// A birth date that is not after today gives an age that is not negative.
pub proof fn lemma_age_not_negative(birth: Date, today: Date)
    requires
        !today.before(birth),
    ensures
        age_years(birth, today) >= 0,
        age_years(birth, today) == today.year - birth.year - (if today.month_day_before(birth) { 1int } else { 0int }),
{
}

/// For a text that names a birth date not after `today`, the age is the year
/// difference, less one when this year's birthday is still to come, and is not
/// negative; for a text that names no date, the age is 0.
pub proof fn lemma_age_of_text(dob: Seq<char>, today: Date)
    ensures
        parsed_date(dob) matches Some(birth) ==> (!today.before(birth) ==> age_or_zero(dob, today)
            >= 0 && age_or_zero(dob, today) == today.year - birth.year - (if today.month_day_before(
            birth,
        ) {
            1int
        } else {
            0int
        })),
        parsed_date(dob) is None ==> age_or_zero(dob, today) == 0,
{
    if let Some(birth) = parsed_date(dob) {
        if !today.before(birth) {
            lemma_age_not_negative(birth, today);
        }
    }
}

} // verus!
