use vstd::prelude::*;

verus! {

/// Pattern of dates as the store keeps them.
pub const STORED_DATE_PATTERN: &'static str = "[year]-[month]-[day]";

/// Pattern of dates as the creation form accepts them.
pub const FORM_DATE_PATTERN: &'static str = "[day]-[month]-[year]";

pub open spec fn is_leap_year(y: int) -> bool {
    (y % 4 == 0 && y % 100 != 0) || y % 400 == 0
}

pub open spec fn days_in_month(y: int, m: int) -> int {
    if m == 2 {
        if is_leap_year(y) { 29 } else { 28 }
    } else if m == 4 || m == 6 || m == 9 || m == 11 {
        30
    } else {
        31
    }
}

/// A real day of the proleptic Gregorian calendar, within the years that
/// the date library can represent.
pub open spec fn is_calendar_date(y: int, m: int, d: int) -> bool {
    -999_999 <= y <= 999_999 && 1 <= m <= 12 && 1 <= d <= days_in_month(y, m)
}

/// A calendar date held as plain numbers.
#[derive(Clone, Copy, Debug, PartialEq, Eq, Structural)]
pub struct CalendarDate {
    pub year: i32,
    pub month: u8,
    pub day: u8,
}

impl CalendarDate {
    pub open spec fn wf(self) -> bool {
        is_calendar_date(self.year as int, self.month as int, self.day as int)
    }

    pub open spec fn triple(self) -> (int, int, int) {
        (self.year as int, self.month as int, self.day as int)
    }
}

pub open spec fn date_triple(d: Option<CalendarDate>) -> Option<(int, int, int)> {
    match d {
        Some(d) => Some(d.triple()),
        None => None,
    }
}

/// What the date library makes of `text` read against the format
/// description `pattern`: the year, month and day, or nothing.
pub uninterp spec fn parsed_date(text: Seq<char>, pattern: Seq<char>) -> Option<(int, int, int)>;

/// Relies on `time::format_description::parse` to read `pattern`, and on
/// `time::Date::parse` to read `text` against it. The outcome depends on the
/// two strings alone, and a `time::Date` always holds a valid calendar date.
#[verifier::external_body]
pub(crate) fn parse_date(text: &str, pattern: &str) -> (r: Option<CalendarDate>)
    ensures
        date_triple(r) == parsed_date(text@, pattern@),
        r matches Some(d) ==> d.wf(),
{
    let items = time::format_description::parse(pattern).ok()?;
    let d = time::Date::parse(text, &items).ok()?;
    Some(CalendarDate { year: d.year(), month: d.month() as u8, day: d.day() })
}

/// A stored expense record, as the list shows it.
#[derive(Clone, Debug)]
pub struct Expense {
    pub id: i32,
    pub description: String,
    /// The amount as the text that the store gave for it.
    pub amount: String,
    /// Absent when the stored text is not a `YYYY-MM-DD` date.
    pub date: Option<CalendarDate>,
}

pub open spec fn stored_date(text: Option<String>) -> Option<(int, int, int)> {
    match text {
        Some(t) => parsed_date(t@, STORED_DATE_PATTERN@),
        None => None,
    }
}

impl Expense {
    /// Builds a record from the columns of one stored row.
    pub fn from_row(id: i32, description: String, amount: String, date_text: Option<String>) -> (r:
        Expense)
        ensures
            r.id == id,
            r.description == description,
            r.amount == amount,
            date_triple(r.date) == stored_date(date_text),
            r.date matches Some(d) ==> d.wf(),
    {
        let date = match &date_text {
            Some(t) => parse_date(t.as_str(), STORED_DATE_PATTERN),
            None => None,
        };
        Expense { id, description, amount, date }
    }
}

/// Records in one page of the list.
pub const PAGE_SIZE: i64 = 10;

/// The window that the store reads for `page`: at most `PAGE_SIZE` rows,
/// starting `page` rows into the table. Consecutive pages overlap, one row
/// apart, as the list has always paged.
pub fn page_query(page: i64) -> (r: (i64, i64))
    requires
        page >= 1,
    ensures
        r == (PAGE_SIZE, page),
{
    (PAGE_SIZE, page)
}

} // verus!
