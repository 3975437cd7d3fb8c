//! The model of an interactive calendar: the selected day, the visible
//! month, and the grid of days that the calendar shows.
//!
//! Dates are civil dates in the proleptic Gregorian calendar, with years in
//! `-9999..=9999`; the date arithmetic is done by the `jiff` crate.

use vstd::prelude::*;
use vstd::arithmetic::div_mod::{lemma_fundamental_div_mod, lemma_fundamental_div_mod_converse, lemma_mod_bound};

verus! {

/// Whether `y` is a leap year.
pub open spec fn is_leap_year(y: int) -> bool {
    (y % 4 == 0 && y % 100 != 0) || y % 400 == 0
}

/// The number of days of month `m` of year `y`.
pub open spec fn days_in_month(y: int, m: int) -> int {
    if m == 2 {
        if is_leap_year(y) { 29 } else { 28 }
    } else if m == 4 || m == 6 || m == 9 || m == 11 {
        30
    } else {
        31
    }
}

/// Whether year, month and day form a date.
pub open spec fn is_valid_ymd(v: (int, int, int)) -> bool {
    &&& -9999 <= v.0 <= 9999
    &&& 1 <= v.1 <= 12
    &&& 1 <= v.2 <= days_in_month(v.0, v.1)
}

/// The day after a date, if it is in range.
pub open spec fn next_day(v: (int, int, int)) -> Option<(int, int, int)> {
    if v.2 < days_in_month(v.0, v.1) {
        Some((v.0, v.1, v.2 + 1))
    } else if v.1 < 12 {
        Some((v.0, v.1 + 1, 1))
    } else if v.0 < 9999 {
        Some((v.0 + 1, 1, 1))
    } else {
        None
    }
}

/// The day before a date, if it is in range.
pub open spec fn previous_day(v: (int, int, int)) -> Option<(int, int, int)> {
    if v.2 > 1 {
        Some((v.0, v.1, v.2 - 1))
    } else if v.1 > 1 {
        Some((v.0, v.1 - 1, days_in_month(v.0, v.1 - 1)))
    } else if v.0 > -9999 {
        Some((v.0 - 1, 12, 31))
    } else {
        None
    }
}

/// The date `n` days after `v`, if it is in range.
pub open spec fn days_after(v: (int, int, int), n: nat) -> Option<(int, int, int)>
    decreases n,
{
    if n == 0 {
        Some(v)
    } else {
        match days_after(v, (n - 1) as nat) {
            Some(w) => next_day(w),
            None => None,
        }
    }
}

/// The date `n` days before `v`, if it is in range.
pub open spec fn days_before(v: (int, int, int), n: nat) -> Option<(int, int, int)>
    decreases n,
{
    if n == 0 {
        Some(v)
    } else {
        match days_before(v, (n - 1) as nat) {
            Some(w) => previous_day(w),
            None => None,
        }
    }
}

/// The same day of the next month, moved back to the last day of that
/// month when it has fewer days; none past the year 9999.
pub open spec fn month_after(v: (int, int, int)) -> Option<(int, int, int)> {
    let (y, m) = if v.1 == 12 { (v.0 + 1, 1int) } else { (v.0, v.1 + 1) };
    if y > 9999 {
        None
    } else {
        Some((y, m, if v.2 <= days_in_month(y, m) { v.2 } else { days_in_month(y, m) }))
    }
}

/// The same day of the previous month, moved back to the last day of that
/// month when it has fewer days; none before the year -9999.
pub open spec fn month_before(v: (int, int, int)) -> Option<(int, int, int)> {
    let (y, m) = if v.1 == 1 { (v.0 - 1, 12int) } else { (v.0, v.1 - 1) };
    if y < -9999 {
        None
    } else {
        Some((y, m, if v.2 <= days_in_month(y, m) { v.2 } else { days_in_month(y, m) }))
    }
}

/// A civil date.
#[derive(Debug, Clone, Copy, PartialEq, Eq, Structural, Hash, PartialOrd, Ord)]
pub struct Date {
    year: i16,
    month: i8,
    day: i8,
}

impl View for Date {
    type V = (int, int, int);

    closed spec fn view(&self) -> (int, int, int) {
        (self.year as int, self.month as int, self.day as int)
    }
}

impl Date {
    #[verifier::type_invariant]
    spec fn is_valid(self) -> bool {
        is_valid_ymd(self@)
    }

    /// The date with the given year, month and day, if they form a date.
    pub fn new(year: i16, month: i8, day: i8) -> (r: Option<Date>)
        ensures
            r is Some <==> is_valid_ymd((year as int, month as int, day as int)),
            r matches Some(d) ==> d@ == (year as int, month as int, day as int),
    {
        if year < -9999 || year > 9999 || month < 1 || month > 12 || day < 1 {
            return None;
        }
        let leap = (year % 4 == 0 && year % 100 != 0) || year % 400 == 0;
        let dim: i8 = if month == 2 {
            if leap { 29 } else { 28 }
        } else if month == 4 || month == 6 || month == 9 || month == 11 {
            30
        } else {
            31
        };
        if day > dim {
            return None;
        }
        Some(Date { year, month, day })
    }

    /// The year.
    pub fn year(&self) -> (r: i16)
        ensures
            r == self@.0,
    {
        self.year
    }

    /// The month, from 1 to 12.
    pub fn month(&self) -> (r: i8)
        ensures
            r == self@.1,
    {
        self.month
    }

    /// The day of the month, from 1.
    pub fn day(&self) -> (r: i8)
        ensures
            r == self@.2,
    {
        self.day
    }

    /// Brings into view that the date is a valid one, which every date is.
    pub fn establish_valid(&self)
        ensures
            is_valid_ymd(self@),
    {
        proof {
            use_type_invariant(self);
        }
    }

    /// The first day of the date's month.
    pub fn first_of_month(&self) -> (r: Date)
        ensures
            r@ == (self@.0, self@.1, 1int),
    {
        proof {
            use_type_invariant(self);
        }
        Date { year: self.year, month: self.month, day: 1 }
    }
}


/// A day of the week.
#[derive(Debug, Clone, Copy, PartialEq, Eq, Structural, Hash)]
pub enum Weekday {
    Monday,
    Tuesday,
    Wednesday,
    Thursday,
    Friday,
    Saturday,
    Sunday,
}

impl Weekday {
    /// The number of the weekday in a week that starts on Monday at 1.
    pub open spec fn number(self) -> int {
        match self {
            Weekday::Monday => 1,
            Weekday::Tuesday => 2,
            Weekday::Wednesday => 3,
            Weekday::Thursday => 4,
            Weekday::Friday => 5,
            Weekday::Saturday => 6,
            Weekday::Sunday => 7,
        }
    }

    /// The weekday numbered `n` in a week that starts on Monday at 1.
    pub fn from_monday_one_offset(n: i8) -> (r: Weekday)
        requires
            1 <= n <= 7,
        ensures
            r.number() == n,
    {
        if n == 1 {
            Weekday::Monday
        } else if n == 2 {
            Weekday::Tuesday
        } else if n == 3 {
            Weekday::Wednesday
        } else if n == 4 {
            Weekday::Thursday
        } else if n == 5 {
            Weekday::Friday
        } else if n == 6 {
            Weekday::Saturday
        } else {
            Weekday::Sunday
        }
    }

    /// The number of the weekday in a week that starts on Monday at 1.
    pub fn to_monday_one_offset(self) -> (r: i8)
        ensures
            r == self.number(),
    {
        match self {
            Weekday::Monday => 1,
            Weekday::Tuesday => 2,
            Weekday::Wednesday => 3,
            Weekday::Thursday => 4,
            Weekday::Friday => 5,
            Weekday::Saturday => 6,
            Weekday::Sunday => 7,
        }
    }

    /// The next weekday, Monday following Sunday.
    pub fn next(self) -> (r: Weekday)
        ensures
            r.number() == self.number() % 7 + 1,
    {
        match self {
            Weekday::Monday => Weekday::Tuesday,
            Weekday::Tuesday => Weekday::Wednesday,
            Weekday::Wednesday => Weekday::Thursday,
            Weekday::Thursday => Weekday::Friday,
            Weekday::Friday => Weekday::Saturday,
            Weekday::Saturday => Weekday::Sunday,
            Weekday::Sunday => Weekday::Monday,
        }
    }

    /// The number of days from `other` to this weekday, in `0..=6`.
    pub fn since(self, other: Weekday) -> (r: i8)
        ensures
            0 <= r <= 6,
            r == (self.number() - other.number()) % 7,
    {
        let a = self.to_monday_one_offset();
        let b = other.to_monday_one_offset();
        if a >= b {
            a - b
        } else {
            a - b + 7
        }
    }
}

/// The number of days from 1970-01-01 to a date of the proleptic Gregorian
/// calendar, negative before it: whole 400-year eras of 146097 days, then
/// the years of the era, counted from March so that a leap day ends a year.
pub open spec fn days_from_civil(year: int, month: int, day: int) -> int {
    let y = if month <= 2 { year - 1 } else { year };
    let era = y / 400;
    let year_of_era = y - era * 400;
    let month_from_march = if month > 2 { month - 3 } else { month + 9 };
    let day_of_year = (153 * month_from_march + 2) / 5 + day - 1;
    let day_of_era = year_of_era * 365 + year_of_era / 4 - year_of_era / 100 + day_of_year;
    era * 146097 + day_of_era - 719468
}

/// The weekday of a date, numbered from Monday at 1: 1970-01-01 was a
/// Thursday, and the weekdays follow each other every day.
pub open spec fn weekday_number(year: int, month: int, day: int) -> int {
    (days_from_civil(year, month, day) + 3) % 7 + 1
}

/// `jiff::civil::Date::weekday`, read with `Weekday::to_monday_one_offset`.
/// Trusted to return the number of the date's weekday in the proleptic
/// Gregorian calendar, Monday being 1.
#[verifier::external_body]
fn jiff_weekday_number(date: &Date) -> (r: i8)
    ensures
        r == weekday_number(date@.0, date@.1, date@.2),
        1 <= r <= 7,
{
    jiff::civil::date(date.year, date.month, date.day).weekday().to_monday_one_offset()
}

/// `jiff::civil::Date::checked_add` with one month. Trusted to return the
/// same day of the next month, moved back to that month's last day when it
/// has fewer days, and nothing when the year would pass 9999.
#[verifier::external_body]
fn jiff_add_one_month(date: &Date) -> (r: Option<Date>)
    ensures
        match month_after(date@) {
            Some(v) => r matches Some(d) && d@ == v,
            None => r is None,
        },
{
    let d = jiff::civil::date(date.year, date.month, date.day);
    match d.checked_add(jiff::Span::new().months(1)) {
        Ok(n) => Some(Date { year: n.year(), month: n.month(), day: n.day() }),
        Err(_) => None,
    }
}

/// `jiff::civil::Date::checked_sub` with one month. Trusted to return the
/// same day of the previous month, moved back to that month's last day when
/// it has fewer days, and nothing when the year would fall below -9999.
#[verifier::external_body]
fn jiff_sub_one_month(date: &Date) -> (r: Option<Date>)
    ensures
        match month_before(date@) {
            Some(v) => r matches Some(d) && d@ == v,
            None => r is None,
        },
{
    let d = jiff::civil::date(date.year, date.month, date.day);
    match d.checked_sub(jiff::Span::new().months(1)) {
        Ok(n) => Some(Date { year: n.year(), month: n.month(), day: n.day() }),
        Err(_) => None,
    }
}

/// `jiff::civil::Date::checked_add` with a number of days. Trusted to return
/// the date that many days later, and nothing past 9999-12-31.
#[verifier::external_body]
fn jiff_add_days(date: &Date, n: i32) -> (r: Option<Date>)
    requires
        0 <= n <= 10000,
    ensures
        match days_after(date@, n as nat) {
            Some(v) => r matches Some(d) && d@ == v,
            None => r is None,
        },
{
    let d = jiff::civil::date(date.year, date.month, date.day);
    match d.checked_add(jiff::Span::new().days(n)) {
        Ok(n) => Some(Date { year: n.year(), month: n.month(), day: n.day() }),
        Err(_) => None,
    }
}

/// `jiff::civil::Date::checked_sub` with a number of days. Trusted to return
/// the date that many days earlier, and nothing before -9999-01-01.
#[verifier::external_body]
fn jiff_sub_days(date: &Date, n: i32) -> (r: Option<Date>)
    requires
        0 <= n <= 10000,
    ensures
        match days_before(date@, n as nat) {
            Some(v) => r matches Some(d) && d@ == v,
            None => r is None,
        },
{
    let d = jiff::civil::date(date.year, date.month, date.day);
    match d.checked_sub(jiff::Span::new().days(n)) {
        Ok(n) => Some(Date { year: n.year(), month: n.month(), day: n.day() }),
        Err(_) => None,
    }
}

/// `jiff::civil::DateWith::day` followed by `build`. Trusted to return the
/// date with its day of the month replaced when that forms a date, and
/// nothing otherwise.
#[verifier::external_body]
fn jiff_with_day(date: &Date, day: i8) -> (r: Option<Date>)
    ensures
        if 1 <= day <= days_in_month(date@.0, date@.1) {
            r matches Some(d) && d@ == (date@.0, date@.1, day as int)
        } else {
            r is None
        },
{
    let d = jiff::civil::date(date.year, date.month, date.day);
    match d.with().day(day).build() {
        Ok(n) => Some(Date { year: n.year(), month: n.month(), day: n.day() }),
        Err(_) => None,
    }
}

/// `jiff::Zoned::try_from` on `std::time::SystemTime::now`, read as a
/// civil date in the system's time zone. Nothing is claimed of the result:
/// it depends on the clock and the time zone, and it is none where the
/// clock is set outside the range of dates that jiff represents.
#[verifier::external_body]
fn jiff_today() -> (r: Option<Date>) {
    match jiff::Zoned::try_from(std::time::SystemTime::now()) {
        Ok(z) => Some(Date { year: z.date().year(), month: z.date().month(), day: z.date().day() }),
        Err(_) => None,
    }
}

/// The date with its day of the month set to `day`, or the date unchanged
/// when that day does not exist in its month.
pub fn set_day(date_selected: Date, day: i8) -> (r: Date)
    ensures
        r@ == if 1 <= day <= days_in_month(date_selected@.0, date_selected@.1) {
            (date_selected@.0, date_selected@.1, day as int)
        } else {
            date_selected@
        },
{
    match jiff_with_day(&date_selected, day) {
        Some(d) => d,
        None => date_selected,
    }
}

/// The first date that the calendar shows for a month: the last day on or
/// before the first of the month that falls on `from_weekday`.
pub open spec fn calendar_first(year: int, month: int, from_weekday: Weekday) -> Option<(int, int, int)> {
    let back = (weekday_number(year, month, 1) - from_weekday.number()) % 7;
    days_before((year, month, 1), back as nat)
}

/// Gets the first date that will be visible on the calendar.
pub fn get_calendar_first(year: i16, month: i8, from_weekday: Weekday) -> (r: Date)
    requires
        -9999 <= year <= 9999,
        1 <= month <= 12,
        calendar_first(year as int, month as int, from_weekday) is Some,
    ensures
        Some(r@) == calendar_first(year as int, month as int, from_weekday),
{
    let date = Date::new(year, month, 1).unwrap();
    let wd = Weekday::from_monday_one_offset(jiff_weekday_number(&date));
    let num_days = wd.since(from_weekday);
    jiff_sub_days(&date, num_days as i32).unwrap()
}


/// The selected day and the visible month of a calendar.
#[derive(Debug, Clone, Copy, PartialEq, Eq, Structural, Hash, PartialOrd, Ord)]
pub struct CalendarModel {
    pub selected: Date,
    pub visible: Date,
}

impl CalendarModel {
    /// A calendar that selects and shows today's date; none where the
    /// clock is set outside the range of dates.
    pub fn now() -> (r: Option<Self>)
        ensures
            r matches Some(m) ==> m.selected == m.visible,
    {
        match jiff_today() {
            Some(now) => Some(CalendarModel { selected: now, visible: now }),
            None => None,
        }
    }

    /// The weekday of the visible date, which the calendar shows under the
    /// month.
    pub fn visible_weekday(&self) -> (r: Weekday)
        ensures
            r.number() == weekday_number(self.visible@.0, self.visible@.1, self.visible@.2),
    {
        Weekday::from_monday_one_offset(jiff_weekday_number(&self.visible))
    }

    /// A calendar with the given selected and visible dates.
    pub fn new(selected: Date, visible: Date) -> (r: Self)
        ensures
            r.selected == selected,
            r.visible == visible,
    {
        CalendarModel { selected, visible }
    }

    /// Shows the previous month, keeping the selection. The visible month
    /// must not be the first month of the year -9999.
    pub fn show_prev_month(&mut self)
        requires
            month_before(old(self).visible@) is Some,
        ensures
            Some(final(self).visible@) == month_before(old(self).visible@),
            final(self).selected == old(self).selected,
    {
        self.visible = jiff_sub_one_month(&self.visible).unwrap();
    }

    /// Shows the next month, keeping the selection. The visible month must
    /// not be the last month of the year 9999.
    pub fn show_next_month(&mut self)
        requires
            month_after(old(self).visible@) is Some,
        ensures
            Some(final(self).visible@) == month_after(old(self).visible@),
            final(self).selected == old(self).selected,
    {
        self.visible = jiff_add_one_month(&self.visible).unwrap();
    }

    /// Shows the previous month and selects the visible date.
    pub fn set_prev_month(&mut self)
        requires
            month_before(old(self).visible@) is Some,
        ensures
            Some(final(self).visible@) == month_before(old(self).visible@),
            final(self).selected == final(self).visible,
    {
        self.show_prev_month();
        self.selected = self.visible;
    }

    /// Shows the next month and selects the visible date.
    pub fn set_next_month(&mut self)
        requires
            month_after(old(self).visible@) is Some,
        ensures
            Some(final(self).visible@) == month_after(old(self).visible@),
            final(self).selected == final(self).visible,
    {
        self.show_next_month();
        self.selected = self.visible;
    }

    /// Selects a date and shows it.
    pub fn set_selected_visible(&mut self, selected: Date)
        ensures
            final(self).selected == selected,
            final(self).visible == selected,
    {
        self.selected = selected;
        self.visible = self.selected;
    }
}

/// How a day of the calendar grid is drawn.
#[derive(Debug, Clone, Copy, PartialEq, Eq, Structural)]
pub enum DayStyle {
    /// The selected day.
    Suggested,
    /// Today, when not selected.
    Standard,
    /// Any other day.
    Text,
}

/// The style of a day button: the selected day is suggested, today is
/// standard, any other day is plain text.
pub fn date_button_style(is_currently_selected_day: bool, is_today: bool) -> (r: DayStyle)
    ensures
        r == if is_currently_selected_day {
            DayStyle::Suggested
        } else if is_today {
            DayStyle::Standard
        } else {
            DayStyle::Text
        },
{
    if is_currently_selected_day {
        DayStyle::Suggested
    } else if is_today {
        DayStyle::Standard
    } else {
        DayStyle::Text
    }
}

/// A day of the calendar grid.
#[derive(Debug, Clone, Copy, PartialEq, Eq, Structural)]
pub struct DayCell {
    pub date: Date,
    /// Whether the day is in the visible month; only such days can be pressed,
    /// and pressing one selects it.
    pub in_visible_month: bool,
    pub is_selected: bool,
    pub is_today: bool,
    pub style: DayStyle,
}

/// Whether `cell` describes the day `v` of a calendar showing `model` on `today`.
pub open spec fn describes_day(cell: DayCell, v: (int, int, int), model: CalendarModel, today: Date) -> bool {
    &&& cell.date@ == v
    &&& cell.in_visible_month == (v.0 == model.visible@.0 && v.1 == model.visible@.1)
    &&& cell.is_selected == (v == model.selected@)
    &&& cell.is_today == (v == today@)
    &&& cell.style == (if cell.is_selected {
        DayStyle::Suggested
    } else if cell.is_today {
        DayStyle::Standard
    } else {
        DayStyle::Text
    })
}

/// The weekdays of the header row, starting from `first_day_of_week`.
pub fn weekday_header(first_day_of_week: Weekday) -> (r: Vec<Weekday>)
    ensures
        r@.len() == 7,
        forall|i: int| 0 <= i < 7 ==> #[trigger] r@[i].number() == (first_day_of_week.number() - 1 + i) % 7 + 1,
{
    let mut r: Vec<Weekday> = Vec::new();
    let mut day = first_day_of_week;
    let mut i: usize = 0;
    while i < 7
        invariant
            0 <= i <= 7,
            r@.len() == i,
            day.number() == (first_day_of_week.number() - 1 + i) % 7 + 1,
            forall|k: int| 0 <= k < i ==> #[trigger] r@[k].number() == (first_day_of_week.number() - 1 + k) % 7 + 1,
        decreases 7 - i,
    {
        r.push(day);
        day = day.next();
        i += 1;
    }
    r
}

proof fn lemma_days_after_prefix(v: (int, int, int), n: nat, k: nat)
    requires
        k <= n,
        days_after(v, n) is Some,
    ensures
        days_after(v, k) is Some,
    decreases n,
{
    if k < n {
        lemma_days_after_prefix(v, (n - 1) as nat, k);
    }
}

/// The 42 days that the calendar grid shows for `model`: six weeks from the
/// first day of the week on or before the first of the visible month.
pub fn calendar_cells(model: &CalendarModel, first_day_of_week: Weekday, today: Date) -> (r: Vec<DayCell>)
    requires
        calendar_first(model.visible@.0, model.visible@.1, first_day_of_week) matches Some(f)
            && days_after(f, 41) is Some,
    ensures
        r@.len() == 42,
        forall|i: int| 0 <= i < 42 ==> describes_day(#[trigger] r@[i],
            days_after(calendar_first(model.visible@.0, model.visible@.1, first_day_of_week)->0, i as nat)->0,
            *model, today),
{
    model.visible.establish_valid();
    let first = get_calendar_first(model.visible.year(), model.visible.month(), first_day_of_week);
    let mut r: Vec<DayCell> = Vec::new();
    let mut i: i32 = 0;
    while i < 42
        invariant
            0 <= i <= 42,
            r@.len() == i,
            days_after(first@, 41) is Some,
            forall|k: int| 0 <= k < i ==> describes_day(#[trigger] r@[k], days_after(first@, k as nat)->0, *model, today),
        decreases 42 - i,
    {
        proof {
            lemma_days_after_prefix(first@, 41, i as nat);
        }
        let date = jiff_add_days(&first, i).unwrap();
        let in_visible_month = date.year() == model.visible.year() && date.month() == model.visible.month();
        let is_selected = date.year() == model.selected.year() && date.month() == model.selected.month()
            && date.day() == model.selected.day();
        let is_today = date.year() == today.year() && date.month() == today.month() && date.day() == today.day();
        let style = date_button_style(is_selected, is_today);
        r.push(DayCell { date, in_visible_month, is_selected, is_today, style });
        i += 1;
    }
    r
}


/// Whether the calendar of a model's visible month can be drawn: its first
/// day, and the 41 days after it, are dates.
pub open spec fn grid_in_range(model: CalendarModel, first_day_of_week: Weekday) -> bool {
    calendar_first(model.visible@.0, model.visible@.1, first_day_of_week) matches Some(f)
        && days_after(f, 41) is Some
}

/// Today's date, from the clock and the time zone; none where the clock is
/// set outside the range of dates.
pub fn today() -> (r: Option<Date>) {
    jiff_today()
}

/// A calendar widget over a model, with its messages: `S` makes the
/// message of selecting a date, `P` and `N` those of showing the previous
/// and the next month.
pub struct Calendar<'a, S, P, N> {
    pub model: &'a CalendarModel,
    pub on_select: S,
    pub on_prev: P,
    pub on_next: N,
    pub first_day_of_week: Weekday,
}

/// A calendar widget showing `model`, its weeks starting on `first_day_of_week`.
pub fn calendar<'a, S, P, N>(model: &'a CalendarModel, on_select: S, on_prev: P, on_next: N, first_day_of_week: Weekday) -> (r: Calendar<'a, S, P, N>)
    ensures
        r.model == model,
        r.on_select == on_select,
        r.on_prev == on_prev,
        r.on_next == on_next,
        r.first_day_of_week == first_day_of_week,
{
    Calendar { model, on_select, on_prev, on_next, first_day_of_week }
}

impl<'a, S, P, N> Calendar<'a, S, P, N> {
    /// The weekdays of the header row.
    pub fn header(&self) -> (r: Vec<Weekday>)
        ensures
            r@.len() == 7,
            forall|i: int| 0 <= i < 7 ==> #[trigger] r@[i].number() == (self.first_day_of_week.number() - 1 + i) % 7 + 1,
    {
        weekday_header(self.first_day_of_week)
    }

    /// The 42 days of the grid, on the day `today`; `None` where the grid
    /// would reach past the dates that exist.
    pub fn cells(&self, today: Date) -> (r: Option<Vec<DayCell>>)
        ensures
            match r {
                Some(v) => {
                    &&& grid_in_range(*self.model, self.first_day_of_week)
                    &&& v@.len() == 42
                    &&& forall|i: int| 0 <= i < 42 ==> describes_day(#[trigger] v@[i],
                        days_after(calendar_first(self.model.visible@.0, self.model.visible@.1, self.first_day_of_week)->0, i as nat)->0,
                        *self.model, today)
                },
                None => !grid_in_range(*self.model, self.first_day_of_week),
            },
    {
        self.model.visible.establish_valid();
        let date = Date::new(self.model.visible.year(), self.model.visible.month(), 1).unwrap();
        let wd = Weekday::from_monday_one_offset(jiff_weekday_number(&date));
        let back = wd.since(self.first_day_of_week);
        let first = match jiff_sub_days(&date, back as i32) {
            Some(f) => f,
            None => return None,
        };
        match jiff_add_days(&first, 41) {
            Some(_) => Some(calendar_cells(self.model, self.first_day_of_week, today)),
            None => None,
        }
    }
}

/// The day before a valid date is a valid date, and the day after it is the date again.
pub proof fn lemma_previous_then_next(v: (int, int, int))
    requires
        is_valid_ymd(v),
        previous_day(v) is Some,
    ensures
        is_valid_ymd(previous_day(v)->0),
        next_day(previous_day(v)->0) == Some(v),
{
}

proof fn lemma_days_after_shift(w: (int, int, int), n: nat)
    ensures
        days_after(w, n + 1) == match next_day(w) {
            Some(u) => days_after(u, n),
            None => None::<(int, int, int)>,
        },
    decreases n,
{
    reveal_with_fuel(days_after, 2);
    if n > 0 {
        lemma_days_after_shift(w, (n - 1) as nat);
        assert(days_after(w, n + 1) == match days_after(w, n) {
            Some(x) => next_day(x),
            None => None::<(int, int, int)>,
        });
    }
}

/// Going `n` days back from a valid date and then `n` days forward leads to the date again.
pub proof fn lemma_days_before_then_after(v: (int, int, int), n: nat)
    requires
        is_valid_ymd(v),
        days_before(v, n) is Some,
    ensures
        is_valid_ymd(days_before(v, n)->0),
        days_after(days_before(v, n)->0, n) == Some(v),
    decreases n,
{
    if n > 0 {
        let u = days_before(v, (n - 1) as nat);
        assert(u is Some);
        lemma_days_before_then_after(v, (n - 1) as nat);
        let w = previous_day(u->0);
        lemma_previous_then_next(u->0);
        lemma_days_after_shift(w->0, (n - 1) as nat);
    }
}

/// The calendar grid of a month shows the first day of that month within its first week.
pub proof fn lemma_grid_shows_first_of_month(year: int, month: int, from_weekday: Weekday)
    requires
        -9999 <= year <= 9999,
        1 <= month <= 12,
        calendar_first(year, month, from_weekday) is Some,
    ensures
        ({
            let k = (weekday_number(year, month, 1) - from_weekday.number()) % 7;
            &&& 0 <= k <= 6
            &&& days_after(calendar_first(year, month, from_weekday)->0, k as nat) == Some((year, month, 1int))
        }),
{
    let k = (weekday_number(year, month, 1) - from_weekday.number()) % 7;
    lemma_days_before_then_after((year, month, 1), k as nat);
}

/// The day count of a date given as year, month and day.
pub open spec fn day_count(v: (int, int, int)) -> int {
    days_from_civil(v.0, v.1, v.2)
}

/// The days before March 1 of the year `y` (as the day count begins a year
/// in March), from the civil epoch's origin.
pub open spec fn march_base(y: int) -> int {
    let era = y / 400;
    let year_of_era = y - era * 400;
    era * 146097 + year_of_era * 365 + year_of_era / 4 - year_of_era / 100
}

/// Stepping one below `x` lowers `x / d` by one exactly when `d` divides `x`.
proof fn lemma_div_step(x: int, d: int)
    requires
        d > 0,
    ensures
        x / d - (x - 1) / d == if x % d == 0 { 1int } else { 0int },
{
    let q = x / d;
    let s = x % d;
    lemma_fundamental_div_mod(x, d);
    lemma_mod_bound(x, d);
    assert(d * q == q * d) by (nonlinear_arith);
    assert((q - 1) * d == q * d - d) by (nonlinear_arith);
    if s == 0 {
        lemma_fundamental_div_mod_converse(x - 1, d, q - 1, d - 1);
    } else {
        lemma_fundamental_div_mod_converse(x - 1, d, q, s - 1);
    }
}

/// A year of the day count, from March to February, is a leap year's
/// length exactly when its February is that of a leap year.
proof fn lemma_march_base_step(y: int)
    ensures
        march_base(y) - march_base(y - 1) == if is_leap_year(y) { 366int } else { 365int },
{
    let e = y / 400;
    let r = y % 400;
    lemma_fundamental_div_mod(y, 400);
    lemma_mod_bound(y, 400);
    if r == 0 {
        lemma_fundamental_div_mod_converse(y - 1, 400, e - 1, 399);
        lemma_fundamental_div_mod_converse(399, 4, 99, 3);
        lemma_fundamental_div_mod_converse(399, 100, 3, 99);
        assert(march_base(y) == e * 146097);
        assert(march_base(y - 1) == (e - 1) * 146097 + 399 * 365 + 99 - 3);
    } else {
        lemma_fundamental_div_mod_converse(y - 1, 400, e, r - 1);
        lemma_div_step(r, 4);
        lemma_div_step(r, 100);
        let a = r / 4;
        let b = r / 100;
        lemma_fundamental_div_mod(r, 4);
        lemma_mod_bound(r, 4);
        lemma_fundamental_div_mod(r, 100);
        lemma_mod_bound(r, 100);
        lemma_fundamental_div_mod_converse(y, 4, 100 * e + a, r % 4);
        lemma_fundamental_div_mod_converse(y, 100, 4 * e + b, r % 100);
        assert(march_base(y) == e * 146097 + r * 365 + r / 4 - r / 100);
        assert(march_base(y - 1) == e * 146097 + (r - 1) * 365 + (r - 1) / 4 - (r - 1) / 100);
    }
}

/// The day count of the day before a date is one less.
proof fn lemma_day_count_step(v: (int, int, int))
    requires
        is_valid_ymd(v),
        previous_day(v) is Some,
    ensures
        day_count(previous_day(v)->0) == day_count(v) - 1,
{
    let (y, m, d) = v;
    if d > 1 {
    } else if m == 3 {
        lemma_march_base_step(y);
        assert(days_from_civil(y, 3, 1) == march_base(y) - 719468);
        assert(days_from_civil(y, 2, days_in_month(y, 2)) == march_base(y - 1) + 337 + days_in_month(y, 2) - 1 - 719468);
    } else if m == 1 {
        assert(days_from_civil(y, 1, 1) == march_base(y - 1) + 306 - 719468);
        assert(days_from_civil(y - 1, 12, 31) == march_base(y - 1) + 305 - 719468);
    } else if m == 2 {
        assert(days_from_civil(y, 2, 1) == march_base(y - 1) + 337 - 719468);
        assert(days_from_civil(y, 1, 31) == march_base(y - 1) + 306 + 30 - 719468);
    } else {
        assert(days_from_civil(y, m, 1) == march_base(y) + (153 * (m - 3) + 2) / 5 - 719468);
        assert(days_from_civil(y, m - 1, days_in_month(y, m - 1))
            == march_base(y) + (153 * (m - 4) + 2) / 5 + days_in_month(y, m - 1) - 1 - 719468);
        if m == 4 {
        } else if m == 5 {
        } else if m == 6 {
        } else if m == 7 {
        } else if m == 8 {
        } else if m == 9 {
        } else if m == 10 {
        } else if m == 11 {
        } else {
        }
    }
}

/// Going `n` days back lowers the day count by `n`.
proof fn lemma_day_count_back(v: (int, int, int), n: nat)
    requires
        is_valid_ymd(v),
        days_before(v, n) is Some,
    ensures
        is_valid_ymd(days_before(v, n)->0),
        day_count(days_before(v, n)->0) == day_count(v) - n,
    decreases n,
{
    if n > 0 {
        let w = days_before(v, (n - 1) as nat);
        assert(w is Some);
        lemma_day_count_back(v, (n - 1) as nat);
        lemma_previous_then_next(w->0);
        lemma_day_count_step(w->0);
    }
}

/// The first day that the calendar grid of a month shows falls on the
/// weekday that the weeks start on.
pub proof fn lemma_grid_starts_on_first_weekday(year: int, month: int, from_weekday: Weekday)
    requires
        -9999 <= year <= 9999,
        1 <= month <= 12,
        calendar_first(year, month, from_weekday) is Some,
    ensures
        ({
            let f = calendar_first(year, month, from_weekday)->0;
            weekday_number(f.0, f.1, f.2) == from_weekday.number()
        }),
{
    let k = (weekday_number(year, month, 1) - from_weekday.number()) % 7;
    lemma_day_count_back((year, month, 1), k as nat);
    let x = days_from_civil(year, month, 1) + 3;
    let q = x / 7;
    let w = x % 7;
    lemma_fundamental_div_mod(x, 7);
    lemma_mod_bound(x, 7);
    let fnum = from_weekday.number();
    assert(1 <= fnum <= 7);
    assert(weekday_number(year, month, 1) == w + 1);
    let t = w + 1 - fnum;
    if t >= 0 {
        lemma_fundamental_div_mod_converse(t, 7, 0, t);
        assert(k == t);
        lemma_fundamental_div_mod_converse(x - k, 7, q, fnum - 1);
    } else {
        lemma_fundamental_div_mod_converse(t, 7, -1, t + 7);
        assert(k == t + 7);
        lemma_fundamental_div_mod_converse(x - k, 7, q - 1, fnum - 1);
    }
    let f = calendar_first(year, month, from_weekday)->0;
    assert(f == days_before((year, month, 1), k as nat)->0);
    assert(day_count(f) + 3 == x - k);
}

/// Going to the previous month and then to the next one leads back to the
/// same month, on the same day or, where that month is shorter, an earlier one.
pub proof fn lemma_month_round_trip(v: (int, int, int))
    requires
        is_valid_ymd(v),
        month_before(v) is Some,
    ensures
        month_after(month_before(v)->0) matches Some(u) && u.0 == v.0 && u.1 == v.1 && 1 <= u.2 <= v.2,
{
}

} // verus!
