use cosmic_widgets::calendar::{
    calendar, calendar_cells, date_button_style, get_calendar_first, set_day, today, weekday_header, CalendarModel, Date,
    DayStyle, Weekday,
};

fn date(y: i16, m: i8, d: i8) -> Date {
    Date::new(y, m, d).unwrap()
}

#[test]
fn dates_are_validated() {
    assert!(Date::new(2024, 2, 29).is_some());
    assert!(Date::new(2023, 2, 29).is_none());
    assert!(Date::new(1900, 2, 29).is_none());
    assert!(Date::new(2000, 2, 29).is_some());
    assert!(Date::new(2024, 13, 1).is_none());
    assert!(Date::new(10000, 1, 1).is_none());
    assert!(Date::new(2024, 4, 31).is_none());
}

#[test]
fn set_day_keeps_date_when_day_is_invalid() {
    assert_eq!(set_day(date(2024, 11, 30), 31), date(2024, 11, 30));
    assert_eq!(set_day(date(2024, 11, 30), 3), date(2024, 11, 3));
    assert_eq!(set_day(date(2024, 2, 10), 29), date(2024, 2, 29));
    assert_eq!(set_day(date(2024, 2, 10), 0), date(2024, 2, 10));
}

#[test]
fn calendar_first_is_on_the_first_weekday() {
    // 2024-05-01 is a Wednesday.
    assert_eq!(get_calendar_first(2024, 5, Weekday::Monday), date(2024, 4, 29));
    assert_eq!(get_calendar_first(2024, 5, Weekday::Sunday), date(2024, 4, 28));
    assert_eq!(get_calendar_first(2024, 5, Weekday::Wednesday), date(2024, 5, 1));
    // 2024-03-01 is a Friday.
    assert_eq!(get_calendar_first(2024, 3, Weekday::Monday), date(2024, 2, 26));
}

#[test]
fn month_navigation_clamps_the_day() {
    let mut model = CalendarModel::new(date(2024, 3, 31), date(2024, 3, 31));
    model.show_next_month();
    assert_eq!(model.visible, date(2024, 4, 30));
    assert_eq!(model.selected, date(2024, 3, 31));
    model.set_prev_month();
    assert_eq!(model.visible, date(2024, 3, 30));
    assert_eq!(model.selected, date(2024, 3, 30));
    let mut model = CalendarModel::new(date(2024, 12, 15), date(2024, 12, 15));
    model.set_next_month();
    assert_eq!(model.selected, date(2025, 1, 15));
    model.show_prev_month();
    model.show_prev_month();
    assert_eq!(model.visible, date(2024, 11, 15));
    model.set_selected_visible(date(2020, 1, 1));
    assert_eq!(model.visible, date(2020, 1, 1));
    assert_eq!(model.selected, date(2020, 1, 1));
}

#[test]
fn weekday_arithmetic() {
    assert_eq!(Weekday::Friday.since(Weekday::Tuesday), 3);
    assert_eq!(Weekday::Tuesday.since(Weekday::Tuesday), 0);
    assert_eq!(Weekday::Monday.since(Weekday::Sunday), 1);
    assert_eq!(Weekday::Sunday.since(Weekday::Monday), 6);
    assert_eq!(Weekday::Sunday.next(), Weekday::Monday);
    assert_eq!(
        weekday_header(Weekday::Sunday),
        vec![
            Weekday::Sunday,
            Weekday::Monday,
            Weekday::Tuesday,
            Weekday::Wednesday,
            Weekday::Thursday,
            Weekday::Friday,
            Weekday::Saturday
        ]
    );
}

#[test]
fn calendar_grid_marks_days() {
    let model = CalendarModel::new(date(2024, 5, 10), date(2024, 5, 20));
    let cells = calendar_cells(&model, Weekday::Monday, date(2024, 5, 14));
    assert_eq!(cells.len(), 42);
    assert_eq!(cells[0].date, date(2024, 4, 29));
    assert!(!cells[0].in_visible_month);
    assert_eq!(cells[2].date, date(2024, 5, 1));
    assert!(cells[2].in_visible_month);
    assert_eq!(cells[11].date, date(2024, 5, 10));
    assert!(cells[11].is_selected);
    assert_eq!(cells[11].style, DayStyle::Suggested);
    assert_eq!(cells[15].date, date(2024, 5, 14));
    assert!(cells[15].is_today);
    assert_eq!(cells[15].style, DayStyle::Standard);
    assert_eq!(cells[16].style, DayStyle::Text);
    assert_eq!(cells[41].date, date(2024, 6, 9));
    assert!(!cells[41].in_visible_month);
}

#[test]
fn button_style_prefers_selection() {
    assert_eq!(date_button_style(true, true), DayStyle::Suggested);
    assert_eq!(date_button_style(false, true), DayStyle::Standard);
    assert_eq!(date_button_style(false, false), DayStyle::Text);
}

#[test]
fn calendar_widget_checks_its_range() {
    let model = CalendarModel::new(Date::new(2024, 2, 14).unwrap(), Date::new(2024, 2, 14).unwrap());
    let c = calendar(&model, |d: Date| d, || 0u8, || 1u8, Weekday::Monday);
    assert_eq!(c.header()[6], Weekday::Sunday);
    let cells = c.cells(Date::new(2024, 2, 1).unwrap()).unwrap();
    assert_eq!(cells.len(), 42);
    assert_eq!(cells[0].date, Date::new(2024, 1, 29).unwrap());
    assert!(cells[3].is_today);
    assert!(cells[16].is_selected);
    let edge = CalendarModel::new(Date::new(9999, 12, 1).unwrap(), Date::new(9999, 12, 1).unwrap());
    let c = calendar(&edge, |d: Date| d, || 0u8, || 1u8, Weekday::Monday);
    assert!(c.cells(Date::new(2024, 2, 1).unwrap()).is_none());
    let t = today().unwrap();
    assert!(t.month() >= 1 && t.month() <= 12);
    let m = CalendarModel::now().unwrap();
    assert_eq!(m.selected, m.visible);
}

#[test]
fn visible_weekday_is_the_dates_weekday() {
    let m = CalendarModel::new(Date::new(2024, 2, 14).unwrap(), Date::new(2024, 2, 14).unwrap());
    assert_eq!(m.visible_weekday(), Weekday::Wednesday);
    let m = CalendarModel::new(Date::new(1970, 1, 1).unwrap(), Date::new(1970, 1, 1).unwrap());
    assert_eq!(m.visible_weekday(), Weekday::Thursday);
}
