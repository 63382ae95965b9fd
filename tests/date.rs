use progress::{DateNames, LocalDate, Task};

fn names() -> DateNames {
    let months = ["January", "February", "March", "April", "May", "June", "July", "August", "September", "October", "November", "December"];
    let weekdays = ["Monday", "Tuesday", "Wednesday", "Thursday", "Friday", "Saturday", "Sunday"];
    DateNames::new(
        "Today".to_string(),
        "Tomorrow".to_string(),
        months.iter().map(|m| m.to_string()).collect(),
        weekdays.iter().map(|m| m.to_string()).collect(),
    )
}

fn day(year: i32, month: u8, d: u8) -> LocalDate {
    LocalDate::from_ymd(year, month, d).unwrap()
}

#[test]
fn from_ymd_numbers_days_and_weekdays() {
    let epoch = day(1970, 1, 1);
    assert_eq!(epoch.day_number, 0);
    assert_eq!(epoch.weekday, 4);
    let d = day(2022, 1, 8);
    assert_eq!(d.day_number, 19_000);
    assert_eq!(d.weekday, 6);
    let first = day(1, 1, 1);
    assert_eq!(first.day_number, -719_162);
    assert_eq!(first.weekday, 1);
    let last = day(9999, 12, 31);
    assert_eq!(last.day_number, 2_932_896);
    assert_eq!(last.weekday, 5);
    assert_eq!(day(2000, 2, 29).day_number, 11_016);
}

#[test]
fn from_ymd_rejects_days_off_the_calendar() {
    assert!(LocalDate::from_ymd(2001, 2, 29).is_none());
    assert!(LocalDate::from_ymd(1900, 2, 29).is_none());
    assert!(LocalDate::from_ymd(2022, 4, 31).is_none());
    assert!(LocalDate::from_ymd(2022, 13, 1).is_none());
    assert!(LocalDate::from_ymd(2022, 1, 0).is_none());
    assert!(LocalDate::from_ymd(0, 1, 1).is_none());
    assert!(LocalDate::from_ymd(10000, 1, 1).is_none());
}

#[test]
fn today_and_tomorrow() {
    let today = day(2022, 1, 8);
    assert_eq!(Task::date_display(&day(2022, 1, 8), &today, &names()), "Today");
    assert_eq!(Task::date_display(&day(2022, 1, 9), &today, &names()), "Tomorrow");
    assert_eq!(Task::date_display(&day(2023, 1, 1), &day(2022, 12, 31), &names()), "Tomorrow");
}

#[test]
fn same_year_has_no_spaces() {
    let today = day(2022, 1, 8);
    assert_eq!(Task::date_display(&day(2022, 1, 11), &today, &names()), "January11,Tuesday");
    assert_eq!(Task::date_display(&day(2022, 1, 7), &today, &names()), "January\u{2007}7,Friday");
    let mut spaced = names();
    spaced.weekdays[0] = "Mon day".to_string();
    spaced.months[2] = "Mar ch".to_string();
    assert_eq!(Task::date_display(&day(2022, 3, 7), &today, &spaced), "March\u{2007}7,Monday");
}

#[test]
fn other_year_keeps_spaces() {
    let today = day(2022, 1, 8);
    assert_eq!(Task::date_display(&day(2023, 2, 5), &today, &names()), "February \u{2007}5, 2023");
    assert_eq!(Task::date_display(&day(2019, 12, 25), &today, &names()), "December 25, 2019");
}

#[test]
fn date_names_keep_what_they_are_given() {
    let n = names();
    assert_eq!(n.today, "Today");
    assert_eq!(n.tomorrow, "Tomorrow");
    assert_eq!(n.months.len(), 12);
    assert_eq!(n.months[11], "December");
    assert_eq!(n.weekdays[6], "Sunday");
}
