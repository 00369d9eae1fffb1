use checklist::schedule::{keep_following, Schedule, EARLIEST_START, LATEST_START};
use chrono::{TimeZone, Utc};

fn at(year: i32, month: u32, day: u32, hour: u32, minute: u32, second: u32) -> i64 {
    Utc.with_ymd_and_hms(year, month, day, hour, minute, second)
        .unwrap()
        .timestamp()
}

#[test]
fn parse_takes_a_full_expression() {
    let schedule = Schedule::parse("0 0 0 * * * *").unwrap();
    assert_eq!(schedule.expression(), "0 0 0 * * * *");
}

#[test]
fn parse_refuses_what_is_no_expression() {
    let refused = Schedule::parse("every day at noon").unwrap_err();
    assert_eq!(refused.expression, "every day at noon");
}

#[test]
fn parse_refuses_an_empty_text() {
    assert!(Schedule::parse("").is_err());
}

#[test]
fn parse_refuses_a_minute_out_of_range() {
    assert!(Schedule::parse("0 60 0 * * * *").is_err());
}

#[test]
fn pattern_is_put_between_seconds_and_years() {
    let schedule = Schedule::from_pattern("0 0 * * *").unwrap();
    assert_eq!(schedule.expression(), "* 0 0 * * * * ");
}

#[test]
fn pattern_that_is_refused_comes_back_as_its_expression() {
    let refused = Schedule::from_pattern("not a pattern").unwrap_err();
    assert_eq!(refused.expression, "* not a pattern * ");
}

#[test]
fn pattern_with_too_many_fields_is_refused() {
    assert!(Schedule::from_pattern("0 0 0 * * *").is_err());
}

#[test]
fn daily_schedule_fires_at_the_next_midnight() {
    let schedule = Schedule::parse("0 0 0 * * * *").unwrap();
    assert_eq!(
        schedule.next_after(at(2024, 1, 2, 0, 0, 1)),
        Some(at(2024, 1, 3, 0, 0, 0))
    );
}

#[test]
fn firing_is_strictly_after_the_instant_asked() {
    let schedule = Schedule::parse("0 0 0 * * * *").unwrap();
    let midnight = at(2024, 1, 2, 0, 0, 0);
    assert_eq!(schedule.next_after(midnight), Some(at(2024, 1, 3, 0, 0, 0)));
    assert_eq!(schedule.next_after(midnight - 1), Some(midnight));
}

#[test]
fn same_question_same_answer() {
    let schedule = Schedule::parse("0 30 9 * * Mon *").unwrap();
    let now = at(2024, 1, 2, 12, 0, 0);
    let first = schedule.next_after(now);
    assert_eq!(first, Some(at(2024, 1, 8, 9, 30, 0)));
    assert_eq!(schedule.next_after(now), first);
}

#[test]
fn pattern_fires_in_every_second_of_its_minute() {
    let schedule = Schedule::from_pattern("0 0 * * *").unwrap();
    assert_eq!(
        schedule.next_after(at(2024, 1, 2, 0, 0, 1)),
        Some(at(2024, 1, 2, 0, 0, 2))
    );
    assert_eq!(
        schedule.next_after(at(2024, 1, 2, 0, 0, 59)),
        Some(at(2024, 1, 3, 0, 0, 0))
    );
}

#[test]
fn weekly_pattern_waits_for_its_day() {
    let schedule = Schedule::from_pattern("15 7 * * Sun").unwrap();
    assert_eq!(
        schedule.next_after(at(2024, 1, 2, 0, 0, 0)),
        Some(at(2024, 1, 7, 7, 15, 0))
    );
}

#[test]
fn nothing_fires_after_the_last_year_that_cron_knows() {
    let schedule = Schedule::parse("0 0 0 * * * *").unwrap();
    assert_eq!(schedule.next_after(at(2100, 12, 31, 0, 0, 0)), None);
    assert_eq!(schedule.next_after(at(2101, 6, 1, 0, 0, 0)), None);
}

#[test]
fn schedule_of_a_past_year_never_fires_again() {
    let schedule = Schedule::parse("0 0 0 1 1 * 2020").unwrap();
    assert_eq!(schedule.next_after(at(2024, 1, 2, 0, 0, 0)), None);
    assert_eq!(schedule.next_after(at(2020, 1, 1, 0, 0, 0)), None);
    assert_eq!(
        schedule.next_after(at(2019, 12, 31, 23, 59, 59)),
        Some(at(2020, 1, 1, 0, 0, 0))
    );
}

#[test]
fn bounds_of_the_resolver_are_the_four_digit_years() {
    assert_eq!(EARLIEST_START, at(0, 1, 1, 0, 0, 0));
    assert_eq!(LATEST_START, at(9999, 12, 31, 23, 59, 59));
}

#[test]
fn nothing_is_resolved_outside_the_bounds() {
    let schedule = Schedule::parse("* * * * * * *").unwrap();
    assert_eq!(schedule.next_after(EARLIEST_START - 1), None);
    assert_eq!(schedule.next_after(LATEST_START + 1), None);
    assert_eq!(schedule.next_after(i64::MIN), None);
    assert_eq!(schedule.next_after(i64::MAX), None);
}

#[test]
fn resolver_answers_at_its_bounds() {
    let schedule = Schedule::parse("* * * * * * *").unwrap();
    assert_eq!(schedule.next_after(LATEST_START), None);
    assert_eq!(
        schedule.next_after(EARLIEST_START),
        Some(at(1970, 1, 1, 0, 0, 1))
    );
}

#[test]
fn clone_keeps_the_expression() {
    let schedule = Schedule::from_pattern("0 12 * * *").unwrap();
    let copy = schedule.clone();
    assert_eq!(copy.expression(), schedule.expression());
}

#[test]
fn answer_counts_only_strictly_after_the_instant() {
    assert_eq!(keep_following(Some(11), 10), Some(11));
    assert_eq!(keep_following(Some(10), 10), None);
    assert_eq!(keep_following(Some(9), 10), None);
    assert_eq!(keep_following(None, 10), None);
    assert_eq!(keep_following(Some(i64::MAX), i64::MIN), Some(i64::MAX));
    assert_eq!(keep_following(Some(i64::MIN), i64::MAX), None);
}
