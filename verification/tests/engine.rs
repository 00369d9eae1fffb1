use checklist::checklist::{Checklist, Task};
use checklist::engine::{tick_all, Phase, TICK_SECONDS};
use checklist::schedule::Schedule;
use checklist::store::StoredChecklist;
use chrono::{TimeZone, Utc};

fn at(year: i32, month: u32, day: u32, hour: u32, minute: u32, second: u32) -> i64 {
    Utc.with_ymd_and_hms(year, month, day, hour, minute, second)
        .unwrap()
        .timestamp()
}

fn task(label: &str, done: bool) -> Task {
    Task {
        label: label.to_string(),
        done,
    }
}

fn daily() -> Schedule {
    Schedule::parse("0 0 0 * * * *").unwrap()
}

fn daily_list(next_reset: Option<i64>) -> Checklist {
    let stored = StoredChecklist {
        name: "daily".to_string(),
        next_reset,
        tasks: vec![task("dishes", false), task("laundry", true)],
    };
    Checklist::from_record(&stored, Some(daily())).unwrap()
}

fn oneoff() -> Checklist {
    Checklist::new("oneoff".to_string(), &vec!["buy milk".to_string()], None)
}

#[test]
fn daily_checklist_is_cleared_and_armed_for_the_next_day() {
    let mut list = daily_list(Some(at(2024, 1, 2, 0, 0, 0)));
    list.tick(at(2024, 1, 2, 0, 0, 1));
    assert_eq!(
        list.tasks(),
        vec![task("dishes", false), task("laundry", false)]
    );
    assert_eq!(list.next_reset(), None);
    list.tick(at(2024, 1, 2, 0, 0, 1) + TICK_SECONDS as i64);
    assert_eq!(list.next_reset(), Some(at(2024, 1, 3, 0, 0, 0)));
    assert_eq!(
        list.tasks(),
        vec![task("dishes", false), task("laundry", false)]
    );
}

#[test]
fn daily_checklist_is_armed_again_by_a_tick_at_the_same_instant() {
    let mut list = daily_list(Some(at(2024, 1, 2, 0, 0, 0)));
    list.tick(at(2024, 1, 2, 0, 0, 1));
    list.tick(at(2024, 1, 2, 0, 0, 1));
    assert_eq!(list.next_reset(), Some(at(2024, 1, 3, 0, 0, 0)));
}

#[test]
fn oneoff_checklist_is_never_touched() {
    let mut list = oneoff();
    let mut now = at(2024, 1, 1, 0, 0, 0);
    for _ in 0..1000 {
        list.tick(now);
        assert_eq!(list.tasks(), vec![task("buy milk", false)]);
        assert_eq!(list.next_reset(), None);
        now += TICK_SECONDS as i64;
    }
}

#[test]
fn oneoff_checklist_keeps_what_the_user_ticked() {
    let mut list = oneoff();
    list.set_done("buy milk", true);
    let mut now = at(2024, 1, 1, 0, 0, 0);
    for _ in 0..1000 {
        list.tick(now);
        now += 86_400;
    }
    assert_eq!(list.tasks(), vec![task("buy milk", true)]);
    assert_eq!(list.next_reset(), None);
}

#[test]
fn tick_clears_at_the_very_instant() {
    let mut list = daily_list(Some(at(2024, 1, 2, 0, 0, 0)));
    list.tick(at(2024, 1, 2, 0, 0, 0));
    assert_eq!(
        list.tasks(),
        vec![task("dishes", false), task("laundry", false)]
    );
    assert_eq!(list.next_reset(), None);
}

#[test]
fn tick_clears_long_after_the_instant() {
    let mut list = daily_list(Some(at(2024, 1, 2, 0, 0, 0)));
    list.tick(at(2024, 3, 1, 12, 0, 0));
    assert_eq!(
        list.tasks(),
        vec![task("dishes", false), task("laundry", false)]
    );
    assert_eq!(list.next_reset(), None);
    list.tick(at(2024, 3, 1, 12, 0, 10));
    assert_eq!(list.next_reset(), Some(at(2024, 3, 2, 0, 0, 0)));
}

#[test]
fn tick_before_the_instant_changes_nothing() {
    let mut list = daily_list(Some(at(2024, 1, 2, 0, 0, 0)));
    list.tick(at(2024, 1, 1, 23, 59, 59));
    assert_eq!(
        list.tasks(),
        vec![task("dishes", false), task("laundry", true)]
    );
    assert_eq!(list.next_reset(), Some(at(2024, 1, 2, 0, 0, 0)));
}

#[test]
fn tick_arms_a_checklist_that_awaits_nothing() {
    let mut list = daily_list(None);
    list.tick(at(2024, 1, 1, 8, 0, 0));
    assert_eq!(list.next_reset(), Some(at(2024, 1, 2, 0, 0, 0)));
    assert_eq!(
        list.tasks(),
        vec![task("dishes", false), task("laundry", true)]
    );
}

#[test]
fn tick_keeps_the_instant_once_it_is_worked_out() {
    let mut list = daily_list(None);
    list.tick(at(2024, 1, 1, 8, 0, 0));
    list.tick(at(2024, 1, 1, 8, 0, 10));
    list.tick(at(2024, 1, 1, 23, 59, 59));
    assert_eq!(list.next_reset(), Some(at(2024, 1, 2, 0, 0, 0)));
}

#[test]
fn next_clearing_lies_after_the_clearing() {
    let mut list = daily_list(Some(at(2024, 1, 2, 0, 0, 0)));
    let cleared_at = at(2024, 1, 5, 17, 30, 0);
    list.tick(cleared_at);
    assert_eq!(list.next_reset(), None);
    list.tick(cleared_at + 10);
    let next = list.next_reset().unwrap();
    assert!(next > cleared_at);
    assert_eq!(next, at(2024, 1, 6, 0, 0, 0));
}

#[test]
fn checklist_whose_schedule_is_over_stays_unarmed() {
    let stored = StoredChecklist {
        name: "once".to_string(),
        next_reset: None,
        tasks: vec![task("party", true)],
    };
    let schedule = Schedule::parse("0 0 0 1 1 * 2020").unwrap();
    let mut list = Checklist::from_record(&stored, Some(schedule)).unwrap();
    list.tick(at(2024, 1, 1, 0, 0, 0));
    assert_eq!(list.next_reset(), None);
    assert_eq!(list.tasks(), vec![task("party", true)]);
}

#[test]
fn advance_takes_the_answer_it_is_given() {
    let mut list = daily_list(None);
    list.advance(100, Some(250));
    assert_eq!(list.next_reset(), Some(250));
    assert_eq!(
        list.tasks(),
        vec![task("dishes", false), task("laundry", true)]
    );
}

#[test]
fn advance_clears_at_once_where_the_answer_has_come() {
    let mut list = daily_list(None);
    list.advance(100, Some(100));
    assert_eq!(list.next_reset(), None);
    assert_eq!(
        list.tasks(),
        vec![task("dishes", false), task("laundry", false)]
    );
}

#[test]
fn advance_without_an_answer_leaves_the_checklist_unarmed() {
    let mut list = daily_list(None);
    list.advance(100, None);
    assert_eq!(list.next_reset(), None);
    assert_eq!(
        list.tasks(),
        vec![task("dishes", false), task("laundry", true)]
    );
}

#[test]
fn advance_ignores_the_answer_where_an_instant_is_known() {
    let mut list = daily_list(Some(500));
    list.advance(100, Some(250));
    assert_eq!(list.next_reset(), Some(500));
}

#[test]
fn advance_ignores_the_answer_without_a_schedule() {
    let mut list = oneoff();
    list.advance(100, Some(50));
    assert_eq!(list.next_reset(), None);
    assert_eq!(list.tasks(), vec![task("buy milk", false)]);
}

#[test]
fn tick_all_ticks_every_checklist_and_gives_every_record() {
    let mut lists = vec![
        daily_list(Some(at(2024, 1, 2, 0, 0, 0))),
        oneoff(),
        daily_list(None),
    ];
    let records = tick_all(&mut lists, at(2024, 1, 2, 0, 0, 1));
    assert_eq!(records.len(), 3);
    assert_eq!(
        records[0],
        StoredChecklist {
            name: "daily".to_string(),
            next_reset: None,
            tasks: vec![task("dishes", false), task("laundry", false)],
        }
    );
    assert_eq!(
        records[1],
        StoredChecklist {
            name: "oneoff".to_string(),
            next_reset: None,
            tasks: vec![task("buy milk", false)],
        }
    );
    assert_eq!(
        records[2],
        StoredChecklist {
            name: "daily".to_string(),
            next_reset: Some(at(2024, 1, 3, 0, 0, 0)),
            tasks: vec![task("dishes", false), task("laundry", true)],
        }
    );
    for (list, record) in lists.iter().zip(records.iter()) {
        assert_eq!(&list.record(), record);
    }
}

#[test]
fn tick_all_of_nothing() {
    let mut lists: Vec<Checklist> = vec![];
    assert_eq!(tick_all(&mut lists, 0).len(), 0);
}

#[test]
fn ticks_come_every_ten_seconds() {
    assert_eq!(TICK_SECONDS, 10);
}

#[test]
fn phases_of_a_scheduled_checklist() {
    let mut list = daily_list(None);
    let morning = at(2024, 1, 1, 8, 0, 0);
    assert_eq!(list.phase(morning), Phase::Unarmed);
    list.tick(morning);
    assert_eq!(list.phase(morning), Phase::Awaiting);
    assert_eq!(list.phase(at(2024, 1, 1, 23, 59, 59)), Phase::Awaiting);
    assert_eq!(list.phase(at(2024, 1, 2, 0, 0, 0)), Phase::Overdue);
    assert_eq!(list.phase(at(2024, 1, 2, 0, 0, 1)), Phase::Overdue);
    list.tick(at(2024, 1, 2, 0, 0, 1));
    assert_eq!(list.phase(at(2024, 1, 2, 0, 0, 1)), Phase::Unarmed);
}

#[test]
fn phase_of_a_checklist_without_a_schedule() {
    let mut list = oneoff();
    assert_eq!(list.phase(0), Phase::NoSchedule);
    list.tick(0);
    assert_eq!(list.phase(i64::MAX), Phase::NoSchedule);
}
