use chrono::{DateTime, Days, TimeZone, Utc};
use tasker::priority::{Priority, PriorityError};
use tasker::task::{Task, TaskBuilder, TaskError};
use tasker::time::Timestamp;

fn stamp(d: DateTime<Utc>) -> Timestamp {
    Timestamp::new(d.timestamp(), d.timestamp_subsec_nanos())
}

#[test]
fn build_task_with_label_and_priority_high_priority() {
    assert_eq!(
        Task::new(String::from("description"), Priority::High, None).priority(),
        Priority::High
    );
}

#[test]
fn task_deadline_is_not_none_when_set_with_date() {
    assert_ne!(
        Task::new(String::from(""), Priority::High, Some(stamp(Utc::now()))).due(),
        None
    );
}

#[test]
fn task_is_urgent_when_priority_is_high_whatever_the_deadline() {
    assert_eq!(Task::new("".into(), Priority::High, None).is_urgent(), true);
    assert_eq!(
        Task::new("".into(), Priority::High, Some(stamp(Utc::now()))).is_urgent(),
        true
    );
    assert_eq!(
        Task::new(
            "".into(),
            Priority::High,
            Some(stamp(Utc.with_ymd_and_hms(2014, 7, 8, 9, 10, 11).unwrap()))
        )
        .is_urgent(),
        true
    );
}

#[test]
fn task_is_urgent_when_date_is_next24h_whatever_the_priority() {
    assert_eq!(
        Task::new("".into(), Priority::Low, Some(stamp(Utc::now()))).is_urgent(),
        true
    );
    assert_eq!(
        Task::new("".into(), Priority::High, Some(stamp(Utc::now() + Days::new(1)))).is_urgent(),
        true
    );
}

#[test]
fn task_is_not_urgent_when_date_is_not_next24h_and_priority_is_not_high() {
    assert_eq!(
        Task::new("".into(), Priority::Normal, None).is_urgent(),
        false
    );
    assert_eq!(
        Task::new("".into(), Priority::Low, Some(stamp(Utc::now() + Days::new(3)))).is_urgent(),
        false
    );
}

#[test]
fn priority_words_parse_in_any_case() {
    assert_eq!(Priority::from_str("low"), Ok(Priority::Low));
    assert_eq!(Priority::from_str("Normal"), Ok(Priority::Normal));
    assert_eq!(Priority::from_str("HIGH"), Ok(Priority::High));
    assert_eq!(Priority::from_str("hIgH"), Ok(Priority::High));
}

#[test]
fn other_texts_are_not_priorities() {
    assert_eq!(
        Priority::from_str(""),
        Err(PriorityError::NonParsablePriority(String::new()))
    );
    assert_eq!(
        Priority::from_str("URGENT"),
        Err(PriorityError::NonParsablePriority(String::from("URGENT")))
    );
    assert!(Priority::from_str("lowest").is_err());
    assert!(Priority::from_str(" low").is_err());
}

#[test]
fn lowercase_reader_takes_only_lowercase_words() {
    assert_eq!(Priority::from_lowercase("normal"), Ok(Priority::Normal));
    assert_eq!(
        Priority::from_lowercase("Normal"),
        Err(PriorityError::NonParsablePriority(String::from("Normal")))
    );
}

#[test]
fn default_priority_is_normal() {
    assert_eq!(Priority::default(), Priority::Normal);
}

#[test]
fn urgency_at_a_fixed_instant() {
    let now = Timestamp::new(1_000_000, 500);
    let task = |p: Priority, due: Option<Timestamp>| Task::new(String::new(), p, due);
    assert!(task(Priority::High, None).is_urgent_at(&now));
    assert!(task(Priority::High, Some(Timestamp::new(0, 0))).is_urgent_at(&now));
    assert!(task(Priority::Low, Some(now)).is_urgent_at(&now));
    assert!(task(Priority::Normal, Some(Timestamp::new(900_000, 0))).is_urgent_at(&now));
    assert!(task(Priority::Low, Some(Timestamp::new(1_086_400, 500))).is_urgent_at(&now));
    assert!(!task(Priority::Low, Some(Timestamp::new(1_086_400, 501))).is_urgent_at(&now));
    assert!(!task(Priority::Normal, Some(Timestamp::new(1_086_401, 0))).is_urgent_at(&now));
    assert!(!task(Priority::Normal, None).is_urgent_at(&now));
    assert!(!task(Priority::Low, None).is_urgent_at(&now));
}

#[test]
fn urgency_at_the_extremes_of_time() {
    let late = Timestamp::new(i64::MAX, 0);
    let early = Timestamp::new(i64::MIN, 0);
    assert!(!Task::new(String::new(), Priority::Low, Some(late)).is_urgent_at(&early));
    assert!(Task::new(String::new(), Priority::Low, Some(late)).is_urgent_at(&late));
}

#[test]
fn builder_defaults_priority_to_normal() {
    let task = TaskBuilder::new().desc(String::from("water plants")).build().unwrap();
    assert_eq!(task.desc(), "water plants");
    assert_eq!(task.priority(), Priority::Normal);
    assert_eq!(task.due(), None);
}

#[test]
fn builder_accepts_an_empty_description() {
    let task = TaskBuilder::new().desc(String::new()).build().unwrap();
    assert_eq!(task.desc(), "");
}

#[test]
fn builder_reads_priority_text() {
    let b = TaskBuilder::new().desc(String::from("x")).priority("High");
    assert_eq!(b.build().unwrap().priority(), Priority::High);
    let b = TaskBuilder::new().desc(String::from("x")).priority("low");
    assert_eq!(b.build().unwrap().priority(), Priority::Low);
}

#[test]
fn builder_falls_back_to_normal_on_bad_priority() {
    let b = TaskBuilder::new().priority("high").priority("soon").desc(String::from("x"));
    assert_eq!(b.build().unwrap().priority(), Priority::Normal);
}

#[test]
fn builder_without_description_fails() {
    let r = TaskBuilder::new().priority("high").build();
    assert!(matches!(r, Err(TaskError::MissingDescription)));
}

#[test]
fn builder_reads_rfc3339_deadline() {
    let b = TaskBuilder::new()
        .desc(String::from("x"))
        .deadline("2014-07-08T09:10:11Z")
        .unwrap();
    let task = b.build().unwrap();
    assert_eq!(task.due(), Some(Timestamp::new(1_404_810_611, 0)));
}

#[test]
fn builder_normalises_deadline_offset_to_utc() {
    let b = TaskBuilder::new()
        .desc(String::from("x"))
        .deadline("2014-07-08T11:10:11.25+02:00")
        .unwrap();
    assert_eq!(b.due, Some(Timestamp::new(1_404_810_611, 250_000_000)));
}

#[test]
fn builder_refuses_bad_deadline() {
    let r = TaskBuilder::new().desc(String::from("x")).deadline("2014");
    assert!(matches!(r, Err(TaskError::InvalidDeadlineFormat(ref s)) if s == "2014"));
    let r = TaskBuilder::new().deadline("");
    assert!(matches!(r, Err(TaskError::InvalidDeadlineFormat(ref s)) if s.is_empty()));
}

#[test]
fn restitute_task_gives_the_same_task() {
    let task = Task::new(String::from("a"), Priority::Low, None);
    let same = task.restitute_task();
    assert_eq!(same.desc(), "a");
    assert_eq!(same.priority(), Priority::Low);
}
