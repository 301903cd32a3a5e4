use pet_focus::pomodoro::{
    checked_next_sequence, generate_session_title, next_sequence, number_or, optional_number,
    order_by_place, record_session, sequence_of, PomodoroConfig, PomodoroSessionKind,
    PomodoroSessionStatus, PomodoroStats, RoundRecord, SessionLink,
};
use pet_focus::time::{elapsed_seconds, Timestamp};

fn at(secs: i64) -> Timestamp {
    Timestamp { secs, nanos: 0 }
}

fn round(start: i64, end: i64) -> RoundRecord {
    record_session(
        PomodoroSessionKind::Focus,
        PomodoroSessionStatus::Completed,
        1,
        at(start),
        at(end),
        None,
        at(end),
    )
}

const DEFAULTS: PomodoroConfig = PomodoroConfig {
    focus_minutes: 25,
    short_break_minutes: 5,
    long_break_minutes: 15,
    long_break_interval: 4,
};

#[test]
fn kinds_and_statuses_have_labels() {
    assert_eq!(PomodoroSessionKind::Focus.as_str(), "focus");
    assert_eq!(PomodoroSessionKind::Rest.as_str(), "rest");
    assert_eq!(PomodoroSessionStatus::Completed.as_str(), "completed");
    assert_eq!(PomodoroSessionStatus::Stopped.as_str(), "stopped");
    assert_eq!(PomodoroSessionStatus::Skipped.as_str(), "skipped");
}

#[test]
fn settings_fall_back_to_defaults() {
    assert_eq!(number_or("30", 25), 30);
    assert_eq!(number_or("", 25), 25);
    assert_eq!(number_or("thirty", 25), 25);
    assert_eq!(number_or("-1", 25), 25);
    assert_eq!(number_or(" 30", 25), 25);
    assert_eq!(number_or("4294967296", 25), 25);
    let config = PomodoroConfig::from_settings(DEFAULTS, "50", "x", "20", "");
    assert_eq!(
        config,
        PomodoroConfig {
            focus_minutes: 50,
            short_break_minutes: 5,
            long_break_minutes: 20,
            long_break_interval: 4
        }
    );
}

#[test]
fn config_is_written_as_four_settings() {
    let config = PomodoroConfig {
        focus_minutes: 50,
        short_break_minutes: 10,
        long_break_minutes: 0,
        long_break_interval: u32::MAX,
    };
    assert_eq!(
        config.to_settings(),
        vec![
            ("pomodoro.focus_minutes", "50".to_string()),
            ("pomodoro.short_break_minutes", "10".to_string()),
            ("pomodoro.long_break_minutes", "0".to_string()),
            ("pomodoro.long_break_interval", "4294967295".to_string()),
        ]
    );
    let settings = config.to_settings();
    let back = PomodoroConfig::from_settings(DEFAULTS, &settings[0].1, &settings[1].1, &settings[2].1, &settings[3].1);
    assert_eq!(back, config);
    assert_eq!(PomodoroConfig::focus_key(), "pomodoro.focus_minutes");
    assert_eq!(PomodoroConfig::short_break_key(), "pomodoro.short_break_minutes");
    assert_eq!(PomodoroConfig::long_break_key(), "pomodoro.long_break_minutes");
    assert_eq!(PomodoroConfig::interval_key(), "pomodoro.long_break_interval");
    assert_eq!(PomodoroConfig::last_focus_key(), "pomodoro.last_focus_minutes");
    assert_eq!(PomodoroConfig::last_rest_key(), "pomodoro.last_rest_minutes");
}

#[test]
fn last_adjusted_times_are_optional() {
    assert_eq!(optional_number(None), None);
    assert_eq!(optional_number(Some("45".to_string())), Some(45));
    assert_eq!(optional_number(Some("forty".to_string())), None);
    assert_eq!(optional_number(Some(String::new())), None);
}

#[test]
fn round_is_recorded_with_its_length() {
    let record = record_session(
        PomodoroSessionKind::Rest,
        PomodoroSessionStatus::Skipped,
        3,
        at(1_000),
        at(2_500),
        Some(9),
        at(2_600),
    );
    assert_eq!(record.kind, "rest");
    assert_eq!(record.status, "skipped");
    assert_eq!(record.round, 3);
    assert_eq!(record.start_at, at(1_000));
    assert_eq!(record.end_at, at(2_500));
    assert_eq!(record.elapsed_seconds, 1_500);
    assert_eq!(record.related_todo_id, Some(9));
    assert_eq!(record.created_at, at(2_600));
    assert_eq!(record.updated_at, at(2_600));
}

#[test]
fn elapsed_seconds_are_whole_and_never_negative() {
    assert_eq!(elapsed_seconds(&at(10), &at(10)), 0);
    assert_eq!(elapsed_seconds(&at(10), &at(9)), 0);
    assert_eq!(elapsed_seconds(&at(10), &at(-500)), 0);
    assert_eq!(elapsed_seconds(&at(-10), &at(10)), 20);
    let start = Timestamp { secs: 10, nanos: 900_000_000 };
    let end = Timestamp { secs: 12, nanos: 100_000_000 };
    assert_eq!(elapsed_seconds(&start, &end), 1);
    let end = Timestamp { secs: 12, nanos: 900_000_000 };
    assert_eq!(elapsed_seconds(&start, &end), 2);
    assert_eq!(elapsed_seconds(&end, &start), 0);
    assert_eq!(elapsed_seconds(&at(0), &at(i32::MAX as i64)), i32::MAX);
    assert_eq!(elapsed_seconds(&at(0), &at(i32::MAX as i64 + 1)), i32::MIN);
    assert_eq!(round(0, 90).round, 1);
    let wide = record_session(
        PomodoroSessionKind::Focus,
        PomodoroSessionStatus::Stopped,
        u32::MAX,
        at(0),
        at(1),
        None,
        at(1),
    );
    assert_eq!(wide.round, -1);
}

#[test]
fn stats_sum_the_rows() {
    let stats = PomodoroStats::from_rows(&vec![1_500, 1_500, 900], 3).unwrap();
    assert_eq!(stats.total_focus_seconds, 3_900);
    assert_eq!(stats.session_count, 3);
    let empty = PomodoroStats::from_rows(&Vec::new(), 0).unwrap();
    assert_eq!(empty.total_focus_seconds, 0);
    assert_eq!(empty.session_count, 0);
    let mixed = PomodoroStats::from_rows(&vec![i32::MAX, i32::MAX, -5, i32::MIN], 4).unwrap();
    assert_eq!(mixed.total_focus_seconds, i32::MAX as i64 - 6);
    assert!(PomodoroStats::from_rows(&vec![1], u64::MAX).is_none());
    assert!(PomodoroStats::from_rows(&vec![1], i64::MAX as u64).is_some());
}

#[test]
fn next_sequence_follows_the_highest() {
    assert_eq!(next_sequence(None), 1);
    assert_eq!(next_sequence(Some(0)), 1);
    assert_eq!(next_sequence(Some(7)), 8);
    assert_eq!(next_sequence(Some(-3)), -2);
    assert_eq!(checked_next_sequence(None), Some(1));
    assert_eq!(checked_next_sequence(Some(7)), Some(8));
    assert_eq!(checked_next_sequence(Some(i32::MAX - 1)), Some(i32::MAX));
    assert_eq!(checked_next_sequence(Some(i32::MAX)), None);
}

#[test]
fn sequence_is_taken_from_the_first_link() {
    let links = vec![
        SessionLink { record_id: 5, sequence: 2 },
        SessionLink { record_id: 3, sequence: 1 },
        SessionLink { record_id: 5, sequence: 9 },
    ];
    assert_eq!(sequence_of(&links, 5), 2);
    assert_eq!(sequence_of(&links, 3), 1);
    assert_eq!(sequence_of(&links, 4), 0);
    assert_eq!(sequence_of(&Vec::new(), 4), 0);
}

#[test]
fn rounds_are_ordered_by_place_and_stably() {
    assert_eq!(order_by_place(&Vec::new()), Vec::<usize>::new());
    assert_eq!(order_by_place(&vec![1]), vec![0]);
    assert_eq!(order_by_place(&vec![3, 1, 2]), vec![1, 2, 0]);
    assert_eq!(order_by_place(&vec![2, 1, 2, 1, 0]), vec![4, 1, 3, 0, 2]);
    assert_eq!(order_by_place(&vec![0, 0, 0]), vec![0, 1, 2]);
    assert_eq!(order_by_place(&vec![i32::MAX, i32::MIN, 0]), vec![1, 2, 0]);
    let places = vec![5, 3, 9, 3, 7, 5, 1, 9, 0, 3];
    let order = order_by_place(&places);
    let mut expected: Vec<usize> = (0..places.len()).collect();
    expected.sort_by_key(|&index| places[index]);
    assert_eq!(order, expected);
}

#[test]
fn session_title_spans_its_rounds() {
    assert_eq!(generate_session_title(&Vec::new()), Some("空 Session".to_string()));
    let same_day = vec![round(1_714_979_289, 1_714_980_789), round(1_714_981_000, 1_714_982_500)];
    assert_eq!(
        generate_session_title(&same_day),
        Some("2024-05-06 07:08 ～ 08:01".to_string())
    );
    let over_midnight = vec![round(1_714_979_289, 1_714_980_789), round(1_715_039_000, 1_715_040_500)];
    assert_eq!(
        generate_session_title(&over_midnight),
        Some("2024-05-06 07:08 ～ 2024-05-07 00:08".to_string())
    );
    let single = vec![round(0, 59)];
    assert_eq!(generate_session_title(&single), Some("1970-01-01 00:00 ～ 00:00".to_string()));
    let before_epoch = vec![round(-1, 0)];
    assert_eq!(
        generate_session_title(&before_epoch),
        Some("1969-12-31 23:59 ～ 1970-01-01 00:00".to_string())
    );
    let out_of_range = vec![round(i64::MAX, i64::MAX)];
    assert_eq!(generate_session_title(&out_of_range), None);
}

#[test]
fn days_are_counted_from_the_epoch() {
    assert_eq!(at(0).utc_day(), 0);
    assert_eq!(at(86_399).utc_day(), 0);
    assert_eq!(at(86_400).utc_day(), 1);
    assert_eq!(at(-1).utc_day(), -1);
    assert_eq!(at(-86_400).utc_day(), -1);
    assert_eq!(at(-86_401).utc_day(), -2);
    assert_eq!(at(i64::MIN).utc_day(), i64::MIN.div_euclid(86_400));
    assert_eq!(at(i64::MAX).utc_day(), i64::MAX.div_euclid(86_400));
    assert!(at(10).same_day(&at(86_399)));
    assert!(!at(86_399).same_day(&at(86_400)));
    assert!(at(-1).same_day(&at(-86_400)));
    assert!(at(5).is_before(&at(6)));
    assert!(!at(6).is_before(&at(6)));
    assert!(Timestamp { secs: 6, nanos: 1 }.is_before(&Timestamp { secs: 6, nanos: 2 }));
    assert!(at(i64::MIN).is_before(&at(i64::MAX)));
}
