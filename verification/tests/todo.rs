use pet_focus::notification::ToastLevel;
use pet_focus::time::Timestamp;
use pet_focus::todo::{
    deletion_outcome, normalize_title, notify_sync_error, notify_sync_success, notify_todo_created,
    notify_todo_deleted, notify_todo_due, notify_todo_updated, parse_datetime, parse_datetime_opt,
    read_details, tags_json, CreateTodoPayload, TodoDetails, TodoError, TodoFeature, TodoRecord,
    UpdateTodoDetailsPayload, UpdateTodoPayload, DEFAULT_REMINDER_MINUTES,
};

fn at(secs: i64) -> Timestamp {
    Timestamp { secs, nanos: 0 }
}

fn sample() -> TodoRecord {
    TodoRecord::create(Some("  write report ".to_string()), "uid-1".to_string(), at(1_000))
}

fn details() -> TodoDetails {
    TodoDetails {
        description: None,
        priority: None,
        location: None,
        tags: Vec::new(),
        start_at: None,
        due_date: None,
        recurrence_rule: None,
        reminder_offset_minutes: None,
        reminder_method: None,
        timezone: None,
    }
}

#[test]
fn title_is_trimmed_or_defaulted() {
    assert_eq!(normalize_title(None), "New Todo");
    assert_eq!(normalize_title(Some(String::new())), "New Todo");
    assert_eq!(normalize_title(Some("   \t\n".to_string())), "New Todo");
    assert_eq!(normalize_title(Some("  buy milk  ".to_string())), "buy milk");
    assert_eq!(normalize_title(Some("buy  milk".to_string())), "buy  milk");
    assert_eq!(normalize_title(Some("\u{3000}买牛奶\u{3000}".to_string())), "买牛奶");
}

#[test]
fn payload_defaults_are_empty() {
    assert!(CreateTodoPayload::default().title.is_none());
    let details = UpdateTodoDetailsPayload::default();
    assert_eq!(details.id, 0);
    assert!(details.description.is_none());
    assert!(details.tags.is_empty());
    assert!(details.due_date.is_none());
    assert!(details.reminder_offset_minutes.is_none());
    let update = UpdateTodoPayload { id: 3, title: None, completed: Some(true) };
    assert_eq!(update.id, 3);
}

#[test]
fn feature_lists_its_commands() {
    let feature = TodoFeature::new();
    assert_eq!(feature.name(), "todo");
    assert_eq!(
        feature.command_names(),
        vec![
            "list_todos",
            "create_todo",
            "update_todo",
            "delete_todo",
            "update_todo_details",
            "get_caldav_status",
            "save_caldav_config",
            "clear_caldav_config",
            "sync_caldav_now",
        ]
    );
    assert_eq!(TodoFeature::default().name(), "todo");
}

#[test]
fn new_todo_has_the_defaults() {
    let todo = sample();
    assert_eq!(todo.uid, "uid-1");
    assert_eq!(todo.title, "write report");
    assert_eq!(todo.description, None);
    assert!(!todo.completed);
    assert_eq!(todo.status, "NEEDS-ACTION");
    assert_eq!(todo.percent_complete, Some(0));
    assert_eq!(todo.priority, None);
    assert_eq!(todo.tags, None);
    assert_eq!(todo.start_at, at(1_000));
    assert_eq!(todo.last_modified_at, at(1_000));
    assert_eq!(todo.due_date, None);
    assert_eq!(todo.reminder_offset_minutes, 15);
    assert_eq!(DEFAULT_REMINDER_MINUTES, 15);
    assert_eq!(todo.reminder_method, Some("display".to_string()));
    assert_eq!(todo.completed_at, None);
    assert!(!todo.notified);
    assert!(todo.dirty);
    assert_eq!(todo.remote_url, None);
    assert_eq!(todo.last_synced_at, None);
    assert_eq!(todo.created_at, at(1_000));
    assert_eq!(todo.updated_at, at(1_000));
    assert_eq!(TodoRecord::create(None, "u".to_string(), at(0)).title, "New Todo");
}

#[test]
fn completing_and_reopening_set_status() {
    let mut todo = sample();
    todo.dirty = false;
    todo.update(None, Some(true), at(2_000));
    assert!(todo.completed);
    assert_eq!(todo.status, "COMPLETED");
    assert_eq!(todo.percent_complete, Some(100));
    assert_eq!(todo.completed_at, Some(at(2_000)));
    assert_eq!(todo.last_modified_at, at(2_000));
    assert_eq!(todo.updated_at, at(2_000));
    assert!(todo.dirty);
    assert_eq!(todo.title, "write report");
    assert_eq!(todo.created_at, at(1_000));

    todo.update(None, Some(false), at(3_000));
    assert!(!todo.completed);
    assert_eq!(todo.status, "NEEDS-ACTION");
    assert_eq!(todo.percent_complete, Some(0));
    assert_eq!(todo.completed_at, None);
    assert_eq!(todo.updated_at, at(3_000));
}

#[test]
fn renaming_normalizes_the_title() {
    let mut todo = sample();
    todo.update(Some("  new name ".to_string()), None, at(2_000));
    assert_eq!(todo.title, "new name");
    assert_eq!(todo.status, "NEEDS-ACTION");
    assert_eq!(todo.percent_complete, Some(0));
    todo.update(Some("   ".to_string()), None, at(2_500));
    assert_eq!(todo.title, "New Todo");
    todo.update(None, None, at(3_000));
    assert_eq!(todo.title, "New Todo");
    assert_eq!(todo.last_modified_at, at(3_000));
}

#[test]
fn details_are_taken_over() {
    let mut todo = sample();
    todo.notified = true;
    todo.dirty = false;
    let mut change = details();
    change.description = Some("chapter one".to_string());
    change.priority = Some(3);
    change.location = Some("desk".to_string());
    change.tags = vec!["work".to_string(), "a\"b".to_string()];
    change.start_at = Some(at(500));
    change.recurrence_rule = Some("FREQ=DAILY".to_string());
    change.reminder_method = Some("email".to_string());
    change.timezone = Some("Asia/Shanghai".to_string());
    todo.update_details(change, at(4_000));
    assert_eq!(todo.description, Some("chapter one".to_string()));
    assert_eq!(todo.priority, Some(3));
    assert_eq!(todo.location, Some("desk".to_string()));
    assert_eq!(todo.tags, Some(r#"["work","a\"b"]"#.to_string()));
    assert_eq!(todo.start_at, at(500));
    assert_eq!(todo.due_date, None);
    assert_eq!(todo.recurrence_rule, Some("FREQ=DAILY".to_string()));
    assert_eq!(todo.reminder_offset_minutes, 15);
    assert_eq!(todo.reminder_method, Some("email".to_string()));
    assert_eq!(todo.timezone, Some("Asia/Shanghai".to_string()));
    assert!(todo.notified);
    assert!(todo.dirty);
    assert_eq!(todo.last_modified_at, at(4_000));
    assert_eq!(todo.updated_at, at(4_000));
    assert_eq!(todo.title, "write report");
}

#[test]
fn empty_details_clear_what_was_set() {
    let mut todo = sample();
    todo.description = Some("old".to_string());
    todo.tags = Some(r#"["x"]"#.to_string());
    todo.reminder_method = Some("display".to_string());
    todo.update_details(details(), at(4_000));
    assert_eq!(todo.description, None);
    assert_eq!(todo.tags, None);
    assert_eq!(todo.reminder_method, None);
    assert_eq!(todo.start_at, at(1_000));
}

#[test]
fn changed_due_date_reminds_anew() {
    let mut todo = sample();
    todo.notified = true;
    let mut change = details();
    change.due_date = Some(at(9_000));
    todo.update_details(change, at(4_000));
    assert_eq!(todo.due_date, Some(at(9_000)));
    assert!(!todo.notified);

    todo.notified = true;
    let mut same = details();
    same.due_date = Some(at(9_000));
    todo.update_details(same, at(5_000));
    assert_eq!(todo.due_date, Some(at(9_000)));
    assert!(todo.notified);

    todo.update_details(details(), at(6_000));
    assert_eq!(todo.due_date, None);
    assert!(!todo.notified);
}

#[test]
fn changed_reminder_offset_reminds_anew() {
    let mut todo = sample();
    todo.notified = true;
    let mut same = details();
    same.reminder_offset_minutes = Some(15);
    todo.update_details(same, at(4_000));
    assert!(todo.notified);
    let mut change = details();
    change.reminder_offset_minutes = Some(30);
    todo.update_details(change, at(5_000));
    assert_eq!(todo.reminder_offset_minutes, 30);
    assert!(!todo.notified);
}

#[test]
fn due_date_and_reminder_setters() {
    let mut todo = sample();
    todo.notified = true;
    todo.set_due_date(Some(at(7_000)), at(2_000));
    assert_eq!(todo.due_date, Some(at(7_000)));
    assert!(!todo.notified);
    assert_eq!(todo.last_modified_at, at(2_000));
    assert_eq!(todo.updated_at, at(2_000));
    todo.set_remind_before(45, at(3_000));
    assert_eq!(todo.reminder_offset_minutes, 45);
    assert_eq!(todo.updated_at, at(3_000));
    todo.mark_notified(at(6_900));
    assert!(todo.notified);
    assert_eq!(todo.reminder_last_triggered_at, Some(at(6_900)));
    assert_eq!(todo.updated_at, at(3_000));
    todo.set_due_date(None, at(8_000));
    assert_eq!(todo.due_date, None);
    assert!(!todo.notified);
}

#[test]
fn reminder_is_awaited_by_open_due_todos() {
    let mut todo = sample();
    assert!(!todo.awaits_reminder(&at(0)));
    todo.set_due_date(Some(at(7_000)), at(2_000));
    assert!(todo.awaits_reminder(&at(6_999)));
    assert!(!todo.awaits_reminder(&at(7_000)));
    assert!(!todo.awaits_reminder(&at(7_001)));
    assert!(todo.awaits_reminder(&Timestamp { secs: 6_999, nanos: 999_999_999 }));
    todo.mark_notified(at(6_000));
    assert!(!todo.awaits_reminder(&at(6_500)));
    todo.set_due_date(Some(at(7_000)), at(2_000));
    todo.update(None, Some(true), at(2_500));
    assert!(!todo.awaits_reminder(&at(3_000)));
}

#[test]
fn datetimes_are_read_from_rfc3339() {
    assert_eq!(parse_datetime("1970-01-01T00:00:00Z").unwrap(), at(0));
    assert_eq!(parse_datetime("2024-05-06T07:08:09+08:00").unwrap(), at(1_714_950_489));
    assert_eq!(
        parse_datetime("2024-05-06T07:08:09.250Z").unwrap(),
        Timestamp { secs: 1_714_979_289, nanos: 250_000_000 }
    );
    assert_eq!(parse_datetime("1969-12-31T23:59:59Z").unwrap(), at(-1));
    match parse_datetime("tomorrow") {
        Err(TodoError::InvalidDateTime(value)) => assert_eq!(value, "tomorrow"),
        other => panic!("accepted: {:?}", other),
    }
    assert!(parse_datetime("").is_err());
    assert!(parse_datetime("2024-05-06").is_err());
    assert!(parse_datetime(" 2024-05-06T07:08:09Z").is_err());
}

#[test]
fn optional_datetime_treats_blank_as_none() {
    assert_eq!(parse_datetime_opt(None).unwrap(), None);
    assert_eq!(parse_datetime_opt(Some(String::new())).unwrap(), None);
    assert_eq!(parse_datetime_opt(Some("  \t".to_string())).unwrap(), None);
    assert_eq!(parse_datetime_opt(Some("1970-01-01T00:01:00Z".to_string())).unwrap(), Some(at(60)));
    match parse_datetime_opt(Some("soon".to_string())) {
        Err(error) => assert_eq!(error.message(), "failed to parse datetime: soon"),
        Ok(read) => panic!("accepted: {:?}", read),
    }
}

#[test]
fn details_command_reads_its_dates() {
    let mut payload = UpdateTodoDetailsPayload::default();
    payload.id = 4;
    payload.description = Some("d".to_string());
    payload.tags = vec!["t".to_string()];
    payload.start_at = Some("1970-01-01T00:00:10Z".to_string());
    payload.due_date = Some("1970-01-01T00:00:20Z".to_string());
    payload.reminder_offset_minutes = Some(5);
    let details = read_details(payload).unwrap();
    assert_eq!(details.description, Some("d".to_string()));
    assert_eq!(details.tags, vec!["t".to_string()]);
    assert_eq!(details.start_at, Some(at(10)));
    assert_eq!(details.due_date, Some(at(20)));
    assert_eq!(details.reminder_offset_minutes, Some(5));

    let mut blank_due = UpdateTodoDetailsPayload::default();
    blank_due.due_date = Some("   ".to_string());
    let details = read_details(blank_due).unwrap();
    assert_eq!(details.start_at, None);
    assert_eq!(details.due_date, None);

    let mut bad_start = UpdateTodoDetailsPayload::default();
    bad_start.start_at = Some("   ".to_string());
    bad_start.due_date = Some("never".to_string());
    match read_details(bad_start) {
        Err(error) => assert_eq!(error.message(), "failed to parse datetime:    "),
        Ok(_) => panic!("a blank start is no date"),
    }

    let mut bad_due = UpdateTodoDetailsPayload::default();
    bad_due.due_date = Some("never".to_string());
    match read_details(bad_due) {
        Err(error) => assert_eq!(error.message(), "failed to parse datetime: never"),
        Ok(_) => panic!("never is no date"),
    }
}

#[test]
fn tags_are_stored_as_json() {
    assert_eq!(tags_json(&Vec::new()), None);
    assert_eq!(tags_json(&vec!["a".to_string()]), Some(r#"["a"]"#.to_string()));
    let tags = vec!["work".to_string(), "q\"uote".to_string(), "tab\t".to_string(), "标签".to_string()];
    let stored = tags_json(&tags).unwrap();
    assert_eq!(stored, serde_json::to_string(&tags).unwrap());
    let back: Vec<String> = serde_json::from_str(&stored).unwrap();
    assert_eq!(back, tags);
}

#[test]
fn deletion_of_nothing_is_not_found() {
    assert!(deletion_outcome(5, 1).is_ok());
    assert!(deletion_outcome(5, 2).is_ok());
    match deletion_outcome(5, 0) {
        Err(TodoError::NotFound(id)) => assert_eq!(id, 5),
        other => panic!("found: {:?}", other),
    }
    assert_eq!(TodoError::NotFound(5).message(), "todo 5 not found");
    assert_eq!(TodoError::NotFound(-12).message(), "todo -12 not found");
    assert_eq!(TodoError::NotFound(i32::MIN).message(), "todo -2147483648 not found");
}

#[test]
fn todo_toasts_carry_the_title() {
    let created = notify_todo_created("买牛奶");
    assert_eq!(created.message, "待办 \"买牛奶\" 创建成功");
    assert_eq!(created.level, ToastLevel::Success);
    let updated = notify_todo_updated("x");
    assert_eq!(updated.message, "待办 \"x\" 更新成功");
    assert_eq!(updated.level, ToastLevel::Success);
    let deleted = notify_todo_deleted();
    assert_eq!(deleted.message, "待办删除成功");
    assert_eq!(deleted.level, ToastLevel::Success);
    let due = notify_todo_due("report");
    assert_eq!(due.message, "⏰ 待办 \"report\" 已到期");
    assert_eq!(due.level, ToastLevel::Warning);
}

#[test]
fn sync_toasts_report_the_counts() {
    assert!(notify_sync_success(0, 0, 0).is_none());
    let toast = notify_sync_success(1, 20, 300).unwrap();
    assert_eq!(toast.message, "同步完成：新建 1，更新 20，推送 300");
    assert_eq!(toast.level, ToastLevel::Success);
    assert_eq!(notify_sync_success(0, 0, 1).unwrap().message, "同步完成：新建 0，更新 0，推送 1");
    assert!(notify_sync_success(usize::MAX, usize::MAX, usize::MAX).is_some());
    let failed = notify_sync_error("timeout");
    assert_eq!(failed.message, "同步失败：timeout");
    assert_eq!(failed.level, ToastLevel::Error);
}
