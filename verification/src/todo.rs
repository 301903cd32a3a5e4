//! The todo feature: what its commands take, and the rules by which a todo is
//! created and changed. Reading and writing the database is the caller's
//! work; these functions say what is written.

use std::sync::Arc;
use vstd::prelude::*;
use vstd::string::*;
use crate::json::{json_quote, json_quoted};
use crate::text::text_view;
use crate::notification::{Toast, ToastLevel};
use crate::text::{
    blank, decimal, decimal_string, is_blank, signed_decimal, signed_decimal_string, trim, trimmed,
};
use crate::time::{parse_rfc3339, rfc3339_instant, Timestamp};

verus! {

/// What the command that creates a todo takes.
#[derive(Debug)]
pub struct CreateTodoPayload {
    pub title: Option<String>,
}

impl Default for CreateTodoPayload {
    fn default() -> (r: Self)
        ensures
            r.title is None,
    {
        CreateTodoPayload { title: None }
    }
}

/// What the command that renames, completes or reopens a todo takes.
#[derive(Debug)]
pub struct UpdateTodoPayload {
    pub id: i32,
    pub title: Option<String>,
    pub completed: Option<bool>,
}

/// What the command that changes the details of a todo takes.
#[derive(Debug)]
pub struct UpdateTodoDetailsPayload {
    pub id: i32,
    pub description: Option<String>,
    pub priority: Option<i32>,
    pub location: Option<String>,
    pub tags: Vec<String>,
    pub start_at: Option<String>,
    pub due_date: Option<String>,
    pub recurrence_rule: Option<String>,
    pub reminder_offset_minutes: Option<i32>,
    pub reminder_method: Option<String>,
    pub timezone: Option<String>,
}

impl Default for UpdateTodoDetailsPayload {
    fn default() -> (r: Self)
        ensures
            r.id == 0,
            r.description is None,
            r.priority is None,
            r.location is None,
            r.tags@.len() == 0,
            r.start_at is None,
            r.due_date is None,
            r.recurrence_rule is None,
            r.reminder_offset_minutes is None,
            r.reminder_method is None,
            r.timezone is None,
    {
        UpdateTodoDetailsPayload {
            id: 0,
            description: None,
            priority: None,
            location: None,
            tags: Vec::new(),
            start_at: None,
            due_date: None,
            recurrence_rule: None,
            reminder_offset_minutes: None,
            reminder_method: None,
            timezone: None,
        }
    }
}

/// The todo feature as the application registers it.
#[derive(Debug)]
pub struct TodoFeature;

impl TodoFeature {
    /// The feature, ready to be shared.
    pub fn new() -> (r: Arc<TodoFeature>)
        ensures
            *r == TodoFeature,
    {
        Arc::new(TodoFeature)
    }

    /// The name under which the feature is registered.
    pub fn name(&self) -> (r: &'static str)
        ensures
            r@ == "todo"@,
    {
        "todo"
    }

    /// The names of the feature's commands, in the order in which the
    /// application lists them.
    pub fn command_names(&self) -> (r: Vec<&'static str>)
        ensures
            r@.len() == 9,
            r@[0]@ == "list_todos"@,
            r@[1]@ == "create_todo"@,
            r@[2]@ == "update_todo"@,
            r@[3]@ == "delete_todo"@,
            r@[4]@ == "update_todo_details"@,
            r@[5]@ == "get_caldav_status"@,
            r@[6]@ == "save_caldav_config"@,
            r@[7]@ == "clear_caldav_config"@,
            r@[8]@ == "sync_caldav_now"@,
    {
        let mut names: Vec<&'static str> = Vec::new();
        names.push("list_todos");
        names.push("create_todo");
        names.push("update_todo");
        names.push("delete_todo");
        names.push("update_todo_details");
        names.push("get_caldav_status");
        names.push("save_caldav_config");
        names.push("clear_caldav_config");
        names.push("sync_caldav_now");
        names
    }
}

impl Default for TodoFeature {
    fn default() -> (r: Self)
        ensures
            r == TodoFeature,
    {
        TodoFeature
    }
}

/// The title of a todo that was given none.
pub open spec fn default_title() -> Seq<char> {
    "New Todo"@
}

/// The status of a todo that is not done.
pub open spec fn default_status() -> Seq<char> {
    "NEEDS-ACTION"@
}

/// The status of a todo that is done.
pub open spec fn completed_status() -> Seq<char> {
    "COMPLETED"@
}

/// The minutes before its due date at which a new todo reminds.
pub const DEFAULT_REMINDER_MINUTES: i32 = 15;

/// The title under which a todo is stored: the given one without the
/// whitespace around it, or `New Todo` where none is given or nothing is left.
pub open spec fn normalized_title(title: Option<Seq<char>>) -> Seq<char> {
    match title {
        Some(t) => if blank(t) {
            default_title()
        } else {
            trimmed(t)
        },
        None => default_title(),
    }
}

/// The title under which a todo is stored.
pub fn normalize_title(title: Option<String>) -> (r: String)
    ensures
        r@ == normalized_title(text_view(title)),
{
    match title {
        Some(title) => {
            if is_blank(title.as_str()) {
                String::from_str("New Todo")
            } else {
                trim(title.as_str())
            }
        },
        None => String::from_str("New Todo"),
    }
}

/// Why a change to a todo was turned down.
#[derive(Debug)]
pub enum TodoError {
    /// The text is no date and time in the format of RFC 3339.
    InvalidDateTime(String),
    /// No todo has the id.
    NotFound(i32),
}

/// The text of an error, as the commands hand it to the front end.
pub open spec fn error_text(error: TodoError) -> Seq<char> {
    match error {
        TodoError::InvalidDateTime(value) => "failed to parse datetime: "@ + value@,
        TodoError::NotFound(id) => "todo "@ + signed_decimal(id as int) + " not found"@,
    }
}

impl TodoError {
    /// The text of the error, as the commands hand it to the front end.
    pub fn message(&self) -> (r: String)
        ensures
            r@ == error_text(*self),
    {
        match self {
            TodoError::InvalidDateTime(value) => {
                let mut out = String::from_str("failed to parse datetime: ");
                out.append(value.as_str());
                out
            },
            TodoError::NotFound(id) => {
                let mut out = String::from_str("todo ");
                out.append(signed_decimal_string(*id as i64).as_str());
                out.append(" not found");
                out
            },
        }
    }
}

/// What reading `value` as a date and time gives.
pub open spec fn datetime_of(value: Seq<char>) -> Result<Timestamp, Seq<char>> {
    match rfc3339_instant(value) {
        Some(at) => Ok(at),
        None => Err(value),
    }
}

/// What reading an optional date and time gives: none where nothing or only
/// whitespace is given.
pub open spec fn optional_datetime_of(value: Option<Seq<char>>) -> Result<
    Option<Timestamp>,
    Seq<char>,
> {
    match value {
        Some(v) => if blank(v) {
            Ok(None)
        } else {
            match rfc3339_instant(v) {
                Some(at) => Ok(Some(at)),
                None => Err(v),
            }
        },
        None => Ok(None),
    }
}

/// The view of the outcome of reading a date and time.
pub open spec fn datetime_view<T>(outcome: Result<T, TodoError>) -> Result<T, Seq<char>> {
    match outcome {
        Ok(at) => Ok(at),
        Err(TodoError::InvalidDateTime(value)) => Err(value@),
        Err(TodoError::NotFound(_)) => Err(Seq::empty()),
    }
}

/// Reads a date and time in the format of RFC 3339.
pub fn parse_datetime(value: &str) -> (r: Result<Timestamp, TodoError>)
    ensures
        r is Err ==> r->Err_0 is InvalidDateTime,
        datetime_view(r) == datetime_of(value@),
{
    match parse_rfc3339(value) {
        Some(at) => Ok(at),
        None => Err(TodoError::InvalidDateTime(String::from_str(value))),
    }
}

/// Reads an optional date and time: nothing, or only whitespace, is none.
pub fn parse_datetime_opt(value: Option<String>) -> (r: Result<Option<Timestamp>, TodoError>)
    ensures
        r is Err ==> r->Err_0 is InvalidDateTime,
        datetime_view(r) == optional_datetime_of(text_view(value)),
{
    match value {
        Some(v) => {
            if is_blank(v.as_str()) {
                Ok(None)
            } else {
                match parse_datetime(v.as_str()) {
                    Ok(at) => Ok(Some(at)),
                    Err(e) => Err(e),
                }
            }
        },
        None => Ok(None),
    }
}

/// The tags of a todo as they are stored: a JSON array of strings.
pub open spec fn tags_text(tags: Seq<Seq<char>>) -> Seq<char> {
    "["@ + joined_tags(tags) + "]"@
}

/// The tags as JSON strings with commas between them.
pub open spec fn joined_tags(tags: Seq<Seq<char>>) -> Seq<char>
    decreases tags.len(),
{
    if tags.len() == 0 {
        Seq::empty()
    } else if tags.len() == 1 {
        json_quoted(tags[0])
    } else {
        joined_tags(tags.drop_last()) + ","@ + json_quoted(tags.last())
    }
}

/// The views of a list of strings.
pub open spec fn texts(list: Seq<String>) -> Seq<Seq<char>> {
    list.map_values(|s: String| s@)
}

/// The tags of a todo as they are stored: nothing where there are none, else
/// a JSON array of strings.
pub fn tags_json(tags: &Vec<String>) -> (r: Option<String>)
    ensures
        tags@.len() == 0 ==> r is None,
        tags@.len() > 0 ==> r is Some && r->0@ == tags_text(texts(tags@)),
{
    if tags.len() == 0 {
        return None;
    }
    let mut out = String::from_str("[");
    let mut i: usize = 0;
    while i < tags.len()
        invariant
            0 <= i <= tags.len(),
            out@ == "["@ + joined_tags(texts(tags@).take(i as int)),
        decreases tags.len() - i,
    {
        let ghost before = texts(tags@).take(i as int);
        let ghost after = texts(tags@).take(i as int + 1);
        proof {
            assert(after.drop_last() =~= before);
            assert(after.last() == tags@[i as int]@);
        }
        if i > 0 {
            out.append(",");
        }
        out.append(json_quote(tags[i].as_str()).as_str());
        proof {
            if i == 0 {
                assert(before =~= Seq::empty());
                assert(out@ =~= "["@ + joined_tags(after));
            } else {
                assert(out@ =~= "["@ + joined_tags(after));
            }
        }
        i += 1;
    }
    proof {
        assert(texts(tags@).take(tags@.len() as int) =~= texts(tags@));
    }
    out.append("]");
    Some(out)
}

/// Whether a deletion that touched `rows_affected` rows found the todo.
pub fn deletion_outcome(id: i32, rows_affected: u64) -> (r: Result<(), TodoError>)
    ensures
        rows_affected == 0 ==> (r matches Err(TodoError::NotFound(missing)) && missing == id),
        rows_affected != 0 ==> r is Ok,
{
    if rows_affected == 0 {
        Err(TodoError::NotFound(id))
    } else {
        Ok(())
    }
}

/// A todo as it is stored, without the id that the database gives it.
#[derive(Debug)]
pub struct TodoRecord {
    pub uid: String,
    pub title: String,
    pub description: Option<String>,
    pub completed: bool,
    pub status: String,
    pub percent_complete: Option<i32>,
    pub priority: Option<i32>,
    pub location: Option<String>,
    pub tags: Option<String>,
    pub start_at: Timestamp,
    pub last_modified_at: Timestamp,
    pub due_date: Option<Timestamp>,
    pub recurrence_rule: Option<String>,
    pub reminder_offset_minutes: i32,
    pub timezone: Option<String>,
    pub reminder_method: Option<String>,
    pub reminder_last_triggered_at: Option<Timestamp>,
    pub completed_at: Option<Timestamp>,
    pub notified: bool,
    pub dirty: bool,
    pub remote_url: Option<String>,
    pub remote_etag: Option<String>,
    pub remote_calendar_url: Option<String>,
    pub sync_token: Option<String>,
    pub last_synced_at: Option<Timestamp>,
    pub created_at: Timestamp,
    pub updated_at: Timestamp,
}

/// The details of a todo that a command sets, with the dates already read.
#[derive(Debug)]
pub struct TodoDetails {
    pub description: Option<String>,
    pub priority: Option<i32>,
    pub location: Option<String>,
    pub tags: Vec<String>,
    pub start_at: Option<Timestamp>,
    pub due_date: Option<Timestamp>,
    pub recurrence_rule: Option<String>,
    pub reminder_offset_minutes: Option<i32>,
    pub reminder_method: Option<String>,
    pub timezone: Option<String>,
}

/// Reads the dates of a details command. The start is read as it stands;
/// a due date of nothing or only whitespace is none.
pub fn read_details(payload: UpdateTodoDetailsPayload) -> (r: Result<TodoDetails, TodoError>)
    ensures
        r is Err ==> r->Err_0 is InvalidDateTime,
        match (payload.start_at, optional_datetime_of(text_view(payload.due_date))) {
            (Some(start), _) if rfc3339_instant(start@) is None => datetime_view(r) == Err::<
                TodoDetails,
                Seq<char>,
            >(start@),
            (_, Err(due)) => datetime_view(r) == Err::<TodoDetails, Seq<char>>(due),
            (start, Ok(due)) => {
                &&& r matches Ok(details)
                &&& details.start_at == (match start {
                    Some(text) => rfc3339_instant(text@),
                    None => None,
                })
                &&& details.due_date == due
                &&& details.description == payload.description
                &&& details.priority == payload.priority
                &&& details.location == payload.location
                &&& details.tags == payload.tags
                &&& details.recurrence_rule == payload.recurrence_rule
                &&& details.reminder_offset_minutes == payload.reminder_offset_minutes
                &&& details.reminder_method == payload.reminder_method
                &&& details.timezone == payload.timezone
            },
        },
{
    let start_at = match &payload.start_at {
        Some(text) => match parse_datetime(text.as_str()) {
            Ok(at) => Some(at),
            Err(e) => {
                return Err(e);
            },
        },
        None => None,
    };
    let due_date = match parse_datetime_opt(payload.due_date) {
        Ok(due) => due,
        Err(e) => {
            return Err(e);
        },
    };
    Ok(
        TodoDetails {
            description: payload.description,
            priority: payload.priority,
            location: payload.location,
            tags: payload.tags,
            start_at,
            due_date,
            recurrence_rule: payload.recurrence_rule,
            reminder_offset_minutes: payload.reminder_offset_minutes,
            reminder_method: payload.reminder_method,
            timezone: payload.timezone,
        },
    )
}

impl TodoRecord {
    /// A new todo: not done, without details, reminding fifteen minutes
    /// ahead by display, and not yet synchronised.
    pub fn create(title: Option<String>, uid: String, now: Timestamp) -> (r: TodoRecord)
        ensures
            r.uid == uid,
            r.title@ == normalized_title(text_view(title)),
            r.description is None,
            !r.completed,
            r.status@ == default_status(),
            r.percent_complete == Some(0i32),
            r.priority is None,
            r.location is None,
            r.tags is None,
            r.start_at == now,
            r.last_modified_at == now,
            r.due_date is None,
            r.recurrence_rule is None,
            r.reminder_offset_minutes == DEFAULT_REMINDER_MINUTES,
            r.timezone is None,
            text_view(r.reminder_method) == Some("display"@),
            r.reminder_last_triggered_at is None,
            r.completed_at is None,
            !r.notified,
            r.dirty,
            r.remote_url is None,
            r.remote_etag is None,
            r.remote_calendar_url is None,
            r.sync_token is None,
            r.last_synced_at is None,
            r.created_at == now,
            r.updated_at == now,
    {
        TodoRecord {
            uid,
            title: normalize_title(title),
            description: None,
            completed: false,
            status: String::from_str("NEEDS-ACTION"),
            percent_complete: Some(0),
            priority: None,
            location: None,
            tags: None,
            start_at: now,
            last_modified_at: now,
            due_date: None,
            recurrence_rule: None,
            reminder_offset_minutes: DEFAULT_REMINDER_MINUTES,
            timezone: None,
            reminder_method: Some(String::from_str("display")),
            reminder_last_triggered_at: None,
            completed_at: None,
            notified: false,
            dirty: true,
            remote_url: None,
            remote_etag: None,
            remote_calendar_url: None,
            sync_token: None,
            last_synced_at: None,
            created_at: now,
            updated_at: now,
        }
    }

    /// Renames the todo, completes or reopens it, as far as each is asked
    /// for. A completed todo has the status `COMPLETED`, all of its work done
    /// and the time of completion; a reopened one the status `NEEDS-ACTION`,
    /// none of its work done and no time of completion. Either way the todo
    /// is marked as changed at `now`.
    pub fn update(&mut self, title: Option<String>, completed: Option<bool>, now: Timestamp)
        ensures
            final(self).title@ == (match title {
                Some(t) => normalized_title(Some(t@)),
                None => old(self).title@,
            }),
            final(self).completed == (match completed {
                Some(c) => c,
                None => old(self).completed,
            }),
            final(self).status@ == (match completed {
                Some(true) => completed_status(),
                Some(false) => default_status(),
                None => old(self).status@,
            }),
            final(self).percent_complete == (match completed {
                Some(true) => Some(100i32),
                Some(false) => Some(0i32),
                None => old(self).percent_complete,
            }),
            final(self).completed_at == (match completed {
                Some(true) => Some(now),
                Some(false) => None,
                None => old(self).completed_at,
            }),
            final(self).last_modified_at == now,
            final(self).updated_at == now,
            final(self).dirty,
            *final(self) == (TodoRecord {
                title: final(self).title,
                completed: final(self).completed,
                status: final(self).status,
                percent_complete: final(self).percent_complete,
                completed_at: final(self).completed_at,
                last_modified_at: now,
                updated_at: now,
                dirty: true,
                ..*old(self)
            }),
    {
        if let Some(title) = title {
            self.title = normalize_title(Some(title));
        }
        if let Some(completed) = completed {
            self.completed = completed;
            if completed {
                self.status = String::from_str("COMPLETED");
                self.percent_complete = Some(100);
                self.completed_at = Some(now);
            } else {
                self.status = String::from_str("NEEDS-ACTION");
                self.percent_complete = Some(0);
                self.completed_at = None;
            }
        }
        self.last_modified_at = now;
        self.updated_at = now;
        self.dirty = true;
    }

    /// Sets the details of the todo. The start is kept where none is given.
    /// A due date or a reminder offset that differs from the stored one is
    /// taken over and the todo reminds anew; the same one changes nothing.
    /// The todo is marked as changed at `now`.
    pub fn update_details(&mut self, details: TodoDetails, now: Timestamp)
        ensures
            final(self).description == details.description,
            final(self).priority == details.priority,
            final(self).location == details.location,
            text_view(final(self).tags) == (if details.tags@.len() == 0 {
                None
            } else {
                Some(tags_text(texts(details.tags@)))
            }),
            final(self).start_at == (match details.start_at {
                Some(at) => at,
                None => old(self).start_at,
            }),
            final(self).due_date == details.due_date,
            final(self).recurrence_rule == details.recurrence_rule,
            final(self).reminder_offset_minutes == (match details.reminder_offset_minutes {
                Some(minutes) => minutes,
                None => old(self).reminder_offset_minutes,
            }),
            final(self).reminder_method == details.reminder_method,
            final(self).timezone == details.timezone,
            final(self).notified == (old(self).notified && details.due_date == old(self).due_date
                && (details.reminder_offset_minutes matches Some(minutes) ==> minutes == old(
                self,
            ).reminder_offset_minutes)),
            final(self).last_modified_at == now,
            final(self).updated_at == now,
            final(self).dirty,
            *final(self) == (TodoRecord {
                description: final(self).description,
                priority: final(self).priority,
                location: final(self).location,
                tags: final(self).tags,
                start_at: final(self).start_at,
                due_date: final(self).due_date,
                recurrence_rule: final(self).recurrence_rule,
                reminder_offset_minutes: final(self).reminder_offset_minutes,
                reminder_method: final(self).reminder_method,
                timezone: final(self).timezone,
                notified: final(self).notified,
                last_modified_at: now,
                updated_at: now,
                dirty: true,
                ..*old(self)
            }),
    {
        self.description = details.description;
        self.priority = details.priority;
        self.location = details.location;
        self.tags = tags_json(&details.tags);
        if let Some(at) = details.start_at {
            self.start_at = at;
        }
        if details.due_date != self.due_date {
            self.due_date = details.due_date;
            self.notified = false;
        }
        self.recurrence_rule = details.recurrence_rule;
        if let Some(minutes) = details.reminder_offset_minutes {
            if minutes != self.reminder_offset_minutes {
                self.reminder_offset_minutes = minutes;
                self.notified = false;
            }
        }
        self.reminder_method = details.reminder_method;
        self.timezone = details.timezone;
        self.last_modified_at = now;
        self.updated_at = now;
        self.dirty = true;
    }

    /// Sets or clears the due date; the todo reminds anew and is marked as
    /// changed at `now`.
    pub fn set_due_date(&mut self, due_date: Option<Timestamp>, now: Timestamp)
        ensures
            *final(self) == (TodoRecord {
                due_date,
                notified: false,
                last_modified_at: now,
                updated_at: now,
                ..*old(self)
            }),
    {
        self.due_date = due_date;
        self.notified = false;
        self.last_modified_at = now;
        self.updated_at = now;
    }

    /// Sets the minutes before the due date at which the todo reminds, and
    /// marks it as changed at `now`.
    pub fn set_remind_before(&mut self, minutes: i32, now: Timestamp)
        ensures
            *final(self) == (TodoRecord {
                reminder_offset_minutes: minutes,
                last_modified_at: now,
                updated_at: now,
                ..*old(self)
            }),
    {
        self.reminder_offset_minutes = minutes;
        self.last_modified_at = now;
        self.updated_at = now;
    }

    /// Notes that the todo has reminded at `now`.
    pub fn mark_notified(&mut self, now: Timestamp)
        ensures
            *final(self) == (TodoRecord {
                notified: true,
                reminder_last_triggered_at: Some(now),
                ..*old(self)
            }),
    {
        self.notified = true;
        self.reminder_last_triggered_at = Some(now);
    }

    /// Whether the todo is the kind that the next reminder is picked from:
    /// not done, not yet reminded of, and due after `now`.
    pub fn awaits_reminder(&self, now: &Timestamp) -> (r: bool)
        ensures
            r == (!self.completed && !self.notified && (self.due_date matches Some(due)
                && now.before(due))),
    {
        match &self.due_date {
            Some(due) => !self.completed && !self.notified && now.is_before(due),
            None => false,
        }
    }
}

/// The toast for a todo that was created.
pub fn notify_todo_created(title: &str) -> (r: Toast)
    ensures
        r.message@ == "待办 \""@ + title@ + "\" 创建成功"@,
        r.level == ToastLevel::Success,
{
    let mut message = String::from_str("待办 \"");
    message.append(title);
    message.append("\" 创建成功");
    Toast { message, level: ToastLevel::Success }
}

/// The toast for a todo that was updated.
pub fn notify_todo_updated(title: &str) -> (r: Toast)
    ensures
        r.message@ == "待办 \""@ + title@ + "\" 更新成功"@,
        r.level == ToastLevel::Success,
{
    let mut message = String::from_str("待办 \"");
    message.append(title);
    message.append("\" 更新成功");
    Toast { message, level: ToastLevel::Success }
}

/// The toast for a todo that was deleted.
pub fn notify_todo_deleted() -> (r: Toast)
    ensures
        r.message@ == "待办删除成功"@,
        r.level == ToastLevel::Success,
{
    Toast { message: String::from_str("待办删除成功"), level: ToastLevel::Success }
}

/// The toast for a todo that has come due.
pub fn notify_todo_due(title: &str) -> (r: Toast)
    ensures
        r.message@ == "⏰ 待办 \""@ + title@ + "\" 已到期"@,
        r.level == ToastLevel::Warning,
{
    let mut message = String::from_str("⏰ 待办 \"");
    message.append(title);
    message.append("\" 已到期");
    Toast { message, level: ToastLevel::Warning }
}

/// The text of the toast for a synchronisation that changed something.
pub open spec fn sync_summary(created: nat, updated: nat, pushed: nat) -> Seq<char> {
    "同步完成：新建 "@ + decimal(created) + "，更新 "@ + decimal(updated) + "，推送 "@ + decimal(
        pushed,
    )
}

/// The toast for a synchronisation that went through: none where nothing
/// was created, updated or pushed.
pub fn notify_sync_success(created: usize, updated: usize, pushed: usize) -> (r: Option<Toast>)
    ensures
        created + updated + pushed == 0 ==> r is None,
        created + updated + pushed > 0 ==> r is Some && r->0.level == ToastLevel::Success
            && r->0.message@ == sync_summary(created as nat, updated as nat, pushed as nat),
{
    if created == 0 && updated == 0 && pushed == 0 {
        return None;
    }
    let mut message = String::from_str("同步完成：新建 ");
    message.append(decimal_string(created as u64).as_str());
    message.append("，更新 ");
    message.append(decimal_string(updated as u64).as_str());
    message.append("，推送 ");
    message.append(decimal_string(pushed as u64).as_str());
    Some(Toast { message, level: ToastLevel::Success })
}

/// The toast for a synchronisation that failed.
pub fn notify_sync_error(error: &str) -> (r: Toast)
    ensures
        r.message@ == "同步失败："@ + error@,
        r.level == ToastLevel::Error,
{
    let mut message = String::from_str("同步失败：");
    message.append(error);
    Toast { message, level: ToastLevel::Error }
}

} // verus!
