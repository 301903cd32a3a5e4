//! The pomodoro feature: its settings, what is stored of a finished round,
//! the order of the rounds of a session and the title a session goes by.
//! Reading and writing the database is the caller's work.

use vstd::prelude::*;
use vstd::string::*;
use crate::text::text_view;
use crate::text::{decimal, decimal_string, parse_u32, parsed_u32};
use crate::time::{
    clock_pattern, elapsed_seconds, format_utc, minute_pattern, utc_formatted,
    whole_seconds_between, Timestamp,
};

verus! {

/// What a round was for.
#[derive(Clone, Copy, Debug, PartialEq, Eq, Structural)]
pub enum PomodoroSessionKind {
    Focus,
    Rest,
}

/// How a round ended.
#[derive(Clone, Copy, Debug, PartialEq, Eq, Structural)]
pub enum PomodoroSessionStatus {
    Completed,
    Stopped,
    Skipped,
}

impl PomodoroSessionKind {
    /// The word under which the kind is stored.
    pub open spec fn label(self) -> Seq<char> {
        match self {
            PomodoroSessionKind::Focus => "focus"@,
            PomodoroSessionKind::Rest => "rest"@,
        }
    }

    /// The word under which the kind is stored.
    pub fn as_str(&self) -> (r: &'static str)
        ensures
            r@ == self.label(),
    {
        match self {
            PomodoroSessionKind::Focus => "focus",
            PomodoroSessionKind::Rest => "rest",
        }
    }
}

impl PomodoroSessionStatus {
    /// The word under which the status is stored.
    pub open spec fn label(self) -> Seq<char> {
        match self {
            PomodoroSessionStatus::Completed => "completed"@,
            PomodoroSessionStatus::Stopped => "stopped"@,
            PomodoroSessionStatus::Skipped => "skipped"@,
        }
    }

    /// The word under which the status is stored.
    pub fn as_str(&self) -> (r: &'static str)
        ensures
            r@ == self.label(),
    {
        match self {
            PomodoroSessionStatus::Completed => "completed",
            PomodoroSessionStatus::Stopped => "stopped",
            PomodoroSessionStatus::Skipped => "skipped",
        }
    }
}

/// The lengths of the rounds, in minutes, and after how many rounds of focus
/// the long break comes.
#[derive(Clone, Copy, Debug, PartialEq, Eq, Structural)]
pub struct PomodoroConfig {
    pub focus_minutes: u32,
    pub short_break_minutes: u32,
    pub long_break_minutes: u32,
    pub long_break_interval: u32,
}

/// What a setting that should hold a number holds: the number it writes, or
/// `fallback` where it writes none.
pub open spec fn setting_number(text: Seq<char>, fallback: u32) -> nat {
    match parsed_u32(text) {
        Some(n) => n,
        None => fallback as nat,
    }
}

/// Reads a setting that should hold a number.
pub fn number_or(text: &str, fallback: u32) -> (r: u32)
    ensures
        r == setting_number(text@, fallback),
{
    match parse_u32(text) {
        Some(n) => n,
        None => fallback,
    }
}

/// Reads a setting that may be missing and should hold a number.
pub fn optional_number(text: Option<String>) -> (r: Option<u32>)
    ensures
        match r {
            Some(n) => text is Some && parsed_u32(text->0@) == Some(n as nat),
            None => text is None || parsed_u32(text->0@) is None,
        },
{
    match text {
        Some(t) => parse_u32(t.as_str()),
        None => None,
    }
}

impl PomodoroConfig {
    /// The key of the setting for the minutes of focus.
    pub fn focus_key() -> (r: &'static str)
        ensures
            r@ == "pomodoro.focus_minutes"@,
    {
        "pomodoro.focus_minutes"
    }

    /// The key of the setting for the minutes of a short break.
    pub fn short_break_key() -> (r: &'static str)
        ensures
            r@ == "pomodoro.short_break_minutes"@,
    {
        "pomodoro.short_break_minutes"
    }

    /// The key of the setting for the minutes of a long break.
    pub fn long_break_key() -> (r: &'static str)
        ensures
            r@ == "pomodoro.long_break_minutes"@,
    {
        "pomodoro.long_break_minutes"
    }

    /// The key of the setting for the rounds between long breaks.
    pub fn interval_key() -> (r: &'static str)
        ensures
            r@ == "pomodoro.long_break_interval"@,
    {
        "pomodoro.long_break_interval"
    }

    /// The key of the setting for the minutes of focus that were last chosen.
    pub fn last_focus_key() -> (r: &'static str)
        ensures
            r@ == "pomodoro.last_focus_minutes"@,
    {
        "pomodoro.last_focus_minutes"
    }

    /// The key of the setting for the minutes of rest that were last chosen.
    pub fn last_rest_key() -> (r: &'static str)
        ensures
            r@ == "pomodoro.last_rest_minutes"@,
    {
        "pomodoro.last_rest_minutes"
    }

    /// The configuration that the four settings hold; each that writes no
    /// number leaves the value of `defaults`.
    pub fn from_settings(
        defaults: PomodoroConfig,
        focus: &str,
        short_break: &str,
        long_break: &str,
        interval: &str,
    ) -> (r: PomodoroConfig)
        ensures
            r.focus_minutes == setting_number(focus@, defaults.focus_minutes),
            r.short_break_minutes == setting_number(short_break@, defaults.short_break_minutes),
            r.long_break_minutes == setting_number(long_break@, defaults.long_break_minutes),
            r.long_break_interval == setting_number(interval@, defaults.long_break_interval),
    {
        PomodoroConfig {
            focus_minutes: number_or(focus, defaults.focus_minutes),
            short_break_minutes: number_or(short_break, defaults.short_break_minutes),
            long_break_minutes: number_or(long_break, defaults.long_break_minutes),
            long_break_interval: number_or(interval, defaults.long_break_interval),
        }
    }

    /// The four settings that hold the configuration, each key with its value
    /// in decimal, in the order focus, short break, long break, interval.
    pub fn to_settings(&self) -> (r: Vec<(&'static str, String)>)
        ensures
            r@.len() == 4,
            r@[0].0@ == "pomodoro.focus_minutes"@ && r@[0].1@ == decimal(self.focus_minutes as nat),
            r@[1].0@ == "pomodoro.short_break_minutes"@ && r@[1].1@ == decimal(
                self.short_break_minutes as nat,
            ),
            r@[2].0@ == "pomodoro.long_break_minutes"@ && r@[2].1@ == decimal(
                self.long_break_minutes as nat,
            ),
            r@[3].0@ == "pomodoro.long_break_interval"@ && r@[3].1@ == decimal(
                self.long_break_interval as nat,
            ),
    {
        let mut settings: Vec<(&'static str, String)> = Vec::new();
        settings.push((PomodoroConfig::focus_key(), decimal_string(self.focus_minutes as u64)));
        settings.push(
            (PomodoroConfig::short_break_key(), decimal_string(self.short_break_minutes as u64)),
        );
        settings.push(
            (PomodoroConfig::long_break_key(), decimal_string(self.long_break_minutes as u64)),
        );
        settings.push(
            (PomodoroConfig::interval_key(), decimal_string(self.long_break_interval as u64)),
        );
        settings
    }
}

/// A finished round as it is stored, without the id that the database gives it.
#[derive(Debug)]
pub struct RoundRecord {
    pub kind: String,
    pub status: String,
    pub round: i32,
    pub start_at: Timestamp,
    pub end_at: Timestamp,
    pub elapsed_seconds: i32,
    pub related_todo_id: Option<i32>,
    pub created_at: Timestamp,
    pub updated_at: Timestamp,
}

/// What is stored of a round that ran from `start_at` to `end_at`: the words
/// for its kind and status, the whole seconds it took, which are zero where
/// it ended before it began, and `now` as the time of the entry.
pub fn record_session(
    kind: PomodoroSessionKind,
    status: PomodoroSessionStatus,
    round: u32,
    start_at: Timestamp,
    end_at: Timestamp,
    related_todo_id: Option<i32>,
    now: Timestamp,
) -> (r: RoundRecord)
    ensures
        r.kind@ == kind.label(),
        r.status@ == status.label(),
        r.round == round as i32,
        r.start_at == start_at,
        r.end_at == end_at,
        r.elapsed_seconds == whole_seconds_between(start_at, end_at) as i32,
        r.related_todo_id == related_todo_id,
        r.created_at == now,
        r.updated_at == now,
{
    RoundRecord {
        kind: String::from_str(kind.as_str()),
        status: String::from_str(status.as_str()),
        round: #[verifier::truncate]
        (round as i32),
        start_at,
        end_at,
        elapsed_seconds: elapsed_seconds(&start_at, &end_at),
        related_todo_id,
        created_at: now,
        updated_at: now,
    }
}

/// How long the user has focused, and in how many rounds.
#[derive(Debug)]
pub struct PomodoroStats {
    pub total_focus_seconds: i64,
    pub session_count: i64,
}

/// The sum of the numbers in `rows`.
pub open spec fn total(rows: Seq<i32>) -> int
    decreases rows.len(),
{
    if rows.len() == 0 {
        0
    } else {
        total(rows.drop_last()) + rows.last()
    }
}

impl PomodoroStats {
    /// The statistics over the completed rounds of focus with the elapsed
    /// seconds `rows`, counted as `session_count`. `None` where the sum or
    /// the count is more than an `i64` holds.
    pub fn from_rows(rows: &Vec<i32>, session_count: u64) -> (r: Option<PomodoroStats>)
        ensures
            match r {
                Some(stats) => stats.total_focus_seconds == total(rows@) && stats.session_count
                    == session_count,
                None => total(rows@) < i64::MIN || total(rows@) > i64::MAX || session_count
                    > i64::MAX,
            },
    {
        if session_count > 9_223_372_036_854_775_807 {
            return None;
        }
        let mut sum: i128 = 0;
        let mut i: usize = 0;
        while i < rows.len()
            invariant
                0 <= i <= rows.len(),
                sum == total(rows@.take(i as int)),
                -2_147_483_648 * i <= sum <= 2_147_483_647 * i,
            decreases rows.len() - i,
        {
            proof {
                assert(rows@.take(i as int + 1).drop_last() =~= rows@.take(i as int));
            }
            sum = sum + rows[i] as i128;
            i += 1;
        }
        proof {
            assert(rows@.take(rows@.len() as int) =~= rows@);
        }
        if sum < -9_223_372_036_854_775_808 || sum > 9_223_372_036_854_775_807 {
            None
        } else {
            Some(PomodoroStats { total_focus_seconds: sum as i64, session_count: session_count as i64 })
        }
    }
}

/// The place in its session that the next round takes: one after the highest
/// place so far, and the first where the session has no round yet.
pub fn next_sequence(max_sequence: Option<i32>) -> (r: i32)
    requires
        max_sequence != Some(i32::MAX),
    ensures
        r == (match max_sequence {
            Some(highest) => highest + 1,
            None => 1,
        }),
{
    match max_sequence {
        Some(highest) => highest + 1,
        None => 1,
    }
}

/// The place in its session that the next round takes, or `None` where the
/// places have run out.
pub fn checked_next_sequence(max_sequence: Option<i32>) -> (r: Option<i32>)
    ensures
        r == (match max_sequence {
            Some(highest) => if highest == i32::MAX {
                None
            } else {
                Some((highest + 1) as i32)
            },
            None => Some(1i32),
        }),
{
    match max_sequence {
        Some(highest) => if highest == i32::MAX {
            None
        } else {
            Some(next_sequence(max_sequence))
        },
        None => Some(next_sequence(max_sequence)),
    }
}

/// That a round belongs to a session, and at which place.
#[derive(Clone, Copy, Debug, PartialEq, Eq, Structural)]
pub struct SessionLink {
    pub record_id: i32,
    pub sequence: i32,
}

/// The place of the round `record_id` according to the first link that names
/// it, and zero where no link does.
pub open spec fn place_of(links: Seq<SessionLink>, record_id: i32) -> i32
    decreases links.len(),
{
    if links.len() == 0 {
        0
    } else if links[0].record_id == record_id {
        links[0].sequence
    } else {
        place_of(links.drop_first(), record_id)
    }
}

/// The place of the round `record_id` in its session.
pub fn sequence_of(links: &Vec<SessionLink>, record_id: i32) -> (r: i32)
    ensures
        r == place_of(links@, record_id),
{
    let mut i: usize = 0;
    proof {
        assert(links@.skip(0) =~= links@);
    }
    while i < links.len()
        invariant
            0 <= i <= links.len(),
            place_of(links@, record_id) == place_of(links@.skip(i as int), record_id),
        decreases links.len() - i,
    {
        if links[i].record_id == record_id {
            return links[i].sequence;
        }
        proof {
            assert(links@.skip(i as int).drop_first() =~= links@.skip(i as int + 1));
        }
        i += 1;
    }
    0
}

/// Whether the round at index `a` comes before the round at index `b` when
/// the rounds are put in the order of their places: the lower place first,
/// and of two rounds at the same place the one that stood first.
pub open spec fn comes_before(places: Seq<i32>, a: int, b: int) -> bool {
    places[a] < places[b] || (places[a] == places[b] && a < b)
}

/// That `order` lists indices of `places`, each before the next.
pub open spec fn in_order(places: Seq<i32>, order: Seq<usize>) -> bool {
    &&& forall|p: int| 0 <= p < order.len() ==> #[trigger] order[p] < places.len()
    &&& forall|p: int, q: int|
        0 <= p < q < order.len() ==> comes_before(
            places,
            #[trigger] order[p] as int,
            #[trigger] order[q] as int,
        )
}

/// An order that lists as many indices as there are places lists every index
/// exactly once: no round is left out, and none comes twice.
pub proof fn lemma_order_is_complete(places: Seq<i32>, order: Seq<usize>)
    requires
        in_order(places, order),
        order.len() == places.len(),
    ensures
        order.no_duplicates(),
        forall|index: usize| index < places.len() ==> #[trigger] order.contains(index),
{
    assert forall|p: int, q: int| 0 <= p < order.len() && 0 <= q < order.len() && p != q implies order[p]
        != order[q] by {
        if p < q {
            assert(comes_before(places, order[p] as int, order[q] as int));
        } else {
            assert(comes_before(places, order[q] as int, order[p] as int));
        }
    }
    let listed = order.map_values(|index: usize| index as int);
    assert forall|p: int, q: int| 0 <= p < listed.len() && 0 <= q < listed.len() && p != q implies listed[p]
        != listed[q] by {
        assert(order[p] != order[q]);
    }
    listed.unique_seq_to_set();
    let all = vstd::set_lib::set_int_range(0, places.len() as int);
    vstd::set_lib::lemma_int_range(0, places.len() as int);
    assert(listed.to_set().subset_of(all)) by {
        assert forall|index: int| listed.to_set().contains(index) implies all.contains(index) by {
            let p = choose|p: int| 0 <= p < listed.len() && listed[p] == index;
            assert(order[p] < places.len());
        }
    }
    vstd::seq_lib::seq_to_set_is_finite(listed);
    vstd::set_lib::lemma_subset_equality(listed.to_set(), all);
    assert forall|index: usize| index < places.len() implies #[trigger] order.contains(index) by {
        assert(all.contains(index as int));
        assert(listed.to_set().contains(index as int));
        let p = choose|p: int| 0 <= p < listed.len() && listed[p] == index as int;
        assert(order[p] == index);
    }
}

/// The order in which the rounds with the given places are listed: the
/// indices of `places`, sorted by place, rounds at the same place in the
/// order in which they stood.
pub fn order_by_place(places: &Vec<i32>) -> (r: Vec<usize>)
    ensures
        r@.len() == places@.len(),
        in_order(places@, r@),
{
    let mut order: Vec<usize> = Vec::new();
    let mut i: usize = 0;
    while i < places.len()
        invariant
            0 <= i <= places.len(),
            order@.len() == i,
            in_order(places@, order@),
            forall|p: int| 0 <= p < order@.len() ==> #[trigger] order@[p] < i,
        decreases places.len() - i,
    {
        let mut at: usize = order.len();
        while at > 0 && places[order[at - 1]] > places[i]
            invariant
                0 <= at <= order@.len(),
                order@.len() == i,
                i < places@.len(),
                forall|p: int| 0 <= p < order@.len() ==> #[trigger] order@[p] < i,
                forall|p: int| at <= p < order@.len() ==> places@[#[trigger] order@[p] as int] > places@[i as int],
            decreases at,
        {
            at -= 1;
        }
        let ghost before = order@;
        order.insert(at, i);
        proof {
            let after = order@;
            assert forall|p: int, q: int| 0 <= p < q < after.len() implies comes_before(
                places@,
                #[trigger] after[p] as int,
                #[trigger] after[q] as int,
            ) by {
                if q < at {
                    assert(after[p] == before[p] && after[q] == before[q]);
                } else if q == at {
                    assert(after[p] == before[p]);
                    if at > 0 {
                        assert(places@[before[at - 1] as int] <= places@[i as int]);
                        if p < at - 1 {
                            assert(comes_before(places@, before[p] as int, before[at - 1] as int));
                        }
                    }
                } else if p < at {
                    assert(after[p] == before[p] && after[q] == before[q - 1]);
                } else if p == at {
                    assert(after[q] == before[q - 1]);
                } else {
                    assert(after[p] == before[p - 1] && after[q] == before[q - 1]);
                }
            }
            assert forall|p: int| 0 <= p < after.len() implies #[trigger] after[p] < i + 1 by {
                if p < at {
                    assert(after[p] == before[p]);
                } else if p > at {
                    assert(after[p] == before[p - 1]);
                }
            }
        }
        i += 1;
    }
    order
}

/// The title of a session without rounds.
pub open spec fn empty_session_title() -> Seq<char> {
    "空 Session"@
}

/// The title of a session whose first round began at `first_start` and whose
/// last round ended at `last_end`: the beginning as date with hour and
/// minute, then the end, by hour and minute alone where both fall on the same
/// day. `None` where either instant lies outside the dates that `chrono` can
/// hold.
pub open spec fn span_title(first_start: Timestamp, last_end: Timestamp) -> Option<Seq<char>> {
    let end_pattern = if first_start.day() == last_end.day() {
        clock_pattern()
    } else {
        minute_pattern()
    };
    match (utc_formatted(first_start, minute_pattern()), utc_formatted(last_end, end_pattern)) {
        (Some(start), Some(end)) => Some(start + " ～ "@ + end),
        _ => None,
    }
}

/// The title that a session goes by, from its rounds in the order of the
/// session.
pub fn generate_session_title(records: &Vec<RoundRecord>) -> (r: Option<String>)
    ensures
        text_view(r) == (if records@.len() == 0 {
            Some(empty_session_title())
        } else {
            span_title(records@[0].start_at, records@[records@.len() - 1].end_at)
        }),
{
    if records.len() == 0 {
        return Some(String::from_str("空 Session"));
    }
    let first_start = records[0].start_at;
    let last_end = records[records.len() - 1].end_at;
    let start = match format_utc(first_start, "%Y-%m-%d %H:%M") {
        Some(text) => text,
        None => {
            return None;
        },
    };
    let end = if first_start.same_day(&last_end) {
        format_utc(last_end, "%H:%M")
    } else {
        format_utc(last_end, "%Y-%m-%d %H:%M")
    };
    match end {
        Some(end) => {
            let mut title = start;
            title.append(" ～ ");
            title.append(end.as_str());
            Some(title)
        },
        None => None,
    }
}

} // verus!
