//! The migration that groups the stored rounds into sessions, one for each
//! day: what it reads from the grouped rows and the statements it runs.
//! Running them is the caller's work.

use vstd::prelude::*;
use vstd::string::*;
use crate::text::{
    decimal, decimal_string, parse_i32, parsed_i32, push_char, signed_decimal,
    signed_decimal_string,
};

verus! {

/// The name of the migration.
pub fn migration_name() -> (r: &'static str)
    ensures
        r@ == "m20250115_000001_pomodoro_restructure"@,
{
    "m20250115_000001_pomodoro_restructure"
}

/// Whether the table of rounds still goes by its old name: it does where the
/// look for the new name failed or found nothing.
pub fn needs_rename(found: Option<bool>) -> (r: bool)
    ensures
        r == !(found == Some(true)),
{
    match found {
        Some(true) => false,
        _ => true,
    }
}

/// Whether the rounds have been grouped before: they have where links
/// between sessions and rounds exist.
pub fn already_migrated(link_count: Option<i64>) -> (r: bool)
    ensures
        r == (link_count matches Some(count) && count > 0),
{
    match link_count {
        Some(count) => count > 0,
        None => false,
    }
}

/// The pieces of `s` between its commas: one more than it has commas.
pub open spec fn comma_pieces(s: Seq<char>) -> Seq<Seq<char>>
    decreases s.len(),
{
    if s.len() == 0 {
        seq![Seq::empty()]
    } else {
        let head = comma_pieces(s.drop_last());
        if s.last() == ',' {
            head.push(Seq::empty())
        } else {
            head.drop_last().push(head.last().push(s.last()))
        }
    }
}

/// The numbers that the pieces write, in their order; a piece that writes no
/// number is passed over.
pub open spec fn numbers_in(pieces: Seq<Seq<char>>) -> Seq<i32>
    decreases pieces.len(),
{
    if pieces.len() == 0 {
        Seq::empty()
    } else {
        let head = numbers_in(pieces.drop_last());
        match parsed_i32(pieces.last()) {
            Some(n) => head.push(n as i32),
            None => head,
        }
    }
}

/// The ids in a list of ids with commas between them.
pub open spec fn record_ids(text: Seq<char>) -> Seq<i32> {
    numbers_in(comma_pieces(text))
}

/// Reads the ids of the rounds of one day from a list with commas between
/// them. What stands between two commas and is no number is passed over.
pub fn parse_record_ids(text: &str) -> (r: Vec<i32>)
    ensures
        r@ == record_ids(text@),
{
    let mut ids: Vec<i32> = Vec::new();
    let mut current = String::new();
    proof {
        assert(text@.take(0) =~= Seq::<char>::empty());
        assert(comma_pieces(Seq::<char>::empty()).drop_last() =~= Seq::<Seq<char>>::empty());
    }
    for c in it: text.chars()
        invariant
            it.seq() == text@,
            comma_pieces(text@.take(it.index() as int)).len() >= 1,
            comma_pieces(text@.take(it.index() as int)).last() == current@,
            ids@ == numbers_in(comma_pieces(text@.take(it.index() as int)).drop_last()),
    {
        let ghost k = it.index() as int;
        let ghost pieces = comma_pieces(text@.take(k));
        proof {
            assert(c == text@[k]);
            assert(text@.take(k + 1).drop_last() =~= text@.take(k));
            assert(text@.take(k + 1).last() == c);
        }
        if c == ',' {
            proof {
                assert(comma_pieces(text@.take(k + 1)) == pieces.push(Seq::empty()));
                assert(pieces.push(Seq::<char>::empty()).drop_last() =~= pieces);
            }
            match parse_i32(current.as_str()) {
                Some(id) => ids.push(id),
                None => {},
            }
            current = String::new();
        } else {
            proof {
                assert(comma_pieces(text@.take(k + 1)) == pieces.drop_last().push(
                    pieces.last().push(c),
                ));
                assert(pieces.drop_last().push(pieces.last().push(c)).drop_last()
                    =~= pieces.drop_last());
            }
            push_char(&mut current, c);
        }
    }
    proof {
        assert(text@.take(text@.len() as int) =~= text@);
    }
    match parse_i32(current.as_str()) {
        Some(id) => ids.push(id),
        None => {},
    }
    ids
}

/// The statement that adds the session of one day, created at `now`.
pub open spec fn session_insert(now: Seq<char>) -> Seq<char> {
    "INSERT INTO pomodoro_sessions (note, archived, archived_at, created_at, updated_at)\n               VALUES (NULL, 0, NULL, '"@
        + now + "', '"@ + now + "')"@
}

/// The statement that adds the session of one day, created at `now`.
pub fn insert_session_statement(now: &str) -> (r: String)
    ensures
        r@ == session_insert(now@),
{
    let mut out = String::from_str(
        "INSERT INTO pomodoro_sessions (note, archived, archived_at, created_at, updated_at)\n               VALUES (NULL, 0, NULL, '",
    );
    out.append(now);
    out.append("', '");
    out.append(now);
    out.append("')");
    out
}

/// The statement that links the round `record_id` to the session
/// `session_id` at the place `sequence`.
pub open spec fn link_insert(session_id: int, record_id: int, sequence: nat, now: Seq<char>) -> Seq<
    char,
> {
    "INSERT INTO pomodoro_session_records (session_id, record_id, sequence, created_at)\n                       VALUES ("@
        + signed_decimal(session_id) + ", "@ + signed_decimal(record_id) + ", "@ + decimal(
        sequence,
    ) + ", '"@ + now + "')"@
}

/// The statement that links the round `record_id` to the session
/// `session_id` at the place `sequence`.
pub fn insert_link_statement(session_id: i32, record_id: i32, sequence: usize, now: &str) -> (r:
    String)
    ensures
        r@ == link_insert(session_id as int, record_id as int, sequence as nat, now@),
{
    let mut out = String::from_str(
        "INSERT INTO pomodoro_session_records (session_id, record_id, sequence, created_at)\n                       VALUES (",
    );
    out.append(signed_decimal_string(session_id as i64).as_str());
    out.append(", ");
    out.append(signed_decimal_string(record_id as i64).as_str());
    out.append(", ");
    out.append(decimal_string(sequence as u64).as_str());
    out.append(", '");
    out.append(now);
    out.append("')");
    out
}

} // verus!
