//! Small helpers on strings that the other modules share.

use vstd::prelude::*;
use vstd::string::*;

verus! {

/// The view of an optional string.
pub open spec fn text_view(text: Option<String>) -> Option<Seq<char>> {
    match text {
        Some(t) => Some(t@),
        None => None,
    }
}

/// Whether two string slices hold the same characters.
pub fn text_eq(a: &str, b: &str) -> (r: bool)
    ensures
        r == (a@ == b@),
{
    let left = a.as_bytes();
    let right = b.as_bytes();
    proof {
        vstd::utf8::encode_utf8_decode_utf8(a@);
        vstd::utf8::encode_utf8_decode_utf8(b@);
    }
    if left.len() != right.len() {
        return false;
    }
    let mut i: usize = 0;
    while i < left.len()
        invariant
            0 <= i <= left@.len(),
            left@.len() == right@.len(),
            left@ == a.spec_bytes(),
            right@ == b.spec_bytes(),
            forall|j: int| 0 <= j < i ==> left@[j] == right@[j],
        decreases left@.len() - i,
    {
        if left[i] != right[i] {
            return false;
        }
        i += 1;
    }
    assert(left@ =~= right@);
    true
}

/// The decimal digit that stands for `d`.
pub open spec fn digit_char(d: int) -> char {
    if d == 0 {
        '0'
    } else if d == 1 {
        '1'
    } else if d == 2 {
        '2'
    } else if d == 3 {
        '3'
    } else if d == 4 {
        '4'
    } else if d == 5 {
        '5'
    } else if d == 6 {
        '6'
    } else if d == 7 {
        '7'
    } else if d == 8 {
        '8'
    } else {
        '9'
    }
}

/// The decimal notation of `n`, without sign or leading zeros.
pub open spec fn decimal(n: nat) -> Seq<char>
    decreases n,
{
    if n < 10 {
        seq![digit_char(n as int)]
    } else {
        decimal(n / 10).push(digit_char((n % 10) as int))
    }
}

fn digit_str(d: u64) -> (r: &'static str)
    requires
        d < 10,
    ensures
        r@ == seq![digit_char(d as int)],
{
    proof {
        reveal_strlit("0");
        reveal_strlit("1");
        reveal_strlit("2");
        reveal_strlit("3");
        reveal_strlit("4");
        reveal_strlit("5");
        reveal_strlit("6");
        reveal_strlit("7");
        reveal_strlit("8");
        reveal_strlit("9");
    }
    let r = if d == 0 {
        "0"
    } else if d == 1 {
        "1"
    } else if d == 2 {
        "2"
    } else if d == 3 {
        "3"
    } else if d == 4 {
        "4"
    } else if d == 5 {
        "5"
    } else if d == 6 {
        "6"
    } else if d == 7 {
        "7"
    } else if d == 8 {
        "8"
    } else {
        "9"
    };
    assert(r@ =~= seq![digit_char(d as int)]);
    r
}

/// `n` written in decimal.
pub fn decimal_string(n: u64) -> (r: String)
    ensures
        r@ == decimal(n as nat),
    decreases n,
{
    if n < 10 {
        String::from_str(digit_str(n))
    } else {
        let mut head = decimal_string(n / 10);
        head.append(digit_str(n % 10));
        assert(head@ =~= decimal(n as nat));
        head
    }
}

/// The decimal notation of `n`, with a minus sign where it is negative.
pub open spec fn signed_decimal(n: int) -> Seq<char> {
    if n < 0 {
        "-"@ + decimal((-n) as nat)
    } else {
        decimal(n as nat)
    }
}

/// `n` written in decimal.
pub fn signed_decimal_string(n: i64) -> (r: String)
    ensures
        r@ == signed_decimal(n as int),
{
    if n < 0 {
        let magnitude: u64 = if n == i64::MIN {
            9_223_372_036_854_775_808u64
        } else {
            (-n) as u64
        };
        let mut out = String::from_str("-");
        out.append(decimal_string(magnitude).as_str());
        out
    } else {
        decimal_string(n as u64)
    }
}

/// The decimal notation has at least one digit.
pub proof fn lemma_decimal_len(n: nat)
    ensures
        decimal(n).len() >= 1,
        n >= 10 ==> decimal(n).len() >= 2,
    decreases n,
{
    if n >= 10 {
        lemma_decimal_len(n / 10);
    }
}

/// Different numbers have different decimal notations.
pub proof fn lemma_decimal_injective(a: nat, b: nat)
    requires
        decimal(a) == decimal(b),
    ensures
        a == b,
    decreases a,
{
    lemma_decimal_len(a);
    lemma_decimal_len(b);
    if a < 10 && b < 10 {
        assert(decimal(a)[0] == digit_char(a as int));
        assert(decimal(b)[0] == digit_char(b as int));
        lemma_digit_injective(a as int, b as int);
    } else if a >= 10 && b >= 10 {
        let x = decimal(a / 10);
        let y = decimal(b / 10);
        assert(decimal(a).drop_last() =~= x);
        assert(decimal(b).drop_last() =~= y);
        assert(decimal(a).last() == digit_char((a % 10) as int));
        assert(decimal(b).last() == digit_char((b % 10) as int));
        lemma_digit_injective((a % 10) as int, (b % 10) as int);
        lemma_decimal_injective(a / 10, b / 10);
    } else if a < 10 {
        assert(decimal(a).len() == 1);
    } else {
        assert(decimal(b).len() == 1);
    }
}

proof fn lemma_digit_injective(x: int, y: int)
    requires
        0 <= x <= 9,
        0 <= y <= 9,
        digit_char(x) == digit_char(y),
    ensures
        x == y,
{
}

/// Whether `c` has the Unicode property White_Space.
pub uninterp spec fn white_space(c: char) -> bool;

/// Whether `c` is whitespace.
///
/// Trusted: calls `char::is_whitespace` of std, which tests the Unicode
/// property White_Space. The contract only names that result.
#[verifier::external_body]
pub(crate) fn is_white_space(c: char) -> (r: bool)
    ensures
        r == white_space(c),
{
    c.is_whitespace()
}

/// That `a` is where the text of `s` begins: only whitespace stands before
/// `a`, and `a` is the end of `s` or holds something else.
pub open spec fn is_text_start(s: Seq<char>, a: int) -> bool {
    &&& 0 <= a <= s.len()
    &&& forall|i: int| 0 <= i < a ==> white_space(#[trigger] s[i])
    &&& a < s.len() ==> !white_space(s[a])
}

/// That `b` is where the text of `s` ends: only whitespace stands from `b`
/// on, and `b` is the start of `s` or follows something else.
pub open spec fn is_text_end(s: Seq<char>, b: int) -> bool {
    &&& 0 <= b <= s.len()
    &&& forall|i: int| b <= i < s.len() ==> white_space(#[trigger] s[i])
    &&& 0 < b ==> !white_space(s[b - 1])
}

/// The index of the first character of `s` that is not whitespace, or the
/// length of `s` where there is none.
pub open spec fn text_start(s: Seq<char>) -> int {
    choose|a: int| is_text_start(s, a)
}

/// The index after the last character of `s` that is not whitespace, or zero
/// where there is none.
pub open spec fn text_end(s: Seq<char>) -> int {
    choose|b: int| is_text_end(s, b)
}

/// Whether `s` holds nothing but whitespace.
pub open spec fn blank(s: Seq<char>) -> bool {
    forall|i: int| 0 <= i < s.len() ==> white_space(#[trigger] s[i])
}

/// `s` without the whitespace at its start and at its end.
pub open spec fn trimmed(s: Seq<char>) -> Seq<char> {
    if blank(s) {
        Seq::empty()
    } else {
        s.subrange(text_start(s), text_end(s))
    }
}

/// The start and the end of the text of `s` are what any index with their
/// defining property is.
pub proof fn lemma_text_bounds(s: Seq<char>, a: int, b: int)
    requires
        is_text_start(s, a),
        is_text_end(s, b),
    ensures
        text_start(s) == a,
        text_end(s) == b,
        blank(s) <==> a == s.len(),
        blank(s) <==> b == 0,
        !blank(s) ==> a < b,
{
    let a2 = text_start(s);
    let b2 = text_end(s);
    assert(is_text_start(s, a2));
    assert(is_text_end(s, b2));
    if a2 < a {
        assert(white_space(s[a2]));
    }
    if a < a2 {
        assert(white_space(s[a]));
    }
    if b2 < b {
        assert(white_space(s[b - 1]));
    }
    if b < b2 {
        assert(white_space(s[b2 - 1]));
    }
    if a < s.len() {
        assert(!white_space(s[a]));
        if b <= a {
            assert(white_space(s[a]));
        }
    }
    if 0 < b {
        assert(!white_space(s[b - 1]));
    }
}

/// Finds where the text of `s` starts and ends, in one pass over `s`.
fn text_bounds(s: &str) -> (r: (usize, usize))
    ensures
        is_text_start(s@, r.0 as int),
        is_text_end(s@, r.1 as int),
{
    let mut start: usize = 0;
    let mut end: usize = 0;
    let mut seen: usize = 0;
    let mut found = false;
    let length = s.unicode_len();
    for c in it: s.chars()
        invariant
            it.seq() == s@,
            seen == it.index(),
            s@.len() == length,
            seen <= s@.len(),
            0 <= start <= seen,
            0 <= end <= seen,
            found ==> start < end && !white_space(s@[start as int]) && !white_space(
                s@[end as int - 1],
            ),
            !found ==> start == seen && end == 0,
            forall|i: int| 0 <= i < start ==> white_space(#[trigger] s@[i]),
            forall|i: int| end <= i < seen ==> white_space(#[trigger] s@[i]),
    {
        assert(seen < length && c == s@[seen as int]);
        if is_white_space(c) {
            if !found {
                start = seen + 1;
            }
        } else {
            if !found {
                found = true;
                start = seen;
            }
            end = seen + 1;
        }
        seen = seen + 1;
    }
    (start, end)
}

/// Whether `s` holds nothing but whitespace.
pub fn is_blank(s: &str) -> (r: bool)
    ensures
        r == blank(s@),
{
    let (start, end) = text_bounds(s);
    proof {
        lemma_text_bounds(s@, start as int, end as int);
    }
    end == 0
}

/// `s` without the whitespace at its start and at its end.
pub fn trim(s: &str) -> (r: String)
    ensures
        r@ == trimmed(s@),
{
    let (start, end) = text_bounds(s);
    proof {
        lemma_text_bounds(s@, start as int, end as int);
    }
    if end == 0 {
        String::new()
    } else {
        String::from_str(s.substring_char(start, end))
    }
}

/// Whether `c` is one of the digits `0` to `9`.
pub open spec fn is_digit(c: char) -> bool {
    '0' <= c && c <= '9'
}

/// The value of the digit `c`.
pub open spec fn digit_value(c: char) -> nat {
    (c as nat - '0' as nat) as nat
}

/// Whether `s` holds nothing but digits.
pub open spec fn all_digits(s: Seq<char>) -> bool {
    forall|i: int| 0 <= i < s.len() ==> is_digit(#[trigger] s[i])
}

/// The number that the digits of `s` write in decimal; zero for no digits.
pub open spec fn number_of(s: Seq<char>) -> nat
    decreases s.len(),
{
    if s.len() == 0 {
        0
    } else {
        number_of(s.drop_last()) * 10 + digit_value(s.last())
    }
}

/// The number that `s` writes, where `s` is one digit or more and the number
/// is at most `limit`.
pub open spec fn bounded_number(s: Seq<char>, limit: nat) -> Option<nat> {
    if s.len() > 0 && all_digits(s) && number_of(s) <= limit {
        Some(number_of(s))
    } else {
        None
    }
}

/// The number that `s` writes as a `u32`: digits with at most one `+` before
/// them, and nothing else, not even whitespace.
pub open spec fn parsed_u32(s: Seq<char>) -> Option<nat> {
    if s.len() > 0 && s[0] == '+' {
        bounded_number(s.skip(1), u32::MAX as nat)
    } else {
        bounded_number(s, u32::MAX as nat)
    }
}

/// The number that `s` writes as an `i32`: digits with at most one `+` or `-`
/// before them, and nothing else, not even whitespace.
pub open spec fn parsed_i32(s: Seq<char>) -> Option<int> {
    if s.len() > 0 && s[0] == '-' {
        match bounded_number(s.skip(1), 2_147_483_648) {
            Some(n) => Some(-(n as int)),
            None => None,
        }
    } else if s.len() > 0 && s[0] == '+' {
        match bounded_number(s.skip(1), i32::MAX as nat) {
            Some(n) => Some(n as int),
            None => None,
        }
    } else {
        match bounded_number(s, i32::MAX as nat) {
            Some(n) => Some(n as int),
            None => None,
        }
    }
}

proof fn lemma_number_grows(s: Seq<char>, k: int)
    requires
        0 <= k <= s.len(),
    ensures
        number_of(s.take(k)) <= number_of(s),
    decreases s.len() - k,
{
    if k == s.len() {
        assert(s.take(k) =~= s);
    } else {
        lemma_number_grows(s, k + 1);
        assert(s.take(k + 1).drop_last() =~= s.take(k));
    }
}

/// Reads the digits of `s` from the character `from` on, up to `limit`.
fn read_number(s: &str, from: usize, limit: u64) -> (r: Option<u64>)
    requires
        from <= s@.len(),
        limit <= u64::MAX / 10 - 1,
    ensures
        match r {
            Some(n) => bounded_number(s@.skip(from as int), limit as nat) == Some(n as nat),
            None => bounded_number(s@.skip(from as int), limit as nat) is None,
        },
{
    let ghost body = s@.skip(from as int);
    let length = s.unicode_len();
    let mut value: u64 = 0;
    let mut valid = true;
    let mut seen: usize = 0;
    for c in it: s.chars()
        invariant
            it.seq() == s@,
            seen == it.index(),
            s@.len() == length,
            seen <= length,
            from <= length,
            body == s@.skip(from as int),
            limit <= u64::MAX / 10 - 1,
            valid ==> value <= limit,
            valid && seen >= from ==> all_digits(body.take(seen - from)) && value == number_of(
                body.take(seen - from),
            ),
            valid && seen < from ==> value == 0,
            !valid ==> bounded_number(body, limit as nat) is None,
    {
        assert(seen < length && c == s@[seen as int]);
        if valid && seen >= from {
            let ghost k = seen - from;
            proof {
                assert(body[k] == c);
                assert(body.take(k + 1).drop_last() =~= body.take(k));
                assert(body.take(k + 1).last() == c);
            }
            if c >= '0' && c <= '9' {
                let digit: u64 = (c as u32 - '0' as u32) as u64;
                let next: u64 = value * 10 + digit;
                assert(next == number_of(body.take(k + 1)));
                if next > limit {
                    proof {
                        lemma_number_grows(body, k + 1);
                    }
                    valid = false;
                } else {
                    value = next;
                    assert forall|i: int| 0 <= i < k + 1 implies is_digit(
                        #[trigger] body.take(k + 1)[i],
                    ) by {
                        if i < k {
                            assert(body.take(k)[i] == body.take(k + 1)[i]);
                        }
                    }
                }
            } else {
                assert(!is_digit(body[k]));
                valid = false;
            }
        }
        seen = seen + 1;
    }
    proof {
        assert(body.take(body.len() as int) =~= body);
    }
    if valid && seen > from {
        Some(value)
    } else {
        None
    }
}

/// The first character of `s`, if it has one.
fn first_char(s: &str) -> (r: Option<char>)
    ensures
        match r {
            Some(c) => s@.len() > 0 && c == s@[0],
            None => s@.len() == 0,
        },
{
    if s.unicode_len() == 0 {
        None
    } else {
        Some(s.get_char(0))
    }
}

/// Reads a `u32` as std's `u32::from_str` does.
pub fn parse_u32(s: &str) -> (r: Option<u32>)
    ensures
        match r {
            Some(n) => parsed_u32(s@) == Some(n as nat),
            None => parsed_u32(s@) is None,
        },
{
    let from: usize = match first_char(s) {
        Some('+') => 1,
        _ => 0,
    };
    proof {
        assert(s@.skip(0) =~= s@);
    }
    match read_number(s, from, 4_294_967_295) {
        Some(n) => Some(n as u32),
        None => None,
    }
}

/// Reads an `i32` as std's `i32::from_str` does.
pub fn parse_i32(s: &str) -> (r: Option<i32>)
    ensures
        match r {
            Some(n) => parsed_i32(s@) == Some(n as int),
            None => parsed_i32(s@) is None,
        },
{
    proof {
        assert(s@.skip(0) =~= s@);
    }
    match first_char(s) {
        Some('-') => match read_number(s, 1, 2_147_483_648) {
            Some(n) => Some((-(n as i64)) as i32),
            None => None,
        },
        Some('+') => match read_number(s, 1, 2_147_483_647) {
            Some(n) => Some(n as i32),
            None => None,
        },
        _ => match read_number(s, 0, 2_147_483_647) {
            Some(n) => Some(n as i32),
            None => None,
        },
    }
}

/// Puts `c` at the end of `s`.
///
/// Trusted: calls `String::push` of std, which appends the character.
#[verifier::external_body]
pub(crate) fn push_char(s: &mut String, c: char)
    ensures
        final(s)@ == old(s)@.push(c),
{
    s.push(c)
}

/// `s` with every `from` replaced by `to`.
pub open spec fn replaced(s: Seq<char>, from: char, to: char) -> Seq<char> {
    s.map_values(|c: char| if c == from { to } else { c })
}

/// `s` with every `from` replaced by `to`.
pub fn replace_char(s: &str, from: char, to: char) -> (r: String)
    ensures
        r@ == replaced(s@, from, to),
{
    let mut out = String::new();
    for c in it: s.chars()
        invariant
            it.seq() == s@,
            out@ == replaced(s@.take(it.index() as int), from, to),
    {
        proof {
            let k = it.index() as int;
            assert(c == s@[k]);
            assert(s@.take(k + 1) =~= s@.take(k).push(c));
            assert(replaced(s@.take(k + 1), from, to) =~= replaced(s@.take(k), from, to).push(
                if c == from { to } else { c },
            ));
        }
        if c == from {
            push_char(&mut out, to);
        } else {
            push_char(&mut out, c);
        }
    }
    proof {
        assert(s@.take(s@.len() as int) =~= s@);
    }
    out
}

} // verus!
