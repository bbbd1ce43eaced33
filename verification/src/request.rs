//! Reading a request: which handler it is for, the id in its path, and its
//! body.

use vstd::prelude::*;
use crate::text::{chars_of, find_slash, find_space, has_prefix, next_slash, next_space};

verus! {

/// The handler a request is for.
#[derive(Clone, Copy, Debug, PartialEq, Eq, Structural)]
pub enum Route {
    /// `POST /users`: add a user.
    Create,
    /// `GET /users/<id>`: read one user.
    ReadOne,
    /// `GET /users`: read all users.
    ReadAll,
    /// `PUT /users/<id>`: change a user.
    Update,
    /// `DELETE /users/<id>`: remove a user.
    Delete,
    /// Anything else.
    Unmatched,
}

/// What was wrong with a request.
#[derive(Clone, Copy, Debug, PartialEq, Eq, Structural)]
pub enum InputError {
    /// The id in the path is not a 32-bit integer.
    InvalidId,
    /// The body is missing, empty, or not a user.
    ParseError,
}

/// The route of `request`: the first of the five literal prefixes that it
/// begins with, in this order. `GET /users/` stands before `GET /users`, which
/// is a prefix of it.
pub open spec fn route_of(request: Seq<char>) -> Route {
    if "POST /users"@.is_prefix_of(request) {
        Route::Create
    } else if "GET /users/"@.is_prefix_of(request) {
        Route::ReadOne
    } else if "GET /users"@.is_prefix_of(request) {
        Route::ReadAll
    } else if "PUT /users"@.is_prefix_of(request) {
        Route::Update
    } else if "DELETE /users"@.is_prefix_of(request) {
        Route::Delete
    } else {
        Route::Unmatched
    }
}

/// Chooses the handler for `request`.
pub fn route(request: &str) -> (r: Route)
    ensures
        r == route_of(request@),
{
    let chars = chars_of(request);
    if has_prefix(&chars, "POST /users") {
        Route::Create
    } else if has_prefix(&chars, "GET /users/") {
        Route::ReadOne
    } else if has_prefix(&chars, "GET /users") {
        Route::ReadAll
    } else if has_prefix(&chars, "PUT /users") {
        Route::Update
    } else if has_prefix(&chars, "DELETE /users") {
        Route::Delete
    } else {
        Route::Unmatched
    }
}

/// A request for one user is never taken for a request for all of them,
/// although it begins with `GET /users` too.
pub proof fn lemma_read_one_before_read_all(request: Seq<char>)
    requires
        "GET /users/"@.is_prefix_of(request),
    ensures
        "GET /users"@.is_prefix_of(request),
        route_of(request) == Route::ReadOne,
{
    reveal_strlit("GET /users/");
    reveal_strlit("GET /users");
    reveal_strlit("POST /users");
    let head = request.subrange(0, 11);
    assert(head == "GET /users/"@);
    assert forall|i: int| 0 <= i < 11 implies request[i] == "GET /users/"@[i] by {
        assert(head[i] == request[i]);
    }
    assert("GET /users"@ =~= request.subrange(0, 10));
    assert(!"POST /users"@.is_prefix_of(request)) by {
        if "POST /users"@.is_prefix_of(request) {
            assert(request.subrange(0, 11)[0] == 'P');
        }
    }
}

/// Where the path of a request ends. The path begins at the first `'/'` of
/// the text and runs to the next white space, or to the end of the text.
pub open spec fn path_end(s: Seq<char>) -> int {
    next_space(s, next_slash(s, 0))
}

/// The id that a request names: the piece with index 2 when the text up to
/// the end of its path is cut at every `'/'`. It stands between the second
/// `'/'` of the path and the next one, or the end of the path, and is empty
/// when the path has no second `'/'`.
pub open spec fn id_text(request: Seq<char>) -> Seq<char> {
    let end = path_end(request);
    let second = next_slash(request, next_slash(request, 0) + 1);
    if second < end {
        let third = next_slash(request, second + 1);
        request.subrange(
            second + 1,
            if third < end {
                third
            } else {
                end
            },
        )
    } else {
        Seq::empty()
    }
}

/// Extracts the text of the id from `request`. The result is empty when the
/// path has fewer than three pieces, and holds no white space and no `'/'`.
pub fn get_id(request: &str) -> (id: &str)
    ensures
        id@ == id_text(request@),
{
    let chars = chars_of(request);
    let first = find_slash(&chars, 0);
    if first >= chars.len() {
        return request.substring_char(0, 0);
    }
    let end = find_space(&chars, first);
    let second = find_slash(&chars, first + 1);
    if second >= end {
        return request.substring_char(0, 0);
    }
    let third = find_slash(&chars, second + 1);
    let stop = if third < end {
        third
    } else {
        end
    };
    request.substring_char(second + 1, stop)
}

/// Whether `c` is one of the ten decimal digits.
pub open spec fn is_digit(c: char) -> bool {
    0x30 <= c as u32 <= 0x39
}

/// Whether every character of `s` is a decimal digit.
pub open spec fn all_digits(s: Seq<char>) -> bool {
    forall|i: int| 0 <= i < s.len() ==> is_digit(#[trigger] s[i])
}

/// The number that the decimal digits `s` write; zero for the empty text.
pub open spec fn decimal_value(s: Seq<char>) -> int
    decreases s.len(),
{
    if s.len() == 0 {
        0
    } else {
        10 * decimal_value(s.drop_last()) + (s.last() as u32 - 0x30)
    }
}

/// The integer that `s` writes: decimal digits, at least one, after an
/// optional `+` or `-`. `None` for any other text.
pub open spec fn integer_of(s: Seq<char>) -> Option<int> {
    if s.len() > 0 && s[0] == '-' {
        if s.len() > 1 && all_digits(s.skip(1)) {
            Some(-decimal_value(s.skip(1)))
        } else {
            None
        }
    } else if s.len() > 0 && s[0] == '+' {
        if s.len() > 1 && all_digits(s.skip(1)) {
            Some(decimal_value(s.skip(1)))
        } else {
            None
        }
    } else if s.len() > 0 && all_digits(s) {
        Some(decimal_value(s))
    } else {
        None
    }
}

/// The id that `s` writes, if it writes an integer of 32 bits.
pub open spec fn id_of(s: Seq<char>) -> Option<i32> {
    match integer_of(s) {
        Some(v) => if i32::MIN <= v <= i32::MAX {
            Some(v as i32)
        } else {
            None
        },
        None => None,
    }
}

/// Digits write a number that is no smaller than what any of their prefixes
/// writes.
pub proof fn lemma_decimal_value_grows(s: Seq<char>, n: int)
    requires
        all_digits(s),
        0 <= n <= s.len(),
    ensures
        0 <= decimal_value(s.take(n)) <= decimal_value(s),
    decreases s.len() - n,
{
    if n == s.len() {
        assert(s.take(n) =~= s);
        lemma_decimal_value_nonnegative(s);
    } else {
        lemma_decimal_value_grows(s, n + 1);
        assert(s.take(n + 1).drop_last() =~= s.take(n));
        assert(is_digit(s[n]));
        assert(s.take(n + 1).last() == s[n]);
        lemma_decimal_value_nonnegative(s.take(n));
    }
}

/// Digits never write a negative number.
pub proof fn lemma_decimal_value_nonnegative(s: Seq<char>)
    requires
        all_digits(s),
    ensures
        0 <= decimal_value(s),
    decreases s.len(),
{
    if s.len() > 0 {
        assert(is_digit(s[s.len() - 1]));
        lemma_decimal_value_nonnegative(s.drop_last());
    }
}

/// Reads `text` as an id.
pub fn parse_id(text: &str) -> (r: Result<i32, InputError>)
    ensures
        r == match id_of(text@) {
            Some(id) => Ok::<i32, InputError>(id),
            None => Err(InputError::InvalidId),
        },
{
    let chars = chars_of(text);
    let n = chars.len();
    if n == 0 {
        return Err(InputError::InvalidId);
    }
    let negative = chars[0] == '-';
    let start: usize = if negative || chars[0] == '+' {
        1
    } else {
        0
    };
    if start == n {
        return Err(InputError::InvalidId);
    }
    let ghost digits = chars@.skip(start as int);
    assert(chars@.skip(0) =~= chars@);
    let mut value: i64 = 0;
    let mut i: usize = start;
    while i < n
        invariant
            start <= i <= n,
            n == chars@.len(),
            digits == chars@.skip(start as int),
            all_digits(digits.take(i - start)),
            value == decimal_value(digits.take(i - start)),
            0 <= value <= 0x8000_0000,
            !all_digits(digits) ==> integer_of(text@).is_none(),
            all_digits(digits) ==> integer_of(text@) == Some(
                if negative {
                    -decimal_value(digits)
                } else {
                    decimal_value(digits)
                },
            ),
        decreases n - i,
    {
        let u: u32 = chars[i] as u32;
        if u < 0x30 || u > 0x39 {
            assert(!is_digit(digits[i - start]));
            return Err(InputError::InvalidId);
        }
        let digit: i64 = (u - 0x30) as i64;
        let next: i64 = value * 10 + digit;
        proof {
            let taken = digits.take(i + 1 - start);
            assert(taken.drop_last() =~= digits.take(i - start));
            assert(taken.last() == digits[i - start]);
            assert forall|j: int| 0 <= j < taken.len() implies is_digit(#[trigger] taken[j]) by {
                if j < i - start {
                    assert(digits.take(i - start)[j] == taken[j]);
                }
            }
        }
        if next > 0x8000_0000 {
            proof {
                if all_digits(digits) {
                    lemma_decimal_value_grows(digits, i + 1 - start);
                }
            }
            return Err(InputError::InvalidId);
        }
        value = next;
        i = i + 1;
    }
    assert(digits.take(n - start) =~= digits);
    let signed: i64 = if negative {
        -value
    } else {
        value
    };
    if signed > 0x7fff_ffff {
        return Err(InputError::InvalidId);
    }
    Ok(signed as i32)
}

/// Whether the four characters of `s` from `at` on are the blank line that
/// ends the head of a request: carriage return, line feed, twice.
pub open spec fn separator_at(s: Seq<char>, at: int) -> bool {
    &&& 0 <= at
    &&& at + 4 <= s.len()
    &&& s[at] == '\r'
    &&& s[at + 1] == '\n'
    &&& s[at + 2] == '\r'
    &&& s[at + 3] == '\n'
}

/// Index of the first separator of `s` that begins at or after `from`;
/// `s.len()` if there is none.
pub open spec fn next_separator(s: Seq<char>, from: int) -> int
    decreases s.len() - from,
{
    if from < 0 || from + 4 > s.len() {
        s.len() as int
    } else if separator_at(s, from) {
        from
    } else {
        next_separator(s, from + 1)
    }
}

/// The body of a request: what follows its first separator. `None` when the
/// request has no separator.
pub open spec fn body_text(request: Seq<char>) -> Option<Seq<char>> {
    let at = next_separator(request, 0);
    if at < request.len() {
        Some(request.skip(at + 4))
    } else {
        None
    }
}

/// The body that a handler can hand on to be decoded: present and not empty.
pub open spec fn usable_body(request: Seq<char>) -> Option<Seq<char>> {
    match body_text(request) {
        Some(body) => if body.len() > 0 {
            Some(body)
        } else {
            None
        },
        None => None,
    }
}

/// Extracts the body of `request`. A request without a separator, or with
/// nothing after it, has no body to decode.
pub fn request_body(request: &str) -> (r: Result<&str, InputError>)
    ensures
        match r {
            Ok(body) => usable_body(request@) == Some(body@),
            Err(e) => e == InputError::ParseError && usable_body(request@).is_none(),
        },
{
    let chars = chars_of(request);
    let n = chars.len();
    let mut i: usize = 0;
    while n >= 4 && i <= n - 4
        invariant
            n == chars@.len(),
            chars@ == request@,
            i <= n,
            next_separator(chars@, 0) == next_separator(chars@, i as int),
        decreases n - i,
    {
        if chars[i] == '\r' && chars[i + 1] == '\n' && chars[i + 2] == '\r' && chars[i + 3]
            == '\n' {
            if i + 4 == n {
                return Err(InputError::ParseError);
            }
            return Ok(request.substring_char(i + 4, n));
        }
        i = i + 1;
    }
    Err(InputError::ParseError)
}

/// Whether `head` ends with a line break: carriage return, line feed.
pub open spec fn ends_with_line_break(head: Seq<char>) -> bool {
    head.len() >= 2 && head[head.len() - 2] == '\r' && head[head.len() - 1] == '\n'
}

/// No separator begins before the one that `next_separator` finds.
proof fn lemma_next_separator_scans(s: Seq<char>, from: int)
    requires
        0 <= from <= s.len(),
    ensures
        from <= next_separator(s, from) <= s.len(),
        next_separator(s, from) < s.len() ==> separator_at(s, next_separator(s, from)),
        forall|j: int| from <= j < next_separator(s, from) ==> !separator_at(s, j),
    decreases s.len() - from,
{
    if from + 4 <= s.len() && !separator_at(s, from) {
        lemma_next_separator_scans(s, from + 1);
    }
}

/// A separator with none before it is the one that `next_separator` finds.
proof fn lemma_next_separator_finds(s: Seq<char>, from: int, at: int)
    requires
        0 <= from <= at,
        separator_at(s, at),
        forall|j: int| from <= j < at ==> !separator_at(s, j),
    ensures
        next_separator(s, from) == at,
    decreases at - from,
{
    if from < at {
        lemma_next_separator_finds(s, from + 1, at);
    }
}

/// What is sent after a blank line is read as the body. When a head that
/// holds no blank line is followed by the separator and then by `body`, the
/// body of the whole is `body`; only where the head itself ends with a line
/// break does the blank line begin there, and the body then begins with the
/// line break that is left over.
pub proof fn lemma_body_follows_head(head: Seq<char>, body: Seq<char>)
    requires
        body_text(head).is_none(),
    ensures
        body_text(head + "\r\n\r\n"@ + body) == Some(
            if ends_with_line_break(head) {
                "\r\n"@ + body
            } else {
                body
            },
        ),
{
    reveal_strlit("\r\n\r\n");
    reveal_strlit("\r\n");
    let whole = head + "\r\n\r\n"@ + body;
    let h = head.len() as int;
    lemma_next_separator_scans(head, 0);
    assert forall|j: int| 0 <= j && j + 4 <= h implies !separator_at(whole, j) by {
        assert(!separator_at(head, j));
        assert(whole[j] == head[j] && whole[j + 1] == head[j + 1] && whole[j + 2] == head[j + 2]
            && whole[j + 3] == head[j + 3]);
    }
    assert(whole[h] == '\r' && whole[h + 1] == '\n' && whole[h + 2] == '\r' && whole[h + 3]
        == '\n');
    if ends_with_line_break(head) {
        assert(whole[h - 2] == head[h - 2] && whole[h - 1] == head[h - 1]);
        assert(separator_at(whole, h - 2));
        assert forall|j: int| 0 <= j < h - 2 implies !separator_at(whole, j) by {
            if j + 4 > h {
                assert(whole[j + 1] == head[h - 2]);
            }
        }
        lemma_next_separator_finds(whole, 0, h - 2);
        assert(whole.skip(h + 2) =~= "\r\n"@ + body);
    } else {
        assert(separator_at(whole, h));
        assert forall|j: int| 0 <= j < h implies !separator_at(whole, j) by {
            if j + 4 > h {
                if j == h - 1 {
                    assert(whole[j + 1] == '\r');
                } else if j == h - 2 {
                    assert(whole[j] == head[h - 2] && whole[j + 1] == head[h - 1]);
                } else {
                    assert(whole[j + 3] == '\r');
                }
            }
        }
        lemma_next_separator_finds(whole, 0, h);
        assert(whole.skip(h + 4) =~= body);
    }
}

/// The text that `String::from_utf8_lossy` makes of `bytes`.
pub uninterp spec fn lossy_text(bytes: Seq<u8>) -> Seq<char>;

/// Calls `String::from_utf8_lossy`, which decodes UTF-8 and puts U+FFFD in
/// the place of what is not UTF-8. It never fails, and the text depends on
/// the bytes alone.
#[verifier::external_body]
pub(crate) fn decode_lossy(buffer: &[u8]) -> (text: String)
    ensures
        text@ == lossy_text(buffer@),
{
    String::from_utf8_lossy(buffer).into_owned()
}

} // verus!
