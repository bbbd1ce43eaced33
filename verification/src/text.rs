//! Character-level helpers on request text.

use vstd::prelude::*;

verus! {

/// Whether `c` is white space: the code points with the Unicode property
/// `White_Space`.
pub open spec fn is_space(c: char) -> bool {
    let u = c as u32;
    ||| 0x09 <= u <= 0x0d
    ||| u == 0x20
    ||| u == 0x85
    ||| u == 0xa0
    ||| u == 0x1680
    ||| 0x2000 <= u <= 0x200a
    ||| u == 0x2028
    ||| u == 0x2029
    ||| u == 0x202f
    ||| u == 0x205f
    ||| u == 0x3000
}

/// Index of the first `'/'` of `s` at or after `from`; `s.len()` if there is none.
pub open spec fn next_slash(s: Seq<char>, from: int) -> int
    decreases s.len() - from,
{
    if from < 0 || from >= s.len() {
        s.len() as int
    } else if s[from] == '/' {
        from
    } else {
        next_slash(s, from + 1)
    }
}

/// Index of the first white space of `s` at or after `from`; `s.len()` if
/// there is none.
pub open spec fn next_space(s: Seq<char>, from: int) -> int
    decreases s.len() - from,
{
    if from < 0 || from >= s.len() {
        s.len() as int
    } else if is_space(s[from]) {
        from
    } else {
        next_space(s, from + 1)
    }
}

/// Whether `c` is white space.
pub fn is_whitespace(c: char) -> (b: bool)
    ensures
        b == is_space(c),
{
    let u: u32 = c as u32;
    (0x09 <= u && u <= 0x0d) || u == 0x20 || u == 0x85 || u == 0xa0 || u == 0x1680 || (0x2000 <= u
        && u <= 0x200a) || u == 0x2028 || u == 0x2029 || u == 0x202f || u == 0x205f || u == 0x3000
}

/// The characters of `text`, in order.
pub fn chars_of(text: &str) -> (chars: Vec<char>)
    ensures
        chars@ == text@,
{
    let mut chars: Vec<char> = Vec::new();
    for c in it: text.chars()
        invariant
            chars@ == it.seq().take(it.index()),
            it.seq() == text@,
    {
        chars.push(c);
    }
    chars
}

/// Searches `chars` from `from` for the first `'/'`.
pub fn find_slash(chars: &[char], from: usize) -> (at: usize)
    ensures
        at == next_slash(chars@, from as int),
        at <= chars@.len(),
        from <= chars@.len() ==> from <= at,
{
    let mut i: usize = if from < chars.len() {
        from
    } else {
        chars.len()
    };
    while i < chars.len() && chars[i] != '/'
        invariant
            i <= chars@.len(),
            from <= chars@.len() ==> from <= i,
            next_slash(chars@, from as int) == next_slash(chars@, i as int),
        decreases chars@.len() - i,
    {
        i = i + 1;
    }
    i
}

/// Searches `chars` from `from` for the first white space.
pub fn find_space(chars: &[char], from: usize) -> (at: usize)
    ensures
        at == next_space(chars@, from as int),
        at <= chars@.len(),
        from <= chars@.len() ==> from <= at,
{
    let mut i: usize = if from < chars.len() {
        from
    } else {
        chars.len()
    };
    while i < chars.len() && !is_whitespace(chars[i])
        invariant
            i <= chars@.len(),
            from <= chars@.len() ==> from <= i,
            next_space(chars@, from as int) == next_space(chars@, i as int),
        decreases chars@.len() - i,
    {
        i = i + 1;
    }
    i
}

/// Whether `chars` begins with the characters of `prefix`.
pub fn has_prefix(chars: &[char], prefix: &str) -> (b: bool)
    ensures
        b == prefix@.is_prefix_of(chars@),
{
    let mut i: usize = 0;
    for c in it: prefix.chars()
        invariant
            it.seq() == prefix@,
            i == it.index(),
            i <= chars@.len(),
            forall|j: int| 0 <= j < i ==> chars@[j] == prefix@[j],
    {
        if i >= chars.len() || chars[i] != c {
            return false;
        }
        i = i + 1;
    }
    true
}

} // verus!
