//! Small text routines the rest of the library is built from: decimal
//! numerals, comparison, search that ignores the case of ASCII letters, and
//! trimming of white space.

use vstd::prelude::*;
use vstd::string::*;

verus! {

/// The character that writes the digit `d`.
pub open spec fn digit_char(d: nat) -> char
    recommends
        d < 10,
{
    ('0' as u8 + d) as u8 as char
}

/// The decimal numeral of `n`: no sign, no leading zero, `"0"` for zero.
pub open spec fn decimal(n: nat) -> Seq<char>
    decreases n,
{
    if n < 10 {
        seq![digit_char(n)]
    } else {
        decimal(n / 10).push(digit_char(n % 10))
    }
}

fn digit_text(d: u64) -> (text: &'static str)
    requires
        d < 10,
    ensures
        text@ == seq![digit_char(d as nat)],
{
    proof {
        reveal_strlit("0");
        reveal_strlit("1");
        reveal_strlit("2");
        reveal_strlit("3");
        reveal_strlit("4");
        reveal_strlit("5");
        reveal_strlit("6");
        reveal_strlit("7");
        reveal_strlit("8");
        reveal_strlit("9");
    }
    if d == 0 {
        "0"
    } else if d == 1 {
        "1"
    } else if d == 2 {
        "2"
    } else if d == 3 {
        "3"
    } else if d == 4 {
        "4"
    } else if d == 5 {
        "5"
    } else if d == 6 {
        "6"
    } else if d == 7 {
        "7"
    } else if d == 8 {
        "8"
    } else {
        "9"
    }
}

/// Writes `n` as a decimal numeral.
pub fn decimal_text(n: u64) -> (text: String)
    ensures
        text@ == decimal(n as nat),
    decreases n,
{
    if n < 10 {
        String::from_str(digit_text(n))
    } else {
        let mut text = decimal_text(n / 10);
        text.append(digit_text(n % 10));
        text
    }
}

/// The view of an optional string.
pub open spec fn optional_text(text: Option<String>) -> Option<Seq<char>> {
    match text {
        Some(text) => Some(text@),
        None => None,
    }
}

/// The characters of `s`, in order.
pub fn chars_of(s: &str) -> (chars: Vec<char>)
    ensures
        chars@ == s@,
{
    let mut chars: Vec<char> = Vec::new();
    for c in it: s.chars()
        invariant
            it.seq() == s@,
            chars@ == it.seq().take(it.index()),
    {
        chars.push(c);
    }
    chars
}

/// Folds an ASCII capital to its small letter and leaves every other
/// character as it is.
pub open spec fn fold_ascii(c: char) -> char {
    if 'A' <= c && c <= 'Z' {
        ((c as u8) + 32) as u8 as char
    } else {
        c
    }
}

/// `needle` stands in `hay` at position `at`, letter case of ASCII letters
/// set aside.
pub open spec fn occurs_at(hay: Seq<char>, needle: Seq<char>, at: int) -> bool {
    &&& 0 <= at
    &&& at + needle.len() <= hay.len()
    &&& forall|j: int|
        0 <= j < needle.len() ==> fold_ascii(#[trigger] hay[at + j]) == fold_ascii(needle[j])
}

/// `needle` stands somewhere in `hay`, letter case of ASCII letters set
/// aside.
pub open spec fn mentions(hay: Seq<char>, needle: Seq<char>) -> bool {
    exists|at: int| occurs_at(hay, needle, at)
}

/// Executable `fold_ascii`.
pub fn fold_char(c: char) -> (folded: char)
    ensures
        folded == fold_ascii(c),
{
    if 'A' <= c && c <= 'Z' {
        ((c as u8) + 32u8) as char
    } else {
        c
    }
}

fn occurs_here(hay: &Vec<char>, needle: &Vec<char>, at: usize) -> (found: bool)
    requires
        at + needle@.len() <= hay@.len(),
    ensures
        found == occurs_at(hay@, needle@, at as int),
{
    let n: usize = hay.len();
    let m: usize = needle.len();
    let mut j: usize = 0;
    while j < m
        invariant
            n == hay@.len(),
            m == needle@.len(),
            at + m <= n,
            j <= m,
            forall|k: int|
                0 <= k < j ==> fold_ascii(#[trigger] hay@[at + k]) == fold_ascii(needle@[k]),
        decreases m - j,
    {
        if fold_char(hay[at + j]) != fold_char(needle[j]) {
            return false;
        }
        j = j + 1;
    }
    true
}

/// Whether `needle` occurs in `hay` when the case of ASCII letters is
/// ignored. Characters outside ASCII match only themselves.
pub fn contains_ignoring_case(hay: &str, needle: &str) -> (found: bool)
    ensures
        found == mentions(hay@, needle@),
{
    let hay_chars = chars_of(hay);
    let needle_chars = chars_of(needle);
    let n: usize = hay_chars.len();
    let m: usize = needle_chars.len();
    if m > n {
        return false;
    }
    let last: usize = n - m;
    let mut at: usize = 0;
    while at <= last
        invariant
            hay_chars@ == hay@,
            needle_chars@ == needle@,
            n == hay@.len(),
            m == needle@.len(),
            last == n - m,
            at <= last + 1,
            forall|k: int| 0 <= k < at ==> !occurs_at(hay@, needle@, k),
        decreases last + 1 - at,
    {
        if occurs_here(&hay_chars, &needle_chars, at) {
            return true;
        }
        at = at + 1;
    }
    false
}

/// White space in the sense of Unicode's `White_Space` property, the one
/// `char::is_whitespace` tests.
pub open spec fn is_space(c: char) -> bool {
    ||| ('\u{9}' <= c && c <= '\u{d}')
    ||| c == ' '
    ||| c == '\u{85}'
    ||| c == '\u{a0}'
    ||| c == '\u{1680}'
    ||| ('\u{2000}' <= c && c <= '\u{200a}')
    ||| c == '\u{2028}'
    ||| c == '\u{2029}'
    ||| c == '\u{202f}'
    ||| c == '\u{205f}'
    ||| c == '\u{3000}'
}

/// `s` without its leading white space.
pub open spec fn trim_start(s: Seq<char>) -> Seq<char>
    decreases s.len(),
{
    if s.len() > 0 && is_space(s[0]) {
        trim_start(s.drop_first())
    } else {
        s
    }
}

/// `s` without its trailing white space.
pub open spec fn trim_end(s: Seq<char>) -> Seq<char>
    decreases s.len(),
{
    if s.len() > 0 && is_space(s.last()) {
        trim_end(s.drop_last())
    } else {
        s
    }
}

/// `s` without white space at either end.
pub open spec fn trimmed(s: Seq<char>) -> Seq<char> {
    trim_end(trim_start(s))
}

/// Executable `is_space`.
pub fn is_space_char(c: char) -> (space: bool)
    ensures
        space == is_space(c),
{
    ('\u{9}' <= c && c <= '\u{d}') || c == ' ' || c == '\u{85}' || c == '\u{a0}' || c
        == '\u{1680}' || ('\u{2000}' <= c && c <= '\u{200a}') || c == '\u{2028}' || c
        == '\u{2029}' || c == '\u{202f}' || c == '\u{205f}' || c == '\u{3000}'
}

/// Strips white space from both ends of a line, as an answer typed at a
/// prompt is read.
pub fn trim(line: &str) -> (text: String)
    ensures
        text@ == trimmed(line@),
{
    let chars = chars_of(line);
    let len: usize = chars.len();
    let mut from: usize = 0;
    assert(line@.subrange(0, len as int) == line@);
    while from < len && is_space_char(chars[from])
        invariant
            chars@ == line@,
            len == chars@.len(),
            from <= len,
            trim_start(line@) == trim_start(line@.subrange(from as int, len as int)),
        decreases len - from,
    {
        proof {
            let rest = line@.subrange(from as int, len as int);
            assert(rest.drop_first() == line@.subrange(from + 1, len as int));
        }
        from = from + 1;
    }
    let ghost rest = line@.subrange(from as int, len as int);
    assert(trim_start(line@) == rest);
    let mut to: usize = len;
    while to > from && is_space_char(chars[to - 1])
        invariant
            chars@ == line@,
            len == chars@.len(),
            from <= to <= len,
            trim_end(rest) == trim_end(line@.subrange(from as int, to as int)),
        decreases to,
    {
        proof {
            let part = line@.subrange(from as int, to as int);
            assert(part.drop_last() == line@.subrange(from as int, to - 1));
        }
        to = to - 1;
    }
    assert(trim_end(rest) == line@.subrange(from as int, to as int));
    String::from_str(line.substring_char(from, to))
}

/// Whether two strings hold the same characters.
pub fn same_text(a: &str, b: &str) -> (same: bool)
    ensures
        same == (a@ == b@),
{
    let left = chars_of(a);
    let right = chars_of(b);
    let len: usize = left.len();
    if right.len() != len {
        return false;
    }
    let mut i: usize = 0;
    while i < len
        invariant
            left@ == a@,
            right@ == b@,
            len == a@.len(),
            len == b@.len(),
            i <= len,
            a@.take(i as int) == b@.take(i as int),
        decreases len - i,
    {
        if left[i] != right[i] {
            return false;
        }
        i = i + 1;
    }
    proof {
        assert(a@.take(len as int) == a@);
        assert(b@.take(len as int) == b@);
    }
    true
}

} // verus!
