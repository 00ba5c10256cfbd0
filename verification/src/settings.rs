//! The text form of settings: lines of `key = value`. Blank lines, lines
//! that begin with `#` and lines without `=` say nothing.

use vstd::prelude::*;
use vstd::string::*;
use crate::runner::{assignment_of, parse_assignment};
use crate::text::{chars_of, decimal, digit, lemma_position_is, position, same_text};

verus! {

/// True for the characters that count as white space.
pub open spec fn is_space(c: char) -> bool {
    let n = c as u32;
    n == 0x20 || (0x09 <= n && n <= 0x0d) || n == 0x85 || n == 0xa0 || n == 0x1680 || (0x2000 <= n
        && n <= 0x200a) || n == 0x2028 || n == 0x2029 || n == 0x202f || n == 0x205f || n
        == 0x3000
}

/// `s` without the white space at its start.
pub open spec fn trim_start(s: Seq<char>) -> Seq<char>
    decreases s.len(),
{
    if s.len() > 0 && is_space(s[0]) {
        trim_start(s.drop_first())
    } else {
        s
    }
}

/// `s` without the white space at its end.
pub open spec fn trim_end(s: Seq<char>) -> Seq<char>
    decreases s.len(),
{
    if s.len() > 0 && is_space(s.last()) {
        trim_end(s.drop_last())
    } else {
        s
    }
}

/// `s` without the white space at its start and at its end.
pub open spec fn trimmed(s: Seq<char>) -> Seq<char> {
    trim_end(trim_start(s))
}

/// The lines of `s`: what stands between its line feeds.
pub open spec fn lines_of(s: Seq<char>) -> Seq<Seq<char>>
    decreases s.len(),
{
    let i = position(s, '\n');
    if i < 0 || i >= s.len() {
        seq![s]
    } else {
        seq![s.take(i)] + lines_of(s.skip(i + 1))
    }
}

/// What a line sets: key and value, each without the white space around
/// it. A blank line, a line that begins with `#` and a line without `=` set
/// nothing.
pub open spec fn setting_of(line: Seq<char>) -> Option<(Seq<char>, Seq<char>)> {
    let text = trimmed(line);
    if text.len() == 0 || text[0] == '#' {
        None
    } else {
        match assignment_of(text) {
            Some(pair) => Some((trimmed(pair.0), trimmed(pair.1))),
            None => None,
        }
    }
}

/// The value of a decimal digit.
pub open spec fn digit_value(c: char) -> Option<nat> {
    if '0' <= c && c <= '9' {
        Some((c as u32 - 0x30) as nat)
    } else {
        None
    }
}

/// The number that the digits of `s` write; none where `s` is empty or
/// holds anything but digits.
pub open spec fn digits_value(s: Seq<char>) -> Option<nat>
    decreases s.len(),
{
    if s.len() == 0 {
        None
    } else if s.len() == 1 {
        digit_value(s[0])
    } else {
        match (digits_value(s.drop_last()), digit_value(s.last())) {
            (Some(high), Some(low)) => Some(high * 10 + low),
            _ => None,
        }
    }
}

/// The number that `s` writes, with or without a plus sign before its
/// digits; none where it is above `max`.
pub open spec fn number_of(s: Seq<char>, max: nat) -> Option<nat> {
    let digits = if s.len() > 0 && s[0] == '+' {
        s.drop_first()
    } else {
        s
    };
    match digits_value(digits) {
        Some(n) => if n <= max {
            Some(n)
        } else {
            None
        },
        None => None,
    }
}

/// What `true` and `false` say.
pub open spec fn flag_of(s: Seq<char>) -> Option<bool> {
    if s == "true"@ {
        Some(true)
    } else if s == "false"@ {
        Some(false)
    } else {
        None
    }
}

pub fn space(c: char) -> (r: bool)
    ensures
        r == is_space(c),
{
    let n = c as u32;
    n == 0x20 || (0x09 <= n && n <= 0x0d) || n == 0x85 || n == 0xa0 || n == 0x1680 || (0x2000 <= n
        && n <= 0x200a) || n == 0x2028 || n == 0x2029 || n == 0x202f || n == 0x205f || n
        == 0x3000
}

pub fn trim(s: &str) -> (r: String)
    ensures
        r@ == trimmed(s@),
{
    let chars = chars_of(s);
    let n = chars.len();
    let mut start: usize = 0;
    assert(s@.skip(0) == s@);
    while start < n && space(chars[start])
        invariant
            start <= n,
            n == s@.len(),
            chars@ == s@,
            trim_start(s@.skip(start as int)) == trim_start(s@),
        decreases n - start,
    {
        assert(s@.skip(start as int).drop_first() == s@.skip(start + 1));
        start += 1;
    }
    let ghost body = s@.skip(start as int);
    assert(trim_start(s@) == body);
    let mut end: usize = n;
    assert(body.take(body.len() as int) == body);
    while end > start && space(chars[end - 1])
        invariant
            start <= end <= n,
            n == s@.len(),
            chars@ == s@,
            body == s@.skip(start as int),
            trim_end(body.take(end - start)) == trim_end(body),
        decreases end,
    {
        assert(body.take(end - start).drop_last() == body.take(end - start - 1));
        end -= 1;
    }
    assert(body.take(end - start) =~= s@.subrange(start as int, end as int));
    String::from_str(s.substring_char(start, end))
}

pub fn split_lines(s: &str) -> (r: Vec<String>)
    ensures
        r.deep_view() == lines_of(s@),
{
    let chars = chars_of(s);
    let n = chars.len();
    let mut out: Vec<String> = Vec::new();
    let mut start: usize = 0;
    let mut i: usize = 0;
    assert(s@.skip(0) == s@);
    assert(out.deep_view() + lines_of(s@) =~= lines_of(s@));
    while i < n
        invariant
            start <= i <= n,
            n == s@.len(),
            chars@ == s@,
            forall|j: int| start <= j < i ==> s@[j] != '\n',
            out.deep_view() + lines_of(s@.skip(start as int)) == lines_of(s@),
        decreases n - i,
    {
        if chars[i] == '\n' {
            let ghost rest = s@.skip(start as int);
            let ghost before = out.deep_view();
            proof {
                lemma_position_is(rest, '\n', i - start);
            }
            assert(rest.take(i - start) =~= s@.subrange(start as int, i as int));
            assert(rest.skip(i - start + 1) =~= s@.skip(i + 1));
            out.push(String::from_str(s.substring_char(start, i)));
            assert(out.deep_view() =~= before + seq![rest.take(i - start)]);
            assert(out.deep_view() + lines_of(s@.skip(i + 1)) =~= before + lines_of(rest));
            start = i + 1;
        }
        i += 1;
    }
    let ghost rest = s@.skip(start as int);
    let ghost before = out.deep_view();
    proof {
        lemma_position_is(rest, '\n', rest.len() as int);
    }
    assert(rest =~= s@.subrange(start as int, n as int));
    out.push(String::from_str(s.substring_char(start, n)));
    assert(out.deep_view() =~= before + seq![rest]);
    out
}

pub fn parse_setting(line: &str) -> (r: Option<(String, String)>)
    ensures
        r.deep_view() == setting_of(line@),
{
    let text = trim(line);
    let chars = chars_of(text.as_str());
    if chars.len() == 0 || chars[0] == '#' {
        return None;
    }
    match parse_assignment(text.as_str()) {
        Some(pair) => Some((trim(pair.0.as_str()), trim(pair.1.as_str()))),
        None => None,
    }
}

fn digit_of(c: char) -> (r: Option<u8>)
    ensures
        match r {
            Some(d) => digit_value(c) == Some(d as nat) && d <= 9,
            None => digit_value(c) is None,
        },
{
    if '0' <= c && c <= '9' {
        Some((c as u32 - 0x30) as u8)
    } else {
        None
    }
}

/// The number of the first digits is not above the number of all.
proof fn lemma_digits_grow(s: Seq<char>, k: int)
    requires
        0 < k <= s.len(),
        digits_value(s) is Some,
    ensures
        digits_value(s.take(k)) is Some,
        digits_value(s.take(k))->Some_0 <= digits_value(s)->Some_0,
    decreases s.len() - k,
{
    if k == s.len() {
        assert(s.take(k) == s);
    } else {
        assert(s.len() > 1);
        let front = s.drop_last();
        lemma_digits_grow(front, k);
        assert(front.take(k) == s.take(k));
    }
}

pub fn parse_number(s: &str, max: u64) -> (r: Option<u64>)
    ensures
        match r {
            Some(n) => number_of(s@, max as nat) == Some(n as nat),
            None => number_of(s@, max as nat) is None,
        },
{
    let chars = chars_of(s);
    let n = chars.len();
    let first: usize = if n > 0 && chars[0] == '+' {
        1
    } else {
        0
    };
    let ghost digits = if s@.len() > 0 && s@[0] == '+' {
        s@.drop_first()
    } else {
        s@
    };
    assert(digits =~= s@.skip(first as int));
    if first == n {
        return None;
    }
    let mut value: u128 = 0;
    let mut i: usize = first;
    while i < n
        invariant
            first <= i <= n,
            first < n,
            n == s@.len(),
            chars@ == s@,
            digits == s@.skip(first as int),
            digits == if s@.len() > 0 && s@[0] == '+' {
                s@.drop_first()
            } else {
                s@
            },
            i > first ==> digits_value(digits.take(i - first)) == Some(value as nat),
            i == first ==> value == 0,
            value <= max,
        decreases n - i,
    {
        let ghost front = digits.take(i - first);
        let ghost next = digits.take(i - first + 1);
        assert(next.drop_last() == front);
        assert(next.last() == s@[i as int]);
        match digit_of(chars[i]) {
            Some(d) => {
                let grown: u128 = value * 10 + d as u128;
                assert(digits_value(next) == Some(grown as nat));
                if grown > max as u128 {
                    proof {
                        if digits_value(digits) is Some {
                            lemma_digits_grow(digits, i - first + 1);
                        }
                    }
                    return None;
                }
                value = grown;
            },
            None => {
                proof {
                    assert(digits_value(next) is None);
                    if digits_value(digits) is Some {
                        lemma_digits_grow(digits, i - first + 1);
                    }
                }
                return None;
            },
        }
        i += 1;
    }
    assert(digits.take(n - first) == digits);
    Some(value as u64)
}

pub fn parse_flag(s: &str) -> (r: Option<bool>)
    ensures
        r == flag_of(s@),
{
    if same_text(s, "true") {
        Some(true)
    } else if same_text(s, "false") {
        Some(false)
    } else {
        None
    }
}

/// True for a text that a line can carry as its value: no line feed in it,
/// no white space at its ends.
pub open spec fn is_plain(v: Seq<char>) -> bool {
    !v.contains('\n') && (v.len() == 0 || (!is_space(v[0]) && !is_space(v.last())))
}

/// True for a text that a line can carry as its key: not empty, not
/// beginning with `#`, and without white space or `=`.
pub open spec fn is_key(k: Seq<char>) -> bool {
    k.len() > 0 && k[0] != '#' && forall|i: int|
        0 <= i < k.len() ==> !is_space(#[trigger] k[i]) && k[i] != '='
}

/// The line that sets `key` to `value`, without its line feed.
pub open spec fn line_of(key: Seq<char>, value: Seq<char>) -> Seq<char> {
    key + " = "@ + value
}

/// A text is its own first line where it holds no line feed, and what
/// follows its first line feed gives the other lines.
pub proof fn lemma_first_line(line: Seq<char>, rest: Seq<char>)
    requires
        !line.contains('\n'),
    ensures
        lines_of(line + seq!['\n'] + rest) == seq![line] + lines_of(rest),
        lines_of(line) == seq![line],
{
    let all = line + seq!['\n'] + rest;
    assert forall|j: int| 0 <= j < line.len() implies all[j] != '\n' by {
        assert(all[j] == line[j]);
        assert(line.contains(line[j]));
    }
    assert(all[line.len() as int] == '\n');
    lemma_position_is(all, '\n', line.len() as int);
    assert(all.take(line.len() as int) =~= line);
    assert(all.skip(line.len() as int + 1) =~= rest);
    assert forall|j: int| 0 <= j < line.len() implies line[j] != '\n' by {
        assert(line.contains(line[j]));
    }
    lemma_position_is(line, '\n', line.len() as int);
}

/// A line written from a key and a plain value sets that key to that value.
pub proof fn lemma_setting_round_trip(key: Seq<char>, value: Seq<char>)
    requires
        is_key(key),
        is_plain(value),
    ensures
        setting_of(line_of(key, value)) == Some((key, value)),
        !line_of(key, value).contains('\n'),
{
    reveal_strlit(" = ");
    let sep = " = "@;
    assert(sep =~= seq![' ', '=', ' ']);
    let line = line_of(key, value);
    let n = key.len() as int;
    assert(is_space(' '));
    assert(!is_space('='));
    assert(line[0] == key[0]);
    assert(trim_start(line) == line);
    let text = trimmed(line);
    let short = key + seq![' ', '='];
    if value.len() > 0 {
        assert(line.last() == value.last());
        assert(text == line);
    } else {
        assert(line =~= short.push(' '));
        assert(line.drop_last() =~= short);
        assert(short.last() == '=');
        assert(trim_end(short) == short);
        assert(text == short);
    }
    assert(text.len() >= n + 2);
    assert(text[0] == key[0]);
    assert forall|j: int| 0 <= j < n + 1 implies text[j] != '=' by {
        if j < n {
            assert(text[j] == key[j]);
        } else {
            assert(text[j] == ' ');
        }
    }
    assert(text[n + 1] == '=');
    lemma_position_is(text, '=', n + 1);
    let left = text.take(n + 1);
    let right = text.skip(n + 2);
    assert(left =~= key.push(' '));
    assert(left[0] == key[0]);
    assert(trim_start(left) == left);
    assert(left.drop_last() =~= key);
    assert(trim_end(key) == key);
    assert(trimmed(left) == key);
    if value.len() > 0 {
        assert(right =~= seq![' '] + value);
        assert(right.drop_first() =~= value);
        assert(trim_start(value) == value);
        assert(trim_start(right) == value);
        assert(trim_end(value) == value);
    } else {
        assert(right =~= value);
        assert(trim_start(right) == right);
        assert(trim_end(right) == right);
    }
    assert(trimmed(right) == value);
    assert(is_space('\n'));
    assert forall|j: int| 0 <= j < line.len() implies line[j] != '\n' by {
        if j < n {
            assert(line[j] == key[j]);
        } else if j < n + 3 {
            assert(line[j] == sep[j - n]);
        } else {
            assert(line[j] == value[j - n - 3]);
            assert(value.contains(value[j - n - 3]));
        }
    }
}

/// The digit of a number below ten has that number as its value.
pub proof fn lemma_digit_value(d: nat)
    requires
        d < 10,
    ensures
        digit_value(digit(d as int)) == Some(d),
        !is_space(digit(d as int)),
        digit(d as int) != '+',
        digit(d as int) != '\n',
{
}

/// A number that is written in decimal is read back as that number, and
/// its numeral is a plain text.
pub proof fn lemma_number_round_trip(n: nat, max: nat)
    requires
        n <= max,
    ensures
        number_of(decimal(n), max) == Some(n),
        digits_value(decimal(n)) == Some(n),
        is_plain(decimal(n)),
        decimal(n).len() > 0,
        decimal(n)[0] != '+',
    decreases n,
{
    let text = decimal(n);
    if n < 10 {
        lemma_digit_value(n);
        assert(text =~= seq![digit(n as int)]);
        assert forall|j: int| 0 <= j < text.len() implies text[j] != '\n' by {}
    } else {
        let front = decimal(n / 10);
        lemma_number_round_trip(n / 10, max);
        lemma_digit_value(n % 10);
        assert(text == front.push(digit((n % 10) as int)));
        assert(text.drop_last() =~= front);
        assert(text.len() > 1);
        assert(text[0] == front[0]);
        assert forall|j: int| 0 <= j < text.len() implies text[j] != '\n' by {
            if j < front.len() {
                assert(text[j] == front[j]);
                assert(front.contains(front[j]));
            }
        }
    }
}

} // verus!
