//! Text read from the kernel's system files: the CPU temperature and lines of
//! /proc/meminfo.

use vstd::prelude::*;
use vstd::string::StrSliceExecFns;

verus! {

/// Why a decimal number could not be read.
#[derive(Debug, Clone, Copy, PartialEq, Eq, Structural)]
pub enum IntErrorKind {
    /// There was nothing to read.
    Empty,
    /// A character is not a decimal digit (after an optional leading '+').
    InvalidDigit,
    /// The number does not fit in a `usize`.
    PosOverflow,
}

/// Whether `c` is white space in the sense of Unicode's White_Space property
/// (as `char::is_whitespace` has it).
pub open spec fn is_white_space(c: char) -> bool {
    ||| ('\u{9}' <= c && c <= '\u{d}')
    ||| c == ' '
    ||| c == '\u{85}'
    ||| c == '\u{a0}'
    ||| c == '\u{1680}'
    ||| ('\u{2000}' <= c && c <= '\u{200a}')
    ||| c == '\u{2028}'
    ||| c == '\u{2029}'
    ||| c == '\u{202f}'
    ||| c == '\u{205f}'
    ||| c == '\u{3000}'
}

/// Whether `c` is white space.
pub fn char_is_white_space(c: char) -> (b: bool)
    ensures
        b == is_white_space(c),
{
    ('\u{9}' <= c && c <= '\u{d}') || c == ' ' || c == '\u{85}' || c == '\u{a0}' || c == '\u{1680}'
        || ('\u{2000}' <= c && c <= '\u{200a}') || c == '\u{2028}' || c == '\u{2029}' || c
        == '\u{202f}' || c == '\u{205f}' || c == '\u{3000}'
}

/// `s` without its trailing white space.
pub open spec fn trim_end(s: Seq<char>) -> Seq<char>
    decreases s.len(),
{
    if s.len() > 0 && is_white_space(s.last()) {
        trim_end(s.drop_last())
    } else {
        s
    }
}

/// Whether `c` is one of '0' to '9'.
pub open spec fn is_decimal_digit(c: char) -> bool {
    '0' <= c && c <= '9'
}

/// The value of the decimal digit `c`.
pub open spec fn digit_value(c: char) -> nat {
    (c as int - '0' as int) as nat
}

/// Reads the digits `ds` after `acc` has been read: the first character that
/// is not a digit, or the first digit that makes the number exceed
/// `usize::MAX`, decides the error.
pub open spec fn read_digits(ds: Seq<char>, acc: nat) -> Result<usize, IntErrorKind>
    decreases ds.len(),
{
    if ds.len() == 0 {
        Ok(acc as usize)
    } else if !is_decimal_digit(ds[0]) {
        Err(IntErrorKind::InvalidDigit)
    } else if acc * 10 + digit_value(ds[0]) > usize::MAX {
        Err(IntErrorKind::PosOverflow)
    } else {
        read_digits(ds.drop_first(), acc * 10 + digit_value(ds[0]))
    }
}

/// A `usize` written in decimal, with an optional leading '+'.
pub open spec fn parse_usize(s: Seq<char>) -> Result<usize, IntErrorKind> {
    if s.len() == 0 {
        Err(IntErrorKind::Empty)
    } else if s.len() == 1 && (s[0] == '+' || s[0] == '-') {
        Err(IntErrorKind::InvalidDigit)
    } else if s[0] == '+' {
        read_digits(s.drop_first(), 0)
    } else {
        read_digits(s, 0)
    }
}

/// The first position at or after `i` that holds no white space, or the end.
pub open spec fn skip_white_space(s: Seq<char>, i: int) -> int
    decreases s.len() - i,
{
    if i < 0 || i >= s.len() {
        s.len() as int
    } else if is_white_space(s[i]) {
        skip_white_space(s, i + 1)
    } else {
        i
    }
}

/// The first position at or after `i` that holds white space, or the end.
pub open spec fn skip_word(s: Seq<char>, i: int) -> int
    decreases s.len() - i,
{
    if i < 0 || i >= s.len() {
        s.len() as int
    } else if is_white_space(s[i]) {
        i
    } else {
        skip_word(s, i + 1)
    }
}

/// The second of the white-space separated words of `s`, if it has two.
pub open spec fn second_word(s: Seq<char>) -> Option<Seq<char>> {
    let first_start = skip_white_space(s, 0);
    let first_end = skip_word(s, first_start);
    let second_start = skip_white_space(s, first_end);
    let second_end = skip_word(s, second_start);
    if second_start >= s.len() {
        None
    } else {
        Some(s.subrange(second_start, second_end))
    }
}

/// Reads the characters `start..end` of `s` as a decimal `usize`.
fn parse_usize_range(s: &str, start: usize, end: usize) -> (r: Result<usize, IntErrorKind>)
    requires
        start <= end <= s@.len(),
    ensures
        r == parse_usize(s@.subrange(start as int, end as int)),
{
    let ghost text = s@.subrange(start as int, end as int);
    if start == end {
        return Err(IntErrorKind::Empty);
    }
    let first = s.get_char(start);
    if end - start == 1 && (first == '+' || first == '-') {
        return Err(IntErrorKind::InvalidDigit);
    }
    let mut i = if first == '+' {
        start + 1
    } else {
        start
    };
    let ghost digits = s@.subrange(i as int, end as int);
    assert(text[0] == first);
    assert(first == '+' ==> digits =~= text.drop_first());
    assert(first != '+' ==> digits =~= text);
    assert(parse_usize(text) == read_digits(digits, 0));
    let mut acc: usize = 0;
    while i < end
        invariant
            start <= i <= end <= s@.len(),
            parse_usize(s@.subrange(start as int, end as int)) == read_digits(digits, 0),
            read_digits(digits, 0) == read_digits(s@.subrange(i as int, end as int), acc as nat),
        decreases end - i,
    {
        let ghost rest = s@.subrange(i as int, end as int);
        let c = s.get_char(i);
        assert(rest[0] == c);
        if !('0' <= c && c <= '9') {
            return Err(IntErrorKind::InvalidDigit);
        }
        let d = (c as u32 - '0' as u32) as usize;
        assert(d == digit_value(c));
        let next = match acc.checked_mul(10) {
            Some(m) => m.checked_add(d),
            None => None,
        };
        match next {
            None => {
                return Err(IntErrorKind::PosOverflow);
            },
            Some(n) => {
                assert(rest.drop_first() =~= s@.subrange(i as int + 1, end as int));
                acc = n;
            },
        }
        i += 1;
    }
    Ok(acc)
}

/// Reads a temperature in millidegrees Celsius, as the kernel writes it: a
/// decimal number, possibly followed by white space such as a newline.
pub fn parse_temperature(temperature_str: &str) -> (r: Result<usize, IntErrorKind>)
    ensures
        r == parse_usize(trim_end(temperature_str@)),
{
    let len = temperature_str.unicode_len();
    let mut end = len;
    assert(temperature_str@.subrange(0, len as int) =~= temperature_str@);
    while end > 0 && char_is_white_space(temperature_str.get_char(end - 1))
        invariant
            end <= len == temperature_str@.len(),
            trim_end(temperature_str@) == trim_end(temperature_str@.subrange(0, end as int)),
        decreases end,
    {
        let ghost prefix = temperature_str@.subrange(0, end as int);
        assert(prefix.drop_last() =~= temperature_str@.subrange(0, end - 1));
        end -= 1;
    }
    proof {
        let prefix = temperature_str@.subrange(0, end as int);
        assert(trim_end(prefix) == prefix);
    }
    parse_usize_range(temperature_str, 0, end)
}

/// The first position at or after `i` that holds no white space, or the end.
fn skip_white_space_from(s: &str, i: usize) -> (j: usize)
    requires
        i <= s@.len(),
    ensures
        j == skip_white_space(s@, i as int),
        i <= j <= s@.len(),
{
    let len = s.unicode_len();
    let mut j = i;
    while j < len && char_is_white_space(s.get_char(j))
        invariant
            i <= j <= len == s@.len(),
            skip_white_space(s@, i as int) == skip_white_space(s@, j as int),
        decreases len - j,
    {
        j += 1;
    }
    j
}

/// The first position at or after `i` that holds white space, or the end.
fn skip_word_from(s: &str, i: usize) -> (j: usize)
    requires
        i <= s@.len(),
    ensures
        j == skip_word(s@, i as int),
        i <= j <= s@.len(),
{
    let len = s.unicode_len();
    let mut j = i;
    while j < len && !char_is_white_space(s.get_char(j))
        invariant
            i <= j <= len == s@.len(),
            skip_word(s@, i as int) == skip_word(s@, j as int),
        decreases len - j,
    {
        j += 1;
    }
    j
}

/// Reads the amount on a line of /proc/meminfo, such as
/// `MemTotal:       64866396 kB`: the second word, as a decimal number (of
/// kibibytes). A line with fewer than two words gives `Empty`.
pub fn parse_meminfo_line(line: &str) -> (r: Result<usize, IntErrorKind>)
    ensures
        r == match second_word(line@) {
            None => Err(IntErrorKind::Empty),
            Some(word) => parse_usize(word),
        },
{
    let first_start = skip_white_space_from(line, 0);
    let first_end = skip_word_from(line, first_start);
    let second_start = skip_white_space_from(line, first_end);
    let second_end = skip_word_from(line, second_start);
    if second_start >= line.unicode_len() {
        return Err(IntErrorKind::Empty);
    }
    parse_usize_range(line, second_start, second_end)
}

/// The decimal digit character for a value below 10.
pub open spec fn digit_char(d: nat) -> char {
    ((d + '0' as nat) as u32) as char
}

/// The decimal writing of `n`, without leading zeros.
pub open spec fn decimal(n: nat) -> Seq<char>
    decreases n,
{
    if n < 10 {
        seq![digit_char(n)]
    } else {
        decimal(n / 10).push(digit_char(n % 10))
    }
}

/// Reading one more digit after a run of digits that read without error.
proof fn lemma_read_digits_push(s: Seq<char>, c: char, acc: nat, v: usize)
    requires
        acc <= usize::MAX,
        read_digits(s, acc) == Ok::<usize, IntErrorKind>(v),
        is_decimal_digit(c),
        v * 10 + digit_value(c) <= usize::MAX,
    ensures
        read_digits(s.push(c), acc) == Ok::<usize, IntErrorKind>((v * 10 + digit_value(c)) as usize),
    decreases s.len(),
{
    if s.len() == 0 {
        assert(seq![c].drop_first() =~= Seq::<char>::empty());
        assert(s.push(c) =~= seq![c]);
        reveal_with_fuel(read_digits, 2);
    } else {
        assert(s.push(c).drop_first() =~= s.drop_first().push(c));
        let next = acc * 10 + digit_value(s[0]);
        lemma_read_digits_push(s.drop_first(), c, next, v);
    }
}

/// Digits are read most significant first: one more digit after a number that
/// reads without error gives ten times that number plus the digit's value.
pub proof fn lemma_parse_usize_appends_digit(s: Seq<char>, c: char, v: usize)
    requires
        s.len() > 0,
        forall|i: int| 0 <= i < s.len() ==> is_decimal_digit(#[trigger] s[i]),
        parse_usize(s) == Ok::<usize, IntErrorKind>(v),
        is_decimal_digit(c),
        v * 10 + digit_value(c) <= usize::MAX,
    ensures
        parse_usize(s.push(c)) == Ok::<usize, IntErrorKind>((v * 10 + digit_value(c)) as usize),
        digit_value(c) == c as int - '0' as int,
{
    assert(is_decimal_digit(s[0]));
    assert(s.push(c)[0] == s[0]);
    lemma_read_digits_push(s, c, 0, v);
}

/// The decimal writing of a number reads back as that number.
proof fn lemma_read_decimal(n: nat)
    requires
        n <= usize::MAX,
    ensures
        read_digits(decimal(n), 0) == Ok::<usize, IntErrorKind>(n as usize),
        decimal(n).len() > 0,
        is_decimal_digit(decimal(n)[0]),
    decreases n,
{
    if n < 10 {
        assert(decimal(n).drop_first() =~= Seq::<char>::empty());
        assert(digit_value(digit_char(n)) == n);
        reveal_with_fuel(read_digits, 2);
    } else {
        lemma_read_decimal(n / 10);
        let c = digit_char(n % 10);
        assert(digit_value(c) == n % 10);
        lemma_read_digits_push(decimal(n / 10), c, 0, (n / 10) as usize);
        assert(decimal(n)[0] == decimal(n / 10)[0]);
    }
}

/// Trailing white space is trimmed away.
proof fn lemma_trim_end_append_white_space(s: Seq<char>, w: Seq<char>)
    requires
        forall|i: int| 0 <= i < w.len() ==> is_white_space(#[trigger] w[i]),
    ensures
        trim_end(s + w) == trim_end(s),
    decreases w.len(),
{
    if w.len() > 0 {
        assert((s + w).drop_last() =~= s + w.drop_last());
        lemma_trim_end_append_white_space(s, w.drop_last());
    } else {
        assert(s + w =~= s);
    }
}

/// A number written in decimal, followed by any white space (such as the
/// newline after the kernel's temperature), reads back as that number.
pub proof fn lemma_parse_temperature_of_decimal(n: usize, w: Seq<char>)
    requires
        forall|i: int| 0 <= i < w.len() ==> is_white_space(#[trigger] w[i]),
    ensures
        parse_usize(trim_end(decimal(n as nat) + w)) == Ok::<usize, IntErrorKind>(n),
{
    lemma_trim_end_append_white_space(decimal(n as nat), w);
    lemma_read_decimal(n as nat);
    let d = decimal(n as nat);
    assert(!is_white_space(d.last())) by {
        if n >= 10 {
            assert(d.last() == digit_char((n % 10) as nat));
        }
    }
    assert(trim_end(d) == d);
}

/// Every character of a decimal writing is a digit.
proof fn lemma_decimal_all_digits(n: nat)
    ensures
        forall|i: int| 0 <= i < decimal(n).len() ==> is_decimal_digit(#[trigger] decimal(n)[i]),
    decreases n,
{
    if n >= 10 {
        lemma_decimal_all_digits(n / 10);
        let p = decimal(n / 10);
        assert forall|i: int| 0 <= i < decimal(n).len() implies is_decimal_digit(
            #[trigger] decimal(n)[i],
        ) by {
            if i < p.len() {
                assert(decimal(n)[i] == p[i]);
            }
        }
    }
}

/// Skipping white space from `i` stops at `j` when `i..j` is white space
/// and position `j` is not (or is the end).
proof fn lemma_skip_white_space_to(s: Seq<char>, i: int, j: int)
    requires
        0 <= i <= j <= s.len(),
        forall|k: int| i <= k < j ==> is_white_space(#[trigger] s[k]),
        j < s.len() ==> !is_white_space(s[j]),
    ensures
        skip_white_space(s, i) == j,
    decreases j - i,
{
    if i < j {
        lemma_skip_white_space_to(s, i + 1, j);
    }
}

/// Skipping a word from `i` stops at `j` when `i..j` holds no white space
/// and position `j` is white space (or is the end).
proof fn lemma_skip_word_to(s: Seq<char>, i: int, j: int)
    requires
        0 <= i <= j <= s.len(),
        forall|k: int| i <= k < j ==> !is_white_space(#[trigger] s[k]),
        j < s.len() ==> is_white_space(s[j]),
    ensures
        skip_word(s, i) == j,
    decreases j - i,
{
    if i < j {
        lemma_skip_word_to(s, i + 1, j);
    }
}

/// A meminfo line made of a key, white space, a number in decimal, and
/// either nothing or white space followed by anything (such as ` kB`),
/// reads back as that number.
pub proof fn lemma_parse_meminfo_of_decimal(key: Seq<char>, gap: Seq<char>, n: usize, rest: Seq<char>)
    requires
        key.len() > 0,
        forall|i: int| 0 <= i < key.len() ==> !is_white_space(#[trigger] key[i]),
        gap.len() > 0,
        forall|i: int| 0 <= i < gap.len() ==> is_white_space(#[trigger] gap[i]),
        rest.len() > 0 ==> is_white_space(rest[0]),
    ensures
        second_word(key + gap + decimal(n as nat) + rest) == Some(decimal(n as nat)),
        parse_usize(decimal(n as nat)) == Ok::<usize, IntErrorKind>(n),
{
    let d = decimal(n as nat);
    let line = key + gap + d + rest;
    lemma_read_decimal(n as nat);
    lemma_decimal_all_digits(n as nat);
    let a = key.len() as int;
    let b = a + gap.len();
    let c = b + d.len();
    assert forall|k: int| 0 <= k < a implies !is_white_space(#[trigger] line[k]) by {
        assert(line[k] == key[k]);
    }
    assert forall|k: int| a <= k < b implies is_white_space(#[trigger] line[k]) by {
        assert(line[k] == gap[k - a]);
    }
    assert forall|k: int| b <= k < c implies !is_white_space(#[trigger] line[k]) by {
        assert(line[k] == d[k - b]);
        assert(is_decimal_digit(d[k - b]));
    }
    assert(c < line.len() ==> line[c] == rest[0]);
    assert(line[a] == gap[0]);
    assert(line[b] == d[0]);
    lemma_skip_white_space_to(line, 0, 0);
    lemma_skip_word_to(line, 0, a);
    lemma_skip_white_space_to(line, a, b);
    lemma_skip_word_to(line, b, c);
    assert(line.subrange(b, c) =~= d);
}

} // verus!
