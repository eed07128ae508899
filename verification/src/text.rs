//! Text as sequences of characters: conversion between strings and character
//! vectors, decimal numerals, searching, fields and lines, and trimming.

use vstd::prelude::*;

verus! {

/// `String::push`: the string afterwards is the string before with `c`
/// added at its end.
pub assume_specification[ String::push ](s: &mut String, c: char)
    ensures
        final(s)@ == old(s)@.push(c),
;

/// The characters of `s`, in order.
pub fn chars_of(s: &str) -> (v: Vec<char>)
    ensures
        v@ == s@,
{
    let mut v: Vec<char> = Vec::new();
    for c in it: s.chars()
        invariant
            it.seq() == s@,
            v@ == it.seq().take(it.index()),
    {
        v.push(c);
    }
    v
}

/// The string that holds the characters of `v`, in order.
pub fn string_of(v: &Vec<char>) -> (s: String)
    ensures
        s@ == v@,
{
    let mut s = String::new();
    let mut i: usize = 0;
    while i < v.len()
        invariant
            i <= v.len(),
            s@ == v@.take(i as int),
        decreases v.len() - i,
    {
        s.push(v[i]);
        i += 1;
    }
    s
}

/// The character that stands for the decimal digit `d`.
pub open spec fn digit_char(d: int) -> char {
    if d == 0 {
        '0'
    } else if d == 1 {
        '1'
    } else if d == 2 {
        '2'
    } else if d == 3 {
        '3'
    } else if d == 4 {
        '4'
    } else if d == 5 {
        '5'
    } else if d == 6 {
        '6'
    } else if d == 7 {
        '7'
    } else if d == 8 {
        '8'
    } else {
        '9'
    }
}

/// The decimal numeral of `n`, without sign or leading zeros.
pub open spec fn decimal_nat(n: nat) -> Seq<char>
    decreases n,
{
    if n < 10 {
        seq![digit_char(n as int)]
    } else {
        decimal_nat(n / 10).push(digit_char((n % 10) as int))
    }
}

/// The decimal numeral of `n`, with a leading minus sign when `n` is negative.
pub open spec fn decimal_int(n: int) -> Seq<char> {
    if n < 0 {
        seq!['-'] + decimal_nat((-n) as nat)
    } else {
        decimal_nat(n as nat)
    }
}

fn digit_of(d: u64) -> (c: char)
    requires
        d < 10,
    ensures
        c == digit_char(d as int),
{
    if d == 0 {
        '0'
    } else if d == 1 {
        '1'
    } else if d == 2 {
        '2'
    } else if d == 3 {
        '3'
    } else if d == 4 {
        '4'
    } else if d == 5 {
        '5'
    } else if d == 6 {
        '6'
    } else if d == 7 {
        '7'
    } else if d == 8 {
        '8'
    } else {
        '9'
    }
}

/// Appends the decimal numeral of `n` to `out`.
pub fn push_decimal(out: &mut String, n: u64)
    ensures
        final(out)@ == old(out)@ + decimal_nat(n as nat),
    decreases n,
{
    if n >= 10 {
        push_decimal(out, n / 10);
    }
    out.push(digit_of(n % 10));
}

/// Appends the decimal numeral of `n`, with its sign, to `out`.
pub fn push_signed_decimal(out: &mut String, n: i64)
    ensures
        final(out)@ == old(out)@ + decimal_int(n as int),
{
    if n < 0 {
        out.push('-');
        let magnitude: u64 = if n == i64::MIN {
            9223372036854775808u64
        } else {
            (-n) as u64
        };
        push_decimal(out, magnitude);
    } else {
        push_decimal(out, n as u64);
    }
}

/// The decimal numeral of `n`.
pub fn decimal_string(n: u64) -> (s: String)
    ensures
        s@ == decimal_nat(n as nat),
{
    let mut s = String::new();
    push_decimal(&mut s, n);
    s
}

/// The texts of `rows`, in order.
pub open spec fn rows(rows: Seq<Vec<char>>) -> Seq<Seq<char>> {
    rows.map_values(|row: Vec<char>| row@)
}

/// The characters of `v` from `from` up to `to`.
pub fn slice(v: &Vec<char>, from: usize, to: usize) -> (part: Vec<char>)
    requires
        from <= to <= v.len(),
    ensures
        part@ == v@.subrange(from as int, to as int),
{
    let mut part: Vec<char> = Vec::new();
    let mut i: usize = from;
    while i < to
        invariant
            from <= i <= to <= v.len(),
            part@ == v@.subrange(from as int, i as int),
        decreases to - i,
    {
        part.push(v[i]);
        assert(part@ =~= v@.subrange(from as int, i + 1));
        i += 1;
    }
    part
}

/// Whether `needle` stands in `s` at position `at`.
pub open spec fn occurs_at(s: Seq<char>, needle: Seq<char>, at: int) -> bool {
    0 <= at && at + needle.len() <= s.len() && s.subrange(at, at + needle.len()) == needle
}

/// Whether `s` begins with `prefix`.
pub open spec fn starts_with(s: Seq<char>, prefix: Seq<char>) -> bool {
    occurs_at(s, prefix, 0)
}

/// The first position at or after `from` at which `needle` stands in `s`.
pub open spec fn find_from(s: Seq<char>, needle: Seq<char>, from: int) -> Option<int>
    decreases s.len() + 1 - from,
{
    if from < 0 || from + needle.len() > s.len() {
        None
    } else if occurs_at(s, needle, from) {
        Some(from)
    } else {
        find_from(s, needle, from + 1)
    }
}

/// The first position at which `needle` stands in `s`.
pub open spec fn find(s: Seq<char>, needle: Seq<char>) -> Option<int> {
    find_from(s, needle, 0)
}

/// Whether `needle` stands anywhere in `s`.
pub open spec fn contains(s: Seq<char>, needle: Seq<char>) -> bool {
    find(s, needle).is_some()
}

/// Whether `needle` stands in `s` at position `at`.
pub fn has_at(s: &Vec<char>, needle: &Vec<char>, at: usize) -> (found: bool)
    ensures
        found == occurs_at(s@, needle@, at as int),
{
    if needle.len() > s.len() || at > s.len() - needle.len() {
        return false;
    }
    let mut k: usize = 0;
    while k < needle.len()
        invariant
            at + needle.len() <= s.len(),
            k <= needle.len(),
            forall|j: int| 0 <= j < k ==> s@[at + j] == needle@[j],
        decreases needle.len() - k,
    {
        if s[at + k] != needle[k] {
            assert(s@.subrange(at as int, at + needle.len())[k as int] == s@[at + k]);
            return false;
        }
        k += 1;
    }
    assert(s@.subrange(at as int, at + needle.len()) =~= needle@);
    true
}

/// Whether `s` begins with `prefix`.
pub fn begins_with(s: &Vec<char>, prefix: &Vec<char>) -> (found: bool)
    ensures
        found == starts_with(s@, prefix@),
{
    has_at(s, prefix, 0)
}

/// The first position at which `needle` stands in `s`.
pub fn find_in(s: &Vec<char>, needle: &Vec<char>) -> (found: Option<usize>)
    ensures
        match found {
            Some(at) => find(s@, needle@) == Some(at as int),
            None => find(s@, needle@).is_none(),
        },
{
    if needle.len() > s.len() {
        return None;
    }
    let last: usize = s.len() - needle.len();
    let mut at: usize = 0;
    loop
        invariant
            last == s.len() - needle.len(),
            at <= last,
            find(s@, needle@) == find_from(s@, needle@, at as int),
        decreases last - at,
    {
        if has_at(s, needle, at) {
            return Some(at);
        }
        if at == last {
            assert(find_from(s@, needle@, at + 1).is_none());
            return None;
        }
        at += 1;
    }
}

/// Whether `needle` stands anywhere in `s`.
pub fn holds(s: &Vec<char>, needle: &Vec<char>) -> (found: bool)
    ensures
        found == contains(s@, needle@),
{
    find_in(s, needle).is_some()
}

/// The position of the first `c` in `s`, or the length of `s` where it
/// holds none.
pub open spec fn position(s: Seq<char>, c: char) -> nat
    decreases s.len(),
{
    if s.len() == 0 {
        0
    } else if s[0] == c {
        0
    } else {
        1 + position(s.drop_first(), c)
    }
}

/// `position` is the one index before which no `c` stands and at which one
/// does, or the text ends.
pub proof fn position_is_first(s: Seq<char>, c: char, at: int)
    requires
        0 <= at <= s.len(),
        forall|j: int| 0 <= j < at ==> s[j] != c,
        at < s.len() ==> s[at] == c,
    ensures
        position(s, c) == at,
    decreases s.len(),
{
    if s.len() > 0 && at > 0 {
        let rest = s.drop_first();
        assert forall|j: int| 0 <= j < at - 1 implies rest[j] != c by {
            assert(rest[j] == s[j + 1]);
        }
        position_is_first(rest, c, at - 1);
    }
}

/// The position of the first `c` in `s`, or the length of `s`.
pub fn position_of_char(s: &Vec<char>, c: char) -> (at: usize)
    ensures
        at == position(s@, c),
        at <= s.len(),
{
    let mut at: usize = 0;
    while at < s.len() && s[at] != c
        invariant
            at <= s.len(),
            forall|j: int| 0 <= j < at ==> s@[j] != c,
        decreases s.len() - at,
    {
        at += 1;
    }
    proof {
        position_is_first(s@, c, at as int);
    }
    at
}

/// What stands before the first `c` in `s`: all of `s` where it holds none.
pub open spec fn before(s: Seq<char>, c: char) -> Seq<char> {
    s.take(position(s, c) as int)
}

/// What stands after the first `c` in `s`, where it holds one.
pub open spec fn after(s: Seq<char>, c: char) -> Option<Seq<char>> {
    if position(s, c) < s.len() {
        Some(s.skip(position(s, c) as int + 1))
    } else {
        None
    }
}

/// The second of the fields into which `c` divides `s`, where there is one.
pub open spec fn second_field(s: Seq<char>, c: char) -> Option<Seq<char>> {
    match after(s, c) {
        Some(rest) => Some(before(rest, c)),
        None => None,
    }
}

/// What stands before the first `c` in `s`.
pub fn text_before(s: &Vec<char>, c: char) -> (part: Vec<char>)
    ensures
        part@ == before(s@, c),
{
    let at = position_of_char(s, c);
    slice(s, 0, at)
}

/// What stands after the first `c` in `s`, where it holds one.
pub fn text_after(s: &Vec<char>, c: char) -> (part: Option<Vec<char>>)
    ensures
        match part {
            Some(rest) => after(s@, c) == Some(rest@),
            None => after(s@, c).is_none(),
        },
{
    let at = position_of_char(s, c);
    if at < s.len() {
        Some(slice(s, at + 1, s.len()))
    } else {
        None
    }
}

/// The second of the fields into which `c` divides `s`, where there is one.
pub fn second_field_of(s: &Vec<char>, c: char) -> (field: Option<Vec<char>>)
    ensures
        match field {
            Some(text) => second_field(s@, c) == Some(text@),
            None => second_field(s@, c).is_none(),
        },
{
    match text_after(s, c) {
        Some(rest) => Some(text_before(&rest, c)),
        None => None,
    }
}

/// `line` without the carriage return that it may end in.
pub open spec fn without_carriage_return(line: Seq<char>) -> Seq<char> {
    if line.len() > 0 && line.last() == '\r' {
        line.drop_last()
    } else {
        line
    }
}

/// The lines of `s`. A line ends at a line feed, and the carriage return
/// before that line feed is not part of it; what follows the last line feed
/// is a line too, unless it is empty.
pub open spec fn lines(s: Seq<char>) -> Seq<Seq<char>>
    decreases s.len(),
{
    if s.len() == 0 {
        Seq::empty()
    } else if position(s, '\n') < s.len() {
        seq![without_carriage_return(before(s, '\n'))] + lines(s.skip(position(s, '\n') as int + 1))
    } else {
        seq![s]
    }
}

/// The lines of `s`.
pub fn lines_of(s: &Vec<char>) -> (found: Vec<Vec<char>>)
    ensures
        rows(found@) == lines(s@),
{
    let mut found: Vec<Vec<char>> = Vec::new();
    let mut start: usize = 0;
    assert(s@.skip(0) =~= s@);
    assert(rows(found@) + lines(s@) =~= lines(s@));
    while start < s.len()
        invariant
            start <= s.len(),
            lines(s@) == rows(found@) + lines(s@.skip(start as int)),
        decreases s.len() - start,
    {
        let ghost rest = s@.skip(start as int);
        let ghost done = rows(found@);
        let mut end: usize = start;
        while end < s.len() && s[end] != '\n'
            invariant
                start <= end <= s.len(),
                rest == s@.skip(start as int),
                forall|j: int| 0 <= j < end - start ==> rest[j] != '\n',
            decreases s.len() - end,
        {
            end += 1;
        }
        proof {
            position_is_first(rest, '\n', end - start);
        }
        if end < s.len() {
            let stop: usize = if end > start && s[end - 1] == '\r' {
                end - 1
            } else {
                end
            };
            let line = slice(s, start, stop);
            proof {
                assert(before(rest, '\n') =~= s@.subrange(start as int, end as int));
                assert(line@ =~= without_carriage_return(before(rest, '\n')));
                assert(rest.skip(end - start + 1) =~= s@.skip(end + 1));
            }
            found.push(line);
            assert(rows(found@) =~= done + seq![line@]);
            assert(done + (seq![line@] + lines(s@.skip(end + 1))) =~= (done + seq![line@]) + lines(
                s@.skip(end + 1),
            ));
            start = end + 1;
        } else {
            let line = slice(s, start, end);
            assert(line@ =~= rest);
            found.push(line);
            assert(rows(found@) =~= done + seq![rest]);
            start = end;
            assert(s@.skip(start as int) =~= Seq::<char>::empty());
            assert(done + seq![rest] + Seq::<Seq<char>>::empty() =~= done + seq![rest]);
        }
    }
    assert(s@.skip(start as int) =~= Seq::<char>::empty());
    assert(rows(found@) + Seq::<Seq<char>>::empty() =~= rows(found@));
    found
}

/// Whether `c` is white space: the characters that Unicode marks as such.
pub open spec fn is_whitespace(c: char) -> bool {
    let code = c as u32;
    (0x09 <= code <= 0x0D) || code == 0x20 || code == 0x85 || code == 0xA0 || code == 0x1680 || (
    0x2000 <= code <= 0x200A) || code == 0x2028 || code == 0x2029 || code == 0x202F || code
        == 0x205F || code == 0x3000
}

/// Whether `c` is white space.
pub fn is_space(c: char) -> (space: bool)
    ensures
        space == is_whitespace(c),
{
    let code: u32 = c as u32;
    (0x09 <= code && code <= 0x0D) || code == 0x20 || code == 0x85 || code == 0xA0 || code
        == 0x1680 || (0x2000 <= code && code <= 0x200A) || code == 0x2028 || code == 0x2029 || code
        == 0x202F || code == 0x205F || code == 0x3000
}

/// `s` without the white space that it begins with.
pub open spec fn trim_start(s: Seq<char>) -> Seq<char>
    decreases s.len(),
{
    if s.len() > 0 && is_whitespace(s[0]) {
        trim_start(s.drop_first())
    } else {
        s
    }
}

/// `s` without the white space that it ends in.
pub open spec fn trim_end(s: Seq<char>) -> Seq<char>
    decreases s.len(),
{
    if s.len() > 0 && is_whitespace(s.last()) {
        trim_end(s.drop_last())
    } else {
        s
    }
}

/// `s` without the white space around it.
pub open spec fn trim(s: Seq<char>) -> Seq<char> {
    trim_end(trim_start(s))
}

/// `s` without the white space around it.
pub fn trimmed(s: &Vec<char>) -> (inner: Vec<char>)
    ensures
        inner@ == trim(s@),
{
    let mut from: usize = 0;
    assert(s@.skip(0) =~= s@);
    while from < s.len() && is_space(s[from])
        invariant
            from <= s.len(),
            trim_start(s@) == trim_start(s@.skip(from as int)),
        decreases s.len() - from,
    {
        assert(s@.skip(from as int).drop_first() =~= s@.skip(from + 1));
        from += 1;
    }
    let ghost tail = s@.skip(from as int);
    assert(trim_start(s@) == tail);
    let mut to: usize = s.len();
    assert(tail =~= s@.subrange(from as int, to as int));
    while to > from && is_space(s[to - 1])
        invariant
            from <= to <= s.len(),
            trim_end(tail) == trim_end(s@.subrange(from as int, to as int)),
        decreases to - from,
    {
        assert(s@.subrange(from as int, to as int).drop_last() =~= s@.subrange(
            from as int,
            to - 1,
        ));
        to -= 1;
    }
    slice(s, from, to)
}

/// `s` without any occurrence of `pattern`, read from the left.
pub open spec fn without(s: Seq<char>, pattern: Seq<char>) -> Seq<char>
    decreases s.len(),
{
    if pattern.len() == 0 || s.len() == 0 {
        s
    } else if starts_with(s, pattern) {
        without(s.skip(pattern.len() as int), pattern)
    } else {
        seq![s[0]] + without(s.drop_first(), pattern)
    }
}

/// `s` without any occurrence of `pattern`.
pub fn strip_all(s: &Vec<char>, pattern: &Vec<char>) -> (kept: Vec<char>)
    ensures
        kept@ == without(s@, pattern@),
{
    if pattern.len() == 0 {
        return slice(s, 0, s.len());
    }
    let mut kept: Vec<char> = Vec::new();
    let mut at: usize = 0;
    assert(s@.skip(0) =~= s@);
    assert(kept@ + without(s@, pattern@) =~= without(s@, pattern@));
    while at < s.len()
        invariant
            at <= s.len(),
            pattern.len() > 0,
            without(s@, pattern@) == kept@ + without(s@.skip(at as int), pattern@),
        decreases s.len() - at,
    {
        let ghost rest = s@.skip(at as int);
        let ghost done = kept@;
        if has_at(s, pattern, at) {
            assert(rest.subrange(0, pattern.len() as int) =~= s@.subrange(
                at as int,
                at + pattern.len(),
            ));
            assert(rest.skip(pattern.len() as int) =~= s@.skip(at + pattern.len()));
            at += pattern.len();
        } else {
            assert(!starts_with(rest, pattern@)) by {
                if at + pattern.len() <= s.len() {
                    assert(rest.subrange(0, pattern.len() as int) =~= s@.subrange(
                        at as int,
                        at + pattern.len(),
                    ));
                }
            }
            kept.push(s[at]);
            assert(rest.drop_first() =~= s@.skip(at + 1));
            assert(done + (seq![rest[0]] + without(s@.skip(at + 1), pattern@)) =~= kept@ + without(
                s@.skip(at + 1),
                pattern@,
            ));
            at += 1;
        }
    }
    assert(kept@ + Seq::<char>::empty() =~= kept@);
    kept
}

/// The value of the decimal digit `c`.
pub open spec fn digit_value(c: char) -> Option<nat> {
    let code = c as u32;
    if 48 <= code <= 57 {
        Some((code - 48) as nat)
    } else {
        None
    }
}

/// The number that the decimal digits `s` write; none where `s` is empty or
/// holds anything but digits.
pub open spec fn digits_value(s: Seq<char>) -> Option<nat>
    decreases s.len(),
{
    if s.len() == 0 {
        None
    } else {
        match digit_value(s.last()) {
            None => None,
            Some(digit) => if s.len() == 1 {
                Some(digit)
            } else {
                match digits_value(s.drop_last()) {
                    Some(value) => Some(value * 10 + digit),
                    None => None,
                }
            },
        }
    }
}

/// The number that `s` writes in decimal, with an optional plus sign before
/// the digits; none where it is no such numeral or is above `max`.
pub open spec fn parse_unsigned(s: Seq<char>, max: nat) -> Option<nat> {
    let digits = if s.len() > 0 && s[0] == '+' {
        s.drop_first()
    } else {
        s
    };
    match digits_value(digits) {
        Some(value) => if value <= max {
            Some(value)
        } else {
            None
        },
        None => None,
    }
}

/// A numeral is at least as large as each numeral that it begins with, and
/// text that begins with something other than digits is no numeral.
pub proof fn digits_grow(s: Seq<char>, k: int)
    requires
        0 < k <= s.len(),
    ensures
        digits_value(s.take(k)).is_none() ==> digits_value(s).is_none(),
        digits_value(s).is_some() ==> digits_value(s).unwrap() >= digits_value(s.take(k)).unwrap(),
    decreases s.len() - k,
{
    if k == s.len() {
        assert(s.take(k) =~= s);
    } else {
        assert(s.drop_last().take(k) =~= s.take(k));
        digits_grow(s.drop_last(), k);
    }
}

/// Reads `s` as an unsigned decimal numeral.
pub fn parse_u64(s: &Vec<char>) -> (parsed: Option<u64>)
    ensures
        match parsed {
            Some(value) => parse_unsigned(s@, u64::MAX as nat) == Some(value as nat),
            None => parse_unsigned(s@, u64::MAX as nat).is_none(),
        },
{
    let from: usize = if s.len() > 0 && s[0] == '+' {
        1
    } else {
        0
    };
    let ghost digits = s@.skip(from as int);
    assert(from == 1 ==> digits =~= s@.drop_first());
    assert(from == 0 ==> digits =~= s@);
    if from == s.len() {
        return None;
    }
    let mut value: u64 = 0;
    let mut at: usize = from;
    while at < s.len()
        invariant
            from <= at <= s.len(),
            from < s.len(),
            digits == s@.skip(from as int),
            digits == if s@.len() > 0 && s@[0] == '+' {
                s@.drop_first()
            } else {
                s@
            },
            at > from ==> digits_value(digits.take(at - from)) == Some(value as nat),
            at == from ==> value == 0,
        decreases s.len() - at,
    {
        let code: u32 = s[at] as u32;
        let ghost upto = digits.take(at - from + 1);
        assert(upto.last() == s@[at as int]);
        assert(upto.drop_last() =~= digits.take(at - from));
        if code < 48 || code > 57 {
            proof {
                assert(digit_value(upto.last()).is_none());
                assert(digits_value(upto).is_none());
                digits_grow(digits, at - from + 1);
            }
            return None;
        }
        let digit: u64 = (code - 48) as u64;
        assert(digit_value(upto.last()) == Some(digit as nat));
        assert(digits_value(upto) == Some((value * 10 + digit) as nat)) by {
            if at == from {
                assert(upto.len() == 1);
            } else {
                assert(upto.len() > 1);
            }
        }
        if value > (u64::MAX - digit) / 10 {
            proof {
                assert(value * 10 + digit > u64::MAX);
                digits_grow(digits, at - from + 1);
            }
            return None;
        }
        value = value * 10 + digit;
        at += 1;
    }
    assert(digits.take(at - from) =~= digits);
    Some(value)
}

/// The lowercase form of `s` as `str::to_lowercase` gives it.
pub uninterp spec fn lowercase(s: Seq<char>) -> Seq<char>;

/// `str::to_lowercase`: the lowercase form of `s` by the Unicode rules,
/// which fill tables; the result is a function of the text alone and is
/// known here by name only.
#[verifier::external_body]
pub(crate) fn to_lowercase(s: &str) -> (lower: String)
    ensures
        lower@ == lowercase(s@),
{
    s.to_lowercase()
}

/// The text that `found` holds, if any.
pub open spec fn optional(found: Option<Vec<char>>) -> Option<Seq<char>> {
    match found {
        Some(text) => Some(text@),
        None => None,
    }
}

/// Whether `a` and `b` hold the same text.
pub fn same_text(a: &Vec<char>, b: &Vec<char>) -> (same: bool)
    ensures
        same == (a@ == b@),
{
    if a.len() != b.len() {
        return false;
    }
    let same = has_at(a, b, 0);
    assert(a@.subrange(0, a@.len() as int) =~= a@);
    same
}

/// The four characters that follow the first `marker` in `s`; the empty
/// text where `s` holds no `marker`, or fewer than four characters after it.
pub open spec fn code_after(s: Seq<char>, marker: Seq<char>) -> Seq<char> {
    match find(s, marker) {
        Some(at) => if at + marker.len() + 4 <= s.len() {
            s.subrange(at + marker.len(), at + marker.len() + 4)
        } else {
            Seq::empty()
        },
        None => Seq::empty(),
    }
}

/// The four characters that follow the first `marker` in `s`.
pub fn code_after_marker(s: &Vec<char>, marker: &Vec<char>) -> (code: Vec<char>)
    ensures
        code@ == code_after(s@, marker@),
{
    match find_in(s, marker) {
        Some(at) => {
            assert(at + marker.len() <= s.len()) by {
                find_is_an_occurrence(s@, marker@, 0);
            }
            let from: usize = at + marker.len();
            if s.len() - from >= 4 {
                slice(s, from, from + 4)
            } else {
                Vec::new()
            }
        },
        None => Vec::new(),
    }
}

/// What `find_from` finds is a place at which `needle` stands.
pub proof fn find_is_an_occurrence(s: Seq<char>, needle: Seq<char>, from: int)
    ensures
        match find_from(s, needle, from) {
            Some(at) => from <= at && occurs_at(s, needle, at),
            None => true,
        },
    decreases s.len() + 1 - from,
{
    if from < 0 || from + needle.len() > s.len() {
    } else if occurs_at(s, needle, from) {
    } else {
        find_is_an_occurrence(s, needle, from + 1);
    }
}

} // verus!
