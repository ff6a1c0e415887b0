//! Characters, strings and sequences of characters.
//!
//! The algorithms of this crate work on `Vec<char>`; their contracts are
//! stated over `Seq<char>`. This module converts between `String` and
//! `Vec<char>` and holds the searching, splitting, trimming and number
//! formatting that the rest of the crate builds on.

use vstd::prelude::*;
use vstd::std_specs::iter::IteratorSpec;

verus! {

/// The characters of `s`, in order.
pub fn chars_of(s: &str) -> (r: Vec<char>)
    ensures
        r@ == s@,
{
    let mut out: Vec<char> = Vec::new();
    let mut it = s.chars();
    loop
        invariant
            out@ + it.remaining() == s@,
            it.obeys_prophetic_iter_laws(),
            it.decrease() is Some,
        decreases it.decrease()->0,
    {
        let ghost before = it;
        match it.next() {
            Some(c) => {
                assert(out@.push(c) + it.remaining() =~= out@ + before.remaining());
                out.push(c);
            },
            None => {
                assert(out@ + it.remaining() =~= out@);
                return out;
            },
        }
    }
}

/// `String::push` of std: appends one character to the end of the string.
#[verifier::external_body]
fn push_char(s: &mut String, c: char)
    ensures
        final(s)@ == old(s)@.push(c),
{
    s.push(c);
}

/// The string that holds the characters of `v`, in order.
pub fn string_of(v: &Vec<char>) -> (r: String)
    ensures
        r@ == v@,
{
    let mut out = String::new();
    let mut i: usize = 0;
    while i < v.len()
        invariant
            i <= v.len(),
            out@ == v@.take(i as int),
        decreases v.len() - i,
    {
        push_char(&mut out, v[i]);
        assert(v@.take(i as int).push(v@[i as int]) =~= v@.take(i as int + 1));
        i += 1;
    }
    assert(v@.take(v.len() as int) =~= v@);
    out
}

/// Whether two string slices hold the same characters.
pub fn str_eq(a: &str, b: &str) -> (r: bool)
    ensures
        r == (a@ == b@),
{
    let x = String::from_str(a);
    let y = String::from_str(b);
    x == y
}

/// `a` followed by `b`.
pub fn concat(a: &str, b: &str) -> (r: String)
    ensures
        r@ == a@ + b@,
{
    let mut out = String::from_str(a);
    out.append(b);
    out
}

/// `a`, `b` and `c` in a row.
pub fn concat3(a: &str, b: &str, c: &str) -> (r: String)
    ensures
        r@ == a@ + b@ + c@,
{
    let mut out = String::from_str(a);
    out.append(b);
    out.append(c);
    out
}

/// Appends the elements of `src` to `dst`.
pub fn extend_chars(dst: &mut Vec<char>, src: &Vec<char>)
    ensures
        final(dst)@ == old(dst)@ + src@,
{
    let mut i: usize = 0;
    while i < src.len()
        invariant
            i <= src.len(),
            dst@ == old(dst)@ + src@.take(i as int),
        decreases src.len() - i,
    {
        dst.push(src[i]);
        assert((old(dst)@ + src@.take(i as int)).push(src@[i as int]) =~= old(dst)@ + src@.take(
            i as int + 1,
        ));
        i += 1;
    }
    assert(src@.take(src.len() as int) =~= src@);
}

/// A copy of the part of `v` from `from` up to, not including, `to`.
pub fn slice_chars(v: &Vec<char>, from: usize, to: usize) -> (r: Vec<char>)
    requires
        from <= to <= v.len(),
    ensures
        r@ == v@.subrange(from as int, to as int),
{
    let mut out: Vec<char> = Vec::new();
    let mut i: usize = from;
    while i < to
        invariant
            from <= i <= to <= v.len(),
            out@ == v@.subrange(from as int, i as int),
        decreases to - i,
    {
        out.push(v[i]);
        assert(v@.subrange(from as int, i as int).push(v@[i as int]) =~= v@.subrange(
            from as int,
            i as int + 1,
        ));
        i += 1;
    }
    out
}

/// Whether `needle` stands in `hay` at index `at`.
pub open spec fn occurs_at(hay: Seq<char>, needle: Seq<char>, at: int) -> bool {
    0 <= at && at + needle.len() <= hay.len() && hay.subrange(at, at + needle.len()) == needle
}

/// Whether `needle` stands somewhere in `hay`.
pub open spec fn occurs_in(hay: Seq<char>, needle: Seq<char>) -> bool {
    exists|at: int| occurs_at(hay, needle, at)
}

/// Whether `hay` begins with `prefix`.
pub open spec fn has_prefix(hay: Seq<char>, prefix: Seq<char>) -> bool {
    occurs_at(hay, prefix, 0)
}

/// Whether `hay` ends with `suffix`.
pub open spec fn has_suffix(hay: Seq<char>, suffix: Seq<char>) -> bool {
    occurs_at(hay, suffix, hay.len() - suffix.len())
}

/// Tests whether `needle` stands in `hay` at index `at`.
pub fn matches_at(hay: &Vec<char>, needle: &Vec<char>, at: usize) -> (r: bool)
    ensures
        r == occurs_at(hay@, needle@, at as int),
{
    if needle.len() > hay.len() || at > hay.len() - needle.len() {
        return false;
    }
    let mut i: usize = 0;
    while i < needle.len()
        invariant
            i <= needle.len(),
            at + needle.len() <= hay.len(),
            forall|j: int| 0 <= j < i ==> hay@[at + j] == needle@[j],
        decreases needle.len() - i,
    {
        if hay[at + i] != needle[i] {
            assert(hay@.subrange(at as int, at + needle.len())[i as int] != needle@[i as int]);
            return false;
        }
        i += 1;
    }
    assert(hay@.subrange(at as int, at + needle.len()) =~= needle@);
    true
}

/// The first index at or after `from` where `needle` stands in `hay`.
pub open spec fn first_occurrence(hay: Seq<char>, needle: Seq<char>, from: int) -> Option<int>
    decreases hay.len() - from + 1,
{
    if from < 0 || from + needle.len() > hay.len() {
        None
    } else if occurs_at(hay, needle, from) {
        Some(from)
    } else {
        first_occurrence(hay, needle, from + 1)
    }
}

/// What `first_occurrence` finds is an occurrence, and the earliest one.
pub proof fn lemma_first_occurrence(hay: Seq<char>, needle: Seq<char>, from: int)
    requires
        0 <= from,
    ensures
        first_occurrence(hay, needle, from) matches Some(at) ==> from <= at && occurs_at(
            hay,
            needle,
            at,
        ) && forall|k: int| from <= k < at ==> !occurs_at(hay, needle, k),
        first_occurrence(hay, needle, from) is None ==> forall|k: int|
            from <= k ==> !occurs_at(hay, needle, k),
    decreases hay.len() - from + 1,
{
    if from + needle.len() > hay.len() {
    } else if occurs_at(hay, needle, from) {
    } else {
        lemma_first_occurrence(hay, needle, from + 1);
    }
}

/// Searches `hay` for `needle`, starting at `from`.
pub fn find_from(hay: &Vec<char>, needle: &Vec<char>, from: usize) -> (r: Option<usize>)
    ensures
        r matches Some(at) ==> first_occurrence(hay@, needle@, from as int) == Some(at as int),
        r is None ==> first_occurrence(hay@, needle@, from as int) is None,
{
    if needle.len() > hay.len() || from > hay.len() - needle.len() {
        return None;
    }
    let last: usize = hay.len() - needle.len();
    let mut i: usize = from;
    loop
        invariant
            from <= i <= last,
            last == hay.len() - needle.len(),
            first_occurrence(hay@, needle@, from as int) == first_occurrence(
                hay@,
                needle@,
                i as int,
            ),
        decreases last - i,
    {
        if matches_at(hay, needle, i) {
            return Some(i);
        }
        if i == last {
            assert(first_occurrence(hay@, needle@, i as int + 1) is None);
            return None;
        }
        i += 1;
    }
}

/// Tests whether `needle` stands somewhere in `hay`.
pub fn contains_chars(hay: &Vec<char>, needle: &Vec<char>) -> (r: bool)
    ensures
        r == occurs_in(hay@, needle@),
{
    proof {
        lemma_first_occurrence(hay@, needle@, 0);
    }
    match find_from(hay, needle, 0) {
        Some(at) => true,
        None => {
            assert forall|at: int| !occurs_at(hay@, needle@, at) by {}
            false
        },
    }
}

/// Tests whether `hay` begins with `prefix`.
pub fn starts_with_chars(hay: &Vec<char>, prefix: &Vec<char>) -> (r: bool)
    ensures
        r == has_prefix(hay@, prefix@),
{
    matches_at(hay, prefix, 0)
}

/// Tests whether `hay` ends with `suffix`.
pub fn ends_with_chars(hay: &Vec<char>, suffix: &Vec<char>) -> (r: bool)
    ensures
        r == has_suffix(hay@, suffix@),
{
    if suffix.len() > hay.len() {
        return false;
    }
    matches_at(hay, suffix, hay.len() - suffix.len())
}

/// `hay` from index `pos` on, with every occurrence of `from` replaced by
/// `to`, scanning from the left and never looking into a replacement.
pub open spec fn replace_from(hay: Seq<char>, from: Seq<char>, to: Seq<char>, pos: int) -> Seq<
    char,
>
    decreases hay.len() - pos,
{
    if from.len() == 0 || pos < 0 || pos > hay.len() {
        Seq::empty()
    } else {
        match first_occurrence(hay, from, pos) {
            Some(at) => if pos <= at && at + from.len() <= hay.len() {
                hay.subrange(pos, at) + to + replace_from(hay, from, to, at + from.len())
            } else {
                Seq::empty()
            },
            None => hay.subrange(pos, hay.len() as int),
        }
    }
}

/// `hay` with every occurrence of the pattern `from` replaced by `to`. An
/// empty pattern occurs nowhere.
pub open spec fn replace_all(hay: Seq<char>, from: Seq<char>, to: Seq<char>) -> Seq<char> {
    if from.len() == 0 {
        hay
    } else {
        replace_from(hay, from, to, 0)
    }
}

/// Replaces every occurrence of `from` in `hay` by `to`.
pub fn replace_chars(hay: &Vec<char>, from: &Vec<char>, to: &Vec<char>) -> (r: Vec<char>)
    ensures
        r@ == replace_all(hay@, from@, to@),
{
    if from.len() == 0 {
        return slice_chars(hay, 0, hay.len());
    }
    let mut out: Vec<char> = Vec::new();
    let mut pos: usize = 0;
    loop
        invariant
            from.len() > 0,
            pos <= hay.len(),
            out@ + replace_from(hay@, from@, to@, pos as int) == replace_from(hay@, from@, to@, 0),
        decreases hay.len() - pos,
    {
        proof {
            lemma_first_occurrence(hay@, from@, pos as int);
        }
        match find_from(hay, from, pos) {
            Some(at) => {
                let ghost before = out@;
                let piece = slice_chars(hay, pos, at);
                extend_chars(&mut out, &piece);
                extend_chars(&mut out, to);
                assert(out@ + replace_from(hay@, from@, to@, at + from.len()) =~= before
                    + replace_from(hay@, from@, to@, pos as int));
                pos = at + from.len();
            },
            None => {
                let piece = slice_chars(hay, pos, hay.len());
                extend_chars(&mut out, &piece);
                return out;
            },
        }
    }
}

/// The pieces of `hay` from index `pos` on that lie between occurrences of
/// the separator `sep`.
pub open spec fn split_from(hay: Seq<char>, sep: Seq<char>, pos: int) -> Seq<Seq<char>>
    decreases hay.len() - pos,
{
    if sep.len() == 0 || pos < 0 || pos > hay.len() {
        Seq::empty()
    } else {
        match first_occurrence(hay, sep, pos) {
            Some(at) => if pos <= at && at + sep.len() <= hay.len() {
                seq![hay.subrange(pos, at)] + split_from(hay, sep, at + sep.len())
            } else {
                Seq::empty()
            },
            None => seq![hay.subrange(pos, hay.len() as int)],
        }
    }
}

/// The pieces of `hay` between occurrences of `sep`. With an empty
/// separator these are an empty piece, every character by itself, and an
/// empty piece again.
pub open spec fn split_text(hay: Seq<char>, sep: Seq<char>) -> Seq<Seq<char>> {
    if sep.len() == 0 {
        seq![Seq::<char>::empty()] + Seq::new(hay.len(), |i: int| seq![hay[i]]) + seq![
            Seq::<char>::empty(),
        ]
    } else {
        split_from(hay, sep, 0)
    }
}

/// Splits `hay` at every occurrence of `sep`.
pub fn split_chars(hay: &Vec<char>, sep: &Vec<char>) -> (r: Vec<Vec<char>>)
    ensures
        r@.len() == split_text(hay@, sep@).len(),
        forall|i: int| 0 <= i < r@.len() ==> (#[trigger] r@[i])@ == split_text(hay@, sep@)[i],
{
    let mut out: Vec<Vec<char>> = Vec::new();
    if sep.len() == 0 {
        out.push(Vec::new());
        let mut i: usize = 0;
        while i < hay.len()
            invariant
                i <= hay.len(),
                out@.len() == i + 1,
                out@[0]@ == Seq::<char>::empty(),
                forall|j: int| 0 <= j < i ==> (#[trigger] out@[j + 1])@ == seq![hay@[j]],
            decreases hay.len() - i,
        {
            let mut one: Vec<char> = Vec::new();
            one.push(hay[i]);
            assert(one@ =~= seq![hay@[i as int]]);
            out.push(one);
            i += 1;
        }
        out.push(Vec::new());
        assert forall|k: int| 0 <= k < out@.len() implies (#[trigger] out@[k])@ == split_text(
            hay@,
            sep@,
        )[k] by {
            if 0 < k < out@.len() - 1 {
                assert(out@[(k - 1) + 1]@ == seq![hay@[k - 1]]);
            }
        }
        return out;
    }
    let mut pos: usize = 0;
    loop
        invariant
            sep.len() > 0,
            pos <= hay.len(),
            out@.len() + split_from(hay@, sep@, pos as int).len() == split_from(hay@, sep@, 0).len(),
            forall|j: int| 0 <= j < out@.len() ==> (#[trigger] out@[j])@ == split_from(hay@, sep@, 0)[j],
            forall|j: int|
                0 <= j < split_from(hay@, sep@, pos as int).len() ==> #[trigger] split_from(
                    hay@,
                    sep@,
                    pos as int,
                )[j] == split_from(hay@, sep@, 0)[out@.len() + j],
        decreases hay.len() - pos,
    {
        proof {
            lemma_first_occurrence(hay@, sep@, pos as int);
        }
        let ghost rest = split_from(hay@, sep@, pos as int);
        match find_from(hay, sep, pos) {
            Some(at) => {
                let piece = slice_chars(hay, pos, at);
                let ghost next = split_from(hay@, sep@, at + sep.len());
                assert(rest =~= seq![hay@.subrange(pos as int, at as int)] + next);
                assert(rest[0] == piece@);
                assert forall|j: int| 0 <= j < next.len() implies #[trigger] next[j] == split_from(
                    hay@,
                    sep@,
                    0,
                )[out@.len() + 1 + j] by {
                    assert(next[j] == rest[j + 1]);
                }
                out.push(piece);
                pos = at + sep.len();
            },
            None => {
                let piece = slice_chars(hay, pos, hay.len());
                assert(rest =~= seq![piece@]);
                assert(rest[0] == piece@);
                out.push(piece);
                return out;
            },
        }
    }
}

/// The parts in a row, with `sep` between each two neighbours.
pub open spec fn join_text(parts: Seq<Seq<char>>, sep: Seq<char>) -> Seq<char>
    decreases parts.len(),
{
    if parts.len() == 0 {
        Seq::empty()
    } else if parts.len() == 1 {
        parts[0]
    } else {
        join_text(parts.drop_last(), sep) + sep + parts.last()
    }
}

/// The views of the elements of `parts`.
pub open spec fn char_rows(parts: Seq<Vec<char>>) -> Seq<Seq<char>> {
    Seq::new(parts.len(), |i: int| parts[i]@)
}

/// Joins `parts` with `sep` between each two neighbours.
pub fn join_chars(parts: &Vec<Vec<char>>, sep: &Vec<char>) -> (r: Vec<char>)
    ensures
        r@ == join_text(char_rows(parts@), sep@),
{
    let mut out: Vec<char> = Vec::new();
    let mut i: usize = 0;
    let ghost rows = char_rows(parts@);
    while i < parts.len()
        invariant
            i <= parts.len(),
            rows == char_rows(parts@),
            out@ == join_text(rows.take(i as int), sep@),
        decreases parts.len() - i,
    {
        if i > 0 {
            extend_chars(&mut out, sep);
        }
        extend_chars(&mut out, &parts[i]);
        proof {
            let next = rows.take(i as int + 1);
            assert(next.drop_last() =~= rows.take(i as int));
            assert(next.last() == parts@[i as int]@);
            if i == 0 {
                assert(out@ =~= next[0]);
            }
        }
        i += 1;
    }
    assert(rows.take(parts.len() as int) =~= rows);
    out
}

/// Whether `c` is one of `0` to `9`.
pub open spec fn is_dec_digit(c: char) -> bool {
    '0' <= c <= '9'
}

/// Whether `c` is one of `0` to `7`.
pub open spec fn is_oct_digit(c: char) -> bool {
    '0' <= c <= '7'
}

/// Whether `c` is a digit, or a letter from `a` to `f` in either case.
pub open spec fn is_hex_digit(c: char) -> bool {
    is_dec_digit(c) || ('a' <= c <= 'f') || ('A' <= c <= 'F')
}

/// Whether `c` is an ASCII letter.
pub open spec fn is_ascii_letter(c: char) -> bool {
    ('a' <= c <= 'z') || ('A' <= c <= 'Z')
}

/// Whether `c` is an ASCII letter or digit.
pub open spec fn is_ascii_alnum(c: char) -> bool {
    is_ascii_letter(c) || is_dec_digit(c)
}

/// What the digit `c` counts for: 0 to 15 for a hexadecimal digit, 16 for
/// any other character.
pub open spec fn digit_value(c: char) -> int {
    if is_dec_digit(c) {
        c as int - '0' as int
    } else if 'a' <= c <= 'f' {
        c as int - 'a' as int + 10
    } else if 'A' <= c <= 'F' {
        c as int - 'A' as int + 10
    } else {
        16
    }
}

pub fn dec_digit(c: char) -> (r: bool)
    ensures
        r == is_dec_digit(c),
{
    '0' <= c && c <= '9'
}

pub fn oct_digit(c: char) -> (r: bool)
    ensures
        r == is_oct_digit(c),
{
    '0' <= c && c <= '7'
}

pub fn hex_digit(c: char) -> (r: bool)
    ensures
        r == is_hex_digit(c),
{
    ('0' <= c && c <= '9') || ('a' <= c && c <= 'f') || ('A' <= c && c <= 'F')
}

pub fn ascii_letter(c: char) -> (r: bool)
    ensures
        r == is_ascii_letter(c),
{
    ('a' <= c && c <= 'z') || ('A' <= c && c <= 'Z')
}

pub fn ascii_alnum(c: char) -> (r: bool)
    ensures
        r == is_ascii_alnum(c),
{
    ascii_letter(c) || dec_digit(c)
}

/// The value of the digit `c`, 16 where it is no hexadecimal digit.
pub fn digit_of(c: char) -> (r: u32)
    ensures
        r == digit_value(c),
        r <= 16,
{
    if '0' <= c && c <= '9' {
        c as u32 - '0' as u32
    } else if 'a' <= c && c <= 'f' {
        c as u32 - 'a' as u32 + 10
    } else if 'A' <= c && c <= 'F' {
        c as u32 - 'A' as u32 + 10
    } else {
        16
    }
}

/// Whether every character of `s` is a digit of the base `radix`.
pub open spec fn all_digits(s: Seq<char>, radix: int) -> bool {
    forall|i: int| 0 <= i < s.len() ==> digit_value(#[trigger] s[i]) < radix
}

/// The number that the digits `s` write in base `radix`.
pub open spec fn digits_number(s: Seq<char>, radix: int) -> int
    decreases s.len(),
{
    if s.len() == 0 {
        0
    } else {
        digits_number(s.drop_last(), radix) * radix + digit_value(s.last())
    }
}

/// What reading `s` as a number in base `radix` gives, with an upper
/// limit: the number, where `s` is a nonempty row of digits that writes a
/// number up to `limit`; nothing otherwise.
pub open spec fn parsed_number(s: Seq<char>, radix: int, limit: int) -> Option<int> {
    if s.len() > 0 && all_digits(s, radix) && digits_number(s, radix) <= limit {
        Some(digits_number(s, radix))
    } else {
        None
    }
}

/// A longer row of digits writes no smaller number.
pub proof fn lemma_digits_number_grows(s: Seq<char>, radix: int, n: int)
    requires
        2 <= radix <= 16,
        0 <= n <= s.len(),
        all_digits(s, radix),
    ensures
        0 <= digits_number(s.take(n), radix) <= digits_number(s, radix),
    decreases s.len() - n,
{
    lemma_digits_number_nonneg(s.take(n), radix);
    if n == s.len() {
        assert(s.take(n) =~= s);
    } else {
        lemma_digits_number_grows(s, radix, n + 1);
        let t = s.take(n + 1);
        assert(t.drop_last() =~= s.take(n));
        assert(digit_value(t.last()) >= 0);
        let a = digits_number(s.take(n), radix);
        assert(a * radix >= a) by (nonlinear_arith)
            requires
                a >= 0,
                radix >= 2,
        ;
    }
}

/// A row of digits writes a number that is not negative.
pub proof fn lemma_digits_number_nonneg(s: Seq<char>, radix: int)
    requires
        2 <= radix <= 16,
    ensures
        0 <= digits_number(s, radix),
    decreases s.len(),
{
    if s.len() > 0 {
        lemma_digits_number_nonneg(s.drop_last(), radix);
        let a = digits_number(s.drop_last(), radix);
        assert(a * radix >= 0) by (nonlinear_arith)
            requires
                a >= 0,
                radix >= 2,
        ;
    }
}

/// Reads `s` as a number in base `radix` that may not exceed `limit`.
pub fn parse_digits(s: &Vec<char>, radix: u32, limit: u64) -> (r: Option<u64>)
    requires
        2 <= radix <= 16,
    ensures
        r matches Some(n) ==> parsed_number(s@, radix as int, limit as int) == Some(n as int),
        r is None ==> parsed_number(s@, radix as int, limit as int) is None,
{
    if s.len() == 0 {
        return None;
    }
    let mut acc: u64 = 0;
    let mut i: usize = 0;
    while i < s.len()
        invariant
            2 <= radix <= 16,
            i <= s.len(),
            all_digits(s@.take(i as int), radix as int),
            acc == digits_number(s@.take(i as int), radix as int),
            acc <= limit,
        decreases s.len() - i,
    {
        let d = digit_of(s[i]);
        if d >= radix {
            assert(!all_digits(s@, radix as int));
            return None;
        }
        let ghost t = s@.take(i as int + 1);
        assert(t.drop_last() =~= s@.take(i as int));
        assert(t.last() == s@[i as int]);
        assert(all_digits(t, radix as int)) by {
            assert forall|j: int| 0 <= j < t.len() implies digit_value(#[trigger] t[j])
                < radix by {
                if j < i {
                    assert(s@.take(i as int)[j] == t[j]);
                }
            }
        }
        assert(acc * radix <= 0xffff_ffff_ffff_ffff * 16) by (nonlinear_arith)
            requires
                0 <= acc <= 0xffff_ffff_ffff_ffff,
                0 <= radix <= 16,
        ;
        let next: u128 = acc as u128 * radix as u128 + d as u128;
        if next > limit as u128 {
            proof {
                if all_digits(s@, radix as int) {
                    lemma_digits_number_grows(s@, radix as int, i as int + 1);
                }
            }
            return None;
        }
        acc = next as u64;
        i += 1;
    }
    assert(s@.take(s.len() as int) =~= s@);
    Some(acc)
}

/// The character that writes the digit `d`.
pub open spec fn digit_char(d: int) -> char {
    if d == 0 {
        '0'
    } else if d == 1 {
        '1'
    } else if d == 2 {
        '2'
    } else if d == 3 {
        '3'
    } else if d == 4 {
        '4'
    } else if d == 5 {
        '5'
    } else if d == 6 {
        '6'
    } else if d == 7 {
        '7'
    } else if d == 8 {
        '8'
    } else {
        '9'
    }
}

/// The decimal digits of `n`, most significant first, without leading zeros.
pub open spec fn nat_text(n: nat) -> Seq<char>
    decreases n,
{
    if n < 10 {
        seq![digit_char(n as int)]
    } else {
        nat_text(n / 10).push(digit_char((n % 10) as int))
    }
}

/// The decimal text of `i`, with a minus sign where it is negative.
pub open spec fn int_text(i: int) -> Seq<char> {
    if i < 0 {
        seq!['-'] + nat_text((-i) as nat)
    } else {
        nat_text(i as nat)
    }
}

fn digit_to_char(d: u64) -> (c: char)
    requires
        d < 10,
    ensures
        c == digit_char(d as int),
{
    if d == 0 {
        '0'
    } else if d == 1 {
        '1'
    } else if d == 2 {
        '2'
    } else if d == 3 {
        '3'
    } else if d == 4 {
        '4'
    } else if d == 5 {
        '5'
    } else if d == 6 {
        '6'
    } else if d == 7 {
        '7'
    } else if d == 8 {
        '8'
    } else {
        '9'
    }
}

/// The decimal digits of `n`.
pub fn u64_to_chars(n: u64) -> (r: Vec<char>)
    ensures
        r@ == nat_text(n as nat),
    decreases n,
{
    if n < 10 {
        let mut out: Vec<char> = Vec::new();
        out.push(digit_to_char(n));
        assert(out@ =~= seq![digit_char(n as int)]);
        out
    } else {
        let mut out = u64_to_chars(n / 10);
        out.push(digit_to_char(n % 10));
        out
    }
}

/// The decimal text of `i`.
pub fn i64_to_chars(i: i64) -> (r: Vec<char>)
    ensures
        r@ == int_text(i as int),
{
    if i < 0 {
        let magnitude: u64 = (-(i as i128)) as u64;
        let digits = u64_to_chars(magnitude);
        let mut out: Vec<char> = Vec::new();
        out.push('-');
        extend_chars(&mut out, &digits);
        assert(out@ =~= seq!['-'] + digits@);
        out
    } else {
        u64_to_chars(i as u64)
    }
}

/// The text of a boolean: `true` or `false`.
pub open spec fn bool_text(b: bool) -> Seq<char> {
    if b {
        "true"@
    } else {
        "false"@
    }
}

/// Whether Unicode counts `c` as white space, as `char::is_whitespace` of
/// std tells it.
pub uninterp spec fn unicode_whitespace(c: char) -> bool;

/// Whether Unicode counts `c` as a letter or a number, as
/// `char::is_alphanumeric` of std tells it.
pub uninterp spec fn unicode_alphanumeric(c: char) -> bool;

/// The upper case form of a text, as `str::to_uppercase` of std gives it.
pub uninterp spec fn uppercase_text(s: Seq<char>) -> Seq<char>;

/// The lower case form of a text, as `str::to_lowercase` of std gives it.
pub uninterp spec fn lowercase_text(s: Seq<char>) -> Seq<char>;

/// `char::is_whitespace` of std: whether the character has the Unicode
/// property White_Space.
#[verifier::external_body]
pub(crate) fn is_whitespace(c: char) -> (r: bool)
    ensures
        r == unicode_whitespace(c),
{
    c.is_whitespace()
}

/// `char::is_alphanumeric` of std: whether the character is alphabetic or
/// numeric by the Unicode tables. Of the characters of ASCII those tables
/// hold the letters `a` to `z` and `A` to `Z` as alphabetic, the digits
/// `0` to `9` as numeric, and nothing else.
#[verifier::external_body]
pub(crate) fn is_alphanumeric(c: char) -> (r: bool)
    ensures
        r == unicode_alphanumeric(c),
        c <= '\x7f' ==> r == is_ascii_alnum(c),
{
    c.is_alphanumeric()
}

/// `str::to_uppercase` of std: the upper case equivalent of the text as a
/// new string.
#[verifier::external_body]
pub(crate) fn to_uppercase(s: &str) -> (r: String)
    ensures
        r@ == uppercase_text(s@),
{
    s.to_uppercase()
}

/// `str::to_lowercase` of std: the lower case equivalent of the text as a
/// new string.
#[verifier::external_body]
pub(crate) fn to_lowercase(s: &str) -> (r: String)
    ensures
        r@ == lowercase_text(s@),
{
    s.to_lowercase()
}

/// The characters that trimming takes away: double quotes where `quotes`
/// is set, white space otherwise.
pub open spec fn trim_set(quotes: bool) -> spec_fn(char) -> bool {
    if quotes {
        |c: char| c == '"'
    } else {
        |c: char| unicode_whitespace(c)
    }
}

/// The first index from `i` on whose character is not in `p`, or the length
/// of `s`.
pub open spec fn leading_run(s: Seq<char>, p: spec_fn(char) -> bool, i: int) -> int
    decreases s.len() - i,
{
    if 0 <= i < s.len() && p(s[i]) {
        leading_run(s, p, i + 1)
    } else {
        i
    }
}

/// The least end `e` between `lo` and `j` such that every character from
/// `e` up to `j` is in `p`.
pub open spec fn trailing_run(s: Seq<char>, p: spec_fn(char) -> bool, lo: int, j: int) -> int
    decreases j,
{
    if lo < j <= s.len() && 0 < j && p(s[j - 1]) {
        trailing_run(s, p, lo, j - 1)
    } else {
        j
    }
}

/// `s` without the characters of `p` at its two ends.
pub open spec fn trim_by(s: Seq<char>, p: spec_fn(char) -> bool) -> Seq<char> {
    let a = leading_run(s, p, 0);
    let b = trailing_run(s, p, a, s.len() as int);
    s.subrange(a, b)
}

/// `s` without the white space at its two ends.
pub open spec fn trimmed(s: Seq<char>) -> Seq<char> {
    trim_by(s, trim_set(false))
}

/// `s` without the double quotes at its two ends.
pub open spec fn unquoted(s: Seq<char>) -> Seq<char> {
    trim_by(s, trim_set(true))
}

fn in_trim_set(c: char, quotes: bool) -> (r: bool)
    ensures
        r == trim_set(quotes)(c),
{
    if quotes {
        c == '"'
    } else {
        is_whitespace(c)
    }
}

/// Removes from both ends of `v` the double quotes, where `quotes` is set,
/// or the white space.
pub fn trim_chars(v: &Vec<char>, quotes: bool) -> (r: Vec<char>)
    ensures
        r@ == trim_by(v@, trim_set(quotes)),
{
    let ghost p = trim_set(quotes);
    let mut a: usize = 0;
    while a < v.len() && in_trim_set(v[a], quotes)
        invariant
            a <= v.len(),
            p == trim_set(quotes),
            leading_run(v@, p, 0) == leading_run(v@, p, a as int),
        decreases v.len() - a,
    {
        a += 1;
    }
    let mut b: usize = v.len();
    while b > a && in_trim_set(v[b - 1], quotes)
        invariant
            a <= b <= v.len(),
            p == trim_set(quotes),
            trailing_run(v@, p, a as int, v.len() as int) == trailing_run(v@, p, a as int, b as int),
        decreases b,
    {
        b -= 1;
    }
    slice_chars(v, a, b)
}

/// Whether `a` comes before `b` from index `i` on, the two being equal up
/// to there: at the first place where they differ `a` has the character
/// with the smaller code, or `a` ends first.
pub open spec fn less_from(a: Seq<char>, b: Seq<char>, i: int) -> bool
    decreases a.len() - i,
{
    if i < 0 || i >= b.len() {
        false
    } else if i >= a.len() {
        true
    } else if a[i] != b[i] {
        a[i] < b[i]
    } else {
        less_from(a, b, i + 1)
    }
}

/// Whether `a` comes before `b` in the order of the dictionary, by the
/// codes of the characters.
pub open spec fn text_less(a: Seq<char>, b: Seq<char>) -> bool {
    less_from(a, b, 0)
}

/// Tests whether `a` comes before `b`.
pub fn chars_less(a: &Vec<char>, b: &Vec<char>) -> (r: bool)
    ensures
        r == text_less(a@, b@),
{
    let mut i: usize = 0;
    loop
        invariant
            i <= a.len(),
            i <= b.len(),
            text_less(a@, b@) == less_from(a@, b@, i as int),
        decreases a.len() - i,
    {
        if i >= b.len() {
            return false;
        }
        if i >= a.len() {
            return true;
        }
        if a[i] != b[i] {
            return a[i] < b[i];
        }
        i += 1;
    }
}

/// Tests whether the string `a` comes before the string `b`.
pub fn str_less(a: &str, b: &str) -> (r: bool)
    ensures
        r == text_less(a@, b@),
{
    let x = chars_of(a);
    let y = chars_of(b);
    chars_less(&x, &y)
}

/// Two texts are equal, or one comes before the other.
pub proof fn lemma_text_order_total(a: Seq<char>, b: Seq<char>, i: int)
    requires
        0 <= i <= a.len(),
        i <= b.len(),
        a.subrange(0, i) == b.subrange(0, i),
    ensures
        less_from(a, b, i) || less_from(b, a, i) || a == b,
        !(less_from(a, b, i) && less_from(b, a, i)),
        a == b ==> !less_from(a, b, i),
    decreases a.len() - i,
{
    if i >= b.len() {
        if i >= a.len() {
            assert(a =~= a.subrange(0, i));
            assert(b =~= b.subrange(0, i));
        }
    } else if i >= a.len() {
    } else if a[i] != b[i] {
    } else {
        assert(a.subrange(0, i + 1) =~= a.subrange(0, i).push(a[i]));
        assert(b.subrange(0, i + 1) =~= b.subrange(0, i).push(b[i]));
        lemma_text_order_total(a, b, i + 1);
    }
}

/// `String::from_utf8` of std: the text that the bytes encode, or `None`
/// where they are no UTF-8.
#[verifier::external_body]
pub(crate) fn utf8_text(bytes: Vec<u8>) -> (r: Option<String>)
    ensures
        match r {
            Some(s) => vstd::utf8::valid_utf8(bytes@) && s@ == vstd::utf8::decode_utf8(bytes@),
            None => !vstd::utf8::valid_utf8(bytes@),
        },
{
    String::from_utf8(bytes).ok()
}

} // verus!
