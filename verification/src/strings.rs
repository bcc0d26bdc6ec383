//! Text helpers shared by the other modules: trimming, decimal numbers,
//! comma-separated lists and lines.

use vstd::prelude::*;

verus! {

/// Whether `c` is white space: a character with the Unicode property
/// `White_Space`.
pub open spec fn white_space(c: char) -> bool {
    ||| '\u{9}' <= c <= '\u{d}'
    ||| c == ' '
    ||| c == '\u{85}'
    ||| c == '\u{a0}'
    ||| c == '\u{1680}'
    ||| '\u{2000}' <= c <= '\u{200a}'
    ||| c == '\u{2028}'
    ||| c == '\u{2029}'
    ||| c == '\u{202f}'
    ||| c == '\u{205f}'
    ||| c == '\u{3000}'
}

/// The lowercase form of `s`, as `str::to_lowercase` produces it.
pub uninterp spec fn lowercase(s: Seq<char>) -> Seq<char>;

/// Whether `c` is white space.
pub fn is_whitespace(c: char) -> (b: bool)
    ensures
        b == white_space(c),
{
    (c >= '\u{9}' && c <= '\u{d}') || c == ' ' || c == '\u{85}' || c == '\u{a0}' || c == '\u{1680}'
        || (c >= '\u{2000}' && c <= '\u{200a}') || c == '\u{2028}' || c == '\u{2029}' || c
        == '\u{202f}' || c == '\u{205f}' || c == '\u{3000}'
}

/// Calls `str::to_lowercase`. The result is taken on trust to depend on the
/// characters of `s` alone; `lowercase` names it.
#[verifier::external_body]
pub(crate) fn to_lowercase(s: &str) -> (r: String)
    ensures
        r@ == lowercase(s@),
{
    s.to_lowercase()
}

/// `s` without its leading white space.
pub open spec fn without_leading_space(s: Seq<char>) -> Seq<char>
    decreases s.len(),
{
    if s.len() > 0 && white_space(s[0]) {
        without_leading_space(s.drop_first())
    } else {
        s
    }
}

/// `s` without its trailing white space.
pub open spec fn without_trailing_space(s: Seq<char>) -> Seq<char>
    decreases s.len(),
{
    if s.len() > 0 && white_space(s.last()) {
        without_trailing_space(s.drop_last())
    } else {
        s
    }
}

/// `s` without leading and trailing white space.
pub open spec fn trimmed(s: Seq<char>) -> Seq<char> {
    without_trailing_space(without_leading_space(s))
}

/// The characters of `s`, in order.
pub fn chars_of(s: &str) -> (v: Vec<char>)
    ensures
        v@ == s@,
{
    let mut v: Vec<char> = Vec::new();
    for c in it: s.chars()
        invariant
            v@ == it.seq().take(it.index() as int),
            it.seq() == s@,
    {
        v.push(c);
    }
    v
}

/// Removes leading and trailing white space from `s`.
pub fn trim(s: &str) -> (r: &str)
    ensures
        r@ == trimmed(s@),
{
    let chars = chars_of(s);
    let n = chars.len();
    let mut start: usize = 0;
    proof {
        assert(s@.subrange(0, n as int) =~= s@);
    }
    while start < n && is_whitespace(chars[start])
        invariant
            start <= n,
            n == chars@.len(),
            chars@ == s@,
            without_leading_space(s@) == without_leading_space(s@.subrange(start as int, n as int)),
        decreases n - start,
    {
        proof {
            let rest = s@.subrange(start as int, n as int);
            assert(rest.drop_first() =~= s@.subrange(start + 1, n as int));
        }
        start = start + 1;
    }
    let mut end: usize = n;
    while end > start && is_whitespace(chars[end - 1])
        invariant
            start <= end <= n,
            n == chars@.len(),
            chars@ == s@,
            without_leading_space(s@) == s@.subrange(start as int, n as int),
            trimmed(s@) == without_trailing_space(s@.subrange(start as int, end as int)),
        decreases end - start,
    {
        proof {
            let rest = s@.subrange(start as int, end as int);
            assert(rest.drop_last() =~= s@.subrange(start as int, end - 1));
        }
        end = end - 1;
    }
    s.substring_char(start, end)
}

/// Whether `c` is one of the ten decimal digits.
pub open spec fn is_digit(c: char) -> bool {
    '0' <= c && c <= '9'
}

/// The value of the decimal digit `c`.
pub open spec fn digit_value(c: char) -> nat
    recommends
        is_digit(c),
{
    (c as nat - '0' as nat) as nat
}

/// The digit that stands for `d`.
pub open spec fn digit_char(d: nat) -> char
    recommends
        d < 10,
{
    if d == 0 {
        '0'
    } else if d == 1 {
        '1'
    } else if d == 2 {
        '2'
    } else if d == 3 {
        '3'
    } else if d == 4 {
        '4'
    } else if d == 5 {
        '5'
    } else if d == 6 {
        '6'
    } else if d == 7 {
        '7'
    } else if d == 8 {
        '8'
    } else {
        '9'
    }
}

/// Whether every character of `s` is a decimal digit.
pub open spec fn all_digits(s: Seq<char>) -> bool {
    forall|i: int| 0 <= i < s.len() ==> is_digit(#[trigger] s[i])
}

/// The number that the digits of `digits` denote in base ten.
pub open spec fn decimal_value(digits: Seq<char>) -> nat
    decreases digits.len(),
{
    if digits.len() == 0 {
        0
    } else {
        10 * decimal_value(digits.drop_last()) + digit_value(digits.last())
    }
}

/// `s` without one leading plus sign.
pub open spec fn without_sign(s: Seq<char>) -> Seq<char> {
    if s.len() > 0 && s[0] == '+' {
        s.drop_first()
    } else {
        s
    }
}

/// The number that `s` denotes: an optional plus sign, then one or more
/// decimal digits whose value fits sixteen bits. Anything else denotes none.
pub open spec fn parsed_u16(s: Seq<char>) -> Option<u16> {
    let digits = without_sign(s);
    if digits.len() > 0 && all_digits(digits) && decimal_value(digits) <= u16::MAX {
        Some(decimal_value(digits) as u16)
    } else {
        None
    }
}

/// The shortest decimal notation of `n`.
pub open spec fn decimal(n: nat) -> Seq<char>
    decreases n,
{
    if n < 10 {
        seq![digit_char(n)]
    } else {
        decimal(n / 10).push(digit_char(n % 10))
    }
}

/// A prefix of a digit string never denotes more than the whole string.
pub proof fn lemma_decimal_value_prefix(digits: Seq<char>, k: int)
    requires
        0 <= k <= digits.len(),
    ensures
        decimal_value(digits.take(k)) <= decimal_value(digits),
    decreases digits.len(),
{
    if k == digits.len() {
        assert(digits.take(k) =~= digits);
    } else {
        lemma_decimal_value_prefix(digits.drop_last(), k);
        assert(digits.drop_last().take(k) =~= digits.take(k));
    }
}

/// Reads a number as `u16::from_str` does.
pub fn parse_u16(s: &str) -> (r: Option<u16>)
    ensures
        r == parsed_u16(s@),
{
    let chars = chars_of(s);
    let n = chars.len();
    let first: usize = if n > 0 && chars[0] == '+' {
        1
    } else {
        0
    };
    let ghost digits = without_sign(s@);
    proof {
        assert(digits =~= s@.subrange(first as int, n as int));
    }
    if first == n {
        return None;
    }
    let mut acc: u32 = 0;
    let mut i: usize = first;
    while i < n
        invariant
            first <= i <= n,
            n == chars@.len(),
            chars@ == s@,
            digits == without_sign(s@),
            digits == s@.subrange(first as int, n as int),
            all_digits(digits.take(i - first)),
            acc == decimal_value(digits.take(i - first)),
            acc <= u16::MAX,
        decreases n - i,
    {
        let c = chars[i];
        let ghost k = i - first;
        proof {
            assert(digits[k] == c);
            assert(digits.take(k + 1).drop_last() =~= digits.take(k));
            assert(digits.take(k + 1).last() == c);
        }
        if !(c >= '0' && c <= '9') {
            assert(!is_digit(digits[k]));
            return None;
        }
        let v: u32 = (c as u32) - 48;
        acc = acc * 10 + v;
        if acc > 65535 {
            proof {
                lemma_decimal_value_prefix(digits, k + 1);
            }
            return None;
        }
        i = i + 1;
    }
    proof {
        assert(digits.take(n - first) =~= digits);
    }
    Some(acc as u16)
}

/// The one-character text of the digit `d`.
fn digit_str(d: u16) -> (s: &'static str)
    requires
        d < 10,
    ensures
        s@ == seq![digit_char(d as nat)],
{
    proof {
        reveal_strlit("0");
        reveal_strlit("1");
        reveal_strlit("2");
        reveal_strlit("3");
        reveal_strlit("4");
        reveal_strlit("5");
        reveal_strlit("6");
        reveal_strlit("7");
        reveal_strlit("8");
        reveal_strlit("9");
    }
    let s = if d == 0 {
        "0"
    } else if d == 1 {
        "1"
    } else if d == 2 {
        "2"
    } else if d == 3 {
        "3"
    } else if d == 4 {
        "4"
    } else if d == 5 {
        "5"
    } else if d == 6 {
        "6"
    } else if d == 7 {
        "7"
    } else if d == 8 {
        "8"
    } else {
        "9"
    };
    assert(s@ =~= seq![digit_char(d as nat)]);
    s
}

/// Writes `n` in decimal, without sign or leading zeros.
pub fn u16_to_string(n: u16) -> (s: String)
    ensures
        s@ == decimal(n as nat),
    decreases n,
{
    if n < 10 {
        String::from_str(digit_str(n))
    } else {
        let mut s = u16_to_string(n / 10);
        s.append(digit_str(n % 10));
        s
    }
}

/// The contents of a list of strings.
pub open spec fn texts(v: Seq<String>) -> Seq<Seq<char>> {
    v.map_values(|s: String| s@)
}

/// The position of the first `c` in `s`, or the length of `s` where there is none.
pub open spec fn index_of(s: Seq<char>, c: char) -> nat
    decreases s.len(),
{
    if s.len() == 0 || s[0] == c {
        0
    } else {
        1 + index_of(s.drop_first(), c)
    }
}

/// `index_of` is the first position that holds `c`.
pub proof fn lemma_index_of(s: Seq<char>, c: char, i: int)
    requires
        0 <= i <= s.len(),
        forall|j: int| 0 <= j < i ==> s[j] != c,
        i == s.len() || s[i] == c,
    ensures
        index_of(s, c) == i,
    decreases i,
{
    if i > 0 {
        let rest = s.drop_first();
        assert forall|j: int| 0 <= j < i - 1 implies rest[j] != c by {
            assert(rest[j] == s[j + 1]);
        }
        lemma_index_of(rest, c, i - 1);
    }
}

/// The pieces of `s` between occurrences of `sep`, each without the white
/// space around it. A text without `sep` is one piece; an empty piece is
/// kept.
pub open spec fn split_trimmed(s: Seq<char>, sep: char) -> Seq<Seq<char>>
    decreases s.len(),
{
    let i = index_of(s, sep);
    if i >= s.len() {
        seq![trimmed(s)]
    } else {
        seq![trimmed(s.take(i as int))] + split_trimmed(s.skip(i as int + 1), sep)
    }
}

/// `line` without one trailing carriage return.
pub open spec fn without_carriage_return(line: Seq<char>) -> Seq<char> {
    if line.len() > 0 && line.last() == '\r' {
        line.drop_last()
    } else {
        line
    }
}

/// The lines of `s`. A line ends at a line feed, or at a carriage return
/// followed by a line feed; what follows the last line feed is a line if it
/// is not empty.
pub open spec fn lines(s: Seq<char>) -> Seq<Seq<char>>
    decreases s.len(),
{
    if s.len() == 0 {
        Seq::empty()
    } else {
        let i = index_of(s, '\n');
        if i >= s.len() {
            seq![s]
        } else {
            seq![without_carriage_return(s.take(i as int))] + lines(s.skip(i as int + 1))
        }
    }
}

/// Splits `s` at each `sep` and trims the pieces.
pub fn split_and_trim(s: &str, sep: char) -> (pieces: Vec<String>)
    ensures
        texts(pieces@) == split_trimmed(s@, sep),
{
    let chars = chars_of(s);
    let n = chars.len();
    let mut pieces: Vec<String> = Vec::new();
    let mut start: usize = 0;
    let mut i: usize = 0;
    proof {
        assert(s@.skip(0) =~= s@);
        assert(texts(pieces@) =~= Seq::<Seq<char>>::empty());
        assert(Seq::<Seq<char>>::empty() + split_trimmed(s@, sep) =~= split_trimmed(s@, sep));
    }
    while i < n
        invariant
            start <= i <= n,
            n == chars@.len(),
            chars@ == s@,
            forall|j: int| start <= j < i ==> s@[j] != sep,
            split_trimmed(s@, sep) == texts(pieces@) + split_trimmed(s@.skip(start as int), sep),
        decreases n - i,
    {
        if chars[i] == sep {
            let piece = trim(s.substring_char(start, i));
            let ghost before = pieces@;
            let ghost rest = s@.skip(start as int);
            pieces.push(String::from_str(piece));
            proof {
                lemma_index_of(rest, sep, i - start);
                assert(rest.take(i - start) =~= s@.subrange(start as int, i as int));
                assert(rest.skip(i - start + 1) =~= s@.skip(i + 1));
                assert(texts(pieces@) =~= texts(before).push(piece@));
                assert(texts(pieces@) + split_trimmed(s@.skip(i + 1), sep) =~= texts(before)
                    + split_trimmed(rest, sep));
            }
            start = i + 1;
        }
        i = i + 1;
    }
    let piece = trim(s.substring_char(start, n));
    let ghost before = pieces@;
    let ghost rest = s@.skip(start as int);
    pieces.push(String::from_str(piece));
    proof {
        lemma_index_of(rest, sep, n - start);
        assert(rest =~= s@.subrange(start as int, n as int));
        assert(texts(pieces@) =~= texts(before).push(piece@));
        assert(texts(pieces@) =~= texts(before) + split_trimmed(rest, sep));
    }
    pieces
}

/// Splits `s` into its lines, as `str::lines` does.
pub fn split_lines(s: &str) -> (found: Vec<String>)
    ensures
        texts(found@) == lines(s@),
{
    let chars = chars_of(s);
    let n = chars.len();
    let mut found: Vec<String> = Vec::new();
    let mut start: usize = 0;
    let mut i: usize = 0;
    proof {
        assert(s@.skip(0) =~= s@);
        assert(texts(found@) =~= Seq::<Seq<char>>::empty());
        assert(Seq::<Seq<char>>::empty() + lines(s@) =~= lines(s@));
    }
    while i < n
        invariant
            start <= i <= n,
            n == chars@.len(),
            chars@ == s@,
            forall|j: int| start <= j < i ==> s@[j] != '\n',
            lines(s@) == texts(found@) + lines(s@.skip(start as int)),
        decreases n - i,
    {
        if chars[i] == '\n' {
            let end: usize = if i > start && chars[i - 1] == '\r' {
                i - 1
            } else {
                i
            };
            let line = s.substring_char(start, end);
            let ghost before = found@;
            let ghost rest = s@.skip(start as int);
            found.push(String::from_str(line));
            proof {
                lemma_index_of(rest, '\n', i - start);
                let whole = rest.take(i - start);
                assert(whole =~= s@.subrange(start as int, i as int));
                assert(without_carriage_return(whole) =~= s@.subrange(start as int, end as int));
                assert(rest.skip(i - start + 1) =~= s@.skip(i + 1));
                assert(texts(found@) =~= texts(before).push(line@));
                assert(texts(found@) + lines(s@.skip(i + 1)) =~= texts(before) + lines(rest));
            }
            start = i + 1;
        }
        i = i + 1;
    }
    if start < n {
        let line = s.substring_char(start, n);
        let ghost before = found@;
        let ghost rest = s@.skip(start as int);
        found.push(String::from_str(line));
        proof {
            lemma_index_of(rest, '\n', n - start);
            assert(rest =~= s@.subrange(start as int, n as int));
            assert(texts(found@) =~= texts(before).push(line@));
            assert(texts(found@) =~= texts(before) + lines(rest));
        }
    } else {
        proof {
            assert(lines(s@.skip(start as int)) =~= Seq::<Seq<char>>::empty());
            assert(texts(found@) + Seq::<Seq<char>>::empty() =~= texts(found@));
        }
    }
    found
}

/// Whether `a` and `b` hold the same characters.
pub fn str_eq(a: &str, b: &str) -> (same: bool)
    ensures
        same == (a@ == b@),
{
    let a = String::from_str(a);
    let b = String::from_str(b);
    a == b
}

} // verus!
