//! Text as sequences of characters: the small grammar pieces that the counter
//! files are made of (white space, delimiters, decimal numbers, lines).

use vstd::prelude::*;
use vstd::slice::slice_subrange;

verus! {

/// The characters of `s`, in order.
pub fn chars_of(s: &str) -> (v: Vec<char>)
    ensures
        v@ == s@,
{
    let mut v: Vec<char> = Vec::new();
    for c in it: s.chars()
        invariant
            v@ == it.seq().take(it.index() as int),
            it.seq() == s@,
    {
        v.push(c);
    }
    v
}

/// `String::push` of std: puts the character `c` at the end of `text`.
#[verifier::external_body]
fn push_char(text: &mut String, c: char)
    ensures
        final(text)@ == old(text)@.push(c),
{
    text.push(c);
}

/// The text that holds the characters `chars`, in order.
pub fn string_of(chars: &[char]) -> (text: String)
    ensures
        text@ == chars@,
{
    let mut text = String::new();
    let n = chars.len();
    let mut i: usize = 0;
    while i < n
        invariant
            i <= n,
            n == chars@.len(),
            text@ == chars@.take(i as int),
        decreases n - i,
    {
        push_char(&mut text, chars[i]);
        i += 1;
    }
    text
}

/// Whether `text` holds exactly the characters of `name`.
pub fn same_text(text: &[char], name: &str) -> (r: bool)
    ensures
        r == (text@ == name@),
{
    let mut i: usize = 0;
    for c in it: name.chars()
        invariant
            i == it.index(),
            i <= text@.len(),
            it.seq() == name@,
            text@.take(i as int) == name@.take(i as int),
    {
        if i >= text.len() {
            return false;
        }
        if text[i] != c {
            return false;
        }
        i += 1;
    }
    assert(name@.take(i as int) == name@);
    if i == text.len() {
        assert(text@.take(i as int) == text@);
        true
    } else {
        false
    }
}

// ---------------------------------------------------------------------------
// White space
// ---------------------------------------------------------------------------

/// White space: the code points that carry Unicode's `White_Space` property.
pub open spec fn is_whitespace(c: char) -> bool {
    let n = c as u32;
    ||| 0x09 <= n <= 0x0d
    ||| n == 0x20
    ||| n == 0x85
    ||| n == 0xa0
    ||| n == 0x1680
    ||| 0x2000 <= n <= 0x200a
    ||| n == 0x2028
    ||| n == 0x2029
    ||| n == 0x202f
    ||| n == 0x205f
    ||| n == 0x3000
}

/// Whether `c` is white space.
pub fn char_is_whitespace(c: char) -> (r: bool)
    ensures
        r == is_whitespace(c),
{
    let n: u32 = c as u32;
    (0x09 <= n && n <= 0x0d) || n == 0x20 || n == 0x85 || n == 0xa0 || n == 0x1680 || (0x2000
        <= n && n <= 0x200a) || n == 0x2028 || n == 0x2029 || n == 0x202f || n == 0x205f || n
        == 0x3000
}

/// How many characters of white space `s` starts with.
pub open spec fn leading_whitespace(s: Seq<char>) -> nat
    decreases s.len(),
{
    if s.len() > 0 && is_whitespace(s[0]) {
        1 + leading_whitespace(s.drop_first())
    } else {
        0
    }
}

/// How many characters of white space `s` ends with.
pub open spec fn trailing_whitespace(s: Seq<char>) -> nat
    decreases s.len(),
{
    if s.len() > 0 && is_whitespace(s.last()) {
        1 + trailing_whitespace(s.drop_last())
    } else {
        0
    }
}

/// `s` without the white space at its start.
pub open spec fn spec_trim_start(s: Seq<char>) -> Seq<char> {
    s.skip(leading_whitespace(s) as int)
}

/// `s` without the white space at its end.
pub open spec fn spec_trim_end(s: Seq<char>) -> Seq<char> {
    s.take(s.len() - trailing_whitespace(s))
}

/// `s` without the white space at its start and at its end.
pub open spec fn spec_trim(s: Seq<char>) -> Seq<char> {
    spec_trim_end(spec_trim_start(s))
}

/// `k` characters of white space followed by another character, or by the
/// end, are exactly the leading white space.
pub proof fn lemma_leading_whitespace(s: Seq<char>, k: int)
    requires
        0 <= k <= s.len(),
        forall|j: int| 0 <= j < k ==> is_whitespace(#[trigger] s[j]),
        k < s.len() ==> !is_whitespace(s[k]),
    ensures
        leading_whitespace(s) == k,
    decreases k,
{
    if k > 0 {
        lemma_leading_whitespace(s.drop_first(), k - 1);
    }
}

/// `k` characters of white space preceded by another character, or by the
/// start, are exactly the trailing white space.
pub proof fn lemma_trailing_whitespace(s: Seq<char>, k: int)
    requires
        0 <= k <= s.len(),
        forall|j: int| s.len() - k <= j < s.len() ==> is_whitespace(#[trigger] s[j]),
        k < s.len() ==> !is_whitespace(s[s.len() - k - 1]),
    ensures
        trailing_whitespace(s) == k,
    decreases k,
{
    if k > 0 {
        lemma_trailing_whitespace(s.drop_last(), k - 1);
    }
}

/// The leading and the trailing white space are white space, each within
/// the text, and the character next to each is none.
pub proof fn lemma_trim_bounds(s: Seq<char>)
    ensures
        leading_whitespace(s) <= s.len(),
        trailing_whitespace(s) <= s.len(),
        forall|j: int| 0 <= j < leading_whitespace(s) ==> is_whitespace(#[trigger] s[j]),
        leading_whitespace(s) < s.len() ==> !is_whitespace(s[leading_whitespace(s) as int]),
        forall|j: int|
            s.len() - trailing_whitespace(s) <= j < s.len() ==> is_whitespace(#[trigger] s[j]),
        trailing_whitespace(s) < s.len() ==> !is_whitespace(
            s[s.len() - trailing_whitespace(s) - 1],
        ),
    decreases s.len(),
{
    if s.len() > 0 {
        if is_whitespace(s[0]) {
            let rest = s.drop_first();
            lemma_trim_bounds(rest);
            assert forall|j: int| 0 <= j < leading_whitespace(s) implies is_whitespace(
                #[trigger] s[j],
            ) by {
                if j > 0 {
                    assert(s[j] == rest[j - 1]);
                }
            }
        }
        if is_whitespace(s.last()) {
            let rest = s.drop_last();
            lemma_trim_bounds(rest);
            assert forall|j: int|
                s.len() - trailing_whitespace(s) <= j < s.len() implies is_whitespace(
                #[trigger] s[j],
            ) by {
                if j < s.len() - 1 {
                    assert(s[j] == rest[j]);
                }
            }
            if trailing_whitespace(s) < s.len() {
                assert(s[s.len() - trailing_whitespace(s) - 1] == rest[rest.len()
                    - trailing_whitespace(rest) - 1]);
            }
        }
    }
}

/// The part of `s` between its leading and its trailing white space.
pub fn trim<'a>(s: &'a [char]) -> (r: &'a [char])
    ensures
        r@ == spec_trim(s@),
{
    let n = s.len();
    let mut a: usize = 0;
    while a < n && char_is_whitespace(s[a])
        invariant
            a <= n,
            n == s@.len(),
            forall|j: int| 0 <= j < a ==> is_whitespace(#[trigger] s@[j]),
        decreases n - a,
    {
        a += 1;
    }
    let mut b: usize = n;
    while b > a && char_is_whitespace(s[b - 1])
        invariant
            a <= b <= n,
            n == s@.len(),
            forall|j: int| b <= j < n ==> is_whitespace(#[trigger] s@[j]),
        decreases b,
    {
        b -= 1;
    }
    proof {
        lemma_leading_whitespace(s@, a as int);
        let rest = s@.skip(a as int);
        lemma_trailing_whitespace(rest, (n - b) as int);
    }
    slice_subrange(s, a, b)
}

// ---------------------------------------------------------------------------
// Delimiters
// ---------------------------------------------------------------------------

/// The index of the first `c` in `s`, or the length of `s` where it holds none.
pub open spec fn spec_find(s: Seq<char>, c: char) -> int
    decreases s.len(),
{
    if s.len() == 0 || s[0] == c {
        0
    } else {
        1 + spec_find(s.drop_first(), c)
    }
}

/// `spec_find` gives the first place where `c` stands.
pub proof fn lemma_find(s: Seq<char>, c: char)
    ensures
        0 <= spec_find(s, c) <= s.len(),
        forall|j: int| 0 <= j < spec_find(s, c) ==> #[trigger] s[j] != c,
        spec_find(s, c) < s.len() ==> s[spec_find(s, c)] == c,
    decreases s.len(),
{
    if s.len() != 0 && s[0] != c {
        let rest = s.drop_first();
        lemma_find(rest, c);
        assert forall|j: int| 0 <= j < spec_find(s, c) implies #[trigger] s[j] != c by {
            if j > 0 {
                assert(s[j] == rest[j - 1]);
            }
        }
    }
}

/// A place before which no `c` stands, and which holds `c` or is the end, is
/// what `spec_find` gives.
pub proof fn lemma_find_is(s: Seq<char>, c: char, i: int)
    requires
        0 <= i <= s.len(),
        forall|j: int| 0 <= j < i ==> #[trigger] s[j] != c,
        i < s.len() ==> s[i] == c,
    ensures
        spec_find(s, c) == i,
{
    lemma_find(s, c);
}

/// The index of the first `c` in `s`, or the length of `s` where it holds none.
pub fn find(s: &[char], c: char) -> (i: usize)
    ensures
        i == spec_find(s@, c),
{
    let n = s.len();
    let mut i: usize = 0;
    while i < n && s[i] != c
        invariant
            i <= n,
            n == s@.len(),
            forall|j: int| 0 <= j < i ==> #[trigger] s@[j] != c,
        decreases n - i,
    {
        i += 1;
    }
    proof {
        lemma_find_is(s@, c, i as int);
    }
    i
}

/// What stands before the first `c` in `s` and what stands after it, where
/// `s` holds `c`.
pub open spec fn spec_split_once(s: Seq<char>, c: char) -> Option<(Seq<char>, Seq<char>)> {
    let i = spec_find(s, c);
    if i < s.len() {
        Some((s.take(i), s.skip(i + 1)))
    } else {
        None
    }
}

/// Splits `s` at the first `c`, which belongs to neither part.
pub fn split_once<'a>(s: &'a [char], c: char) -> (r: Option<(&'a [char], &'a [char])>)
    ensures
        match r {
            Some((head, tail)) => spec_split_once(s@, c) == Some((head@, tail@)),
            None => spec_split_once(s@, c) is None,
        },
{
    let i = find(s, c);
    if i < s.len() {
        let head = slice_subrange(s, 0, i);
        let tail = slice_subrange(s, i + 1, s.len());
        Some((head, tail))
    } else {
        None
    }
}

// ---------------------------------------------------------------------------
// Decimal numbers
// ---------------------------------------------------------------------------

/// Whether `c` is one of the ten decimal digits.
pub open spec fn is_digit(c: char) -> bool {
    '0' <= c <= '9'
}

/// The number that the digit `c` stands for.
pub open spec fn digit_value(c: char) -> nat {
    (c as u32 - '0' as u32) as nat
}

/// Whether `s` holds decimal digits only.
pub open spec fn all_digits(s: Seq<char>) -> bool {
    forall|i: int| 0 <= i < s.len() ==> is_digit(#[trigger] s[i])
}

/// The number that `s` writes in base ten.
pub open spec fn decimal_value(s: Seq<char>) -> nat
    decreases s.len(),
{
    if s.len() == 0 {
        0
    } else {
        10 * decimal_value(s.drop_last()) + digit_value(s.last())
    }
}

/// The digits of a number: `s` without the plus sign that may stand first.
pub open spec fn unsigned_part(s: Seq<char>) -> Seq<char> {
    if s.len() > 0 && s[0] == '+' {
        s.drop_first()
    } else {
        s
    }
}

/// The number that `s` writes: an optional plus sign, then one decimal digit
/// or more, with a value that fits in 64 bits. Anything else is no number.
pub open spec fn spec_parse_u64(s: Seq<char>) -> Option<u64> {
    let digits = unsigned_part(s);
    if digits.len() > 0 && all_digits(digits) && decimal_value(digits) <= u64::MAX {
        Some(decimal_value(digits) as u64)
    } else {
        None
    }
}

/// A number's value is at least that of any of its prefixes.
pub proof fn lemma_decimal_value_prefix(s: Seq<char>, k: int)
    requires
        0 <= k <= s.len(),
    ensures
        decimal_value(s.take(k)) <= decimal_value(s),
    decreases s.len() - k,
{
    if k < s.len() {
        lemma_decimal_value_prefix(s.drop_last(), k);
        assert(s.drop_last().take(k) =~= s.take(k));
    } else {
        assert(s.take(k) =~= s);
    }
}

/// Reads `s` as a decimal number of 64 bits.
pub fn parse_u64(s: &[char]) -> (r: Option<u64>)
    ensures
        r == spec_parse_u64(s@),
{
    let n = s.len();
    let start: usize = if n > 0 && s[0] == '+' {
        1
    } else {
        0
    };
    let ghost digits = unsigned_part(s@);
    if start == n {
        return None;
    }
    let mut value: u64 = 0;
    let mut i: usize = start;
    while i < n
        invariant
            start <= i <= n,
            n == s@.len(),
            digits == unsigned_part(s@),
            digits == s@.skip(start as int),
            all_digits(digits.take(i - start)),
            value == decimal_value(digits.take(i - start)),
        decreases n - i,
    {
        let c = s[i];
        let ghost next = digits.take(i - start + 1);
        proof {
            assert(next.drop_last() =~= digits.take(i - start));
            lemma_decimal_value_prefix(digits, i - start + 1);
        }
        if !('0' <= c && c <= '9') {
            return None;
        }
        let d: u64 = (c as u32 - '0' as u32) as u64;
        let scaled = match value.checked_mul(10) {
            Some(v) => v,
            None => {
                return None;
            },
        };
        value = match scaled.checked_add(d) {
            Some(v) => v,
            None => {
                return None;
            },
        };
        assert(all_digits(next));
        i += 1;
    }
    assert(digits.take(n - start) =~= digits);
    Some(value)
}

// ---------------------------------------------------------------------------
// Words
// ---------------------------------------------------------------------------

/// How many characters stand in `s` before the first white space.
pub open spec fn spec_word_end(s: Seq<char>) -> int
    decreases s.len(),
{
    if s.len() == 0 || is_whitespace(s[0]) {
        0
    } else {
        1 + spec_word_end(s.drop_first())
    }
}

/// `spec_word_end` gives the first place where white space stands.
pub proof fn lemma_word_end(s: Seq<char>)
    ensures
        0 <= spec_word_end(s) <= s.len(),
        forall|j: int| 0 <= j < spec_word_end(s) ==> !is_whitespace(#[trigger] s[j]),
        spec_word_end(s) < s.len() ==> is_whitespace(s[spec_word_end(s)]),
        s.len() > 0 && !is_whitespace(s[0]) ==> spec_word_end(s) >= 1,
    decreases s.len(),
{
    if s.len() != 0 && !is_whitespace(s[0]) {
        let rest = s.drop_first();
        lemma_word_end(rest);
        assert forall|j: int| 0 <= j < spec_word_end(s) implies !is_whitespace(#[trigger] s[j]) by {
            if j > 0 {
                assert(s[j] == rest[j - 1]);
            }
        }
    }
}

/// A place before which no white space stands, and which holds white space
/// or is the end, is what `spec_word_end` gives.
pub proof fn lemma_word_end_is(s: Seq<char>, i: int)
    requires
        0 <= i <= s.len(),
        forall|j: int| 0 <= j < i ==> !is_whitespace(#[trigger] s[j]),
        i < s.len() ==> is_whitespace(s[i]),
    ensures
        spec_word_end(s) == i,
{
    lemma_word_end(s);
}

/// The first word of `s` and what follows it: `s` without its leading white
/// space, split before the next white space. A text of white space only has
/// no word.
pub open spec fn spec_next_word(s: Seq<char>) -> Option<(Seq<char>, Seq<char>)> {
    let text = spec_trim_start(s);
    if text.len() == 0 {
        None
    } else {
        Some((text.take(spec_word_end(text)), text.skip(spec_word_end(text))))
    }
}

/// A word is not empty and holds no white space, and what follows it is
/// shorter than the text that it was taken from.
pub proof fn lemma_next_word(s: Seq<char>)
    ensures
        match spec_next_word(s) {
            Some((word, rest)) => word.len() > 0 && rest.len() < s.len() && forall|j: int|
                0 <= j < word.len() ==> !is_whitespace(#[trigger] word[j]),
            None => true,
        },
{
    lemma_trim_bounds(s);
    let text = spec_trim_start(s);
    if text.len() > 0 {
        lemma_word_end(text);
    }
}

/// The first word of `s` and what follows it.
pub fn next_word<'a>(s: &'a [char]) -> (r: Option<(&'a [char], &'a [char])>)
    ensures
        match r {
            Some((word, rest)) => spec_next_word(s@) == Some((word@, rest@)),
            None => spec_next_word(s@) is None,
        },
{
    let n = s.len();
    let mut a: usize = 0;
    while a < n && char_is_whitespace(s[a])
        invariant
            a <= n,
            n == s@.len(),
            forall|j: int| 0 <= j < a ==> is_whitespace(#[trigger] s@[j]),
        decreases n - a,
    {
        a += 1;
    }
    proof {
        lemma_leading_whitespace(s@, a as int);
    }
    if a == n {
        return None;
    }
    let mut b: usize = a;
    while b < n && !char_is_whitespace(s[b])
        invariant
            a <= b <= n,
            n == s@.len(),
            forall|j: int| a <= j < b ==> !is_whitespace(#[trigger] s@[j]),
        decreases n - b,
    {
        b += 1;
    }
    let word = slice_subrange(s, a, b);
    let rest = slice_subrange(s, b, n);
    proof {
        lemma_word_end_is(s@.skip(a as int), b - a);
    }
    Some((word, rest))
}

/// How many words `s` holds.
pub open spec fn spec_word_count(s: Seq<char>) -> nat
    decreases s.len(),
{
    match spec_next_word(s) {
        Some((_, rest)) => {
            if rest.len() < s.len() {
                1 + spec_word_count(rest)
            } else {
                0
            }
        },
        None => 0,
    }
}

/// How many words `s` holds.
pub fn word_count(s: &[char]) -> (r: usize)
    ensures
        r == spec_word_count(s@),
{
    let n = s.len();
    let mut count: usize = 0;
    let mut rest = s;
    loop
        invariant
            n == s@.len(),
            count + rest@.len() <= n,
            spec_word_count(s@) == count + spec_word_count(rest@),
        decreases rest@.len(),
    {
        proof {
            lemma_next_word(rest@);
        }
        match next_word(rest) {
            Some((_, after)) => {
                count += 1;
                rest = after;
            },
            None => {
                return count;
            },
        }
    }
}

// ---------------------------------------------------------------------------
// Lines
// ---------------------------------------------------------------------------

/// The lines of `s`: what stands between line feeds. What follows the last
/// line feed is a line only if it is not empty.
pub open spec fn spec_lines(s: Seq<char>) -> Seq<Seq<char>>
    decreases s.len(),
{
    if s.len() == 0 {
        Seq::empty()
    } else {
        let i = spec_find(s, '\n');
        if 0 <= i < s.len() {
            seq![s.take(i)] + spec_lines(s.skip(i + 1))
        } else {
            seq![s]
        }
    }
}

/// Takes the first line off a text: gives the line and what follows its
/// line feed. An empty text has no line.
pub fn split_line<'a>(text: &'a [char]) -> (r: Option<(&'a [char], &'a [char])>)
    ensures
        match r {
            Some((line, after)) => text@.len() > 0 && spec_lines(text@) == seq![line@] + spec_lines(
                after@,
            ) && after@.len() < text@.len(),
            None => text@.len() == 0 && spec_lines(text@) == Seq::<Seq<char>>::empty(),
        },
{
    let n = text.len();
    if n == 0 {
        return None;
    }
    let end = find(text, '\n');
    proof {
        lemma_find(text@, '\n');
    }
    let line = slice_subrange(text, 0, end);
    if end < n {
        let after = slice_subrange(text, end + 1, n);
        Some((line, after))
    } else {
        let after = slice_subrange(text, n, n);
        assert(line@ == text@);
        Some((line, after))
    }
}

} // verus!
