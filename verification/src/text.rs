//! Characters, tokens and decimal numbers: the lexical rules shared by the
//! command dispatcher, the configuration and the generator.

use vstd::prelude::*;
use vstd::std_specs::iter::IteratorSpec;

verus! {

/// The views of a list of strings, in order.
pub open spec fn texts(lines: Seq<String>) -> Seq<Seq<char>> {
    lines.map_values(|line: String| line@)
}

/// Unicode's `White_Space` property.
pub open spec fn is_space(c: char) -> bool {
    let code = c as u32;
    ||| 0x09 <= code <= 0x0D
    ||| code == 0x20
    ||| code == 0x85
    ||| code == 0xA0
    ||| code == 0x1680
    ||| 0x2000 <= code <= 0x200A
    ||| code == 0x2028
    ||| code == 0x2029
    ||| code == 0x202F
    ||| code == 0x205F
    ||| code == 0x3000
}

/// The code point of `c`, with the ASCII capitals mapped onto their small
/// letters.
pub open spec fn folded(c: char) -> u32 {
    let code = c as u32;
    if 0x41 <= code <= 0x5A {
        (code + 0x20) as u32
    } else {
        code
    }
}

/// Equality of two texts up to the case of ASCII letters.
pub open spec fn same_ignoring_case(a: Seq<char>, b: Seq<char>) -> bool {
    &&& a.len() == b.len()
    &&& forall|i: int| 0 <= i < a.len() ==> folded(#[trigger] a[i]) == folded(b[i])
}

/// `text` without its leading white space.
pub open spec fn trim_start(text: Seq<char>) -> Seq<char>
    decreases text.len(),
{
    if text.len() > 0 && is_space(text[0]) {
        trim_start(text.drop_first())
    } else {
        text
    }
}

/// The longest prefix of `text` that holds no white space.
pub open spec fn leading_word(text: Seq<char>) -> Seq<char>
    decreases text.len(),
{
    if text.len() > 0 && !is_space(text[0]) {
        seq![text[0]] + leading_word(text.drop_first())
    } else {
        Seq::empty()
    }
}

/// The first token of `text`: what stands between its leading white space
/// and the next white space. Empty when `text` holds nothing else.
pub open spec fn first_word(text: Seq<char>) -> Seq<char> {
    leading_word(trim_start(text))
}

/// `text` without its leading hyphens.
pub open spec fn strip_hyphens(text: Seq<char>) -> Seq<char>
    decreases text.len(),
{
    if text.len() > 0 && text[0] == '-' {
        strip_hyphens(text.drop_first())
    } else {
        text
    }
}

/// The ASCII digits.
pub open spec fn is_digit(c: char) -> bool {
    0x30 <= c as u32 <= 0x39
}

/// Whether `text` holds digits only.
pub open spec fn all_digits(text: Seq<char>) -> bool {
    forall|i: int| 0 <= i < text.len() ==> is_digit(#[trigger] text[i])
}

/// The number that a run of decimal digits denotes, most significant first.
pub open spec fn digits_value(digits: Seq<char>) -> nat
    decreases digits.len(),
{
    if digits.len() == 0 {
        0
    } else {
        digits_value(digits.drop_last()) * 10 + (digits.last() as u32 - 0x30) as nat
    }
}

/// `text` without the `+` that it may start with.
pub open spec fn unsigned_part(text: Seq<char>) -> Seq<char> {
    if text.len() > 0 && text[0] == '+' {
        text.drop_first()
    } else {
        text
    }
}

/// The value of an unsigned decimal literal: an optional `+`, then one or
/// more digits and nothing else. `None` for any other text.
pub open spec fn unsigned_literal(text: Seq<char>) -> Option<nat> {
    let digits = unsigned_part(text);
    if digits.len() > 0 && all_digits(digits) {
        Some(digits_value(digits))
    } else {
        None
    }
}

/// An unsigned decimal literal whose value does not exceed `limit`.
pub open spec fn literal_up_to(text: Seq<char>, limit: nat) -> Option<nat> {
    match unsigned_literal(text) {
        Some(value) => if value <= limit {
            Some(value)
        } else {
            None
        },
        None => None,
    }
}

/// The character of a digit from 0 to 9.
pub open spec fn digit_char(digit: nat) -> char {
    seq!['0', '1', '2', '3', '4', '5', '6', '7', '8', '9'][digit as int]
}

/// The decimal digits of `n`, most significant first, without leading zeros.
pub open spec fn decimal_digits(n: nat) -> Seq<char>
    decreases n,
{
    if n < 10 {
        seq![digit_char(n)]
    } else {
        decimal_digits(n / 10).push(digit_char(n % 10))
    }
}

/// The digits written for a number read back as that number.
pub proof fn lemma_decimal_digits_read_back(n: nat)
    ensures
        decimal_digits(n).len() > 0,
        all_digits(decimal_digits(n)),
        digits_value(decimal_digits(n)) == n,
        unsigned_literal(decimal_digits(n)) == Some(n),
    decreases n,
{
    let digits = decimal_digits(n);
    if n < 10 {
        assert(digits_value(digits.drop_last()) == 0);
    } else {
        lemma_decimal_digits_read_back(n / 10);
        assert(digits.drop_last() =~= decimal_digits(n / 10));
    }
}

/// The characters of a string slice.
pub fn chars_of(text: &str) -> (chars: Vec<char>)
    ensures
        chars@ == text@,
{
    broadcast use vstd::string::group_string_axioms;

    let mut chars: Vec<char> = Vec::new();
    let source = text.chars();
    for c in it: source
        invariant
            it.seq() == text@,
            chars@ == text@.subrange(0, it.index()),
    {
        chars.push(c);
    }
    chars
}

/// Whether `c` is white space.
pub fn is_whitespace(c: char) -> (space: bool)
    ensures
        space == is_space(c),
{
    let code: u32 = c as u32;
    (0x09 <= code && code <= 0x0D) || code == 0x20 || code == 0x85 || code == 0xA0 || code
        == 0x1680 || (0x2000 <= code && code <= 0x200A) || code == 0x2028 || code == 0x2029 || code
        == 0x202F || code == 0x205F || code == 0x3000
}

fn fold(c: char) -> (code: u32)
    ensures
        code == folded(c),
{
    let code: u32 = c as u32;
    if 0x41 <= code && code <= 0x5A {
        code + 0x20
    } else {
        code
    }
}

/// Whether two texts are equal up to the case of ASCII letters.
pub fn eq_ignoring_case(a: &Vec<char>, b: &str) -> (same: bool)
    ensures
        same == same_ignoring_case(a@, b@),
{
    let other = chars_of(b);
    if a.len() != other.len() {
        return false;
    }
    let mut i: usize = 0;
    while i < a.len()
        invariant
            i <= a.len(),
            a.len() == other.len(),
            other@ == b@,
            forall|k: int| 0 <= k < i ==> folded(#[trigger] a@[k]) == folded(other@[k]),
        decreases a.len() - i,
    {
        if fold(a[i]) != fold(other[i]) {
            return false;
        }
        i += 1;
    }
    true
}

/// Whether two texts hold the same characters.
pub fn same_text(a: &str, b: &str) -> (same: bool)
    ensures
        same == (a@ == b@),
{
    a.to_owned() == b.to_owned()
}

proof fn lemma_trim_start_skips(text: Seq<char>, k: int)
    requires
        0 <= k <= text.len(),
        forall|i: int| 0 <= i < k ==> is_space(#[trigger] text[i]),
    ensures
        trim_start(text) == trim_start(text.subrange(k, text.len() as int)),
    decreases k,
{
    if k == 0 {
        assert(text.subrange(0, text.len() as int) =~= text);
    } else {
        lemma_trim_start_skips(text, k - 1);
        let tail = text.subrange(k - 1, text.len() as int);
        assert(tail.drop_first() =~= text.subrange(k, text.len() as int));
    }
}

proof fn lemma_leading_word_is_prefix(text: Seq<char>, k: int)
    requires
        0 <= k <= text.len(),
        forall|i: int| 0 <= i < k ==> !is_space(#[trigger] text[i]),
        k == text.len() || is_space(text[k]),
    ensures
        leading_word(text) == text.subrange(0, k),
    decreases k,
{
    if k > 0 {
        lemma_leading_word_is_prefix(text.drop_first(), k - 1);
    }
}

/// The first word of a text is the stretch from `start` to `end` where all
/// before `start` is white space, nothing from `start` to `end` is, and the
/// stretch ends with the text or at white space. It is empty only where the
/// text holds nothing but white space.
pub proof fn lemma_first_word_is_first_stretch(text: Seq<char>, start: int, end: int)
    requires
        0 <= start <= end <= text.len(),
        forall|i: int| 0 <= i < start ==> is_space(#[trigger] text[i]),
        forall|i: int| start <= i < end ==> !is_space(#[trigger] text[i]),
        end == text.len() || is_space(text[end]),
        start < end || start == text.len(),
    ensures
        first_word(text) == text.subrange(start, end),
{
    let body = text.subrange(start, text.len() as int);
    lemma_trim_start_skips(text, start);
    lemma_leading_word_is_prefix(body, end - start);
    assert(body.subrange(0, end - start) =~= text.subrange(start, end));
}

/// The first token of `text`.
pub fn first_token(text: &str) -> (word: Vec<char>)
    ensures
        word@ == first_word(text@),
{
    let chars = chars_of(text);
    let n = chars.len();
    let mut start: usize = 0;
    while start < n && is_whitespace(chars[start])
        invariant
            start <= n,
            n == chars@.len(),
            forall|i: int| 0 <= i < start ==> is_space(#[trigger] chars@[i]),
        decreases n - start,
    {
        start += 1;
    }
    let mut word: Vec<char> = Vec::new();
    let mut end: usize = start;
    while end < n && !is_whitespace(chars[end])
        invariant
            start <= end <= n,
            n == chars@.len(),
            word@ == chars@.subrange(start as int, end as int),
            forall|i: int| start <= i < end ==> !is_space(#[trigger] chars@[i]),
        decreases n - end,
    {
        word.push(chars[end]);
        end += 1;
    }
    proof {
        lemma_first_word_is_first_stretch(chars@, start as int, end as int);
    }
    word
}

/// `text` without its leading hyphens.
pub fn without_hyphens(text: &str) -> (rest: String)
    ensures
        rest@ == strip_hyphens(text@),
{
    let chars = chars_of(text);
    let n = chars.len();
    let mut start: usize = 0;
    assert(text@.subrange(0, n as int) =~= text@);
    while start < n && chars[start] == '-'
        invariant
            start <= n,
            n == chars@.len(),
            chars@ == text@,
            strip_hyphens(text@) == strip_hyphens(text@.subrange(start as int, n as int)),
        decreases n - start,
    {
        proof {
            let tail = text@.subrange(start as int, n as int);
            assert(tail.drop_first() =~= text@.subrange(start + 1, n as int));
        }
        start += 1;
    }
    text.substring_char(start, n).to_owned()
}

/// Whether `text` starts with a hyphen.
pub fn starts_with_hyphen(text: &str) -> (hyphen: bool)
    ensures
        hyphen == (text@.len() > 0 && text@[0] == '-'),
{
    let chars = chars_of(text);
    chars.len() > 0 && chars[0] == '-'
}

proof fn lemma_prefix_value(digits: Seq<char>, k: int)
    requires
        0 <= k <= digits.len(),
    ensures
        digits_value(digits.take(k)) <= digits_value(digits),
    decreases digits.len() - k,
{
    if k == digits.len() {
        assert(digits.take(k) =~= digits);
    } else {
        lemma_prefix_value(digits, k + 1);
        assert(digits.take(k + 1).drop_last() =~= digits.take(k));
    }
}

/// Reads an unsigned decimal literal that does not exceed `limit`.
pub fn parse_unsigned(text: &str, limit: u64) -> (parsed: Option<u64>)
    ensures
        (match literal_up_to(text@, limit as nat) {
            Some(value) => parsed == Some(value as u64),
            None => parsed is None,
        }),
{
    let chars = chars_of(text);
    let n = chars.len();
    let start: usize = if n > 0 && chars[0] == '+' {
        1
    } else {
        0
    };
    if start == n {
        return None;
    }
    let ghost digits = chars@.subrange(start as int, n as int);
    let mut value: u64 = 0;
    let mut i: usize = start;
    while i < n
        invariant
            start <= i <= n,
            n == chars@.len(),
            digits == chars@.subrange(start as int, n as int),
            digits == unsigned_part(text@),
            all_digits(digits.take(i - start)),
            value == digits_value(digits.take(i - start)),
            value <= limit,
        decreases n - i,
    {
        let code: u32 = chars[i] as u32;
        if code < 0x30 || code > 0x39 {
            assert(!is_digit(digits[i - start]));
            return None;
        }
        let next: u128 = (value as u128) * 10 + ((code - 0x30) as u128);
        assert(digits.take(i + 1 - start).drop_last() =~= digits.take(i - start));
        if next > limit as u128 {
            proof {
                lemma_prefix_value(digits, i + 1 - start);
            }
            return None;
        }
        value = next as u64;
        i += 1;
    }
    assert(digits.take(n - start) =~= digits);
    Some(value)
}

fn digit_text(digit: u8) -> (text: &'static str)
    requires
        digit < 10,
    ensures
        text@ == seq![digit_char(digit as nat)],
{
    proof {
        reveal_strlit("0");
        reveal_strlit("1");
        reveal_strlit("2");
        reveal_strlit("3");
        reveal_strlit("4");
        reveal_strlit("5");
        reveal_strlit("6");
        reveal_strlit("7");
        reveal_strlit("8");
        reveal_strlit("9");
    }
    if digit == 0 {
        "0"
    } else if digit == 1 {
        "1"
    } else if digit == 2 {
        "2"
    } else if digit == 3 {
        "3"
    } else if digit == 4 {
        "4"
    } else if digit == 5 {
        "5"
    } else if digit == 6 {
        "6"
    } else if digit == 7 {
        "7"
    } else if digit == 8 {
        "8"
    } else {
        "9"
    }
}

/// Appends the decimal digits of `n` to `out`.
pub fn push_decimal(out: &mut String, n: u128)
    ensures
        final(out)@ == old(out)@ + decimal_digits(n as nat),
    decreases n,
{
    if n >= 10 {
        push_decimal(out, n / 10);
    }
    out.append(digit_text((n % 10) as u8));
}

} // verus!
