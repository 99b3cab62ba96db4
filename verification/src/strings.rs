//! Texts and characters: the classes of characters that the checks tell
//! apart, and the few operations on texts that they are made of.

use vstd::prelude::*;
use vstd::string::{StrSliceExecFns, StringSliceAdditionalSpecFns};

verus! {

/// A lowercase letter of ASCII.
pub open spec fn ascii_lowercase(c: char) -> bool {
    'a' <= c <= 'z'
}

/// An uppercase letter of ASCII.
pub open spec fn ascii_uppercase(c: char) -> bool {
    'A' <= c <= 'Z'
}

/// A digit of ASCII.
pub open spec fn ascii_digit(c: char) -> bool {
    '0' <= c <= '9'
}

/// A letter of ASCII.
pub open spec fn ascii_alphabetic(c: char) -> bool {
    ascii_lowercase(c) || ascii_uppercase(c)
}

/// A letter or a digit of ASCII.
pub open spec fn ascii_alphanumeric(c: char) -> bool {
    ascii_alphabetic(c) || ascii_digit(c)
}

/// A space or a punctuation mark of ASCII: what is printable and neither a
/// letter nor a digit.
pub open spec fn ascii_special(c: char) -> bool {
    ' ' <= c <= '~' && !ascii_alphanumeric(c)
}

/// Whether Unicode counts a character as lowercase (`char::is_lowercase`).
pub uninterp spec fn unicode_lowercase(c: char) -> bool;

/// Whether Unicode counts a character as uppercase (`char::is_uppercase`).
pub uninterp spec fn unicode_uppercase(c: char) -> bool;

/// Whether Unicode counts a character as a number (`char::is_numeric`).
pub uninterp spec fn unicode_numeric(c: char) -> bool;

/// Whether Unicode counts a character as a letter (`char::is_alphabetic`).
pub uninterp spec fn unicode_alphabetic(c: char) -> bool;

/// Whether Unicode counts a character as white space
/// (`char::is_whitespace`).
pub uninterp spec fn unicode_whitespace(c: char) -> bool;

/// Whether a character is a lowercase letter of ASCII.
pub fn is_ascii_lowercase(c: char) -> (r: bool)
    ensures
        r == ascii_lowercase(c),
{
    'a' <= c && c <= 'z'
}

/// Whether a character is an uppercase letter of ASCII.
pub fn is_ascii_uppercase(c: char) -> (r: bool)
    ensures
        r == ascii_uppercase(c),
{
    'A' <= c && c <= 'Z'
}

/// Whether a character is a digit of ASCII.
pub fn is_ascii_digit(c: char) -> (r: bool)
    ensures
        r == ascii_digit(c),
{
    '0' <= c && c <= '9'
}

/// Whether a character is a letter of ASCII.
pub fn is_ascii_alphabetic(c: char) -> (r: bool)
    ensures
        r == ascii_alphabetic(c),
{
    is_ascii_lowercase(c) || is_ascii_uppercase(c)
}

/// Whether a character is a letter or a digit of ASCII.
pub fn is_ascii_alphanumeric(c: char) -> (r: bool)
    ensures
        r == ascii_alphanumeric(c),
{
    is_ascii_alphabetic(c) || is_ascii_digit(c)
}

/// Whether a character is a space or a punctuation mark of ASCII.
pub fn is_ascii_special(c: char) -> (r: bool)
    ensures
        r == ascii_special(c),
{
    ' ' <= c && c <= '~' && !is_ascii_alphanumeric(c)
}

/// `char::is_lowercase`.
#[verifier::external_body]
pub(crate) fn is_lowercase(c: char) -> (r: bool)
    ensures
        r == unicode_lowercase(c),
{
    c.is_lowercase()
}

/// `char::is_uppercase`.
#[verifier::external_body]
pub(crate) fn is_uppercase(c: char) -> (r: bool)
    ensures
        r == unicode_uppercase(c),
{
    c.is_uppercase()
}

/// `char::is_numeric`.
#[verifier::external_body]
pub(crate) fn is_numeric(c: char) -> (r: bool)
    ensures
        r == unicode_numeric(c),
{
    c.is_numeric()
}

/// `char::is_alphabetic`.
#[verifier::external_body]
pub(crate) fn is_alphabetic(c: char) -> (r: bool)
    ensures
        r == unicode_alphabetic(c),
{
    c.is_alphabetic()
}

/// `char::is_whitespace`: whether Unicode counts the character as white
/// space, as it does the space.
#[verifier::external_body]
pub(crate) fn is_whitespace(c: char) -> (r: bool)
    ensures
        r == unicode_whitespace(c),
        c == ' ' ==> r,
{
    c.is_whitespace()
}

/// `String::push`: the character is added at the end.
#[verifier::external_body]
pub(crate) fn push_char(text: &mut String, c: char)
    ensures
        final(text)@ == old(text)@.push(c),
{
    text.push(c)
}

/// The number of bytes that a text takes in UTF-8.
pub open spec fn utf8_len(text: Seq<char>) -> nat {
    vstd::utf8::encode_utf8(text).len()
}

/// The number of bytes that a text takes in UTF-8.
pub fn byte_len(text: &str) -> (n: usize)
    ensures
        n == utf8_len(text@),
{
    text.as_bytes().len()
}

/// The characters of a text.
fn chars_of(text: &str) -> (r: Vec<char>)
    ensures
        r@ == text@,
{
    let mut chars: Vec<char> = Vec::new();
    for c in it: text.chars()
        invariant
            it.seq() == text@,
            chars@ == text@.take(it.index()),
    {
        chars.push(c);
        proof {
            assert(text@.take(it.index() + 1) =~= text@.take(it.index()).push(c));
        }
    }
    proof {
        assert(text@.take(text@.len() as int) =~= text@);
    }
    chars
}

/// Whether two texts hold the same characters.
pub fn same_text(a: &str, b: &str) -> (r: bool)
    ensures
        r == (a@ == b@),
{
    let x = a.as_bytes();
    let y = b.as_bytes();
    proof {
        vstd::utf8::encode_utf8_decode_utf8(a@);
        vstd::utf8::encode_utf8_decode_utf8(b@);
    }
    if x.len() != y.len() {
        return false;
    }
    let mut i: usize = 0;
    while i < x.len()
        invariant
            i <= x@.len(),
            x@.len() == y@.len(),
            x@ == a.spec_bytes(),
            y@ == b.spec_bytes(),
            forall|j: int| 0 <= j < i ==> x@[j] == y@[j],
        decreases x@.len() - i,
    {
        if x[i] != y[i] {
            return false;
        }
        i += 1;
    }
    proof {
        assert(x@ =~= y@);
    }
    true
}

/// Whether a text ends with another.
pub open spec fn is_suffix(text: Seq<char>, suffix: Seq<char>) -> bool {
    suffix.len() <= text.len() && text.subrange(text.len() - suffix.len(), text.len() as int)
        == suffix
}

/// A text with every occurrence of one character replaced by another.
pub open spec fn replaced(text: Seq<char>, from: char, to: char) -> Seq<char> {
    Seq::new(text.len(), |i: int| if text[i] == from { to } else { text[i] })
}

/// Whether a text ends with another.
pub fn ends_with(text: &str, suffix: &str) -> (r: bool)
    ensures
        r == is_suffix(text@, suffix@),
{
    let whole = chars_of(text);
    let end = chars_of(suffix);
    if end.len() > whole.len() {
        return false;
    }
    let skip = whole.len() - end.len();
    let mut k: usize = 0;
    while k < end.len()
        invariant
            k <= end@.len(),
            skip + end@.len() == whole@.len() <= usize::MAX,
            whole@ == text@,
            end@ == suffix@,
            forall|j: int| 0 <= j < k ==> whole@[skip + j] == end@[j],
        decreases end@.len() - k,
    {
        if whole[skip + k] != end[k] {
            assert(whole@.subrange(skip as int, whole@.len() as int)[k as int] != end@[k as int]);
            return false;
        }
        k += 1;
    }
    proof {
        assert(whole@.subrange(skip as int, whole@.len() as int) =~= end@);
    }
    true
}

/// Writes a text with every occurrence of one character replaced by another.
pub fn replace_char(text: &str, from: char, to: char) -> (r: String)
    ensures
        r@ == replaced(text@, from, to),
{
    let mut out = String::new();
    for c in it: text.chars()
        invariant
            it.seq() == text@,
            out@ == replaced(text@.take(it.index()), from, to),
    {
        push_char(&mut out, if c == from { to } else { c });
        proof {
            assert(out@ =~= replaced(text@.take(it.index() + 1), from, to));
        }
    }
    proof {
        assert(text@.take(text@.len() as int) =~= text@);
    }
    out
}

/// A text without the white space that it starts with.
pub open spec fn trimmed_start(text: Seq<char>) -> Seq<char>
    decreases text.len(),
{
    if text.len() > 0 && unicode_whitespace(text[0]) {
        trimmed_start(text.drop_first())
    } else {
        text
    }
}

/// A text without the white space that it ends with.
pub open spec fn trimmed_end(text: Seq<char>) -> Seq<char>
    decreases text.len(),
{
    if text.len() > 0 && unicode_whitespace(text.last()) {
        trimmed_end(text.drop_last())
    } else {
        text
    }
}

/// A text without the white space at either end.
pub open spec fn trimmed(text: Seq<char>) -> Seq<char> {
    trimmed_end(trimmed_start(text))
}

/// White space at the start of a text is all that trimming the start takes.
proof fn lemma_trimmed_start(text: Seq<char>, start: int)
    requires
        0 <= start <= text.len(),
        forall|j: int| 0 <= j < start ==> unicode_whitespace(#[trigger] text[j]),
        start == text.len() || !unicode_whitespace(text[start]),
    ensures
        trimmed_start(text) == text.subrange(start, text.len() as int),
    decreases start,
{
    if start == 0 {
        assert(text.subrange(0, text.len() as int) =~= text);
    } else {
        let rest = text.drop_first();
        assert(unicode_whitespace(text[0]));
        assert forall|j: int| 0 <= j < start - 1 implies unicode_whitespace(#[trigger] rest[j]) by {
            assert(rest[j] == text[j + 1]);
        }
        lemma_trimmed_start(rest, start - 1);
        assert(rest.subrange(start - 1, rest.len() as int) =~= text.subrange(
            start,
            text.len() as int,
        ));
    }
}

/// White space at the end of a text is all that trimming the end takes.
proof fn lemma_trimmed_end(text: Seq<char>, end: int)
    requires
        0 <= end <= text.len(),
        forall|j: int| end <= j < text.len() ==> unicode_whitespace(#[trigger] text[j]),
        end == 0 || !unicode_whitespace(text[end - 1]),
    ensures
        trimmed_end(text) == text.subrange(0, end),
    decreases text.len() - end,
{
    if end == text.len() {
        assert(text.subrange(0, end) =~= text);
    } else {
        let rest = text.drop_last();
        assert(unicode_whitespace(text[text.len() - 1]));
        assert forall|j: int| end <= j < rest.len() implies unicode_whitespace(#[trigger] rest[j]) by {
            assert(rest[j] == text[j]);
        }
        lemma_trimmed_end(rest, end);
        assert(rest.subrange(0, end) =~= text.subrange(0, end));
    }
}

/// A text without the white space at either end.
pub fn trim(text: &str) -> (r: &str)
    ensures
        r@ == trimmed(text@),
{
    let n = text.unicode_len();
    let mut i: usize = 0;
    let mut start: usize = 0;
    let mut end: usize = 0;
    for c in it: text.chars()
        invariant
            it.seq() == text@,
            n == text@.len(),
            i == it.index(),
            start <= end <= i <= n,
            forall|j: int| 0 <= j < start ==> unicode_whitespace(#[trigger] text@[j]),
            forall|j: int| end <= j < i ==> unicode_whitespace(#[trigger] text@[j]),
            start < end ==> !unicode_whitespace(text@[start as int]) && !unicode_whitespace(
                text@[end - 1],
            ),
            start == end ==> start == i,
    {
        assert(text@[i as int] == c);
        if is_whitespace(c) {
            if start == end {
                start = i + 1;
                end = i + 1;
            }
        } else {
            end = i + 1;
        }
        i += 1;
    }
    proof {
        let inner = text@.subrange(start as int, n as int);
        lemma_trimmed_start(text@, start as int);
        assert forall|j: int| end - start <= j < inner.len() implies unicode_whitespace(
            #[trigger] inner[j],
        ) by {
            assert(inner[j] == text@[start + j]);
        }
        if start < end {
            assert(inner[end - start - 1] == text@[end - 1]);
        }
        lemma_trimmed_end(inner, end - start);
        assert(inner.subrange(0, end - start) =~= text@.subrange(start as int, end as int));
    }
    text.substring_char(start, end)
}

/// The character of a digit.
pub open spec fn digit_char(digit: nat) -> char {
    if digit == 0 {
        '0'
    } else if digit == 1 {
        '1'
    } else if digit == 2 {
        '2'
    } else if digit == 3 {
        '3'
    } else if digit == 4 {
        '4'
    } else if digit == 5 {
        '5'
    } else if digit == 6 {
        '6'
    } else if digit == 7 {
        '7'
    } else if digit == 8 {
        '8'
    } else {
        '9'
    }
}

/// A number written in decimal digits.
pub open spec fn digits(n: nat) -> Seq<char>
    decreases n,
{
    if n < 10 {
        seq![digit_char(n)]
    } else {
        digits(n / 10).push(digit_char(n % 10))
    }
}

fn digit(d: usize) -> (c: char)
    requires
        d < 10,
    ensures
        c == digit_char(d as nat),
{
    if d == 0 {
        '0'
    } else if d == 1 {
        '1'
    } else if d == 2 {
        '2'
    } else if d == 3 {
        '3'
    } else if d == 4 {
        '4'
    } else if d == 5 {
        '5'
    } else if d == 6 {
        '6'
    } else if d == 7 {
        '7'
    } else if d == 8 {
        '8'
    } else {
        '9'
    }
}

/// Writes a number in decimal digits.
pub fn decimal(n: usize) -> (r: String)
    ensures
        r@ == digits(n as nat),
    decreases n,
{
    if n < 10 {
        let mut text = String::new();
        push_char(&mut text, digit(n));
        assert(text@ =~= seq![digit_char(n as nat)]);
        text
    } else {
        let mut text = decimal(n / 10);
        push_char(&mut text, digit(n % 10));
        text
    }
}

/// The parts that a separator cuts a text into: one more than it occurs.
pub open spec fn split(text: Seq<char>, separator: char) -> Seq<Seq<char>>
    decreases text.len(),
{
    if text.len() == 0 {
        seq![Seq::empty()]
    } else {
        let before = split(text.drop_last(), separator);
        if text.last() == separator {
            before.push(Seq::empty())
        } else {
            before.drop_last().push(before.last().push(text.last()))
        }
    }
}

/// A part never comes without a text to hold it: cutting gives one part at
/// least.
pub proof fn lemma_split_nonempty(text: Seq<char>, separator: char)
    ensures
        split(text, separator).len() >= 1,
    decreases text.len(),
{
    if text.len() > 0 {
        lemma_split_nonempty(text.drop_last(), separator);
    }
}

/// Names and values, as texts.
pub open spec fn pairs(list: Seq<(String, String)>) -> Seq<(Seq<char>, Seq<char>)> {
    list.map_values(|pair: (String, String)| (pair.0@, pair.1@))
}

/// A name and a value.
pub fn pair(name: &str, value: &str) -> (r: (String, String))
    ensures
        r.0@ == name@,
        r.1@ == value@,
{
    (name.to_owned(), value.to_owned())
}

/// The texts of a list of strings.
pub open spec fn texts(strings: Seq<String>) -> Seq<Seq<char>> {
    strings.map_values(|s: String| s@)
}

/// Cuts a text at every occurrence of a separator.
pub fn split_text(text: &str, separator: char) -> (parts: Vec<String>)
    ensures
        texts(parts@) == split(text@, separator),
{
    let mut parts: Vec<String> = Vec::new();
    let mut current = String::new();
    proof {
        assert(text@.take(0) =~= Seq::<char>::empty());
        assert(texts(parts@).push(current@) =~= seq![Seq::<char>::empty()]);
    }
    for c in it: text.chars()
        invariant
            it.seq() == text@,
            texts(parts@).push(current@) == split(text@.take(it.index()), separator),
    {
        let ghost before = split(text@.take(it.index()), separator);
        proof {
            assert(text@.take(it.index() + 1).drop_last() =~= text@.take(it.index()));
            assert(before.drop_last() =~= texts(parts@));
        }
        if c == separator {
            let ghost done = parts@;
            parts.push(current);
            current = String::new();
            proof {
                assert(texts(parts@) =~= texts(done).push(before.last()));
                assert(texts(parts@).push(current@) =~= before.push(Seq::empty()));
            }
        } else {
            push_char(&mut current, c);
        }
    }
    proof {
        assert(text@.take(text@.len() as int) =~= text@);
    }
    let ghost done = parts@;
    parts.push(current);
    proof {
        assert(texts(parts@) =~= texts(done).push(current@));
    }
    parts
}

} // verus!
