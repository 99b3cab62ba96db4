//! Checks on the texts of a profile: password, names, bio, gender, country.

use crate::strings::{
    ascii_alphabetic, ascii_special, byte_len, is_alphabetic, is_ascii_alphabetic, is_ascii_special,
    is_lowercase, is_numeric, is_uppercase, is_whitespace, push_char, trim, trimmed,
    unicode_alphabetic, unicode_lowercase, unicode_numeric, unicode_uppercase, unicode_whitespace,
    utf8_len,
};
use crate::validation::{outcome, text_outcome, ValidationError, ValidationErrorView};
use std::str::FromStr;
use time::error::ComponentRange;
use time::{Date, Month, OffsetDateTime, Time, UtcOffset};
use vstd::prelude::*;
use vstd::utf8::{encode_utf8, is_ascii_chars};

verus! {

/// The classes of characters that a scan of a password has met so far.
#[derive(Clone, Copy, PartialEq, Eq, Debug, Structural)]
pub struct Seen {
    pub lower: bool,
    pub upper: bool,
    pub digit: bool,
    pub special: bool,
}

impl Seen {
    /// No class met yet.
    pub open spec fn nothing() -> Seen {
        Seen { lower: false, upper: false, digit: false, special: false }
    }

    /// The number of classes met.
    pub open spec fn count(self) -> nat {
        (if self.lower { 1nat } else { 0nat }) + (if self.upper { 1nat } else { 0nat }) + (
        if self.digit { 1nat } else { 0nat }) + (if self.special { 1nat } else { 0nat })
    }

    /// The classes met after one more character, given the classes that the
    /// character belongs to. A character stands for the first class that it
    /// belongs to and that was not met before, in the order lowercase,
    /// uppercase, number, special.
    pub open spec fn joined(self, lower: bool, upper: bool, digit: bool, special: bool) -> Seen {
        if !self.lower && lower {
            Seen { lower: true, ..self }
        } else if !self.upper && upper {
            Seen { upper: true, ..self }
        } else if !self.digit && digit {
            Seen { digit: true, ..self }
        } else if !self.special && special {
            Seen { special: true, ..self }
        } else {
            self
        }
    }

    /// The classes met after one more character: lowercase, uppercase and
    /// number as Unicode counts them, special as a space or a punctuation
    /// mark of ASCII.
    pub open spec fn note(self, c: char) -> Seen {
        self.joined(
            unicode_lowercase(c),
            unicode_uppercase(c),
            unicode_numeric(c),
            ascii_special(c),
        )
    }

    /// The number of classes met.
    pub fn met(self) -> (n: u8)
        ensures
            n == self.count(),
    {
        let mut n: u8 = 0;
        if self.lower {
            n += 1;
        }
        if self.upper {
            n += 1;
        }
        if self.digit {
            n += 1;
        }
        if self.special {
            n += 1;
        }
        n
    }

    /// Takes one more character into the scan, given the classes that it
    /// belongs to.
    pub fn with(self, lower: bool, upper: bool, digit: bool, special: bool) -> (r: Seen)
        ensures
            r == self.joined(lower, upper, digit, special),
    {
        if !self.lower && lower {
            Seen { lower: true, upper: self.upper, digit: self.digit, special: self.special }
        } else if !self.upper && upper {
            Seen { lower: self.lower, upper: true, digit: self.digit, special: self.special }
        } else if !self.digit && digit {
            Seen { lower: self.lower, upper: self.upper, digit: true, special: self.special }
        } else if !self.special && special {
            Seen { lower: self.lower, upper: self.upper, digit: self.digit, special: true }
        } else {
            self
        }
    }

    fn noted(self, c: char) -> (r: Seen)
        ensures
            r == self.note(c),
    {
        self.with(is_lowercase(c), is_uppercase(c), is_numeric(c), is_ascii_special(c))
    }
}

/// The classes that a scan of a whole text meets.
pub open spec fn seen_in(text: Seq<char>) -> Seen
    decreases text.len(),
{
    if text.len() == 0 {
        Seen::nothing()
    } else {
        seen_in(text.drop_last()).note(text.last())
    }
}

/// A password is strong when it takes 8 to 128 bytes and its characters
/// stand for three classes at least.
pub open spec fn password_outcome(password: Seq<char>) -> Result<(), ValidationErrorView> {
    if utf8_len(password) < 8 {
        Err(ValidationErrorView::PasswordTooShort)
    } else if utf8_len(password) > 128 {
        Err(ValidationErrorView::PasswordTooLong)
    } else if seen_in(password).count() >= 3 {
        Ok(())
    } else {
        Err(ValidationErrorView::InvalidPasswordFormat)
    }
}

/// A scan never forgets a class: a longer text stands for as many classes as
/// any of its beginnings, or more.
pub proof fn lemma_seen_grows(text: Seq<char>, upto: int)
    requires
        0 <= upto <= text.len(),
    ensures
        seen_in(text.take(upto)).count() <= seen_in(text).count(),
    decreases text.len(),
{
    if upto == text.len() {
        assert(text.take(upto) =~= text);
    } else {
        lemma_seen_grows(text.drop_last(), upto);
        assert(text.drop_last().take(upto) =~= text.take(upto));
    }
}

/// Checks the strength of a password.
pub fn is_password_strong(p: &str) -> (r: Result<(), ValidationError>)
    ensures
        outcome(r) == password_outcome(p@),
{
    if byte_len(p) < 8 {
        return Err(ValidationError::PasswordTooShort);
    }
    if byte_len(p) > 128 {
        return Err(ValidationError::PasswordTooLong);
    }
    let mut seen = Seen { lower: false, upper: false, digit: false, special: false };
    for c in it: p.chars()
        invariant
            it.seq() == p@,
            8 <= utf8_len(p@) <= 128,
            seen == seen_in(p@.take(it.index())),
            seen.count() < 3,
    {
        proof {
            assert(p@.take(it.index() + 1).drop_last() =~= p@.take(it.index()));
        }
        seen = seen.noted(c);
        if seen.met() >= 3 {
            proof {
                lemma_seen_grows(p@, it.index() + 1);
            }
            return Ok(());
        }
    }
    proof {
        assert(p@.take(p@.len() as int) =~= p@);
    }
    Err(ValidationError::InvalidPasswordFormat)
}

/// Whether a text holds nothing but letters and white space.
pub open spec fn only_letters(text: Seq<char>) -> bool {
    forall|i: int|
        0 <= i < text.len() ==> unicode_whitespace(#[trigger] text[i]) || unicode_alphabetic(
            text[i],
        )
}

/// Whether a word starts at the last character of a text.
pub open spec fn word_starts_at_end(text: Seq<char>) -> bool {
    text.len() > 0 && !unicode_whitespace(text.last()) && (text.len() == 1 || unicode_whitespace(
        text[text.len() - 2],
    ))
}

/// The number of words in a text: runs of characters that are no white
/// space.
pub open spec fn word_count(text: Seq<char>) -> nat
    decreases text.len(),
{
    if text.len() == 0 {
        0
    } else {
        word_count(text.drop_last()) + if word_starts_at_end(text) {
            1nat
        } else {
            0nat
        }
    }
}

/// The words of a text, one space between two of them.
pub open spec fn words_joined(text: Seq<char>) -> Seq<char>
    decreases text.len(),
{
    if text.len() == 0 {
        text
    } else if unicode_whitespace(text.last()) {
        words_joined(text.drop_last())
    } else if word_starts_at_end(text) && words_joined(text.drop_last()).len() > 0 {
        words_joined(text.drop_last()).push(' ').push(text.last())
    } else {
        words_joined(text.drop_last()).push(text.last())
    }
}

/// A legal name takes at most 64 bytes and is made of two words or more,
/// of letters only. The answer is the name with single spaces.
pub open spec fn legal_name_outcome(name: Seq<char>) -> Result<Seq<char>, ValidationErrorView> {
    if utf8_len(name) > 64 {
        Err(ValidationErrorView::NameTooLong)
    } else if !only_letters(name) {
        Err(ValidationErrorView::InvalidNameFormat("Only alphabets are allowed inside name"@))
    } else if word_count(name) >= 2 {
        Ok(words_joined(name))
    } else {
        Err(ValidationErrorView::InvalidNameFormat("Name must contain two or more words"@))
    }
}

/// A text whose words are parted by single spaces, with no space before the
/// first word; one space may follow the last.
pub open spec fn spaced(text: Seq<char>) -> bool {
    &&& forall|i: int| 0 <= i < text.len() ==> #[trigger] text[i] == ' ' || !unicode_whitespace(text[i])
    &&& text.len() > 0 ==> text[0] != ' '
    &&& forall|i: int| 0 <= i < text.len() - 1 ==> !(#[trigger] text[i] == ' ' && text[i + 1] == ' ')
}

/// One more character takes its own bytes, one at least, and a space takes
/// one.
proof fn lemma_utf8_len_push(text: Seq<char>, c: char)
    ensures
        utf8_len(text.push(c)) == utf8_len(text) + utf8_len(seq![c]),
        utf8_len(seq![c]) >= 1,
        c == ' ' ==> utf8_len(seq![c]) == 1,
    decreases text.len(),
{
    assert(seq![c].drop_first() =~= Seq::<char>::empty());
    assert(encode_utf8(Seq::<char>::empty()).len() == 0);
    if text.len() == 0 {
        assert(text.push(c) =~= seq![c]);
    } else {
        lemma_utf8_len_push(text.drop_first(), c);
        assert(text.push(c).drop_first() =~= text.drop_first().push(c));
        assert(text.push(c)[0] == text[0]);
    }
}

/// The joined words of a text are spaced and end with a word, hold letters
/// where the text holds letters only, and take no more bytes than the text.
proof fn lemma_joined(text: Seq<char>)
    requires
        unicode_whitespace(' '),
    ensures
        spaced(words_joined(text)),
        words_joined(text).len() > 0 ==> !unicode_whitespace(words_joined(text).last()),
        text.len() > 0 && !unicode_whitespace(text.last()) ==> words_joined(text).len() > 0
            && words_joined(text).last() == text.last(),
        only_letters(text) ==> only_letters(words_joined(text)),
        word_count(words_joined(text)) == word_count(text),
        utf8_len(words_joined(text)) <= utf8_len(text),
        text.len() > 0 && unicode_whitespace(text.last()) ==> utf8_len(words_joined(text)) + 1
            <= utf8_len(text),
    decreases text.len(),
{
    if text.len() > 0 {
        let before = text.drop_last();
        let c = text.last();
        let joined = words_joined(before);
        lemma_joined(before);
        assert(before.push(c) =~= text);
        lemma_utf8_len_push(before, c);
        if only_letters(text) {
            assert forall|i: int| 0 <= i < before.len() implies unicode_whitespace(
                #[trigger] before[i],
            ) || unicode_alphabetic(before[i]) by {
                assert(before[i] == text[i]);
            }
            assert(unicode_whitespace(text[text.len() - 1]) || unicode_alphabetic(
                text[text.len() - 1],
            ));
        }
        if unicode_whitespace(c) {
            assert(!word_starts_at_end(text));
            assert(word_count(text) == word_count(before));
        } else if word_starts_at_end(text) && joined.len() > 0 {
            let parted = joined.push(' ');
            let grown = parted.push(c);
            assert(words_joined(text) == grown);
            assert(grown.drop_last() =~= parted);
            assert(parted.drop_last() =~= joined);
            lemma_utf8_len_push(joined, ' ');
            lemma_utf8_len_push(parted, c);
            assert(before.len() > 0 && unicode_whitespace(before.last())) by {
                if before.len() == 0 {
                    assert(joined.len() == 0);
                }
            }
            assert(word_starts_at_end(grown));
            assert(!word_starts_at_end(parted));
            assert(word_count(parted) == word_count(joined));
            assert(word_count(grown) == word_count(parted) + 1);
            assert(word_count(text) == word_count(before) + 1);
        } else {
            let grown = joined.push(c);
            assert(words_joined(text) == grown);
            assert(grown.drop_last() =~= joined);
            lemma_utf8_len_push(joined, c);
            if joined.len() == 0 {
                assert(word_starts_at_end(grown));
                assert(word_count(joined) == 0);
                assert(word_starts_at_end(text)) by {
                    if text.len() > 1 && !unicode_whitespace(text[text.len() - 2]) {
                        assert(before.last() == text[text.len() - 2]);
                    }
                }
                assert(word_count(grown) == 1);
                assert(word_count(text) == word_count(before) + 1);
            } else {
                assert(!word_starts_at_end(text));
                assert(before.last() == text[text.len() - 2]);
                assert(!word_starts_at_end(grown));
                assert(word_count(grown) == word_count(joined));
                assert(word_count(text) == word_count(before));
            }
        }
    }
}

/// Joining the words of a spaced text takes the space after its last word
/// and nothing else.
proof fn lemma_spaced_joined(text: Seq<char>)
    requires
        unicode_whitespace(' '),
        spaced(text),
    ensures
        words_joined(text) == if text.len() > 0 && text.last() == ' ' {
            text.drop_last()
        } else {
            text
        },
    decreases text.len(),
{
    if text.len() > 0 {
        let before = text.drop_last();
        let c = text.last();
        assert(spaced(before)) by {
            assert forall|i: int| 0 <= i < before.len() implies #[trigger] before[i] == ' '
                || !unicode_whitespace(before[i]) by {
                assert(before[i] == text[i]);
            }
            if before.len() > 0 {
                assert(before[0] == text[0]);
            }
            assert forall|i: int| 0 <= i < before.len() - 1 implies !(#[trigger] before[i] == ' '
                && before[i + 1] == ' ') by {
                assert(before[i] == text[i] && before[i + 1] == text[i + 1]);
            }
        }
        lemma_spaced_joined(before);
        assert(text[text.len() - 1] == ' ' || !unicode_whitespace(text[text.len() - 1]));
        if c == ' ' {
            assert(before.len() > 0) by {
                assert(text[0] != ' ');
            }
            assert(before.last() != ' ') by {
                assert(!(text[text.len() - 2] == ' ' && text[text.len() - 2 + 1] == ' '));
            }
        } else if before.len() > 0 && before.last() == ' ' {
            assert(before.len() >= 2) by {
                assert(before[0] == text[0]);
            }
            assert(text[text.len() - 2] == ' ');
            assert(before.drop_last().push(' ').push(c) =~= text);
        } else {
            assert(before.push(c) =~= text);
            if before.len() > 0 {
                assert(before.last() == text[text.len() - 2]);
                assert(text[text.len() - 2] == ' ' || !unicode_whitespace(text[text.len() - 2]));
            }
        }
    }
}

/// A legal name that was given back with single spaces is a legal name
/// that is given back as it is.
pub proof fn lemma_legal_name_settles(name: Seq<char>)
    requires
        unicode_whitespace(' '),
        legal_name_outcome(name) is Ok,
    ensures
        legal_name_outcome(words_joined(name)) == Ok::<Seq<char>, ValidationErrorView>(
            words_joined(name),
        ),
{
    lemma_joined(name);
    lemma_spaced_joined(words_joined(name));
}

/// What a scan of a legal name has gathered so far.
#[derive(Clone, Debug, PartialEq)]
pub struct NameScan {
    /// The words so far, one space between two of them.
    pub joined: String,
    /// The number of words so far, counted up to two.
    pub words: u8,
    /// Whether the last character belonged to a word.
    pub in_word: bool,
}

/// A scan with its text as a sequence of characters.
pub struct NameScanView {
    pub joined: Seq<char>,
    pub words: u8,
    pub in_word: bool,
}

impl View for NameScan {
    type V = NameScanView;

    open spec fn view(&self) -> NameScanView {
        NameScanView { joined: self.joined@, words: self.words, in_word: self.in_word }
    }
}

/// What one more character makes of a scan, given whether it is white space
/// and whether it is a letter. White space ends a word. A letter goes on
/// with the word that it is in, or starts a new one after a single space.
/// Anything else ends the scan with nothing.
pub open spec fn name_step(scan: NameScanView, c: char, whitespace: bool, letter: bool) -> Option<
    NameScanView,
> {
    if whitespace {
        Some(NameScanView { in_word: false, ..scan })
    } else if !letter {
        None
    } else if scan.in_word {
        Some(NameScanView { joined: scan.joined.push(c), ..scan })
    } else {
        Some(
            NameScanView {
                joined: if scan.joined.len() == 0 {
                    scan.joined.push(c)
                } else {
                    scan.joined.push(' ').push(c)
                },
                words: if scan.words < 2 {
                    (scan.words + 1) as u8
                } else {
                    scan.words
                },
                in_word: true,
            },
        )
    }
}

impl NameScan {
    /// A scan that has seen nothing.
    pub fn new() -> (r: NameScan)
        ensures
            r@ == (NameScanView { joined: Seq::empty(), words: 0, in_word: false }),
    {
        NameScan { joined: String::new(), words: 0, in_word: false }
    }

    /// Takes one more character into the scan, given whether it is white
    /// space and whether it is a letter; nothing where it is neither.
    pub fn step(self, c: char, whitespace: bool, letter: bool) -> (r: Option<NameScan>)
        ensures
            match name_step(self@, c, whitespace, letter) {
                Some(next) => r matches Some(scan) && scan@ == next,
                None => r is None,
            },
    {
        let mut scan = self;
        if whitespace {
            scan.in_word = false;
            return Some(scan);
        }
        if !letter {
            return None;
        }
        if !scan.in_word {
            if !scan.joined.as_str().is_empty() {
                push_char(&mut scan.joined, ' ');
            }
            if scan.words < 2 {
                scan.words += 1;
            }
        }
        push_char(&mut scan.joined, c);
        scan.in_word = true;
        Some(scan)
    }
}

/// Checks a legal name and gives it back with single spaces between its
/// words.
pub fn is_legal_name_valid(s: &str) -> (r: Result<String, ValidationError>)
    ensures
        text_outcome(r) == legal_name_outcome(s@),
        r matches Ok(name) ==> legal_name_outcome(name@) == Ok::<Seq<char>, ValidationErrorView>(
            name@,
        ),
{
    if byte_len(s) > 64 {
        return Err(ValidationError::NameTooLong);
    }
    let mut scan = NameScan::new();
    for c in it: s.chars()
        invariant
            it.seq() == s@,
            utf8_len(s@) <= 64,
            scan.joined@ == words_joined(s@.take(it.index())),
            scan.words <= 2,
            scan.words == 2 || scan.words == word_count(s@.take(it.index())),
            scan.words == 2 ==> word_count(s@.take(it.index())) >= 2,
            scan.in_word == (it.index() > 0 && !unicode_whitespace(s@[it.index() - 1])),
            only_letters(s@.take(it.index())),
    {
        proof {
            let grown = s@.take(it.index() + 1);
            assert(grown.drop_last() =~= s@.take(it.index()));
            assert(grown.last() == c);
            assert(s@[it.index()] == c);
        }
        scan = match scan.step(c, is_whitespace(c), is_alphabetic(c)) {
            Some(next) => next,
            None => {
                return Err(
                    ValidationError::InvalidNameFormat(
                        "Only alphabets are allowed inside name".to_owned(),
                    ),
                );
            },
        };
        proof {
            let grown = s@.take(it.index() + 1);
            assert forall|i: int| 0 <= i < grown.len() implies unicode_whitespace(
                #[trigger] grown[i],
            ) || unicode_alphabetic(grown[i]) by {
                if i < it.index() {
                    assert(grown[i] == s@.take(it.index())[i]);
                }
            }
        }
    }
    proof {
        assert(s@.take(s@.len() as int) =~= s@);
    }
    if scan.words >= 2 {
        // The words of the answer are parted by spaces. A space is white
        // space itself, so the answer is a legal name that this check gives
        // back as it is.
        let _ = is_whitespace(' ');
        proof {
            lemma_legal_name_settles(s@);
        }
        Ok(scan.joined)
    } else {
        Err(ValidationError::InvalidNameFormat("Name must contain two or more words".to_owned()))
    }
}

/// A display name takes 2 bytes or more once the white space at its ends
/// is gone, 64 at most as it is, and is made of ASCII between those ends.
pub open spec fn display_name_outcome(name: Seq<char>) -> Result<(), ValidationErrorView> {
    if utf8_len(trimmed(name)) < 2 {
        Err(ValidationErrorView::NameTooShort)
    } else if utf8_len(name) > 64 {
        Err(ValidationErrorView::NameTooLong)
    } else if !is_ascii_chars(trimmed(name)) {
        Err(ValidationErrorView::InvalidNameFormat("Name can only contain ascii characters"@))
    } else {
        Ok(())
    }
}

/// Checks a display name.
pub fn is_display_name_valid(display_name: &str) -> (r: Result<(), ValidationError>)
    ensures
        outcome(r) == display_name_outcome(display_name@),
{
    let inner = trim(display_name);
    if byte_len(inner) < 2 {
        return Err(ValidationError::NameTooShort);
    }
    if byte_len(display_name) > 64 {
        return Err(ValidationError::NameTooLong);
    }
    if !inner.is_ascii() {
        return Err(
            ValidationError::InvalidNameFormat("Name can only contain ascii characters".to_owned()),
        );
    }
    Ok(())
}

/// The longest bio, in bytes.
pub const BIO_MAX_BYTES: usize = 3000;

/// Checks a bio: it takes at most 3000 bytes.
pub fn is_bio_valid(bio: &str) -> (r: Result<(), ValidationError>)
    ensures
        outcome(r) == if utf8_len(bio@) > BIO_MAX_BYTES {
            Err::<(), _>(ValidationErrorView::BioTooLong)
        } else {
            Ok(())
        },
{
    if byte_len(bio) > BIO_MAX_BYTES {
        return Err(ValidationError::BioTooLong);
    }
    Ok(())
}

/// Whether a text holds nothing but letters of ASCII.
pub open spec fn only_ascii_letters(text: Seq<char>) -> bool {
    forall|i: int| 0 <= i < text.len() ==> ascii_alphabetic(#[trigger] text[i])
}

/// Checks a gender: letters of ASCII only; the empty text passes.
pub fn is_gender_valid(gender: &str) -> (r: Result<(), ValidationError>)
    ensures
        outcome(r) == if only_ascii_letters(gender@) {
            Ok::<(), _>(())
        } else {
            Err(ValidationErrorView::InvalidGender)
        },
{
    for c in it: gender.chars()
        invariant
            it.seq() == gender@,
            only_ascii_letters(gender@.take(it.index())),
    {
        if !is_ascii_alphabetic(c) {
            assert(gender@[it.index()] == c);
            return Err(ValidationError::InvalidGender);
        }
        proof {
            let grown = gender@.take(it.index() + 1);
            assert forall|i: int| 0 <= i < grown.len() implies ascii_alphabetic(
                #[trigger] grown[i],
            ) by {
                if i < it.index() {
                    assert(grown[i] == gender@.take(it.index())[i]);
                }
            }
        }
    }
    proof {
        assert(gender@.take(gender@.len() as int) =~= gender@);
    }
    Ok(())
}

/// The official name of the country that a name or a code of ISO 3166
/// stands for, if it stands for one.
pub uninterp spec fn long_name_of(code: Seq<char>) -> Option<Seq<char>>;

/// `Country::from_str`, and the `long_name` of the country that it finds.
#[verifier::external_body]
pub(crate) fn find_country(code: &str) -> (found: Option<String>)
    ensures
        crate::applications::record::text_of(found) == long_name_of(code@),
{
    match celes::Country::from_str(code) {
        Ok(country) => Some(country.long_name.to_string()),
        Err(_) => None,
    }
}

/// Decides on a country from what the table of countries gave for it.
pub fn country_found(found: Option<String>) -> (r: Result<String, ValidationError>)
    ensures
        text_outcome(r) == match found {
            Some(name) => Ok::<Seq<char>, ValidationErrorView>(name@),
            None => Err(ValidationErrorView::CountryNotFound),
        },
{
    match found {
        Some(name) => Ok(name),
        None => Err(ValidationError::CountryNotFound),
    }
}

/// Checks a country, given by name or code with white space around it at
/// most, and gives its official name.
pub fn is_country_valid(country: &str) -> (r: Result<String, ValidationError>)
    ensures
        text_outcome(r) == match long_name_of(trimmed(country@)) {
            Some(name) => Ok::<Seq<char>, ValidationErrorView>(name),
            None => Err(ValidationErrorView::CountryNotFound),
        },
{
    country_found(find_country(trim(country)))
}

#[verifier::external_type_specification]
#[verifier::external_body]
pub struct ExComponentRange(ComponentRange);

#[verifier::external_type_specification]
#[verifier::external_body]
pub struct ExDate(Date);

#[verifier::external_type_specification]
#[verifier::external_body]
pub struct ExUtcOffset(UtcOffset);

/// Whether a year has a 29th of February.
pub open spec fn is_leap_year(year: int) -> bool {
    year % 4 == 0 && (year % 100 != 0 || year % 400 == 0)
}

/// The number of days of a month of a year.
pub open spec fn days_in_month(year: int, month: int) -> int {
    if month == 2 {
        if is_leap_year(year) {
            29
        } else {
            28
        }
    } else if month == 4 || month == 6 || month == 9 || month == 11 {
        30
    } else {
        31
    }
}

/// `Date::from_calendar_date`, with the month made of its number by
/// `Month::try_from`: in the years 0 to 9999 a date exactly where the month
/// has the day, and in no year a date for a day that no month has.
#[verifier::external_body]
pub(crate) fn calendar_date(year: i32, month: u8, day: u8) -> (r: Result<Date, ComponentRange>)
    requires
        1 <= month <= 12,
    ensures
        0 <= year <= 9999 ==> (r is Ok <==> 1 <= day <= days_in_month(year as int, month as int)),
        day == 0 || day > 31 ==> r is Err,
{
    match Month::try_from(month) {
        Ok(month) => Date::from_calendar_date(year, month, day),
        Err(error) => Err(error),
    }
}

/// The offsets from UTC that can be had: up to 25 hours, 59 minutes and 59
/// seconds either way.
pub open spec fn offset_in_range(hours: i8, minutes: i8, seconds: i8) -> bool {
    -25 <= hours <= 25 && -59 <= minutes <= 59 && -59 <= seconds <= 59
}

/// `UtcOffset::from_hms`: an offset where each part is in range, an error
/// where one is not.
#[verifier::external_body]
pub(crate) fn utc_offset(hours: i8, minutes: i8, seconds: i8) -> (r: Result<UtcOffset, ComponentRange>)
    ensures
        r is Ok <==> offset_in_range(hours, minutes, seconds),
{
    UtcOffset::from_hms(hours, minutes, seconds)
}

/// `OffsetDateTime::new_in_offset` at `Time::MIDNIGHT`: the start of a day
/// in an offset.
#[verifier::external_body]
pub(crate) fn at_midnight(date: Date, offset: UtcOffset) -> OffsetDateTime {
    OffsetDateTime::new_in_offset(date, Time::MIDNIGHT, offset)
}

/// `>` of `OffsetDateTime`: whether a moment comes after another.
#[verifier::external_body]
pub(crate) fn is_later(moment: &OffsetDateTime, than: &OffsetDateTime) -> bool {
    moment > than
}

/// The text of a component that was out of range (`Display` of
/// `ComponentRange`).
#[verifier::external_body]
pub(crate) fn describe_range(error: &ComponentRange) -> String {
    error.to_string()
}

/// The year as the calendar takes it: years beyond the signed range wrap
/// around, and the calendar turns them down.
fn signed_year(year: u32) -> (r: i32)
    ensures
        year <= 9999 ==> r == year,
{
    #[verifier::truncate]
    (year as i32)
}

/// Decides on an offset from UTC given in hours, minutes and seconds.
pub fn is_utc_offset_valid(hours: i8, minutes: i8, seconds: i8) -> (r: Result<UtcOffset, ValidationError>)
    ensures
        r is Ok <==> offset_in_range(hours, minutes, seconds),
        r matches Err(error) ==> error == ValidationError::InvalidUtcOffset,
{
    match utc_offset(hours, minutes, seconds) {
        Ok(offset) => Ok(offset),
        Err(_) => Err(ValidationError::InvalidUtcOffset),
    }
}

/// Decides on a date of birth from whether it lies in the future.
pub fn birth_date_checked(birth: OffsetDateTime, in_future: bool) -> (r: Result<
    OffsetDateTime,
    ValidationError,
>)
    ensures
        outcome(r) == if in_future {
            Err::<OffsetDateTime, ValidationErrorView>(
                ValidationErrorView::InvalidDate("Birth Date cannot be in the future"@),
            )
        } else {
            Ok(birth)
        },
{
    if in_future {
        return Err(ValidationError::InvalidDate("Birth Date cannot be in the future".to_owned()));
    }
    Ok(birth)
}

/// Checks a date of birth and gives the start of that day in the offset. A
/// month that is none gives `InvalidMonth`, a day that the month does not
/// have `DateParseError`, a day that has not begun yet `InvalidDate`.
pub fn is_birth_date_valid(year: u32, month: u8, day: u8, offset: UtcOffset) -> (r: Result<
    OffsetDateTime,
    ValidationError,
>)
    ensures
        !(1 <= month <= 12) <==> r == Err::<OffsetDateTime, ValidationError>(
            ValidationError::InvalidMonth,
        ),
        1 <= month <= 12 && year <= 9999 ==> (r matches Err(ValidationError::DateParseError(_))
            <==> !(1 <= day <= days_in_month(year as int, month as int))),
        1 <= month <= 12 && (day == 0 || day > 31) ==> r matches Err(
            ValidationError::DateParseError(_),
        ),
        match outcome(r) {
            Ok(_) => true,
            Err(ValidationErrorView::InvalidMonth) => true,
            Err(ValidationErrorView::DateParseError(_)) => true,
            Err(ValidationErrorView::InvalidDate(reason)) => reason
                == "Birth Date cannot be in the future"@,
            Err(_) => false,
        },
{
    if month < 1 || month > 12 {
        return Err(ValidationError::InvalidMonth);
    }
    let date = match calendar_date(signed_year(year), month, day) {
        Ok(d) => d,
        Err(e) => {
            return Err(ValidationError::DateParseError(describe_range(&e)));
        },
    };
    let birth_datetime = at_midnight(date, offset);
    let in_future = is_later(&birth_datetime, &crate::users::now());
    birth_date_checked(birth_datetime, in_future)
}

} // verus!
