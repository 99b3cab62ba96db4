//! Checks on what names an account: email and username.

use crate::strings::{
    ascii_alphabetic, ascii_alphanumeric, ascii_digit, ascii_lowercase, byte_len,
    is_ascii_alphabetic, is_ascii_alphanumeric, is_ascii_digit, is_ascii_lowercase,
    lemma_split_nonempty, split, utf8_len,
};
use crate::validation::text::only_ascii_letters;
use crate::validation::{outcome, ValidationError, ValidationErrorView};
use vstd::prelude::*;
use vstd::string::StrSliceExecFns;

verus! {

/// A period, a hyphen or an underscore.
pub open spec fn local_symbol(c: char) -> bool {
    c == '.' || c == '-' || c == '_'
}

/// Whether every character is a letter or digit of ASCII or a symbol.
pub open spec fn only_local_chars(text: Seq<char>) -> bool {
    forall|i: int|
        0 <= i < text.len() ==> ascii_alphanumeric(#[trigger] text[i]) || local_symbol(text[i])
}

/// Whether no symbol follows another.
pub open spec fn no_symbol_pair(text: Seq<char>) -> bool {
    forall|i: int|
        0 <= i < text.len() - 1 ==> !(local_symbol(#[trigger] text[i]) && local_symbol(
            text[i + 1],
        ))
}

/// The part of an email before the `@`: 1 to 64 bytes, letters and digits of
/// ASCII with single periods, hyphens or underscores between them.
pub open spec fn local_part_valid(local: Seq<char>) -> bool {
    &&& local.len() > 0
    &&& utf8_len(local) <= 64
    &&& ascii_alphanumeric(local[0])
    &&& only_local_chars(local)
    &&& no_symbol_pair(local)
    &&& !local_symbol(local.last())
}

/// Whether every character is a letter or digit of ASCII or a hyphen.
pub open spec fn only_label_chars(text: Seq<char>) -> bool {
    forall|i: int|
        0 <= i < text.len() ==> ascii_alphanumeric(#[trigger] text[i]) || text[i] == '-'
}

/// A label below the top of a domain: it starts with a letter, goes on with
/// letters, digits and hyphens, and does not end with a hyphen.
pub open spec fn label_valid(label: Seq<char>) -> bool {
    &&& label.len() > 0
    &&& only_label_chars(label)
    &&& ascii_alphabetic(label[0])
    &&& label.last() != '-'
}

/// The top label of a domain: letters only, one at least.
pub open spec fn top_label_valid(label: Seq<char>) -> bool {
    label.len() > 0 && only_ascii_letters(label)
}

/// Whether all labels but the last are valid.
pub open spec fn lower_labels_valid(labels: Seq<Seq<char>>) -> bool {
    forall|k: int| 0 <= k < labels.len() - 1 ==> label_valid(#[trigger] labels[k])
}

/// The part of an email after the `@`: at most 256 bytes, two to four labels
/// with periods between them, the last one the top label.
pub open spec fn domain_valid(domain: Seq<char>) -> bool {
    let labels = split(domain, '.');
    &&& utf8_len(domain) <= 256
    &&& 2 <= labels.len() <= 4
    &&& lower_labels_valid(labels)
    &&& top_label_valid(labels.last())
}

/// An email is one `@` with a valid local part before it and a valid domain
/// after it.
pub open spec fn email_valid(email: Seq<char>) -> bool {
    let parts = split(email, '@');
    parts.len() == 2 && local_part_valid(parts[0]) && domain_valid(parts[1])
}

fn is_local_symbol(c: char) -> (r: bool)
    ensures
        r == local_symbol(c),
{
    c == '.' || c == '-' || c == '_'
}

/// Checks the part of an email before the `@`.
pub fn is_local_part_valid(local_part: &str) -> (r: bool)
    ensures
        r == local_part_valid(local_part@),
{
    if local_part.is_empty() || byte_len(local_part) > 64 {
        return false;
    }
    let mut first = true;
    let mut after_symbol = false;
    for c in it: local_part.chars()
        invariant
            it.seq() == local_part@,
            local_part@.len() > 0,
            utf8_len(local_part@) <= 64,
            first == (it.index() == 0),
            !first ==> ascii_alphanumeric(local_part@[0]),
            after_symbol == (it.index() > 0 && local_symbol(local_part@[it.index() - 1])),
            only_local_chars(local_part@.take(it.index())),
            no_symbol_pair(local_part@.take(it.index())),
    {
        let ghost i = it.index();
        assert(local_part@[i] == c);
        let symbol = is_local_symbol(c);
        if first && !is_ascii_alphanumeric(c) {
            return false;
        }
        if !is_ascii_alphanumeric(c) && !symbol {
            return false;
        }
        if after_symbol && symbol {
            assert(local_symbol(local_part@[i - 1]) && local_symbol(local_part@[i - 1 + 1]));
            return false;
        }
        proof {
            let grown = local_part@.take(i + 1);
            assert forall|j: int| 0 <= j < grown.len() implies ascii_alphanumeric(
                #[trigger] grown[j],
            ) || local_symbol(grown[j]) by {
                if j < i {
                    assert(grown[j] == local_part@.take(i)[j]);
                }
            }
            assert forall|j: int| 0 <= j < grown.len() - 1 implies !(local_symbol(
                #[trigger] grown[j],
            ) && local_symbol(grown[j + 1])) by {
                if j < i - 1 {
                    assert(grown[j] == local_part@.take(i)[j]);
                    assert(grown[j + 1] == local_part@.take(i)[j + 1]);
                }
            }
        }
        first = false;
        after_symbol = symbol;
    }
    proof {
        assert(local_part@.take(local_part@.len() as int) =~= local_part@);
    }
    !after_symbol
}

/// What a scan of a domain knows of the label that it is in.
struct Label {
    empty: bool,
    starts_with_letter: bool,
    label_chars: bool,
    letters: bool,
    ends_with_hyphen: bool,
}

impl Label {
    spec fn describes(self, label: Seq<char>) -> bool {
        &&& self.empty == (label.len() == 0)
        &&& self.starts_with_letter == (label.len() > 0 && ascii_alphabetic(label[0]))
        &&& self.label_chars == only_label_chars(label)
        &&& self.letters == only_ascii_letters(label)
        &&& self.ends_with_hyphen == (label.len() > 0 && label.last() == '-')
    }

    fn start() -> (r: Label)
        ensures
            r.describes(Seq::empty()),
    {
        Label {
            empty: true,
            starts_with_letter: false,
            label_chars: true,
            letters: true,
            ends_with_hyphen: false,
        }
    }

    fn with(self, c: char, Ghost(label): Ghost<Seq<char>>) -> (r: Label)
        requires
            self.describes(label),
        ensures
            r.describes(label.push(c)),
    {
        let grown = Label {
            empty: false,
            starts_with_letter: if self.empty {
                is_ascii_alphabetic(c)
            } else {
                self.starts_with_letter
            },
            label_chars: self.label_chars && (is_ascii_alphanumeric(c) || c == '-'),
            letters: self.letters && is_ascii_alphabetic(c),
            ends_with_hyphen: c == '-',
        };
        proof {
            let longer = label.push(c);
            assert(longer[label.len() as int] == c);
            assert forall|i: int| 0 <= i < label.len() implies longer[i] == label[i] by {}
            if only_label_chars(longer) {
                assert forall|i: int| 0 <= i < label.len() implies ascii_alphanumeric(
                    #[trigger] label[i],
                ) || label[i] == '-' by {
                    assert(longer[i] == label[i]);
                }
            }
            if only_ascii_letters(longer) {
                assert forall|i: int| 0 <= i < label.len() implies ascii_alphabetic(
                    #[trigger] label[i],
                ) by {
                    assert(longer[i] == label[i]);
                }
            }
        }
        grown
    }

    fn valid(&self, Ghost(label): Ghost<Seq<char>>) -> (r: bool)
        requires
            self.describes(label),
        ensures
            r == label_valid(label),
    {
        !self.empty && self.label_chars && self.starts_with_letter && !self.ends_with_hyphen
    }
}

/// Checks the part of an email after the `@`.
pub fn is_domain_valid(domain: &str) -> (r: bool)
    ensures
        r == domain_valid(domain@),
{
    if byte_len(domain) > 256 {
        return false;
    }
    let mut count: u8 = 1;
    let mut lower_valid = true;
    let mut current = Label::start();
    for c in it: domain.chars()
        invariant
            it.seq() == domain@,
            1 <= count <= 5,
            count == 5 || count == split(domain@.take(it.index()), '.').len(),
            count == 5 ==> split(domain@.take(it.index()), '.').len() >= 5,
            lower_valid == lower_labels_valid(split(domain@.take(it.index()), '.')),
            current.describes(split(domain@.take(it.index()), '.').last()),
    {
        let ghost i = it.index();
        let ghost before = split(domain@.take(i), '.');
        let ghost after = split(domain@.take(i + 1), '.');
        proof {
            lemma_split_nonempty(domain@.take(i), '.');
            assert(domain@.take(i + 1).drop_last() =~= domain@.take(i));
            assert(domain@.take(i + 1).last() == c);
        }
        if c == '.' {
            let ended = current.valid(Ghost(before.last()));
            proof {
                assert(after == before.push(Seq::empty()));
                assert forall|k: int| 0 <= k < before.len() implies after[k] == before[k] by {}
                if lower_valid && ended {
                    assert forall|k: int| 0 <= k < after.len() - 1 implies label_valid(
                        #[trigger] after[k],
                    ) by {
                        if k < before.len() - 1 {
                            assert(label_valid(before[k]));
                        }
                    }
                } else if !lower_valid {
                    let k = choose|k: int|
                        0 <= k < before.len() - 1 && !label_valid(#[trigger] before[k]);
                    assert(!label_valid(after[k]));
                } else {
                    assert(!label_valid(after[before.len() - 1]));
                }
            }
            lower_valid = lower_valid && ended;
            current = Label::start();
            if count < 5 {
                count += 1;
            }
        } else {
            current = current.with(c, Ghost(before.last()));
            proof {
                assert(after == before.drop_last().push(before.last().push(c)));
                assert(after.len() == before.len());
                assert forall|k: int| 0 <= k < before.len() - 1 implies after[k] == before[k] by {}
                if lower_valid {
                    assert forall|k: int| 0 <= k < after.len() - 1 implies label_valid(
                        #[trigger] after[k],
                    ) by {
                        assert(label_valid(before[k]));
                    }
                } else {
                    let k = choose|k: int|
                        0 <= k < before.len() - 1 && !label_valid(#[trigger] before[k]);
                    assert(!label_valid(after[k]));
                }
            }
        }
    }
    proof {
        assert(domain@.take(domain@.len() as int) =~= domain@);
    }
    2 <= count && count <= 4 && lower_valid && !current.empty && current.letters
}

/// What is known of a text cut at `@` after `upto` of its characters:
/// nothing cut yet, cut once at `at`, or cut more than once.
spec fn cut_at(text: Seq<char>, upto: int, cuts: int, at: int) -> bool {
    let parts = split(text.take(upto), '@');
    if cuts == 0 {
        parts == seq![text.take(upto)]
    } else if cuts == 1 {
        0 <= at < upto && parts == seq![text.take(at), text.subrange(at + 1, upto)]
    } else {
        parts.len() >= 3
    }
}

/// Checks an email.
pub fn is_email_valid(s: &str) -> (r: Result<(), ValidationError>)
    ensures
        outcome(r) == if email_valid(s@) {
            Ok::<(), ValidationErrorView>(())
        } else {
            Err(ValidationErrorView::InvalidEmailFormat)
        },
{
    let n = s.unicode_len();
    let mut i: usize = 0;
    let mut cuts: u8 = 0;
    let mut at: usize = 0;
    proof {
        assert(s@.take(0) =~= Seq::<char>::empty());
    }
    for c in it: s.chars()
        invariant
            it.seq() == s@,
            n == s@.len(),
            i == it.index(),
            i <= n,
            cuts <= 2,
            cut_at(s@, i as int, cuts as int, at as int),
    {
        proof {
            let before = split(s@.take(i as int), '@');
            let grown = s@.take(i + 1);
            assert(grown.drop_last() =~= s@.take(i as int));
            assert(grown.last() == c);
            if c == '@' {
                if cuts == 0 {
                    assert(s@.subrange(i + 1, i + 1) =~= Seq::<char>::empty());
                    assert(before.push(Seq::empty()) =~= seq![
                        s@.take(i as int),
                        s@.subrange(i + 1, i + 1),
                    ]);
                }
            } else {
                if cuts == 0 {
                    assert(s@.take(i as int).push(c) =~= grown);
                    assert(before.drop_last().push(before.last().push(c)) =~= seq![grown]);
                } else if cuts == 1 {
                    assert(s@.subrange(at + 1, i as int).push(c) =~= s@.subrange(at + 1, i + 1));
                    assert(before.drop_last().push(before.last().push(c)) =~= seq![
                        s@.take(at as int),
                        s@.subrange(at + 1, i + 1),
                    ]);
                }
            }
        }
        if c == '@' {
            if cuts == 0 {
                at = i;
            }
            if cuts < 2 {
                cuts += 1;
            }
        }
        i += 1;
    }
    proof {
        assert(s@.take(n as int) =~= s@);
    }
    if cuts != 1 {
        return Err(ValidationError::InvalidEmailFormat);
    }
    let local_part = s.substring_char(0, at);
    let domain = s.substring_char(at + 1, n);
    proof {
        assert(s@.subrange(0, at as int) =~= s@.take(at as int));
    }
    if is_local_part_valid(local_part) && is_domain_valid(domain) {
        Ok(())
    } else {
        Err(ValidationError::InvalidEmailFormat)
    }
}

/// Whether every character is a lowercase letter or digit of ASCII or a
/// period.
pub open spec fn only_username_chars(text: Seq<char>) -> bool {
    forall|i: int|
        0 <= i < text.len() ==> ascii_lowercase(#[trigger] text[i]) || ascii_digit(text[i])
            || text[i] == '.'
}

/// Whether a period follows another somewhere.
pub open spec fn has_period_pair(text: Seq<char>) -> bool {
    exists|i: int| 0 <= i < text.len() - 1 && #[trigger] text[i] == '.' && text[i + 1] == '.'
}

/// What is wrong with a username, if anything: the first of
/// - it does not take 6 to 20 bytes,
/// - it does not start with a lowercase letter,
/// - it holds something else than lowercase letters, digits and periods,
/// - it holds two periods in a row,
/// - it ends with a period.
pub open spec fn username_fault(username: Seq<char>) -> Option<Seq<char>> {
    if utf8_len(username) < 6 || utf8_len(username) > 20 {
        Some("Username should be between 6 and 20 characters"@)
    } else if username.len() == 0 || !ascii_lowercase(username[0]) {
        Some("Username should start with a lowercase alphabetic character"@)
    } else if !only_username_chars(username) {
        Some("Only lowercase alphabets, digits and periods are allowed"@)
    } else if has_period_pair(username) {
        Some("Username can't contain more than one period together"@)
    } else if username.last() == '.' {
        Some("Username can't be ended with a period"@)
    } else {
        None
    }
}

fn invalid_username(fault: &str) -> (r: Result<(), ValidationError>)
    ensures
        outcome(r) == Err::<(), ValidationErrorView>(ValidationErrorView::InvalidUsername(fault@)),
{
    Err(ValidationError::InvalidUsername(fault.to_owned()))
}

/// Checks a username.
pub fn is_username_valid(s: &str) -> (r: Result<(), ValidationError>)
    ensures
        outcome(r) == match username_fault(s@) {
            Some(fault) => Err::<(), ValidationErrorView>(
                ValidationErrorView::InvalidUsername(fault),
            ),
            None => Ok(()),
        },
{
    if byte_len(s) < 6 || byte_len(s) > 20 {
        return invalid_username("Username should be between 6 and 20 characters");
    }
    let mut first = true;
    let mut starts_well = false;
    let mut chars_fit = true;
    let mut period_pair = false;
    let mut after_period = false;
    for c in it: s.chars()
        invariant
            it.seq() == s@,
            first == (it.index() == 0),
            starts_well == (it.index() > 0 && ascii_lowercase(s@[0])),
            chars_fit == only_username_chars(s@.take(it.index())),
            period_pair == has_period_pair(s@.take(it.index())),
            after_period == (it.index() > 0 && s@[it.index() - 1] == '.'),
    {
        let ghost i = it.index();
        let ghost seen = s@.take(i);
        let ghost grown = s@.take(i + 1);
        assert(s@[i] == c);
        let fits = is_ascii_lowercase(c) || is_ascii_digit(c) || c == '.';
        proof {
            assert forall|j: int| 0 <= j < i implies grown[j] == seen[j] by {}
            if chars_fit && fits {
                assert forall|j: int| 0 <= j < grown.len() implies ascii_lowercase(
                    #[trigger] grown[j],
                ) || ascii_digit(grown[j]) || grown[j] == '.' by {
                    if j < i {
                        assert(ascii_lowercase(seen[j]) || ascii_digit(seen[j]) || seen[j] == '.');
                    }
                }
            } else if !chars_fit {
                let j = choose|j: int|
                    0 <= j < seen.len() && !(ascii_lowercase(#[trigger] seen[j]) || ascii_digit(
                        seen[j],
                    ) || seen[j] == '.');
                assert(grown[j] == seen[j]);
            } else {
                assert(grown[i] == c);
            }
            if period_pair {
                let j = choose|j: int|
                    0 <= j < seen.len() - 1 && #[trigger] seen[j] == '.' && seen[j + 1] == '.';
                assert(grown[j] == '.' && grown[j + 1] == '.');
            } else if after_period && c == '.' {
                assert(grown[i - 1] == '.' && grown[i - 1 + 1] == '.');
            } else if has_period_pair(grown) {
                let j = choose|j: int|
                    0 <= j < grown.len() - 1 && #[trigger] grown[j] == '.' && grown[j + 1] == '.';
                if j < i - 1 {
                    assert(seen[j] == '.' && seen[j + 1] == '.');
                }
            }
        }
        if first {
            starts_well = is_ascii_lowercase(c);
        }
        chars_fit = chars_fit && fits;
        period_pair = period_pair || (after_period && c == '.');
        after_period = c == '.';
        first = false;
    }
    proof {
        assert(s@.take(s@.len() as int) =~= s@);
    }
    if !starts_well {
        return invalid_username("Username should start with a lowercase alphabetic character");
    }
    if !chars_fit {
        return invalid_username("Only lowercase alphabets, digits and periods are allowed");
    }
    if period_pair {
        return invalid_username("Username can't contain more than one period together");
    }
    if after_period {
        return invalid_username("Username can't be ended with a period");
    }
    Ok(())
}

} // verus!
