use identity::validation::text::{
    NameScan, Seen, birth_date_checked, country_found, is_bio_valid, is_birth_date_valid, is_country_valid,
    is_display_name_valid, is_gender_valid, is_legal_name_valid, is_password_strong,
    is_utc_offset_valid,
};
use identity::validation::ValidationError;

fn name_case(haystack: &str, expected: Option<String>) {
    assert_eq!(is_legal_name_valid(haystack).ok(), expected);
}

#[test]
fn name_test1() {
    name_case("hello ", None);
}

#[test]
fn name_test2() {
    name_case("   hello ", None);
}

#[test]
fn name_test3() {
    name_case("   AB", None);
}

#[test]
fn name_test4() {
    name_case("A", None);
}

#[test]
fn name_test5() {
    name_case("SUMIT BRUH", Some("SUMIT BRUH".to_string()));
}

#[test]
fn name_test6() {
    name_case("Sumit |", None);
}

#[test]
fn name_test7() {
    name_case(" RUST LANG", Some("RUST LANG".to_string()));
}

#[test]
fn name_test8() {
    name_case("  hello  world broo  ", Some("hello world broo".to_string()));
}

#[test]
fn name_test9() {
    name_case("RUST LANG   ", Some("RUST LANG".to_string()));
}

#[test]
fn name_test10() {
    name_case(" abc 82  cd  ", None);
}

#[test]
fn name_test11() {
    name_case(" abc_def  ", None);
}

#[test]
fn name_test12() {
    name_case(" abc-def  ", None);
}

#[test]
fn name_test13() {
    name_case(" abc@def  ", None);
}

#[test]
fn legal_name_errors() {
    assert_eq!(
        is_legal_name_valid("Sumit |"),
        Err(ValidationError::InvalidNameFormat("Only alphabets are allowed inside name".to_string()))
    );
    assert_eq!(
        is_legal_name_valid("Sumit"),
        Err(ValidationError::InvalidNameFormat("Name must contain two or more words".to_string()))
    );
    assert_eq!(
        is_legal_name_valid(""),
        Err(ValidationError::InvalidNameFormat("Name must contain two or more words".to_string()))
    );
    let long = "ab ".repeat(22);
    assert_eq!(long.len(), 66);
    assert_eq!(is_legal_name_valid(&long), Err(ValidationError::NameTooLong));
    let fits = format!("{} {}", "a".repeat(31), "b".repeat(32));
    assert_eq!(fits.len(), 64);
    assert_eq!(is_legal_name_valid(&fits), Ok(fits.clone()));
}

#[test]
fn legal_name_takes_letters_of_any_script_and_any_white_space() {
    assert_eq!(is_legal_name_valid("Zoë\tŁukasz\u{a0}Ng"), Ok("Zoë Łukasz Ng".to_string()));
}

#[test]
fn password_length_is_counted_in_bytes() {
    assert_eq!(is_password_strong("Ab1"), Err(ValidationError::PasswordTooShort));
    assert_eq!(is_password_strong("Abcdef1"), Err(ValidationError::PasswordTooShort));
    assert_eq!(is_password_strong("Abcdefg1"), Ok(()));
    assert_eq!(is_password_strong("Aé1é"), Err(ValidationError::PasswordTooShort));
    assert_eq!(is_password_strong("Aé1éé"), Ok(()));
    let longest = format!("Aa1{}", "x".repeat(125));
    assert_eq!(longest.len(), 128);
    assert_eq!(is_password_strong(&longest), Ok(()));
    let too_long = format!("Aa1{}", "x".repeat(126));
    assert_eq!(is_password_strong(&too_long), Err(ValidationError::PasswordTooLong));
}

#[test]
fn password_needs_three_classes() {
    assert_eq!(is_password_strong("abcdefgh"), Err(ValidationError::InvalidPasswordFormat));
    assert_eq!(is_password_strong("abcdefg1"), Err(ValidationError::InvalidPasswordFormat));
    assert_eq!(is_password_strong("ABCDEFG1"), Err(ValidationError::InvalidPasswordFormat));
    assert_eq!(is_password_strong("abcdefg!"), Err(ValidationError::InvalidPasswordFormat));
    assert_eq!(is_password_strong("abcdef1!"), Ok(()));
    assert_eq!(is_password_strong("ABCDEF1 "), Ok(()));
    assert_eq!(is_password_strong("abcDEF~~"), Ok(()));
    assert_eq!(is_password_strong("1234567\u{7f}"), Err(ValidationError::InvalidPasswordFormat));
}

#[test]
fn a_character_stands_for_one_class_at_a_time() {
    // U+2167 is an uppercase letter and a number: it stands for uppercase
    // first, and for a number when it comes again.
    assert_eq!(is_password_strong("\u{2167}\u{2167}\u{2167}"), Err(ValidationError::InvalidPasswordFormat));
    assert_eq!(is_password_strong("a\u{2167}\u{2167}\u{2167}"), Ok(()));
    assert_eq!(is_password_strong("aaaaaa\u{2167}"), Err(ValidationError::InvalidPasswordFormat));
}

#[test]
fn display_names() {
    assert_eq!(is_display_name_valid("Al"), Ok(()));
    assert_eq!(is_display_name_valid("  Al  "), Ok(()));
    assert_eq!(is_display_name_valid(" A "), Err(ValidationError::NameTooShort));
    assert_eq!(is_display_name_valid(""), Err(ValidationError::NameTooShort));
    assert_eq!(is_display_name_valid("   "), Err(ValidationError::NameTooShort));
    assert_eq!(is_display_name_valid(&"a".repeat(64)), Ok(()));
    assert_eq!(is_display_name_valid(&"a".repeat(65)), Err(ValidationError::NameTooLong));
    assert_eq!(is_display_name_valid(&format!(" {}", "a".repeat(64))), Err(ValidationError::NameTooLong));
    assert_eq!(
        is_display_name_valid("Zoë"),
        Err(ValidationError::InvalidNameFormat("Name can only contain ascii characters".to_string()))
    );
    assert_eq!(is_display_name_valid("\u{a0}Al\u{2003}"), Ok(()));
    assert_eq!(is_display_name_valid("a b!"), Ok(()));
}

#[test]
fn bios() {
    assert_eq!(is_bio_valid(""), Ok(()));
    assert_eq!(is_bio_valid(&"b".repeat(3000)), Ok(()));
    assert_eq!(is_bio_valid(&"b".repeat(3001)), Err(ValidationError::BioTooLong));
    assert_eq!(is_bio_valid(&"é".repeat(1500)), Ok(()));
    assert_eq!(is_bio_valid(&format!("{}b", "é".repeat(1500))), Err(ValidationError::BioTooLong));
}

#[test]
fn genders() {
    assert_eq!(is_gender_valid(""), Ok(()));
    assert_eq!(is_gender_valid("Female"), Ok(()));
    assert_eq!(is_gender_valid("non binary"), Err(ValidationError::InvalidGender));
    assert_eq!(is_gender_valid("x1"), Err(ValidationError::InvalidGender));
    assert_eq!(is_gender_valid("é"), Err(ValidationError::InvalidGender));
    assert_eq!(is_gender_valid("az@"), Err(ValidationError::InvalidGender));
    assert_eq!(is_gender_valid("AZ["), Err(ValidationError::InvalidGender));
    assert_eq!(is_gender_valid("azAZ"), Ok(()));
}

#[test]
fn countries() {
    assert_eq!(is_country_valid("in"), Ok("India".to_string()));
    assert_eq!(is_country_valid("  DEU "), Ok("Germany".to_string()));
    assert_eq!(is_country_valid("250"), Ok("France".to_string()));
    assert_eq!(is_country_valid("atlantis"), Err(ValidationError::CountryNotFound));
    assert_eq!(is_country_valid(""), Err(ValidationError::CountryNotFound));
    assert_eq!(country_found(None), Err(ValidationError::CountryNotFound));
    assert_eq!(country_found(Some("Japan".to_string())), Ok("Japan".to_string()));
}

#[test]
fn utc_offsets() {
    assert_eq!(is_utc_offset_valid(5, 30, 0).map(|o| o.as_hms()), Ok((5, 30, 0)));
    assert_eq!(is_utc_offset_valid(-25, -59, -59).map(|o| o.as_hms()), Ok((-25, -59, -59)));
    assert_eq!(is_utc_offset_valid(26, 0, 0), Err(ValidationError::InvalidUtcOffset));
    assert_eq!(is_utc_offset_valid(0, 60, 0), Err(ValidationError::InvalidUtcOffset));
    assert_eq!(is_utc_offset_valid(0, 0, -60), Err(ValidationError::InvalidUtcOffset));
}

#[test]
fn birth_dates() {
    let utc = time::UtcOffset::UTC;
    let born = is_birth_date_valid(1990, 2, 28, utc).unwrap();
    assert_eq!(born.year(), 1990);
    assert_eq!(born.month(), time::Month::February);
    assert_eq!(born.day(), 28);
    assert_eq!(born.time(), time::Time::MIDNIGHT);
    assert_eq!(born.offset(), utc);
    let east = is_utc_offset_valid(5, 30, 0).unwrap();
    let born = is_birth_date_valid(2000, 2, 29, east).unwrap();
    assert_eq!((born.year(), born.day(), born.hour(), born.offset()), (2000, 29, 0, east));
    assert_eq!(is_birth_date_valid(1990, 0, 1, utc), Err(ValidationError::InvalidMonth));
    assert_eq!(is_birth_date_valid(1990, 13, 1, utc), Err(ValidationError::InvalidMonth));
    assert_eq!(
        is_birth_date_valid(1990, 2, 30, utc),
        Err(ValidationError::DateParseError("day was not in range".to_string()))
    );
    assert_eq!(
        is_birth_date_valid(1990, 1, 0, utc),
        Err(ValidationError::DateParseError("day was not in range".to_string()))
    );
    assert_eq!(
        is_birth_date_valid(12000, 1, 1, utc),
        Err(ValidationError::DateParseError("year was not in range".to_string()))
    );
    assert_eq!(
        is_birth_date_valid(4_000_000_000, 1, 1, utc),
        Err(ValidationError::DateParseError("year was not in range".to_string()))
    );
    assert_eq!(
        is_birth_date_valid(9999, 12, 31, utc),
        Err(ValidationError::InvalidDate("Birth Date cannot be in the future".to_string()))
    );
}

#[test]
fn every_month_has_its_days() {
    let utc = time::UtcOffset::UTC;
    let days = [31u8, 28, 31, 30, 31, 30, 31, 31, 30, 31, 30, 31];
    for (i, last) in days.iter().enumerate() {
        let month = i as u8 + 1;
        assert!(is_birth_date_valid(1999, month, *last, utc).is_ok());
        assert_eq!(
            is_birth_date_valid(1999, month, *last + 1, utc),
            Err(ValidationError::DateParseError("day was not in range".to_string()))
        );
    }
    for (year, leap) in [(1600, true), (1900, false), (2000, true), (2023, false), (2024, true)] {
        assert_eq!(is_birth_date_valid(year, 2, 29, utc).is_ok(), leap);
        assert!(is_birth_date_valid(year, 2, 30, utc).is_err());
    }
    assert!(is_birth_date_valid(0, 2, 29, utc).is_ok());
}

#[test]
fn birth_date_in_the_future_is_turned_down() {
    let day = time::OffsetDateTime::UNIX_EPOCH;
    assert_eq!(birth_date_checked(day, false), Ok(day));
    assert_eq!(
        birth_date_checked(day, true),
        Err(ValidationError::InvalidDate("Birth Date cannot be in the future".to_string()))
    );
}

fn seen(lower: bool, upper: bool, digit: bool, special: bool) -> Seen {
    Seen { lower, upper, digit, special }
}

#[test]
fn a_character_joins_the_first_class_that_is_new() {
    let none = seen(false, false, false, false);
    assert_eq!(none.met(), 0);
    assert_eq!(none.with(false, false, false, false), none);
    assert_eq!(none.with(true, false, false, false), seen(true, false, false, false));
    assert_eq!(none.with(false, true, false, false), seen(false, true, false, false));
    assert_eq!(none.with(false, false, true, false), seen(false, false, true, false));
    assert_eq!(none.with(false, false, false, true), seen(false, false, false, true));
    // a character of several classes counts for one: the first in order
    assert_eq!(none.with(true, true, true, true), seen(true, false, false, false));
    assert_eq!(none.with(false, true, true, false), seen(false, true, false, false));
    // and for the next one when it comes again
    let upper = seen(false, true, false, false);
    assert_eq!(upper.with(false, true, true, false), seen(false, true, true, false));
    assert_eq!(upper.with(false, true, false, false), upper);
    let all = seen(true, true, true, true);
    assert_eq!(all.with(true, true, true, true), all);
    assert_eq!(all.met(), 4);
    assert_eq!(seen(true, false, true, false).met(), 2);
    assert_eq!(seen(false, true, true, true).met(), 3);
}

fn scan(joined: &str, words: u8, in_word: bool) -> NameScan {
    NameScan { joined: joined.to_string(), words, in_word }
}

#[test]
fn a_name_is_scanned_character_by_character() {
    assert_eq!(NameScan::new(), scan("", 0, false));
    // white space ends a word and adds nothing
    assert_eq!(scan("", 0, false).step(' ', true, false), Some(scan("", 0, false)));
    assert_eq!(scan("ab", 1, true).step('\t', true, false), Some(scan("ab", 1, false)));
    // white space that is also counted a letter is white space
    assert_eq!(scan("ab", 1, true).step(' ', true, true), Some(scan("ab", 1, false)));
    // a letter starts the first word
    assert_eq!(scan("", 0, false).step('a', false, true), Some(scan("a", 1, true)));
    // goes on with a word
    assert_eq!(scan("a", 1, true).step('b', false, true), Some(scan("ab", 1, true)));
    // starts a later word after one space
    assert_eq!(scan("ab", 1, false).step('c', false, true), Some(scan("ab c", 2, true)));
    // words are counted up to two
    assert_eq!(scan("ab c", 2, false).step('d', false, true), Some(scan("ab c d", 2, true)));
    // anything else ends the scan
    assert_eq!(scan("ab", 1, true).step('1', false, false), None);
    assert_eq!(scan("", 0, false).step('-', false, false), None);
}

#[test]
fn a_legal_name_that_was_given_back_is_given_back_as_it_is() {
    for name in ["  hello  world broo  ", "Zoë\tŁukasz\u{a0}Ng", "A B", "\u{2003}Ada\nLovelace "] {
        let once = is_legal_name_valid(name).unwrap();
        assert_eq!(is_legal_name_valid(&once), Ok(once.clone()));
        assert!(!once.starts_with(' ') && !once.ends_with(' ') && !once.contains("  "));
        assert!(once.len() <= name.len());
    }
}
