use sidecar::decimal::{integer_text, number_text, parse_number, NumberFault};
use sidecar::text::{same_text, split_text};

#[test]
fn splitting_keeps_empty_pieces() {
    assert_eq!(split_text("", ':'), vec![""]);
    assert_eq!(split_text("a", ':'), vec!["a"]);
    assert_eq!(split_text(":a::b:", ':'), vec!["", "a", "", "b", ""]);
    assert_eq!(split_text("ä:𝔘:é", ':'), vec!["ä", "𝔘", "é"]);
}

#[test]
fn splitting_agrees_with_joining() {
    for text in ["", ":", "a:b", "a::b", "x:y:", "no separator"] {
        assert_eq!(split_text(text, ':').join(":"), text);
        assert_eq!(
            split_text(text, ':'),
            text.split(':').collect::<Vec<&str>>()
        );
    }
}

#[test]
fn texts_are_compared_by_character() {
    assert!(same_text("", ""));
    assert!(same_text("rpc-main", "rpc-main"));
    assert!(!same_text("rpc-main", "rpc-mai"));
    assert!(!same_text("rpc-mai", "rpc-main"));
    assert!(!same_text("é", "e"));
}

#[test]
fn numbers_are_read_as_the_standard_library_reads_them() {
    let texts = [
        "", "+", "-", "0", "+0", "-0", "007", "255", "256", "4294967295", "4294967296", "1 ",
        " 1", "1_000", "12x", "x12", "99999999999x", "++1", "٣", "000000000000000000000001",
    ];
    for text in texts {
        let read = parse_number(text, u32::MAX as u64);
        match text.parse::<u32>() {
            Ok(value) => assert_eq!(read, Ok(u64::from(value))),
            Err(error) => assert_eq!(read.unwrap_err().message(), error.to_string()),
        }
    }
    assert_eq!(parse_number("18446744073709551615", u64::MAX), Ok(u64::MAX));
    assert_eq!(
        parse_number("18446744073709551616", u64::MAX),
        Err(NumberFault::TooLarge)
    );
    assert_eq!(parse_number("6", 5), Err(NumberFault::TooLarge));
    assert_eq!(parse_number("5", 5), Ok(5));
}

#[test]
fn numerals_are_read_back() {
    for n in [0, 1, 9, 10, 99, 100, 4242, u64::MAX] {
        assert_eq!(number_text(n), n.to_string());
        assert_eq!(parse_number(&number_text(n), u64::MAX), Ok(n));
    }
    for n in [0, 3, -1, i32::MAX, i32::MIN] {
        assert_eq!(integer_text(n), n.to_string());
    }
}

#[test]
fn number_faults_have_messages() {
    assert_eq!(
        NumberFault::Empty.message(),
        "cannot parse integer from empty string"
    );
    assert_eq!(
        NumberFault::InvalidDigit.message(),
        "invalid digit found in string"
    );
    assert_eq!(
        NumberFault::TooLarge.message(),
        "number too large to fit in target type"
    );
}
