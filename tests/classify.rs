use proof_verifier::classify::{
    GENERIC_PREFIX, INVALID_POINT_MESSAGE, MISMATCH_MESSAGE, UNKNOWN_MESSAGE,
};
use proof_verifier::extract_error_message;
use proof_verifier::text::{chars_of, contains, find_line_end};

#[test]
fn subgroup_fault_gives_invalid_point_message() {
    let raw = "panicked at src/verify.rs:10:5:\ninvalid point: subgroup check failed\nbacktrace";
    assert_eq!(
        extract_error_message(raw),
        "The proof contains an invalid curve point (subgroup check failed). This usually means the proof is malformed or corrupted."
    );
    assert_eq!(extract_error_message(raw), INVALID_POINT_MESSAGE);
}

#[test]
fn mismatch_fault_gives_mismatch_message() {
    let raw = "called `Result::unwrap()` on an `Err` value: failed to verify proof";
    assert_eq!(
        extract_error_message(raw),
        "The proof verification failed. The proof may be invalid or not match the verification key."
    );
    assert_eq!(extract_error_message(raw), MISMATCH_MESSAGE);
}

#[test]
fn subgroup_pattern_wins_over_mismatch_pattern() {
    let raw = "failed to verify proof: invalid point: subgroup check failed";
    assert_eq!(extract_error_message(raw), INVALID_POINT_MESSAGE);
}

#[test]
fn pattern_must_occur_whole() {
    let raw = "invalid point: subgroup check";
    assert_eq!(
        extract_error_message(raw),
        "Verification error: invalid point: subgroup check"
    );
}

#[test]
fn other_fault_gives_its_first_line() {
    assert_eq!(
        extract_error_message("index out of bounds\nat line 3\nat line 4"),
        "Verification error: index out of bounds"
    );
}

#[test]
fn single_line_fault_is_kept_whole() {
    assert_eq!(extract_error_message("boom"), "Verification error: boom");
}

#[test]
fn crlf_ending_is_dropped_from_first_line() {
    assert_eq!(
        extract_error_message("bad pairing\r\nmore"),
        "Verification error: bad pairing"
    );
}

#[test]
fn leading_newline_gives_empty_first_line() {
    assert_eq!(extract_error_message("\nsecond"), "Verification error: ");
    assert_eq!(extract_error_message("\n"), GENERIC_PREFIX);
}

#[test]
fn non_ascii_first_line_is_kept() {
    assert_eq!(
        extract_error_message("\u{fc}ngültig \u{2192} point\nrest"),
        "Verification error: \u{fc}ngültig \u{2192} point"
    );
}

#[test]
fn empty_fault_gives_unknown_message() {
    assert_eq!(extract_error_message(""), "Unknown verification error occurred");
    assert_eq!(extract_error_message(""), UNKNOWN_MESSAGE);
}

#[test]
fn chars_of_splits_into_characters() {
    assert_eq!(chars_of("a\u{e9}b"), vec!['a', '\u{e9}', 'b']);
    assert_eq!(chars_of(""), Vec::<char>::new());
}

#[test]
fn contains_finds_runs() {
    let hay = chars_of("abcabd");
    assert!(contains(&hay, "abd"));
    assert!(contains(&hay, "cab"));
    assert!(contains(&hay, ""));
    assert!(!contains(&hay, "abe"));
    assert!(!contains(&hay, "abcabdx"));
    assert!(!contains(&chars_of(""), "a"));
}

#[test]
fn line_end_is_first_newline_or_length() {
    assert_eq!(find_line_end(&chars_of("ab\ncd\n")), 2);
    assert_eq!(find_line_end(&chars_of("abc")), 3);
    assert_eq!(find_line_end(&chars_of("\n")), 0);
    assert_eq!(find_line_end(&chars_of("")), 0);
}
