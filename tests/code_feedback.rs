use heist::security::code::{generate_code, mastermind_feedback, parse_code_guess};

#[test]
fn feedback_of_code_against_itself() {
    for code in [[0u8, 0, 0, 0], [1, 2, 3, 4], [9, 9, 1, 9], [5, 0, 5, 0]] {
        assert_eq!(mastermind_feedback(&code, &code), (4, 0));
    }
}

#[test]
fn feedback_of_reversed_code() {
    assert_eq!(mastermind_feedback(&[1, 2, 3, 4], &[4, 3, 2, 1]), (0, 4));
}

#[test]
fn feedback_counts_repeated_digits_once() {
    // positions 0 and 2 match exactly; the remainders {1, 3} and {2, 2} share nothing
    assert_eq!(mastermind_feedback(&[1, 1, 2, 3], &[1, 2, 2, 2]), (2, 0));
    assert_eq!(mastermind_feedback(&[1, 1, 2, 2], &[2, 2, 1, 1]), (0, 4));
    assert_eq!(mastermind_feedback(&[1, 1, 1, 2], &[2, 1, 3, 3]), (1, 1));
    assert_eq!(mastermind_feedback(&[7, 7, 7, 7], &[7, 0, 0, 0]), (1, 0));
    assert_eq!(mastermind_feedback(&[1, 2, 3, 4], &[5, 6, 7, 8]), (0, 0));
}

#[test]
fn feedback_total_never_exceeds_four() {
    let codes = [[1u8, 1, 2, 3], [0, 0, 0, 0], [9, 8, 7, 6], [3, 3, 4, 4]];
    for a in codes {
        for b in codes {
            let (exact, misplaced) = mastermind_feedback(&a, &b);
            assert!(exact + misplaced <= 4);
        }
    }
}

#[test]
fn generated_code_has_four_decimal_digits() {
    for _ in 0..50 {
        let code = generate_code();
        assert!(code.iter().all(|d| *d < 10));
    }
}

#[test]
fn guess_with_letter_is_rejected() {
    assert_eq!(parse_code_guess("12a4"), None);
}

#[test]
fn guess_formats() {
    assert_eq!(parse_code_guess("1234"), Some([1, 2, 3, 4]));
    assert_eq!(parse_code_guess("0090"), Some([0, 0, 9, 0]));
    assert_eq!(parse_code_guess("123"), None);
    assert_eq!(parse_code_guess("12345"), None);
    assert_eq!(parse_code_guess(""), None);
    assert_eq!(parse_code_guess(" 123"), None);
    assert_eq!(parse_code_guess("１２３４"), None);
}

#[test]
fn generated_codes_vary() {
    let codes: Vec<[u8; 4]> = (0..40).map(|_| generate_code()).collect();
    assert!(codes.iter().any(|c| c.iter().any(|d| *d != 0)));
    assert!(codes.iter().any(|c| c != &codes[0]));
}
