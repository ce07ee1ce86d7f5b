use eloquentlog::prompt::{classify_answer, read_answer, rejection_notice, PROMPT};

#[test]
fn classify_answer_tokens() {
    for token in ["y", "Y", "yes", "Yes"] {
        assert_eq!(classify_answer(token), Some(true));
    }
    for token in ["n", "N", "no", "No"] {
        assert_eq!(classify_answer(token), Some(false));
    }
    for token in ["", " ", "YES", "NO", "yEs", "nO", "yes ", " no", "yes\n", "ja", "0", "1"] {
        assert_eq!(classify_answer(token), None);
    }
}

#[test]
fn read_answer_sets_white_space_aside() {
    assert_eq!(read_answer("yes\n"), Some(true));
    assert_eq!(read_answer("  Y \r\n"), Some(true));
    assert_eq!(read_answer("\tno\n"), Some(false));
    assert_eq!(read_answer("\u{3000}N\u{a0}"), Some(false));
    assert_eq!(read_answer("y e s\n"), None);
    assert_eq!(read_answer("\n"), None);
    assert_eq!(read_answer(""), None);
}

#[test]
fn prompt_text() {
    assert_eq!(
        PROMPT,
        "Would you like to create eloquentlog.toml? [Yes/No] "
    );
}

#[test]
fn rejection_notice_quotes_the_answer() {
    assert_eq!(
        rejection_notice("maybe"),
        "Sorry, response 'maybe' not understood."
    );
    assert_eq!(rejection_notice(""), "Sorry, response '' not understood.");
    assert_eq!(
        rejection_notice("it's"),
        "Sorry, response 'it's' not understood."
    );
}
