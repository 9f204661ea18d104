use vocalize_core::normalize::{clean_composed, preprocess_text};

#[test]
fn keeps_letters_digits_and_prosody() {
    assert_eq!(preprocess_text("Hello, World! How are you?"), "Hello, World! How are you?");
    assert_eq!(preprocess_text("  It's 42 <b>bold</b> @home  "), "It's 42 bboldb home");
}

#[test]
fn empty_or_unspeakable_text_falls_back() {
    assert_eq!(preprocess_text(""), "Hello world");
    assert_eq!(preprocess_text("   @@@ ### "), "Hello world");
}

#[test]
fn composes_before_cleaning() {
    // "e" followed by a combining acute accent composes to one letter.
    assert_eq!(preprocess_text("cafe\u{301}"), "caf\u{e9}");
    assert_eq!(clean_composed("caf\u{e9}!"), "caf\u{e9}!");
    // A bare combining mark is not a letter and is dropped.
    assert_eq!(clean_composed("x\u{301}"), "x");
}
