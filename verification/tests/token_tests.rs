use book_demos::first_word;

#[test]
fn first_word_of_sentence() {
    let s = String::from("The quick brown fox");
    assert_eq!(first_word(&s), "The");
}

#[test]
fn first_word_without_separator_is_whole_buffer() {
    let s = String::from("hello");
    assert_eq!(first_word(&s), "hello");
}

#[test]
fn first_word_of_empty_buffer_is_empty() {
    let s = String::new();
    assert_eq!(first_word(&s), "");
}

#[test]
fn first_word_with_leading_separator_is_empty() {
    let s = String::from(" lead");
    assert_eq!(first_word(&s), "");
}

#[test]
fn first_word_stops_at_first_of_many_separators() {
    let s = String::from("one two three");
    assert_eq!(first_word(&s), "one");
}

#[test]
fn first_word_of_wide_characters() {
    let s = String::from("\u{8fd9}\u{662f} \u{793a}\u{4f8b}");
    assert_eq!(first_word(&s), "\u{8fd9}\u{662f}");
}

#[test]
fn first_word_view_dies_before_mutation() {
    let mut s = String::from("copy me out");
    let owned = first_word(&s).to_string();
    s.clear();
    assert_eq!(owned, "copy");
    assert_eq!(s, "");
}
