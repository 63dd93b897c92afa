use taskflow::lifetimes::{
    first_word, longest, longest_with_default, no_dangle, ImportantExcerpt,
};

#[test]
fn longest_picks_the_text_with_more_bytes() {
    assert_eq!(longest("abcd", "xyz"), "abcd");
    assert_eq!(longest("ab", "xyz"), "xyz");
    assert_eq!(longest("", "x"), "x");
}

#[test]
fn longest_picks_the_second_of_equally_long_texts() {
    assert_eq!(longest("abc", "xyz"), "xyz");
    assert_eq!(longest("", ""), "");
}

#[test]
fn longest_counts_bytes_not_characters() {
    assert_eq!(longest("éé", "abc"), "éé");
}

#[test]
fn longest_with_default_agrees_with_longest() {
    let owned = String::from("abcd");
    assert_eq!(longest_with_default(owned.as_str(), "xyz"), "abcd");
    assert_eq!(longest_with_default("ab", "xyz"), "xyz");
    assert_eq!(longest_with_default("abc", "xyz"), "xyz");
}

#[test]
fn no_dangle_is_hello() {
    assert_eq!(no_dangle(), "hello");
}

#[test]
fn first_word_of_a_sentence() {
    assert_eq!(first_word("hello world"), "hello");
    assert_eq!(first_word("hello"), "hello");
}

#[test]
fn excerpt_borrows_the_first_sentence() {
    let novel = String::from("Call me Ishmael. Some years ago...");
    let first_sentence = novel.split('.').next().unwrap_or("");
    let excerpt = ImportantExcerpt { part: first_sentence };
    assert_eq!(excerpt.part, "Call me Ishmael");
}
