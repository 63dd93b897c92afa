use taskflow::ownership::{calculate_length, change, first_word, gives_ownership, process_text};

#[test]
fn change_appends_world() {
    let mut s = String::from("hello");
    change(&mut s);
    assert_eq!(s, "hello, world!");
    change(&mut s);
    assert_eq!(s, "hello, world!, world!");
    let mut empty = String::new();
    change(&mut empty);
    assert_eq!(empty, ", world!");
}

#[test]
fn first_word_stops_at_the_first_space() {
    assert_eq!(first_word("hello world"), "hello");
    assert_eq!(first_word("one two three"), "one");
}

#[test]
fn first_word_of_one_word_is_the_word() {
    assert_eq!(first_word("hello"), "hello");
    assert_eq!(first_word(""), "");
}

#[test]
fn first_word_after_a_leading_space_is_empty() {
    assert_eq!(first_word(" hello"), "");
    assert_eq!(first_word("  "), "");
}

#[test]
fn first_word_keeps_whole_characters() {
    assert_eq!(first_word("héllo wörld"), "héllo");
    assert_eq!(first_word("日本語 テキスト"), "日本語");
    assert_eq!(first_word("tab\tis no space"), "tab\tis");
}

#[test]
fn gives_ownership_is_hello() {
    assert_eq!(gives_ownership(), "hello");
}

#[test]
fn calculate_length_counts_bytes() {
    assert_eq!(calculate_length(String::from("hello")), (String::from("hello"), 5));
    assert_eq!(calculate_length(String::new()), (String::new(), 0));
    assert_eq!(calculate_length(String::from("héllo")), (String::from("héllo"), 6));
}

#[test]
fn process_text_puts_its_label_in_front() {
    assert_eq!(process_text("hello"), "Processed: hello");
    assert_eq!(process_text(""), "Processed: ");
}
