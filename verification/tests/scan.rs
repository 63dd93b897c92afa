use taskflow::scan::find_byte;

#[test]
fn find_byte_gives_the_first_match() {
    assert_eq!(find_byte(b"a@b@c", b'@', 0), 1);
    assert_eq!(find_byte(b"a@b@c", b'@', 1), 1);
    assert_eq!(find_byte(b"a@b@c", b'@', 2), 3);
}

#[test]
fn find_byte_gives_the_length_without_a_match() {
    assert_eq!(find_byte(b"abc", b'@', 0), 3);
    assert_eq!(find_byte(b"a@b@c", b'@', 4), 5);
    assert_eq!(find_byte(b"a@b@c", b'@', 5), 5);
    assert_eq!(find_byte(b"", b'@', 0), 0);
    assert_eq!(find_byte(b"a@b", b'@', 7), 3);
}
