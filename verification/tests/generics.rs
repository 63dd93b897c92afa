use taskflow::generics::largest;

#[test]
fn largest_of_numbers() {
    assert_eq!(largest(&[34, 50, 25, 100, 65]), 100);
    assert_eq!(largest(&[7]), 7);
    assert_eq!(largest(&[-3, -1, -2]), -1);
    assert_eq!(largest(&[5, 5, 5]), 5);
}

#[test]
fn largest_of_characters() {
    assert_eq!(largest(&['y', 'm', 'a', 'q']), 'y');
}

#[test]
fn largest_of_unsigned_bytes() {
    assert_eq!(largest(&[0u8, 255, 17]), 255);
}

#[test]
fn largest_of_pairs_goes_by_the_first_difference() {
    let pairs = [(3, 'a'), (3, 'b'), (1, 'c')];
    assert_eq!(largest(&pairs), (3, 'b'));
}
