use taskflow::counter::{Counter, Iterator};

#[test]
fn counter_counts_up_to_its_limit() {
    let mut counter = Counter { count: 0, max: 5 };
    let mut seen = Vec::new();
    while let Some(value) = Iterator::next(&mut counter) {
        seen.push(value);
    }
    assert_eq!(seen, vec![0, 1, 2, 3, 4]);
}

#[test]
fn dry_counter_stays_dry() {
    let mut counter = Counter { count: 3, max: 3 };
    assert_eq!(Iterator::next(&mut counter), None);
    assert_eq!(Iterator::next(&mut counter), None);
    assert_eq!((counter.count, counter.max), (3, 3));
}

#[test]
fn counter_past_its_limit_gives_nothing() {
    let mut counter = Counter { count: 9, max: 3 };
    assert_eq!(Iterator::next(&mut counter), None);
    assert_eq!((counter.count, counter.max), (9, 3));
}

#[test]
fn counter_reaches_the_largest_limit() {
    let mut counter = Counter { count: u32::MAX - 1, max: u32::MAX };
    assert_eq!(Iterator::next(&mut counter), Some(u32::MAX - 1));
    assert_eq!(counter.count, u32::MAX);
    assert_eq!(Iterator::next(&mut counter), None);
}
