use taskflow::arith::{
    add, add_i32, apply_to_all, apply_to_all_with_closure, calculate, double, factorial,
    fibonacci, square,
};

#[test]
fn add_sums() {
    assert_eq!(add(5, 3), 8);
    assert_eq!(add(10, 20), 30);
    assert_eq!(add(-7, 7), 0);
    assert_eq!(add(i32::MAX, 0), i32::MAX);
    assert_eq!(add(i32::MIN, 1), i32::MIN + 1);
}

#[test]
fn add_i32_sums() {
    assert_eq!(add_i32(5, 3), 8);
    assert_eq!(add_i32(-2, -3), -5);
}

#[test]
fn calculate_is_ten() {
    assert_eq!(calculate(), 10);
}

#[test]
fn double_and_square() {
    assert_eq!(double(21), 42);
    assert_eq!(double(-4), -8);
    assert_eq!(double(0), 0);
    assert_eq!(square(7), 49);
    assert_eq!(square(-7), 49);
    assert_eq!(square(46340), 2147395600);
}

#[test]
fn factorial_values() {
    assert_eq!(factorial(0), 1);
    assert_eq!(factorial(1), 1);
    assert_eq!(factorial(5), 120);
    assert_eq!(factorial(10), 3628800);
    assert_eq!(factorial(20), 2432902008176640000);
}

#[test]
fn factorial_grows() {
    let mut previous = factorial(0);
    for n in 1..=20u64 {
        let current = factorial(n);
        assert!(current >= previous);
        assert_eq!(current, n * previous);
        previous = current;
    }
}

#[test]
fn fibonacci_values() {
    assert_eq!(fibonacci(0), 0);
    assert_eq!(fibonacci(1), 1);
    assert_eq!(fibonacci(2), 1);
    assert_eq!(fibonacci(10), 55);
    assert_eq!(fibonacci(20), 6765);
    assert_eq!(fibonacci(30), 832040);
}

#[test]
fn fibonacci_follows_its_recurrence() {
    for n in 2..=25u32 {
        assert_eq!(fibonacci(n), fibonacci(n - 1) + fibonacci(n - 2));
    }
}

#[test]
fn apply_to_all_maps_in_order() {
    let numbers = [1, 2, 3, 4, 5];
    assert_eq!(apply_to_all(&numbers, double), vec![2, 4, 6, 8, 10]);
    assert_eq!(apply_to_all(&numbers, square), vec![1, 4, 9, 16, 25]);
    assert_eq!(apply_to_all(&[], double), Vec::<i32>::new());
}

#[test]
fn apply_to_all_with_closure_maps_in_order() {
    let numbers = [1, 2, 3, 4, 5];
    assert_eq!(apply_to_all_with_closure(&numbers, |&x| x * 3), vec![3, 6, 9, 12, 15]);
    let offset = 10;
    assert_eq!(apply_to_all_with_closure(&numbers, |x| x + offset), vec![11, 12, 13, 14, 15]);
    assert_eq!(apply_to_all_with_closure(&[], |&x| x), Vec::<i32>::new());
}
