//! Small integer functions: sums, products, two classic recurrences, and
//! maps over a slice.

use vstd::prelude::*;

verus! {

/// The sum of two numbers.
pub fn add(a: i32, b: i32) -> (sum: i32)
    requires
        i32::MIN <= a + b <= i32::MAX,
    ensures
        sum == a + b,
{
    a + b
}

/// The sum of two numbers; the 32-bit member of a family named by type.
pub fn add_i32(a: i32, b: i32) -> (sum: i32)
    requires
        i32::MIN <= a + b <= i32::MAX,
    ensures
        sum == a + b,
{
    a + b
}

/// Five and five.
pub fn calculate() -> (total: i32)
    ensures
        total == 10,
{
    let x: i32 = 5;
    let y: i32 = 5;
    x + y
}

/// Twice a number.
pub fn double(x: i32) -> (twice: i32)
    requires
        i32::MIN <= 2 * x <= i32::MAX,
    ensures
        twice == 2 * x,
{
    x * 2
}

/// A number times itself.
pub fn square(x: i32) -> (sq: i32)
    requires
        x * x <= i32::MAX,
    ensures
        sq == x * x,
{
    assert(0 <= x * x) by (nonlinear_arith);
    x * x
}

/// `n!`, with `0! = 1`.
pub open spec fn factorial_spec(n: nat) -> nat
    decreases n,
{
    if n <= 1 {
        1
    } else {
        n * factorial_spec((n - 1) as nat)
    }
}

/// The factorial never shrinks as its argument grows.
pub proof fn lemma_factorial_monotonic(a: nat, b: nat)
    requires
        a <= b,
    ensures
        1 <= factorial_spec(a) <= factorial_spec(b),
    decreases b,
{
    if b <= 1 {
    } else if a == b {
        lemma_factorial_monotonic(0, (b - 1) as nat);
        assert(b * factorial_spec((b - 1) as nat) >= 1) by (nonlinear_arith)
            requires
                b >= 1,
                factorial_spec((b - 1) as nat) >= 1,
        ;
    } else {
        lemma_factorial_monotonic(a, (b - 1) as nat);
        assert(b * factorial_spec((b - 1) as nat) >= factorial_spec((b - 1) as nat))
            by (nonlinear_arith)
            requires
                b >= 1,
                factorial_spec((b - 1) as nat) >= 1,
        ;
    }
}

/// `20!` is the last factorial that fits in 64 bits.
pub proof fn lemma_factorial_limit()
    ensures
        factorial_spec(20) == 2432902008176640000,
        factorial_spec(20) <= u64::MAX < factorial_spec(21),
{
    assert(factorial_spec(1) == 1);
    assert(factorial_spec(2) == 2);
    assert(factorial_spec(3) == 6);
    assert(factorial_spec(4) == 24);
    assert(factorial_spec(5) == 120);
    assert(factorial_spec(6) == 720);
    assert(factorial_spec(7) == 5040);
    assert(factorial_spec(8) == 40320);
    assert(factorial_spec(9) == 362880);
    assert(factorial_spec(10) == 3628800);
    assert(factorial_spec(11) == 39916800);
    assert(factorial_spec(12) == 479001600);
    assert(factorial_spec(13) == 6227020800);
    assert(factorial_spec(14) == 87178291200);
    assert(factorial_spec(15) == 1307674368000);
    assert(factorial_spec(16) == 20922789888000);
    assert(factorial_spec(17) == 355687428096000);
    assert(factorial_spec(18) == 6402373705728000);
    assert(factorial_spec(19) == 121645100408832000);
    assert(factorial_spec(20) == 2432902008176640000);
    assert(factorial_spec(21) == 51090942171709440000);
}

/// Computes `n!` by recursion on `n`.
pub fn factorial(n: u64) -> (product: u64)
    requires
        n <= 20,
    ensures
        product == factorial_spec(n as nat),
    decreases n,
{
    if n <= 1 {
        1
    } else {
        let rest = factorial(n - 1);
        proof {
            lemma_factorial_limit();
            lemma_factorial_monotonic(n as nat, 20);
        }
        n * rest
    }
}

/// The Fibonacci numbers: `0, 1, 1, 2, 3, 5, ...`.
pub open spec fn fibonacci_spec(n: nat) -> nat
    decreases n,
{
    if n == 0 {
        0
    } else if n == 1 {
        1
    } else {
        fibonacci_spec((n - 1) as nat) + fibonacci_spec((n - 2) as nat)
    }
}

/// The Fibonacci numbers never shrink as the index grows.
pub proof fn lemma_fibonacci_monotonic(a: nat, b: nat)
    requires
        a <= b,
    ensures
        fibonacci_spec(a) <= fibonacci_spec(b),
    decreases b,
{
    if a < b {
        lemma_fibonacci_monotonic(a, (b - 1) as nat);
        if b >= 2 {
            assert(fibonacci_spec(b) >= fibonacci_spec((b - 1) as nat));
        }
    }
}

/// The 47th Fibonacci number is the last that fits in 32 bits.
pub proof fn lemma_fibonacci_limit()
    ensures
        fibonacci_spec(47) == 2971215073,
        fibonacci_spec(47) <= u32::MAX < fibonacci_spec(48),
{
    assert(fibonacci_spec(0) == 0);
    assert(fibonacci_spec(1) == 1);
    assert(fibonacci_spec(2) == 1);
    assert(fibonacci_spec(3) == 2);
    assert(fibonacci_spec(4) == 3);
    assert(fibonacci_spec(5) == 5);
    assert(fibonacci_spec(6) == 8);
    assert(fibonacci_spec(7) == 13);
    assert(fibonacci_spec(8) == 21);
    assert(fibonacci_spec(9) == 34);
    assert(fibonacci_spec(10) == 55);
    assert(fibonacci_spec(11) == 89);
    assert(fibonacci_spec(12) == 144);
    assert(fibonacci_spec(13) == 233);
    assert(fibonacci_spec(14) == 377);
    assert(fibonacci_spec(15) == 610);
    assert(fibonacci_spec(16) == 987);
    assert(fibonacci_spec(17) == 1597);
    assert(fibonacci_spec(18) == 2584);
    assert(fibonacci_spec(19) == 4181);
    assert(fibonacci_spec(20) == 6765);
    assert(fibonacci_spec(21) == 10946);
    assert(fibonacci_spec(22) == 17711);
    assert(fibonacci_spec(23) == 28657);
    assert(fibonacci_spec(24) == 46368);
    assert(fibonacci_spec(25) == 75025);
    assert(fibonacci_spec(26) == 121393);
    assert(fibonacci_spec(27) == 196418);
    assert(fibonacci_spec(28) == 317811);
    assert(fibonacci_spec(29) == 514229);
    assert(fibonacci_spec(30) == 832040);
    assert(fibonacci_spec(31) == 1346269);
    assert(fibonacci_spec(32) == 2178309);
    assert(fibonacci_spec(33) == 3524578);
    assert(fibonacci_spec(34) == 5702887);
    assert(fibonacci_spec(35) == 9227465);
    assert(fibonacci_spec(36) == 14930352);
    assert(fibonacci_spec(37) == 24157817);
    assert(fibonacci_spec(38) == 39088169);
    assert(fibonacci_spec(39) == 63245986);
    assert(fibonacci_spec(40) == 102334155);
    assert(fibonacci_spec(41) == 165580141);
    assert(fibonacci_spec(42) == 267914296);
    assert(fibonacci_spec(43) == 433494437);
    assert(fibonacci_spec(44) == 701408733);
    assert(fibonacci_spec(45) == 1134903170);
    assert(fibonacci_spec(46) == 1836311903);
    assert(fibonacci_spec(47) == 2971215073);
    assert(fibonacci_spec(48) == 4807526976);
}

/// Computes the `n`th Fibonacci number by the defining recursion.
pub fn fibonacci(n: u32) -> (value: u32)
    requires
        n <= 47,
    ensures
        value == fibonacci_spec(n as nat),
    decreases n,
{
    if n == 0 {
        0
    } else if n == 1 {
        1
    } else {
        let a = fibonacci(n - 1);
        let b = fibonacci(n - 2);
        proof {
            lemma_fibonacci_limit();
            lemma_fibonacci_monotonic(n as nat, 47);
        }
        a + b
    }
}

/// Applies `func` to each number, in order.
pub fn apply_to_all<F: Fn(i32) -> i32>(numbers: &[i32], func: F) -> (out: Vec<i32>)
    requires
        forall|i: int| 0 <= i < numbers@.len() ==> call_requires(func, (#[trigger] numbers@[i],)),
    ensures
        out@.len() == numbers@.len(),
        forall|i: int|
            0 <= i < numbers@.len() ==> call_ensures(func, (numbers@[i],), #[trigger] out@[i]),
{
    let mut out: Vec<i32> = Vec::new();
    let mut i: usize = 0;
    while i < numbers.len()
        invariant
            i <= numbers@.len(),
            out@.len() == i,
            forall|j: int| 0 <= j < numbers@.len() ==> call_requires(func, (#[trigger] numbers@[j],)),
            forall|j: int| 0 <= j < i ==> call_ensures(func, (numbers@[j],), #[trigger] out@[j]),
        decreases numbers@.len() - i,
    {
        let y = func(numbers[i]);
        out.push(y);
        i += 1;
    }
    out
}

/// Applies `func` to a reference to each number, in order.
pub fn apply_to_all_with_closure<F>(numbers: &[i32], func: F) -> (out: Vec<i32>) where
    F: Fn(&i32) -> i32,

    requires
        forall|i: int| 0 <= i < numbers@.len() ==> call_requires(func, (&#[trigger] numbers@[i],)),
    ensures
        out@.len() == numbers@.len(),
        forall|i: int|
            0 <= i < numbers@.len() ==> call_ensures(func, (&numbers@[i],), #[trigger] out@[i]),
{
    let mut out: Vec<i32> = Vec::new();
    let mut i: usize = 0;
    while i < numbers.len()
        invariant
            i <= numbers@.len(),
            out@.len() == i,
            forall|j: int|
                0 <= j < numbers@.len() ==> call_requires(func, (&#[trigger] numbers@[j],)),
            forall|j: int| 0 <= j < i ==> call_ensures(func, (&numbers@[j],), #[trigger] out@[j]),
        decreases numbers@.len() - i,
    {
        let y = func(&numbers[i]);
        out.push(y);
        i += 1;
    }
    out
}

} // verus!
