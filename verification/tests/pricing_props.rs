use ticket_sales::pricing::discounted_price;

#[test]
fn discount_formula_exact_values() {
    assert_eq!(discounted_price(100, 0), 100);
    assert_eq!(discounted_price(100, 50), 50);
    assert_eq!(discounted_price(100, 100), 0);
    // Integer truncation: 99 * 67 / 100 = 66.33 truncates to 66.
    assert_eq!(discounted_price(99, 33), 66);
    assert_eq!(discounted_price(1, 50), 0);
    assert_eq!(discounted_price(0, 50), 0);
}

#[test]
fn discount_monotonic_on_samples() {
    // For a fixed base price, a higher discount percent never yields a
    // higher final price.
    for base in [0u128, 1, 7, 99, 100, 12345, u128::MAX] {
        let mut last = discounted_price(base, 0);
        for d in 1..=100u32 {
            let p = discounted_price(base, d);
            assert!(p <= last);
            last = p;
        }
    }
}

#[test]
fn discount_never_exceeds_base() {
    for base in [0u128, 5, 10_000, u128::MAX] {
        for d in [0u32, 1, 99, 100] {
            assert!(discounted_price(base, d) <= base);
        }
    }
}
