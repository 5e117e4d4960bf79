use patent_backend::likelihood::Likelihood;

#[test]
fn threshold_is_strictly_above_three_tenths() {
    assert!(!Likelihood::new(3, 10).is_above_threshold());
    assert!(!Likelihood::new(0, 4).is_above_threshold());
    assert!(!Likelihood::new(1, 4).is_above_threshold());
    assert!(!Likelihood::new(30, 100).is_above_threshold());
    assert!(Likelihood::new(31, 100).is_above_threshold());
    assert!(Likelihood::new(1, 3).is_above_threshold());
    assert!(Likelihood::new(2, 4).is_above_threshold());
    assert!(Likelihood::new(4, 4).is_above_threshold());
    assert!(Likelihood::new(9, 4).is_above_threshold());
    assert!(!Likelihood::new(9, 0).is_above_threshold());
    assert!(Likelihood::new(usize::MAX, usize::MAX).is_above_threshold());
    assert!(!Likelihood::new(1, usize::MAX).is_above_threshold());
}

#[test]
fn threshold_agrees_with_the_ratio_as_a_float() {
    for k in 1..=60usize {
        for m in 0..=(2 * k) {
            let ratio = m as f32 / k as f32;
            assert_eq!(Likelihood::new(m, k).is_above_threshold(), ratio > 0.3, "{}/{}", m, k);
        }
    }
}

#[test]
fn order_is_that_of_the_ratios() {
    assert!(Likelihood::new(1, 2).is_at_least(&Likelihood::new(2, 4)));
    assert!(Likelihood::new(2, 4).is_at_least(&Likelihood::new(1, 2)));
    assert!(Likelihood::new(2, 3).is_at_least(&Likelihood::new(1, 2)));
    assert!(!Likelihood::new(1, 2).is_at_least(&Likelihood::new(2, 3)));
    assert!(Likelihood::new(0, 5).is_at_least(&Likelihood::new(7, 0)));
    assert!(Likelihood::new(7, 0).is_at_least(&Likelihood::new(0, 5)));
    assert!(!Likelihood::new(7, 0).is_at_least(&Likelihood::new(1, 5)));
    assert!(Likelihood::new(usize::MAX, 1).is_at_least(&Likelihood::new(usize::MAX, 2)));
    for k in 1..=20usize {
        for m in 0..=30usize {
            for l in 1..=20usize {
                for n in 0..=30usize {
                    let want = (m * l) >= (n * k);
                    assert_eq!(Likelihood::new(m, k).is_at_least(&Likelihood::new(n, l)), want);
                }
            }
        }
    }
}

#[test]
fn percent_has_two_decimals() {
    assert_eq!(Likelihood::new(2, 4).percent(), "50.00%");
    assert_eq!(Likelihood::new(0, 4).percent(), "0.00%");
    assert_eq!(Likelihood::new(1, 3).percent(), "33.33%");
    assert_eq!(Likelihood::new(2, 3).percent(), "66.67%");
    assert_eq!(Likelihood::new(1, 8).percent(), "12.50%");
    assert_eq!(Likelihood::new(1, 32).percent(), "3.12%");
    assert_eq!(Likelihood::new(3, 32).percent(), "9.38%");
    assert_eq!(Likelihood::new(1, 1).percent(), "100.00%");
    assert_eq!(Likelihood::new(5, 4).percent(), "125.00%");
    assert_eq!(Likelihood::new(1, 20000).percent(), "0.00%");
    assert_eq!(Likelihood::new(3, 20000).percent(), "0.02%");
    assert_eq!(Likelihood::new(1, 1000).percent(), "0.10%");
    assert_eq!(Likelihood::new(3, 0).percent(), "0.00%");
    assert_eq!(Likelihood::new(2, 4).to_hundredths(), 5000);
    assert_eq!(Likelihood::new(usize::MAX, 1).to_hundredths(), (usize::MAX as u128) * 10000);
}

#[test]
fn percent_agrees_with_the_ratio_formatted_as_a_float() {
    for k in 1..=150usize {
        for m in 0..=(2 * k) {
            let want = format!("{:.2}%", (m as f32 / k as f32) * 100.0);
            assert_eq!(Likelihood::new(m, k).percent(), want, "{}/{}", m, k);
        }
    }
}
