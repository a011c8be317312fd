use pong_core::rational::Rat;

fn rat(n: i64, d: i64) -> Rat {
    Rat::new(n, d).expect("valid rational")
}

#[test]
fn new_reduces_to_lowest_terms() {
    assert_eq!(rat(2, 4), Rat { num: 1, den: 2 });
    assert_eq!(rat(-2, 4), Rat { num: -1, den: 2 });
    assert_eq!(rat(0, 7), Rat { num: 0, den: 1 });
    assert_eq!(rat(105, 20), Rat { num: 21, den: 4 });
}

#[test]
fn new_rejects_bad_denominators() {
    assert_eq!(Rat::new(1, 0), None);
    assert_eq!(Rat::new(1, -2), None);
    assert_eq!(Rat::new(i64::MIN, 1), None);
}

#[test]
fn add_and_sub_are_exact() {
    let a = rat(1, 2);
    let b = rat(1, 3);
    assert_eq!(a.checked_add(b), Some(Rat { num: 5, den: 6 }));
    assert_eq!(a.checked_sub(b), Some(Rat { num: 1, den: 6 }));
    assert_eq!(b.checked_sub(a), Some(Rat { num: -1, den: 6 }));
}

#[test]
fn mul_reduces_exactly() {
    assert_eq!(rat(2, 3).checked_mul(rat(3, 4)), Some(Rat { num: 1, den: 2 }));
    assert_eq!(rat(21, 20).checked_mul(rat(-5, 1)), Some(Rat { num: -21, den: 4 }));
}

#[test]
fn avg_is_exact_mean() {
    assert_eq!(rat(21, 20).checked_avg(rat(1, 1)), Some(Rat { num: 41, den: 40 }));
    assert_eq!(rat(1, 1).checked_avg(rat(3, 1)), Some(Rat { num: 2, den: 1 }));
}

#[test]
fn add_overflow_is_refused() {
    let big = rat(i64::MAX, 1);
    assert_eq!(big.checked_add(big), None);
    assert_eq!(big.checked_mul(big), None);
}

#[test]
fn comparisons_follow_values() {
    assert!(rat(1, 1).lt(rat(21, 20)));
    assert!(!rat(21, 20).lt(rat(1, 1)));
    assert!(rat(1, 2).le(rat(2, 4)));
    assert!(rat(1, 2).eq_val(rat(3, 6)));
    assert!(!rat(1, 2).eq_val(rat(1, 3)));
}

#[test]
fn neg_and_abs_flip_signs() {
    assert_eq!(rat(-5, 2).neg(), Rat { num: 5, den: 2 });
    assert_eq!(rat(-5, 2).abs(), Rat { num: 5, den: 2 });
    assert_eq!(rat(5, 2).abs(), Rat { num: 5, den: 2 });
    assert!(rat(-5, 2).is_neg());
    assert!(rat(5, 2).is_pos());
}
