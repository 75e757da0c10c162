use std::rc::Rc;

use statblock::dice::{Die, DiceError, DiceExpr, DiceRoll, EntropySource};
use statblock::rational::Ratio;
use statblock::types::ExpectedValue;

#[test]
fn it_works() {
    assert_eq!(2 + 2, 4);
}

#[test]
fn expected_of_a_single_die() {
    // A d6 averages 3.5.
    let e = DiceExpr::Die(Die(6));
    let r = e.expected();
    assert!(r.same(&Ratio::new(7, 2)));
}

#[test]
fn expected_of_a_scaled_die() {
    // Eight d6 average 8 * 3.5 = 28.
    let e = DiceExpr::Times(8, Rc::new(DiceExpr::Die(Die(6))));
    let r = e.expected();
    assert!(r.same(&Ratio::new(28, 1)));
    assert_eq!(r.num, 56);
    assert_eq!(r.den, 2);
}

#[test]
fn expected_of_a_sum_with_constant() {
    // d6 + 3 averages 6.5.
    let e = DiceExpr::Plus(
        Rc::new(DiceExpr::Die(Die(6))),
        Rc::new(DiceExpr::Const(3)),
    );
    let r = e.expected();
    assert!(r.same(&Ratio::new(13, 2)));
}

#[test]
fn expected_of_a_negative_constant() {
    let e = DiceExpr::Const(-4);
    let r = e.expected();
    assert!(r.same(&Ratio::new(-4, 1)));
}

#[test]
fn sampled_values_stay_within_the_support() {
    // 2d8 always lands in [2, 16], over many samples.
    let e = DiceExpr::Times(2, Rc::new(DiceExpr::Die(Die(8))));
    let mut rng = EntropySource::from_seed(0x5eed);
    for _ in 0..10000 {
        let roll = e.roll(&mut rng);
        let v = roll.value();
        assert!(2 <= v && v <= 16);
    }
}

#[test]
fn sampling_a_one_sided_die_is_deterministic() {
    // If the entropy wrapper ignored its bounds this would fail: five d1
    // always total five.
    let e = DiceExpr::Times(5, Rc::new(DiceExpr::Die(Die(1))));
    let mut rng = EntropySource::fresh();
    for _ in 0..100 {
        assert_eq!(e.roll(&mut rng).value(), 5);
    }
}

#[test]
fn single_die_rolls_cover_every_face() {
    let e = DiceExpr::Die(Die(6));
    let mut rng = EntropySource::from_seed(7);
    let mut seen = [false; 6];
    for _ in 0..1000 {
        let v = e.roll(&mut rng).value();
        assert!(1 <= v && v <= 6);
        seen[(v - 1) as usize] = true;
    }
    assert!(seen.iter().all(|s| *s));
}

#[test]
fn roll_reconstructs_its_expression() {
    let inner = Rc::new(DiceExpr::Die(Die(4)));
    let e = DiceExpr::Times(3, Rc::clone(&inner));
    let mut rng = EntropySource::from_seed(99);
    let roll = e.roll(&mut rng);
    match roll.expr() {
        DiceExpr::Times(n, t) => {
            assert_eq!(n, 3);
            // The handle is the very subtree that was sampled, not a copy.
            assert!(Rc::ptr_eq(&t, &inner));
            match &*t {
                DiceExpr::Die(d) => assert_eq!(*d, Die(4)),
                _ => panic!("reconstructed subtree has the wrong shape"),
            }
        },
        _ => panic!("reconstructed expression has the wrong shape"),
    }
}

#[test]
fn roll_retains_each_die_result() {
    let e = DiceExpr::Plus(
        Rc::new(DiceExpr::Die(Die(12))),
        Rc::new(DiceExpr::Const(7)),
    );
    let mut rng = EntropySource::from_seed(3);
    let roll = e.roll(&mut rng);
    match &roll {
        DiceRoll::Plus(_, _, ra, rb) => {
            match (&**ra, &**rb) {
                (DiceRoll::Die(d, v), DiceRoll::Const(c)) => {
                    assert_eq!(*d, Die(12));
                    assert!(1 <= *v && *v <= 12);
                    assert_eq!(*c, 7);
                    assert_eq!(roll.value(), v + 7);
                },
                _ => panic!("roll leaves have the wrong shape"),
            }
        },
        _ => panic!("roll has the wrong shape"),
    }
}

#[test]
fn cumulative_probability_of_a_d20() {
    let e = DiceExpr::Die(Die(20));
    assert!(e.cum_prob(0).unwrap().same(&Ratio::new(0, 1)));
    assert!(e.cum_prob(20).unwrap().same(&Ratio::new(1, 1)));
    assert!(e.cum_prob(10).unwrap().same(&Ratio::new(1, 2)));
    assert!(e.cum_prob(25).unwrap().same(&Ratio::new(1, 1)));
    assert!(e.cum_prob(-3).unwrap().same(&Ratio::new(0, 1)));
    assert!(e.cum_prob(1).unwrap().same(&Ratio::new(1, 20)));
}

#[test]
fn cumulative_probability_of_a_constant() {
    let e = DiceExpr::Const(5);
    assert!(e.cum_prob(4).unwrap().same(&Ratio::new(0, 1)));
    assert!(e.cum_prob(5).unwrap().same(&Ratio::new(1, 1)));
    assert!(e.cum_prob(6).unwrap().same(&Ratio::new(1, 1)));
}

#[test]
fn pass_probability_of_a_d20() {
    // Rolling 11 or better on a d20 is exactly a coin flip.
    let e = DiceExpr::Die(Die(20));
    assert!(e.prob_pass(11).unwrap().same(&Ratio::new(1, 2)));
    assert!(e.prob_pass(1).unwrap().same(&Ratio::new(1, 1)));
    assert!(e.prob_pass(21).unwrap().same(&Ratio::new(0, 1)));
    assert!(e.prob_pass(20).unwrap().same(&Ratio::new(1, 20)));
}

#[test]
fn compound_distributions_are_refused() {
    let sum = DiceExpr::Plus(
        Rc::new(DiceExpr::Die(Die(6))),
        Rc::new(DiceExpr::Die(Die(6))),
    );
    for i in [-100, -1, 0, 1, 2, 6, 7, 12, 13, 100] {
        assert_eq!(sum.cum_prob(i), Err(DiceError::UnsupportedDistribution));
        assert_eq!(sum.prob_pass(i), Err(DiceError::UnsupportedDistribution));
    }
    let times = DiceExpr::Times(2, Rc::new(DiceExpr::Die(Die(6))));
    for i in [-1, 0, 7, 100] {
        assert_eq!(times.cum_prob(i), Err(DiceError::UnsupportedDistribution));
        assert_eq!(times.prob_pass(i), Err(DiceError::UnsupportedDistribution));
    }
}

#[test]
fn shared_subtrees_are_shared_not_copied() {
    let shared = Rc::new(DiceExpr::Die(Die(6)));
    let e = DiceExpr::Plus(Rc::clone(&shared), Rc::clone(&shared));
    let r = e.expected();
    assert!(r.same(&Ratio::new(7, 1)));
    assert_eq!(Rc::strong_count(&shared), 3);
}
