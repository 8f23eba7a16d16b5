use multiplus_ess_controller::num::or;
use multiplus_ess_controller::num::Num;

const NAN: Num = Num::Nan;
const POS: Num = Num::PosInf;
const NEG: Num = Num::NegInf;
const MOST: Num = Num::Fin(i64::MAX);
const LEAST: Num = Num::Fin(i64::MIN);

fn n(x: i64) -> Num {
    Num::of(x)
}

fn micro(x: i64) -> Num {
    Num::Fin(x)
}

#[test]
fn whole_numbers_are_counted_in_millionths() {
    assert_eq!(Num::of(7), Num::Fin(7_000_000));
    assert_eq!(Num::of(i64::MAX), MOST);
    assert_eq!(Num::of(i64::MIN), LEAST);
}

#[test]
fn sums_and_differences_are_exact_or_held_at_the_end() {
    assert_eq!(n(2).plus(n(-5)), n(-3));
    assert_eq!(n(2).minus(n(-5)), n(7));
    assert_eq!(MOST.plus(micro(1)), MOST);
    assert_eq!(LEAST.minus(micro(1)), LEAST);
    assert!(MOST.plus(MOST).is_finite());
    assert_eq!(POS.plus(NEG), NAN);
    assert_eq!(POS.minus(POS), NAN);
    assert_eq!(POS.minus(n(1)), POS);
    assert_eq!(n(1).minus(POS), NEG);
    assert_eq!(NAN.plus(n(1)), NAN);
}

#[test]
fn products_round_half_away_from_zero() {
    assert_eq!(micro(1_500_000).times(n(3)), micro(4_500_000));
    assert_eq!(micro(1).times(micro(500_000)), micro(1));
    assert_eq!(micro(-1).times(micro(500_000)), micro(-1));
    assert_eq!(micro(1).times(micro(499_999)), micro(0));
    assert_eq!(n(0).times(POS), NAN);
    assert_eq!(n(-2).times(POS), NEG);
    assert_eq!(NEG.times(NEG), POS);
    assert_eq!(MOST.times(n(2)), MOST);
    assert_eq!(MOST.times(n(-2)), LEAST);
}

#[test]
fn products_commute() {
    let values = [n(3), micro(-1_234_567), n(0), POS, NEG, NAN, micro(7)];
    for a in values {
        for b in values {
            assert_eq!(a.times(b), b.times(a));
        }
    }
}

#[test]
fn products_keep_the_order_of_what_is_not_negative() {
    let k = micro(333_333);
    assert!(n(4).times(k).le(n(5).times(k)));
    assert!(n(0).le(n(4).times(k)));
    assert_eq!(n(3).times(k), micro(999_999));
}

#[test]
fn quotients_round_and_follow_the_signs() {
    assert_eq!(n(1).over(n(3)), micro(333_333));
    assert_eq!(n(2).over(n(3)), micro(666_667));
    assert_eq!(n(-2).over(n(3)), micro(-666_667));
    assert_eq!(n(2).over(n(-3)), micro(-666_667));
    assert_eq!(n(1).over(n(0)), POS);
    assert_eq!(n(-1).over(n(0)), NEG);
    assert_eq!(n(0).over(n(0)), NAN);
    assert_eq!(n(1).over(POS), n(0));
    assert_eq!(POS.over(n(-1)), NEG);
    assert_eq!(POS.over(POS), NAN);
    assert!(n(0).le(n(1).over(micro(7))));
}

#[test]
fn rounding_goes_to_whole_numbers() {
    assert_eq!(micro(2_500_000).round(), n(3));
    assert_eq!(micro(-2_500_000).round(), n(-3));
    assert_eq!(micro(2_499_999).round(), n(2));
    assert_eq!(POS.round(), POS);
    assert_eq!(NAN.round(), NAN);
}

#[test]
fn order_knows_no_not_a_number() {
    assert!(NEG.lt(micro(i64::MIN)) && micro(i64::MAX).lt(POS));
    assert!(!NAN.lt(n(1)) && !n(1).lt(NAN) && !NAN.le(NAN));
    assert!(!NAN.same(NAN) && n(1).same(n(1)) && !n(1).same(n(2)));
    assert!(POS.le(POS) && !POS.lt(POS));
}

#[test]
fn smaller_and_larger_pass_over_not_a_number() {
    assert_eq!(n(2).min(n(3)), n(2));
    assert_eq!(n(2).max(n(3)), n(3));
    assert_eq!(NAN.min(n(3)), n(3));
    assert_eq!(n(3).min(NAN), n(3));
    assert_eq!(NAN.max(n(3)), n(3));
    assert_eq!(n(3).max(NAN), n(3));
    assert_eq!(NEG.max(POS), POS);
}

#[test]
fn magnitudes_and_signs() {
    assert_eq!(n(-4).abs(), n(4));
    assert_eq!(NEG.abs(), POS);
    assert_eq!(NAN.abs(), NAN);
    assert_eq!(LEAST.neg(), MOST);
    assert_eq!(n(4).neg(), n(-4));
    assert!(n(1).is_finite() && !POS.is_finite() && NAN.is_nan() && !NEG.is_nan());
}

#[test]
fn a_missing_value_takes_the_default() {
    assert_eq!(or(Some(n(1)), n(2)), n(1));
    assert_eq!(or(None, n(2)), n(2));
}
