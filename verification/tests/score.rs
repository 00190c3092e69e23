use gem_scanner::score::{Ratio, Score};

#[test]
fn ratio_needs_a_positive_denominator() {
    assert!(Ratio::new(1, 0).is_none());
    assert!(Ratio::new(1, -3).is_none());
    assert!(Ratio::new(1, 3).is_some());
}

#[test]
fn ratio_refuses_parts_beyond_its_limits() {
    let den_max: i128 = 1 << 84;
    let num_max: i128 = 1 << 116;
    assert!(Ratio::new(0, den_max).is_some());
    assert!(Ratio::new(0, den_max + 1).is_none());
    assert!(Ratio::new(num_max, 1).is_some());
    assert!(Ratio::new(num_max + 1, 1).is_none());
    assert!(Ratio::new(-num_max, 1).is_some());
    assert!(Ratio::new(-num_max - 1, 1).is_none());
}

#[test]
fn ratio_keeps_its_parts() {
    let r = Ratio::new(-7, 12).unwrap();
    assert_eq!(r.numerator(), -7);
    assert_eq!(r.denominator(), 12);
    let w = Ratio::whole(42);
    assert_eq!((w.numerator(), w.denominator()), (42, 1));
}

#[test]
fn hundredths_round_to_the_nearest() {
    assert_eq!(Ratio::new(1, 3).unwrap().hundredths(), 33);
    assert_eq!(Ratio::new(2, 3).unwrap().hundredths(), 67);
    assert_eq!(Ratio::new(10, 3).unwrap().hundredths(), 333);
    assert_eq!(Ratio::new(100, 1).unwrap().hundredths(), 10000);
    assert_eq!(Ratio::new(0, 5).unwrap().hundredths(), 0);
}

#[test]
fn hundredths_round_halves_away_from_zero() {
    assert_eq!(Ratio::new(1, 200).unwrap().hundredths(), 1);
    assert_eq!(Ratio::new(3, 200).unwrap().hundredths(), 2);
    assert_eq!(Ratio::new(-1, 200).unwrap().hundredths(), -1);
    assert_eq!(Ratio::new(-3, 200).unwrap().hundredths(), -2);
    assert_eq!(Ratio::new(-1, 3).unwrap().hundredths(), -33);
    assert_eq!(Ratio::new(49, 10000).unwrap().hundredths(), 0);
    assert_eq!(Ratio::new(-49, 10000).unwrap().hundredths(), 0);
}

#[test]
fn at_least_compares_with_whole_points() {
    let r = Ratio::new(6999, 100).unwrap();
    assert!(!r.at_least(70));
    assert!(r.at_least(69));
    assert!(Ratio::new(140, 2).unwrap().at_least(70));
    assert!(Ratio::new(-1, 2).unwrap().at_least(-1));
    assert!(!Ratio::new(-3, 2).unwrap().at_least(-1));
}

#[test]
fn score_counts_ten_thousandths() {
    assert_eq!(Score::from_points(75).ten_thousandths(), 750_000);
    assert_eq!(Score::from_ten_thousandths(123).ten_thousandths(), 123);
    assert_eq!(Score::from_points(-2).ten_thousandths(), -20_000);
}

#[test]
fn rounding_keeps_two_places() {
    let third = Ratio::new(125, 3).unwrap();
    assert_eq!(Score::rounding(&third).unwrap().ten_thousandths(), 416_700);
    let exact = Ratio::new(7, 1).unwrap();
    assert_eq!(Score::rounding(&exact), Some(Score::from_points(7)));
}

#[test]
fn rounding_refuses_what_does_not_fit() {
    let huge = Ratio::new(1 << 116, 1).unwrap();
    assert_eq!(Score::rounding(&huge), None);
    let largest = Ratio::new(92_233_720_368_547_758, 100).unwrap();
    assert_eq!(
        Score::rounding(&largest).unwrap().ten_thousandths(),
        9_223_372_036_854_775_800
    );
    let too_large = Ratio::new(92_233_720_368_547_759, 100).unwrap();
    assert_eq!(Score::rounding(&too_large), None);
}
