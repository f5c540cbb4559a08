use text_adventurers::text::decimal_string;
use text_adventurers::unit::mass::Mass;
use text_adventurers::unit::UnitSystem;

#[test]
pub fn tracks_mass() {
    assert_eq!(Mass::from_grams(5).to_grams(), 5);
    assert_eq!(Mass::from_grams(5), Mass::from_grams(5));
    assert_eq!(Mass::from_grams(42).to_grams(), 42);
    assert_ne!(Mass::from_grams(1), Mass::from_grams(2));
}

#[test]
pub fn implements_addition() {
    assert_eq!(
        Mass::from_grams(42) + Mass::from_grams(0),
        Mass::from_grams(42)
    );
    assert_eq!(
        Mass::from_grams(1) + Mass::from_grams(41),
        Mass::from_grams(42)
    );
}

#[test]
pub fn implements_multiplication() {
    assert_eq!(Mass::from_grams(5) * 4, Mass::from_grams(20));
    assert_eq!(Mass::from_grams(42) * 2, Mass::from_grams(84));
}

#[test]
pub fn displays_grams() {
    assert_eq!(Mass::from_grams(1000).display_grams(), "1000g");
}

#[test]
pub fn unit_systems_are_told_apart() {
    assert_ne!(UnitSystem::Metric, UnitSystem::Imperial);
}

#[test]
pub fn whole_numbers_are_written_in_decimal() {
    assert_eq!(decimal_string(0), "0");
    assert_eq!(decimal_string(7), "7");
    assert_eq!(decimal_string(10), "10");
    assert_eq!(decimal_string(4339), "4339");
    assert_eq!(decimal_string(-1), "-1");
    assert_eq!(decimal_string(-120), "-120");
    assert_eq!(decimal_string(i64::MAX), "9223372036854775807");
    assert_eq!(decimal_string(i64::MIN), "-9223372036854775808");
}
