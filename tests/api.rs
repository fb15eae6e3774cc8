use verilated::api::{debug, default_filename, RandomMode, TimeUnit};
use verilated::vpi::{check_error, sim_time, ErrorLevel, HandleKind, IterKind, Reason};

#[test]
fn time_unit_exponents() {
    assert_eq!(TimeUnit::_100s.exponent(), 2);
    assert_eq!(TimeUnit::_1s.exponent(), 0);
    assert_eq!(TimeUnit::_1ns.exponent(), -9);
    assert_eq!(TimeUnit::_1fs.exponent(), -15);
    assert_eq!(i32::from(TimeUnit::_10us), -5);
    for e in -15i8..=2 {
        let u = TimeUnit::from_exponent(e).unwrap();
        assert_eq!(u.exponent(), e as i32);
    }
    assert_eq!(TimeUnit::from_exponent(3), None);
    assert_eq!(TimeUnit::from_exponent(-16), None);
}

#[test]
fn random_mode_codes() {
    assert_eq!(RandomMode::AllZeros.code(), 0);
    assert_eq!(RandomMode::Randomize.code(), 2);
    assert_eq!(RandomMode::from_code(1), Some(RandomMode::AllBits));
    assert_eq!(RandomMode::from_code(3), None);
}

#[test]
fn fixed_values() {
    assert_eq!(default_filename(), "coverage.dat");
    assert_eq!(debug(), 0);
}

#[test]
fn vpi_codes() {
    assert_eq!(Reason::ValueChange.code(), 1);
    assert_eq!(Reason::AtEndOfSimTime.code(), 31);
    assert_eq!(HandleKind::Scope.code(), 84);
    assert_eq!(IterKind::Range.code(), 115);
    assert_eq!(ErrorLevel::from_code(3), Some(ErrorLevel::Error));
    assert!(ErrorLevel::Error.is_failure());
    assert!(!ErrorLevel::Warning.is_failure());
    assert_eq!(check_error(0), Ok(()));
    assert_eq!(check_error(2), Err(ErrorLevel::Warning));
}

#[test]
fn sim_time_halves() {
    assert_eq!(sim_time(0, 5), 5);
    assert_eq!(sim_time(1, 0), 1u64 << 32);
    assert_eq!(sim_time(0xFFFF_FFFF, 0xFFFF_FFFF), u64::MAX);
}
