use verilated::api::TimeUnit;
use verilated::trace::{Fst, TraceError, TraceState, Vcd};

#[test]
fn dump_times_never_go_back() {
    let mut vcd = Vcd::new();
    assert_eq!(vcd.dump(0), Err(TraceError::NotOpen));
    assert_eq!(vcd.open(true), Ok(()));
    assert_eq!(vcd.dump(10), Ok(()));
    assert_eq!(vcd.dump(10), Ok(()));
    assert_eq!(vcd.dump(5), Err(TraceError::TimeWentBackwards { last: 10, requested: 5 }));
    assert_eq!(vcd.trace().last_dump(), Some(10));
    assert_eq!(vcd.dump(20), Ok(()));
    assert_eq!(vcd.trace().last_dump(), Some(20));
}

#[test]
fn failed_open_is_io_error() {
    let mut fst = Fst::new();
    assert_eq!(fst.open(false), Err(TraceError::Io));
    assert!(!fst.is_open());
    assert_eq!(fst.open(true), Ok(()));
    assert!(fst.is_open());
}

#[test]
fn close_is_idempotent_and_final() {
    let mut vcd = Vcd::new();
    vcd.open(true).unwrap();
    assert_eq!(vcd.flush(), Ok(()));
    assert_eq!(vcd.open_next(), Ok(()));
    assert!(vcd.close());
    assert!(!vcd.close());
    assert_eq!(vcd.trace().state(), TraceState::Closed);
    assert_eq!(vcd.open(true), Err(TraceError::AlreadyOpened));
    assert_eq!(vcd.flush(), Err(TraceError::NotOpen));
    assert_eq!(vcd.open_next(), Err(TraceError::NotOpen));
}

#[test]
fn time_settings() {
    let mut vcd = Vcd::new();
    assert_eq!(vcd.trace().time_unit(), TimeUnit::_1ns);
    vcd.set_time_unit(TimeUnit::_1ps);
    vcd.set_time_resolution(TimeUnit::_10ps);
    vcd.rollover_mb(64);
    assert_eq!(vcd.trace().time_unit(), TimeUnit::_1ps);
    assert_eq!(vcd.trace().time_resolution(), TimeUnit::_10ps);
    assert_eq!(vcd.rollover(), 64);
    let mut fst = Fst::new();
    fst.set_time_unit(TimeUnit::_100us);
    assert_eq!(fst.trace().time_unit(), TimeUnit::_100us);
}
