use verilated::api::SimState;
use verilated::bench::{BenchCall, TestBench};

#[test]
fn tick_sequences_edges_then_step() {
    let mut tb = TestBench::init();
    let calls = tb.tick();
    assert_eq!(
        calls,
        vec![
            BenchCall::ClockDown,
            BenchCall::Eval,
            BenchCall::ClockUp,
            BenchCall::Eval,
            BenchCall::ClockDown,
            BenchCall::Eval,
            BenchCall::Step(1),
        ]
    );
    let mut sim = SimState::new();
    assert_eq!(tb.step_result(true, &mut sim), vec![]);
    assert!(!tb.done(&sim));
    let calls = tb.tick();
    assert_eq!(calls.last(), Some(&BenchCall::Step(2)));
    assert_eq!(tb.tick_count(), 2);
}

#[test]
fn finish_called_once() {
    let mut sim = SimState::new();
    let mut tb = TestBench::init();
    let other = TestBench::init();
    tb.tick();
    assert!(!tb.done(&sim));
    assert_eq!(tb.step_result(false, &mut sim), vec![BenchCall::SetFinish, BenchCall::Finish]);
    assert!(tb.done(&sim));
    assert!(tb.is_finished());
    assert!(other.done(&sim));
    assert!(!other.is_finished());
    assert_eq!(tb.tick(), vec![]);
    assert_eq!(tb.step_result(false, &mut sim), vec![]);
    assert_eq!(tb.tick_count(), 1);
}

#[test]
fn reset_sequence() {
    let mut tb = TestBench::init();
    assert_eq!(tb.reset(), vec![BenchCall::ResetUp, BenchCall::Step(0), BenchCall::ResetDown]);
    tb.tick();
    tb.tick();
    assert_eq!(tb.reset(), vec![BenchCall::ResetUp, BenchCall::Step(2), BenchCall::ResetDown]);
    let mut sim = SimState::new();
    tb.step_result(false, &mut sim);
    assert_eq!(tb.reset(), vec![]);
}

#[test]
fn finish_raised_by_design_is_seen() {
    let mut sim = SimState::new();
    let tb = TestBench::init();
    assert!(!tb.done(&sim));
    sim.set_finish(true);
    assert!(tb.done(&sim));
}

#[test]
fn trace_ever_on_sets_unused_signals() {
    let mut sim = SimState::new();
    sim.trace_ever_on(false);
    assert!(!sim.calc_unused_sigs());
    sim.trace_ever_on(true);
    assert!(sim.calc_unused_sigs());
    sim.trace_ever_on(false);
    assert!(sim.calc_unused_sigs());
}
