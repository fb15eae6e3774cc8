//! The test-bench driver: the clock and reset sequencing that a simulation
//! loop follows. The driver decides; the caller performs each call it hands
//! back on the module under test and reports what the step callback said.

use vstd::prelude::*;
use crate::api::{SimState, SimView};

verus! {

/// A call the driver asks for, in order, on the module under test or on the
/// user's step callback.
#[derive(Clone, Copy, Debug, PartialEq, Eq, Structural)]
pub enum BenchCall {
    Eval,
    Finish,
    ClockUp,
    ClockDown,
    ResetUp,
    ResetDown,
    /// Raise the simulator runtime's own `$finish` flag, mirroring the
    /// process-wide state.
    SetFinish,
    /// Invoke the step callback with this tick count.
    Step(usize),
}

/// The phases of a test bench.
#[derive(Clone, Copy, Debug, PartialEq, Eq, Structural)]
pub enum BenchState {
    /// Nothing ticked yet.
    Idle,
    /// Ticking.
    Running,
    /// The step callback asked to stop and the module was finished.
    Finished,
}

/// Driver state: the tick counter and the phase.
#[derive(Clone, Copy, Debug, PartialEq, Eq)]
pub struct TestBench {
    tick_count: usize,
    state: BenchState,
}

/// Mathematical view of [`TestBench`].
pub struct BenchView {
    pub tick_count: nat,
    pub state: BenchState,
}

impl View for TestBench {
    type V = BenchView;

    closed spec fn view(&self) -> BenchView {
        BenchView { tick_count: self.tick_count as nat, state: self.state }
    }
}

/// The calls of one clock cycle ending with step `n`: settle on the low clock
/// level, rising edge, falling edge, each evaluated, then the step callback.
pub open spec fn cycle_calls(n: nat) -> Seq<BenchCall> {
    seq![
        BenchCall::ClockDown,
        BenchCall::Eval,
        BenchCall::ClockUp,
        BenchCall::Eval,
        BenchCall::ClockDown,
        BenchCall::Eval,
        BenchCall::Step(n as usize),
    ]
}

/// State and calls after `tick`: a finished bench does nothing.
pub open spec fn tick_spec(s: BenchView) -> (BenchView, Seq<BenchCall>) {
    if s.state is Finished {
        (s, Seq::empty())
    } else {
        let n = s.tick_count + 1;
        (BenchView { tick_count: n, state: BenchState::Running }, cycle_calls(n))
    }
}

/// State and calls after the step callback of a tick returned `keep_going`:
/// the first `false` while running finishes the module, once.
pub open spec fn step_spec(s: BenchView, keep_going: bool) -> (BenchView, Seq<BenchCall>) {
    if s.state is Running && !keep_going {
        (
            BenchView { state: BenchState::Finished, ..s },
            seq![BenchCall::SetFinish, BenchCall::Finish],
        )
    } else {
        (s, Seq::empty())
    }
}

/// Calls of `reset`: reset asserted around one step callback, unless finished.
pub open spec fn reset_spec(s: BenchView) -> Seq<BenchCall> {
    if s.state is Finished {
        Seq::empty()
    } else {
        seq![BenchCall::ResetUp, BenchCall::Step(s.tick_count as usize), BenchCall::ResetDown]
    }
}

impl TestBench {
    /// A bench that has not ticked yet.
    pub fn init() -> (r: TestBench)
        ensures
            r@.tick_count == 0,
            r@.state == BenchState::Idle,
    {
        TestBench { tick_count: 0, state: BenchState::Idle }
    }

    /// The number of ticks so far.
    pub fn tick_count(&self) -> (r: usize)
        ensures
            r == self@.tick_count,
    {
        self.tick_count
    }

    /// Whether the simulation is over: the process-wide `$finish` flag,
    /// the same for every bench of the process.
    pub fn done(&self, sim: &SimState) -> (r: bool)
        ensures
            r == sim@.got_finish,
    {
        sim.got_finish()
    }

    /// Whether this bench has itself finished its module.
    pub fn is_finished(&self) -> (r: bool)
        ensures
            r == (self@.state is Finished),
    {
        match self.state {
            BenchState::Finished => true,
            _ => false,
        }
    }

    /// One clock cycle: counts the tick and returns the calls to make, the
    /// last being the step callback with the new count. A finished bench
    /// returns no calls.
    pub fn tick(&mut self) -> (r: Vec<BenchCall>)
        requires
            old(self)@.state is Finished || old(self)@.tick_count < usize::MAX,
        ensures
            (final(self)@, r@) == tick_spec(old(self)@),
    {
        match self.state {
            BenchState::Finished => Vec::new(),
            _ => {
                self.tick_count = self.tick_count + 1;
                self.state = BenchState::Running;
                let n = self.tick_count;
                let r = vec![
                    BenchCall::ClockDown,
                    BenchCall::Eval,
                    BenchCall::ClockUp,
                    BenchCall::Eval,
                    BenchCall::ClockDown,
                    BenchCall::Eval,
                    BenchCall::Step(n),
                ];
                assert(r@ =~= cycle_calls(n as nat));
                r
            },
        }
    }

    /// Takes what the step callback of the last tick returned; the first
    /// `false` raises the process-wide finish flag and asks for the module's
    /// `finish`, and no later call does so again.
    pub fn step_result(&mut self, keep_going: bool, sim: &mut SimState) -> (r: Vec<BenchCall>)
        ensures
            (final(self)@, r@) == step_spec(old(self)@, keep_going),
            final(sim)@ == (SimView {
                got_finish: old(sim)@.got_finish || (old(self)@.state is Running && !keep_going),
                ..old(sim)@
            }),
    {
        match self.state {
            BenchState::Running => {
                if !keep_going {
                    self.state = BenchState::Finished;
                    sim.set_finish(true);
                    let r = vec![BenchCall::SetFinish, BenchCall::Finish];
                    assert(r@ =~= seq![BenchCall::SetFinish, BenchCall::Finish]);
                    r
                } else {
                    Vec::new()
                }
            },
            _ => Vec::new(),
        }
    }

    /// The reset sequence: reset up, the step callback with the current
    /// count, reset down. A finished bench returns no calls.
    pub fn reset(&self) -> (r: Vec<BenchCall>)
        ensures
            r@ == reset_spec(self@),
    {
        match self.state {
            BenchState::Finished => Vec::new(),
            _ => {
                let r = vec![BenchCall::ResetUp, BenchCall::Step(self.tick_count), BenchCall::ResetDown];
                assert(r@ =~= reset_spec(self@));
                r
            },
        }
    }
}

/// One tick of a bench that has not finished asks, in this order, for the
/// settle step, the rising edge and the falling edge, each followed by an
/// evaluation, and then for exactly one step callback with the incremented
/// tick count.
pub proof fn lemma_tick_sequence(s: BenchView)
    requires
        s.state !is Finished,
    ensures
        tick_spec(s).1 == seq![
            BenchCall::ClockDown,
            BenchCall::Eval,
            BenchCall::ClockUp,
            BenchCall::Eval,
            BenchCall::ClockDown,
            BenchCall::Eval,
            BenchCall::Step((s.tick_count + 1) as usize),
        ],
        tick_spec(s).0.tick_count == s.tick_count + 1,
        tick_spec(s).0.state is Running,
{
}

/// What the caller of the driver does: tick, report a step callback's result,
/// or run the reset sequence.
pub enum BenchEvent {
    Tick,
    StepResult(bool),
    Reset,
}

/// The state and all calls after a run of events from state `s`.
pub open spec fn run(s: BenchView, events: Seq<BenchEvent>) -> (BenchView, Seq<BenchCall>)
    decreases events.len(),
{
    if events.len() == 0 {
        (s, Seq::empty())
    } else {
        let (prev, calls) = run(s, events.drop_last());
        let (next, more) = match events.last() {
            BenchEvent::Tick => tick_spec(prev),
            BenchEvent::StepResult(k) => step_spec(prev, k),
            BenchEvent::Reset => (prev, reset_spec(prev)),
        };
        (next, calls + more)
    }
}

/// How many times a run of calls finishes the module.
pub open spec fn finish_count(calls: Seq<BenchCall>) -> nat
    decreases calls.len(),
{
    if calls.len() == 0 {
        0
    } else {
        finish_count(calls.drop_last()) + if calls.last() == BenchCall::Finish {
            1nat
        } else {
            0nat
        }
    }
}

proof fn lemma_finish_count_concat(a: Seq<BenchCall>, b: Seq<BenchCall>)
    ensures
        finish_count(a + b) == finish_count(a) + finish_count(b),
    decreases b.len(),
{
    if b.len() == 0 {
        assert(a + b =~= a);
    } else {
        assert((a + b).drop_last() =~= a + b.drop_last());
        lemma_finish_count_concat(a, b.drop_last());
    }
}

/// Whatever the events, a bench that has not finished yet finishes the
/// module at most once, and only by moving to `Finished`; a finished bench
/// never finishes it again.
pub proof fn lemma_finish_at_most_once(s: BenchView, events: Seq<BenchEvent>)
    ensures
        s.state !is Finished ==> finish_count(run(s, events).1) <= 1,
        s.state !is Finished && finish_count(run(s, events).1) == 1 ==> run(s, events).0.state is Finished,
        s.state is Finished ==> finish_count(run(s, events).1) == 0,
        s.state is Finished ==> run(s, events).0.state is Finished,
    decreases events.len(),
{
    if events.len() > 0 {
        lemma_finish_at_most_once(s, events.drop_last());
        let (prev, calls) = run(s, events.drop_last());
        let (next, more) = match events.last() {
            BenchEvent::Tick => tick_spec(prev),
            BenchEvent::StepResult(k) => step_spec(prev, k),
            BenchEvent::Reset => (prev, reset_spec(prev)),
        };
        lemma_finish_count_concat(calls, more);
        reveal_with_fuel(finish_count, 8);
        assert(finish_count(more) == if prev.state !is Finished && more.len() == 2 { 1nat } else { 0nat });
        assert(prev.state is Finished ==> next.state is Finished);
    }
}

} // verus!
