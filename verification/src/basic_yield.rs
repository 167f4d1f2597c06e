use vstd::prelude::*;

verus! {

/// Where a [`BasicYieldNow`] stands between its polls.
#[derive(Clone, Copy, Debug, PartialEq, Eq, Structural)]
pub enum State {
    /// Not yet polled.
    New,
    /// Polled once: it has woken its task and returned pending.
    Ready,
    /// Polled twice: it has completed and must not be polled again.
    Used,
}

/// What one poll of a [`BasicYieldNow`] does.
#[derive(Clone, Copy, Debug, PartialEq, Eq, Structural)]
pub enum PollStep {
    /// Wake the polling task at once, then report that the future is pending.
    WakeAndPend,
    /// Report that the future is ready.
    Complete,
}

/// The state that follows a poll made in state `s`.
pub open spec fn next_state(s: State) -> State {
    match s {
        State::New => State::Ready,
        State::Ready => State::Used,
        State::Used => State::Used,
    }
}

/// What a poll made in state `s` does (a poll in `Used` is not allowed).
pub open spec fn step_outcome(s: State) -> PollStep {
    match s {
        State::New => PollStep::WakeAndPend,
        _ => PollStep::Complete,
    }
}

/// How many more polls it takes until the future reports that it is ready.
pub open spec fn polls_left(s: State) -> nat {
    match s {
        State::New => 2,
        State::Ready => 1,
        State::Used => 0,
    }
}

/// The minimum, executor-agnostic yield operation, as a state machine: the first poll
/// wakes the task and is pending, the second poll is ready.
#[derive(Debug)]
pub struct BasicYieldNow {
    state: State,
}

impl View for BasicYieldNow {
    type V = State;

    closed spec fn view(&self) -> State {
        self.state
    }
}

/// Returns a fresh yield operation, which completes at its second poll.
pub fn basic_yield_now() -> (f: BasicYieldNow)
    ensures
        f@ == State::New,
        polls_left(f@) == 2,
{
    BasicYieldNow { state: State::New }
}

impl BasicYieldNow {
    /// The state of this operation.
    pub fn state(&self) -> (s: State)
        ensures
            s == self@,
    {
        self.state
    }

    /// Performs one poll: decides the next state and what the poll does.
    /// A poll after completion is not allowed.
    pub fn poll(&mut self) -> (step: PollStep)
        requires
            old(self)@ != State::Used,
        ensures
            final(self)@ == next_state(old(self)@),
            step == step_outcome(old(self)@),
    {
        match self.state {
            State::New => {
                self.state = State::Ready;
                PollStep::WakeAndPend
            },
            _ => {
                self.state = State::Used;
                PollStep::Complete
            },
        }
    }
}

/// Every allowed poll brings the operation one poll closer to completion, and a poll
/// reports completion exactly when it is the last one: the operation completes once.
pub proof fn lemma_poll_advances(s: State)
    requires
        s != State::Used,
    ensures
        polls_left(next_state(s)) + 1 == polls_left(s),
        (step_outcome(s) == PollStep::Complete) <==> (next_state(s) == State::Used),
        (step_outcome(s) == PollStep::Complete) <==> (polls_left(s) == 1),
{
}

} // verus!
