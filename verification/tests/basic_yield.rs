use yield_progress::{basic_yield_now, PollStep, State};

#[test]
fn fresh_yield_is_new() {
    let f = basic_yield_now();
    assert_eq!(f.state(), State::New);
}

#[test]
fn first_poll_wakes_and_pends() {
    let mut f = basic_yield_now();
    assert_eq!(f.poll(), PollStep::WakeAndPend);
    assert_eq!(f.state(), State::Ready);
}

#[test]
fn second_poll_completes() {
    let mut f = basic_yield_now();
    f.poll();
    assert_eq!(f.poll(), PollStep::Complete);
    assert_eq!(f.state(), State::Used);
}

#[test]
fn yields_exactly_once_then_completes() {
    let mut f = basic_yield_now();
    let mut steps = Vec::new();
    while f.state() != State::Used {
        steps.push(f.poll());
    }
    assert_eq!(steps, vec![PollStep::WakeAndPend, PollStep::Complete]);
}
