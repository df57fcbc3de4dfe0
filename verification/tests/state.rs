use downloader::{Instrument, State, TaskState};

#[test]
fn state_test() {
    let mut state = TaskState::new();
    assert_eq!(state.now(), State::Downloading);
    state.trans(Instrument::TryPause);
    assert_eq!(state.now(), State::Pausing);
    state.trans(Instrument::Paused);
    assert_eq!(state.now(), State::Paused);
    state.trans(Instrument::Finish);
    assert_eq!(state.now(), State::Finished);
}

#[test]
fn terminal_states_absorb_signals() {
    let mut state = TaskState::new();
    state.trans(Instrument::Cancel);
    assert_eq!(state.now(), State::Cancelled);
    state.trans(Instrument::Continue);
    assert_eq!(state.now(), State::Cancelled);
    state.trans(Instrument::Finish);
    assert_eq!(state.now(), State::Cancelled);
}

#[test]
fn pause_twice_is_one_pause() {
    let mut once = TaskState::new();
    once.trans(Instrument::TryPause);
    let mut twice = TaskState::new();
    twice.trans(Instrument::TryPause);
    twice.trans(Instrument::TryPause);
    assert_eq!(once.now(), twice.now());
    // and after the fetch loop has acknowledged the pause
    once.trans(Instrument::Paused);
    once.trans(Instrument::TryPause);
    assert_eq!(once.now(), State::Paused);
}

#[test]
fn cancel_twice_is_one_cancel() {
    let mut once = TaskState::new();
    once.trans(Instrument::Cancel);
    let mut twice = TaskState::new();
    twice.trans(Instrument::Cancel);
    twice.trans(Instrument::Cancel);
    assert_eq!(once.now(), State::Cancelled);
    assert_eq!(once.now(), twice.now());
}
