use dominator::window::{IsWindowLoaded, LoadPoll, LoadState};

#[test]
fn ready_at_first_poll() {
    let mut w = IsWindowLoaded::new();
    assert_eq!(w.state(), LoadState::Initial);
    assert_eq!(w.poll_change(true), (LoadPoll::Value(true), false));
    assert_eq!(w.state(), LoadState::Done);
    assert_eq!(w.poll_change(true), (LoadPoll::Ended, false));
    assert_eq!(w.poll_change(false), (LoadPoll::Ended, false));
}

#[test]
fn not_ready_then_loaded() {
    let mut w = IsWindowLoaded::new();
    assert_eq!(w.poll_change(false), (LoadPoll::Value(false), true));
    assert_eq!(w.state(), LoadState::Pending);
    assert_eq!(w.poll_change(false), (LoadPoll::Waiting, false));
    assert_eq!(w.poll_change(true), (LoadPoll::Value(true), false));
    assert_eq!(w.state(), LoadState::Done);
    assert_eq!(w.poll_change(false), (LoadPoll::Ended, false));
}
