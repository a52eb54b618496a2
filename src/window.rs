//! A one-shot readiness event wrapped as a reactive boolean: whether the
//! environment has finished loading.
use vstd::prelude::*;

verus! {

/// Where the readiness value stands.
#[derive(Clone, Copy, Debug, PartialEq, Eq, Structural)]
pub enum LoadState {
    /// Not polled yet.
    Initial,
    /// Yielded `false`; waiting for the load notification.
    Pending,
    /// Yielded `true`; nothing more to yield.
    Done,
}

/// The answer to one poll.
#[derive(Clone, Copy, Debug, PartialEq, Eq, Structural)]
pub enum LoadPoll {
    /// A new value.
    Value(bool),
    /// No new value yet.
    Waiting,
    /// The value will never change again.
    Ended,
}

/// One poll from `state`: `signal` is, in `Initial`, whether loading has
/// already completed and, in `Pending`, whether the load notification has
/// fired. Gives the next state, the answer, and whether to register the
/// load notification now.
pub open spec fn load_step(state: LoadState, signal: bool) -> (LoadState, LoadPoll, bool) {
    match state {
        LoadState::Initial => if signal {
            (LoadState::Done, LoadPoll::Value(true), false)
        } else {
            (LoadState::Pending, LoadPoll::Value(false), true)
        },
        LoadState::Pending => if signal {
            (LoadState::Done, LoadPoll::Value(true), false)
        } else {
            (LoadState::Pending, LoadPoll::Waiting, false)
        },
        LoadState::Done => (LoadState::Done, LoadPoll::Ended, false),
    }
}

/// The answers to successive polls from `state`, each with whether it
/// registered the load notification.
pub open spec fn load_run(state: LoadState, signals: Seq<bool>) -> Seq<(LoadPoll, bool)>
    decreases signals.len(),
{
    if signals.len() == 0 {
        Seq::empty()
    } else {
        let (next, answer, listen) = load_step(state, signals[0]);
        seq![(answer, listen)] + load_run(next, signals.drop_first())
    }
}

/// The readiness value of the environment, as a stream of booleans.
pub struct IsWindowLoaded {
    state: LoadState,
}

impl IsWindowLoaded {
    pub closed spec fn state_of(&self) -> LoadState {
        self.state
    }

    pub fn new() -> (r: Self)
        ensures
            r.state_of() == LoadState::Initial,
    {
        IsWindowLoaded { state: LoadState::Initial }
    }

    pub fn state(&self) -> (r: LoadState)
        ensures
            r == self.state_of(),
    {
        self.state
    }

    /// Polls once; see `load_step` for what `signal` means in each state.
    /// When the answer's flag is set, the caller registers the one-shot load
    /// notification, and cancels it if it stops polling before it fires.
    pub fn poll_change(&mut self, signal: bool) -> (r: (LoadPoll, bool))
        ensures
            (final(self).state_of(), r.0, r.1) == load_step(old(self).state_of(), signal),
    {
        match self.state {
            LoadState::Initial => {
                if signal {
                    self.state = LoadState::Done;
                    (LoadPoll::Value(true), false)
                } else {
                    self.state = LoadState::Pending;
                    (LoadPoll::Value(false), true)
                }
            },
            LoadState::Pending => {
                if signal {
                    self.state = LoadState::Done;
                    (LoadPoll::Value(true), false)
                } else {
                    (LoadPoll::Waiting, false)
                }
            },
            LoadState::Done => (LoadPoll::Ended, false),
        }
    }
}

/// One answer for each poll.
pub proof fn lemma_load_run_len(state: LoadState, signals: Seq<bool>)
    ensures
        load_run(state, signals).len() == signals.len(),
    decreases signals.len(),
{
    if signals.len() > 0 {
        let (next, answer, listen) = load_step(state, signals[0]);
        lemma_load_run_len(next, signals.drop_first());
    }
}

/// Once done, every further poll ends the stream and registers nothing.
pub proof fn lemma_done_stays_ended(signals: Seq<bool>)
    ensures
        forall|i: int|
            0 <= i < signals.len() ==> #[trigger] load_run(LoadState::Done, signals)[i] == (
                LoadPoll::Ended,
                false,
            ),
    decreases signals.len(),
{
    if signals.len() > 0 {
        lemma_done_stays_ended(signals.drop_first());
        lemma_load_run_len(LoadState::Done, signals.drop_first());
        let run = load_run(LoadState::Done, signals);
        let rest = load_run(LoadState::Done, signals.drop_first());
        assert(run == seq![(LoadPoll::Ended, false)] + rest);
        assert forall|i: int| 0 <= i < signals.len() implies #[trigger] run[i] == (
            LoadPoll::Ended,
            false,
        ) by {
            if i > 0 {
                assert(run[i] == rest[i - 1]);
            }
        }
    }
}

/// If loading has already completed at the first poll, the only value
/// yielded is `true`, no notification is registered, and every later poll
/// ends the stream.
pub proof fn lemma_ready_at_first_poll(signals: Seq<bool>)
    requires
        signals.len() > 0,
        signals[0],
    ensures
        load_run(LoadState::Initial, signals)[0] == (LoadPoll::Value(true), false),
        forall|i: int|
            1 <= i < signals.len() ==> #[trigger] load_run(LoadState::Initial, signals)[i] == (
                LoadPoll::Ended,
                false,
            ),
{
    let run = load_run(LoadState::Initial, signals);
    let rest = load_run(LoadState::Done, signals.drop_first());
    lemma_done_stays_ended(signals.drop_first());
    lemma_load_run_len(LoadState::Done, signals.drop_first());
    assert(run == seq![(LoadPoll::Value(true), false)] + rest);
    assert forall|i: int| 1 <= i < signals.len() implies #[trigger] run[i] == (
        LoadPoll::Ended,
        false,
    ) by {
        assert(run[i] == rest[i - 1]);
    }
}

} // verus!
