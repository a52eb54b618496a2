//! Edge-triggered policies for bindings driven by a stream of values.
//!
//! Each binding keeps one bit of state and, for every value the stream
//! yields, says which external call (if any) to make.
use vstd::prelude::*;

verus! {

/// An external call made by an optional-value binding.
#[derive(Debug, PartialEq, Eq)]
pub enum Update<S> {
    /// Set the external state to this value.
    Assign(S),
    /// Clear the external state.
    Clear,
}

/// What an optional-value binding does with one value: the new state and
/// the call to make.
pub open spec fn option_step<S>(is_set: bool, value: Option<S>) -> (bool, Option<Update<S>>) {
    match value {
        Some(s) => (true, Some(Update::Assign(s))),
        None => if is_set {
            (false, Some(Update::Clear))
        } else {
            (false, None)
        },
    }
}

/// The calls an optional-value binding in state `is_set` makes for `values`.
pub open spec fn option_calls<S>(is_set: bool, values: Seq<Option<S>>) -> Seq<Update<S>>
    decreases values.len(),
{
    if values.len() == 0 {
        Seq::empty()
    } else {
        let (next, call) = option_step(is_set, values[0]);
        let rest = option_calls(next, values.drop_first());
        match call {
            Some(u) => seq![u] + rest,
            None => rest,
        }
    }
}

/// What a boolean flag binding does with one value: the new state and the
/// call to make (`true` turns the flag on, `false` turns it off).
pub open spec fn flag_step(is_on: bool, value: bool) -> (bool, Option<bool>) {
    if value != is_on {
        (value, Some(value))
    } else {
        (is_on, None)
    }
}

/// The calls a boolean flag binding in state `is_on` makes for `values`.
pub open spec fn flag_calls(is_on: bool, values: Seq<bool>) -> Seq<bool>
    decreases values.len(),
{
    if values.len() == 0 {
        Seq::empty()
    } else {
        let (next, call) = flag_step(is_on, values[0]);
        let rest = flag_calls(next, values.drop_first());
        match call {
            Some(b) => seq![b] + rest,
            None => rest,
        }
    }
}

/// State of a binding whose external effect is "set to a value" or "clear":
/// whether the external state is currently set.
pub struct OptionBinding {
    is_set: bool,
}

impl OptionBinding {
    pub closed spec fn is_set(&self) -> bool {
        self.is_set
    }

    /// A binding whose external state has not been set.
    pub fn new() -> (r: Self)
        ensures
            !r.is_set(),
    {
        OptionBinding { is_set: false }
    }

    /// Takes one value of the stream: `Some` always sets, `None` clears only
    /// what was set.
    pub fn update<S>(&mut self, value: Option<S>) -> (r: Option<Update<S>>)
        ensures
            (final(self).is_set(), r) == option_step(old(self).is_set(), value),
    {
        match value {
            Some(s) => {
                self.is_set = true;
                Some(Update::Assign(s))
            },
            None => {
                if self.is_set {
                    self.is_set = false;
                    Some(Update::Clear)
                } else {
                    None
                }
            },
        }
    }
}

/// State of a binding whose external state is a flag: whether it is on.
pub struct FlagBinding {
    is_on: bool,
}

impl FlagBinding {
    pub closed spec fn is_on(&self) -> bool {
        self.is_on
    }

    /// A binding whose flag starts off.
    pub fn new() -> (r: Self)
        ensures
            !r.is_on(),
    {
        FlagBinding { is_on: false }
    }

    /// Takes one value of the stream: turns the flag on or off only when the
    /// value differs from the last one seen.
    pub fn update(&mut self, value: bool) -> (r: Option<bool>)
        ensures
            (final(self).is_on(), r) == flag_step(old(self).is_on(), value),
    {
        if value != self.is_on {
            self.is_on = value;
            Some(value)
        } else {
            None
        }
    }
}

/// An optional-value binding never clears twice in a row, and one that has
/// not been set never clears before it sets.
pub proof fn lemma_no_redundant_clear<S>(is_set: bool, values: Seq<Option<S>>)
    ensures
        ({
            let calls = option_calls(is_set, values);
            &&& !is_set && calls.len() > 0 ==> calls[0] is Assign
            &&& forall|i: int|
                0 <= i < calls.len() - 1 && #[trigger] calls[i] is Clear ==> calls[i + 1] is Assign
        }),
    decreases values.len(),
{
    if values.len() > 0 {
        let (next, call) = option_step(is_set, values[0]);
        lemma_no_redundant_clear(next, values.drop_first());
        let rest = option_calls(next, values.drop_first());
        let calls = option_calls(is_set, values);
        match call {
            Some(u) => {
                assert(calls == seq![u] + rest);
                assert forall|i: int|
                    0 <= i < calls.len() - 1 && #[trigger] calls[i] is Clear implies calls[i + 1] is Assign by {
                    if i > 0 {
                        assert(calls[i] == rest[i - 1]);
                    }
                }
            },
            None => {},
        }
    }
}

/// A boolean flag binding alternates its calls: from a given state, the
/// first call turns the flag the other way, and each call undoes the one
/// before it.
pub proof fn lemma_flag_calls_alternate(is_on: bool, values: Seq<bool>)
    ensures
        forall|i: int|
            0 <= i < flag_calls(is_on, values).len() ==> flag_calls(is_on, values)[i] == ((i % 2
                == 0) != is_on),
    decreases values.len(),
{
    if values.len() > 0 {
        let (next, call) = flag_step(is_on, values[0]);
        lemma_flag_calls_alternate(next, values.drop_first());
        let rest = flag_calls(next, values.drop_first());
        let calls = flag_calls(is_on, values);
        match call {
            Some(b) => {
                assert(calls == seq![b] + rest);
                assert forall|i: int| 0 <= i < calls.len() implies calls[i] == ((i % 2 == 0)
                    != is_on) by {
                    if i > 0 {
                        assert(calls[i] == rest[i - 1]);
                    }
                }
            },
            None => {},
        }
    }
}

} // verus!
