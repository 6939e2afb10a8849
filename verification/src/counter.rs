//! The counter itself: an immutable value, replaced at each observation.

use vstd::prelude::*;
use vstd::laws_eq::obeys_concrete_eq;
use crate::model::{CounterState, Run};

verus! {

/// Counts consecutive observations with one key, and reports each run once,
/// at the observation that ends it.
#[derive(Copy)]
pub struct ConsecutiveCounter<Type: Eq + Copy> {
    current: Option<Run<Type>>,
    completed: Option<Run<Type>>,
}

impl<Type: Eq + Copy> Clone for ConsecutiveCounter<Type> {
    fn clone(&self) -> (copy: Self)
        ensures
            copy == *self,
    {
        *self
    }
}

impl<Type: Eq + Copy> View for ConsecutiveCounter<Type> {
    type V = CounterState<Type>;

    closed spec fn view(&self) -> CounterState<Type> {
        CounterState { current: self.current, completed: self.completed }
    }
}

impl<Type: Eq + Copy> ConsecutiveCounter<Type> {
    /// Held by every counter: a completed run comes with a run in progress,
    /// and where `Type`'s `==` is equality the state is a valid one.
    #[verifier::type_invariant]
    spec fn inv(self) -> bool {
        &&& self.completed is Some ==> self.current is Some
        &&& obeys_concrete_eq::<Type>() ==> self@.inv()
    }

    /// A counter that has seen no observation.
    pub fn new() -> (counter: ConsecutiveCounter<Type>)
        ensures
            counter@ == CounterState::<Type>::empty(),
    {
        ConsecutiveCounter { current: None, completed: None }
    }

    /// The counter after the observation `(id, amount)`; `self` is left as it
    /// was.
    ///
    /// Where `id` is the key of the run in progress the run grows by `amount`
    /// (and stays at `u64::MAX` once it has reached it) and nothing is
    /// completed. Otherwise a run of `amount` starts, and the run that was in
    /// progress, if there was one, is the completed one.
    ///
    /// Which of the two happens is the verdict of `Type`'s `==`. Where that is
    /// equality the result is `advance` of the model; for any `==` at all it is
    /// one of the model's two steps, and the first observation starts a run.
    pub fn add_for(&self, id: Type, amount: u64) -> (next: ConsecutiveCounter<Type>)
        ensures
            obeys_concrete_eq::<Type>() ==> next@ == self@.advance(id, amount),
            next@ == self@.restart(id, amount) || (self@.current is Some && next@
                == self@.extend(id, amount)),
    {
        proof {
            reveal(obeys_concrete_eq);
        }
        match self.current {
            Some(run) if run.key == id => ConsecutiveCounter {
                current: Some(Run { key: id, amount: run.amount.saturating_add(amount) }),
                completed: None,
            },
            _ => ConsecutiveCounter {
                current: Some(Run { key: id, amount }),
                completed: self.current,
            },
        }
    }

    /// The run that the latest observation closed, as its key and its total,
    /// or `None` if it closed none. Asking changes nothing: the answer is the
    /// same every time it is asked of one counter. Where a run was closed
    /// another is in progress.
    pub fn completed_count(&self) -> (count: Option<(Type, u64)>)
        ensures
            count == pair_of(self@.completed),
            count is Some ==> self@.current is Some,
            obeys_concrete_eq::<Type>() ==> self@.inv(),
    {
        proof {
            use_type_invariant(self);
        }
        match self.completed {
            Some(run) => Some((run.key, run.amount)),
            None => None,
        }
    }

    /// The run in progress, as its key and its total so far, or `None` before
    /// the first observation; then nothing is completed either.
    pub fn current_count(&self) -> (count: Option<(Type, u64)>)
        ensures
            count == pair_of(self@.current),
            count is None ==> self@.completed is None,
            obeys_concrete_eq::<Type>() ==> self@.inv(),
    {
        proof {
            use_type_invariant(self);
        }
        match self.current {
            Some(run) => Some((run.key, run.amount)),
            None => None,
        }
    }
}

/// A run as the pair of its key and its total, where there is one.
pub open spec fn pair_of<K>(run: Option<Run<K>>) -> Option<(K, u64)> {
    match run {
        Some(run) => Some((run.key, run.amount)),
        None => None,
    }
}

} // verus!
