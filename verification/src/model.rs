//! The state of a run counter as a mathematical value, and its one transition.

use vstd::prelude::*;

verus! {

/// A maximal stretch of consecutive observations with one key, and the total
/// of their increments (held at `u64::MAX` when the total passes it).
#[derive(Copy)]
pub struct Run<K> {
    pub key: K,
    pub amount: u64,
}

impl<K: Copy> Clone for Run<K> {
    fn clone(&self) -> (copy: Self)
        ensures
            copy == *self,
    {
        *self
    }
}

/// What a counter knows after some observations: the run in progress, if any
/// observation was made yet, and the run that the latest observation closed,
/// if it closed one.
pub struct CounterState<K> {
    pub current: Option<Run<K>>,
    pub completed: Option<Run<K>>,
}

/// The sum of two amounts, held at `u64::MAX` where it would pass it.
pub open spec fn saturating_sum(a: u64, b: u64) -> u64 {
    if a + b > u64::MAX {
        u64::MAX
    } else {
        (a + b) as u64
    }
}

impl<K> CounterState<K> {
    /// The state before the first observation: no run at all.
    pub open spec fn empty() -> Self {
        CounterState { current: None, completed: None }
    }

    /// Whether an observation of `key` goes on with the run in progress.
    pub open spec fn continues(self, key: K) -> bool {
        self.current matches Some(run) && run.key == key
    }

    /// The state after an observation that goes on with the run in progress:
    /// the increment is added to the run, and nothing is completed.
    pub open spec fn extend(self, key: K, increment: u64) -> Self {
        CounterState {
            current: Some(Run { key, amount: saturating_sum(self.current->0.amount, increment) }),
            completed: None,
        }
    }

    /// The state after an observation that starts a run: the new run holds the
    /// increment alone, and the run that was in progress, if there was one, is
    /// the completed one.
    pub open spec fn restart(self, key: K, increment: u64) -> Self {
        CounterState {
            current: Some(Run { key, amount: increment }),
            completed: self.current,
        }
    }

    /// The state after the observation `(key, increment)`.
    pub open spec fn advance(self, key: K, increment: u64) -> Self {
        if self.continues(key) {
            self.extend(key, increment)
        } else {
            self.restart(key, increment)
        }
    }

    /// What holds of every state that observations can lead to: a completed
    /// run comes with a run in progress, and the two have different keys.
    pub open spec fn inv(self) -> bool {
        self.completed matches Some(done) ==> (self.current matches Some(run) && run.key != done.key)
    }
}

/// The state after the observations `stream`, made in order from the empty
/// state.
pub open spec fn replay<K>(stream: Seq<(K, u64)>) -> CounterState<K>
    decreases stream.len(),
{
    if stream.len() == 0 {
        CounterState::empty()
    } else {
        replay(stream.drop_last()).advance(stream.last().0, stream.last().1)
    }
}

/// The sum of the increments of `stream`, as a number without bound.
pub open spec fn total<K>(stream: Seq<(K, u64)>) -> nat
    decreases stream.len(),
{
    if stream.len() == 0 {
        0
    } else {
        total(stream.drop_last()) + stream.last().1 as nat
    }
}

/// A total as the amount that a run holds: itself, or `u64::MAX` where it is
/// larger.
pub open spec fn held(sum: nat) -> u64 {
    if sum > u64::MAX {
        u64::MAX
    } else {
        sum as u64
    }
}

/// The place in `stream` of the first observation of its last run: every
/// observation from there on has the key of the last one, and the one before,
/// if there is one, has another key.
pub open spec fn run_start<K>(stream: Seq<(K, u64)>) -> int
    decreases stream.len(),
{
    if stream.len() <= 1 {
        0
    } else if stream[stream.len() - 2].0 == stream.last().0 {
        run_start(stream.drop_last())
    } else {
        stream.len() - 1
    }
}

} // verus!
