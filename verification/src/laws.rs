//! What holds of the counter whatever it is fed: of one observation, and of
//! whole streams of them.

use vstd::prelude::*;
use crate::counter::ConsecutiveCounter;
use crate::model::{held, replay, run_start, saturating_sum, total, CounterState, Run};

verus! {

/// The first observation starts a run of exactly its increment and completes
/// nothing, whatever its key and increment are.
pub proof fn lemma_first_observation<K>(key: K, increment: u64)
    ensures
        CounterState::<K>::empty().advance(key, increment) == (CounterState {
            current: Some(Run { key, amount: increment }),
            completed: None,
        }),
{
}

/// An observation whose key differs from that of the run in progress completes
/// that run, unchanged, and starts a run of exactly the new increment: nothing
/// of the old total goes into it.
pub proof fn lemma_key_change<K>(state: CounterState<K>, key: K, increment: u64)
    requires
        state.current matches Some(run) && run.key != key,
    ensures
        state.advance(key, increment).completed == state.current,
        state.advance(key, increment).completed is Some,
        state.advance(key, increment).current == Some(Run { key, amount: increment }),
{
}

/// An observation with the key of the run in progress adds its increment to
/// the run (held at `u64::MAX`) and completes nothing.
pub proof fn lemma_same_key<K>(state: CounterState<K>, key: K, increment: u64)
    requires
        state.current matches Some(run) && run.key == key,
    ensures
        state.advance(key, increment).completed is None,
        state.advance(key, increment).current == Some(
            Run { key, amount: saturating_sum(state.current->0.amount, increment) },
        ),
        state.current->0.amount + increment <= u64::MAX ==> state.advance(
            key,
            increment,
        ).current->0.amount == state.current->0.amount + increment,
{
}

/// A run is completed by an observation exactly when a run was in progress and
/// the observation has another key; so at most one run is completed at a time,
/// and it is the one that was in progress.
pub proof fn lemma_completed_exactly_at_key_change<K>(
    state: CounterState<K>,
    key: K,
    increment: u64,
)
    ensures
        state.advance(key, increment).completed is Some <==> (state.current matches Some(run)
            && run.key != key),
        state.advance(key, increment).completed is Some ==> state.advance(key, increment).completed
            == state.current,
{
}

/// An increment of zero is an observation like any other: with the key of the
/// run in progress it leaves the run's total as it is and completes nothing;
/// with another key, or as the first observation, it starts a run of zero and
/// completes the run that was in progress, if there was one.
pub proof fn lemma_zero_increment<K>(state: CounterState<K>, key: K)
    ensures
        state.continues(key) ==> state.advance(key, 0) == (CounterState {
            current: state.current,
            completed: None,
        }),
        !state.continues(key) ==> state.advance(key, 0) == (CounterState {
            current: Some(Run { key, amount: 0 }),
            completed: state.current,
        }),
{
}

/// After any observation a run is in progress, with the observation's key, and
/// the state is a valid one, whatever the state before was.
pub proof fn lemma_advance_keeps_inv<K>(state: CounterState<K>, key: K, increment: u64)
    ensures
        state.advance(key, increment).inv(),
        state.advance(key, increment).current is Some,
        state.advance(key, increment).current->0.key == key,
{
}

/// Every state that a stream of observations leads to is a valid one, and it
/// is without a run in progress only before the first observation; then
/// nothing is completed either.
pub proof fn lemma_replay_inv<K>(stream: Seq<(K, u64)>)
    ensures
        replay(stream).inv(),
        replay(stream).current is None <==> stream.len() == 0,
        stream.len() == 0 ==> replay(stream) == CounterState::<K>::empty(),
{
    if stream.len() > 0 {
        lemma_advance_keeps_inv(replay(stream.drop_last()), stream.last().0, stream.last().1);
    }
}

/// Adding an increment to a held total is holding the larger total.
pub proof fn lemma_held_add(sum: nat, increment: u64)
    ensures
        saturating_sum(held(sum), increment) == held(sum + increment as nat),
{
}

/// `run_start` is what its name says: a place in the stream from which every
/// key is the last one, with another key just before it unless it is the
/// stream's beginning.
pub proof fn lemma_run_start<K>(stream: Seq<(K, u64)>)
    requires
        stream.len() > 0,
    ensures
        0 <= run_start(stream) < stream.len(),
        forall|i: int| run_start(stream) <= i < stream.len() ==> (#[trigger] stream[i]).0
            == stream.last().0,
        run_start(stream) > 0 ==> stream[run_start(stream) - 1].0 != stream.last().0,
    decreases stream.len(),
{
    if stream.len() > 1 && stream[stream.len() - 2].0 == stream.last().0 {
        let front = stream.drop_last();
        lemma_run_start(front);
        assert forall|i: int| run_start(stream) <= i < stream.len() implies (#[trigger] stream[i]).0
            == stream.last().0 by {
            if i < front.len() {
                assert(front[i] == stream[i]);
            }
        }
    }
}

/// After a stream of observations the run in progress has the key of the last
/// observation, and its total is the sum of the increments since the key last
/// changed (since the beginning, if it never did), held at `u64::MAX`. Where
/// that sum fits a `u64` the total is the sum itself.
pub proof fn lemma_current_is_last_run<K>(stream: Seq<(K, u64)>)
    requires
        stream.len() > 0,
    ensures
        replay(stream).current == Some(
            Run {
                key: stream.last().0,
                amount: held(total(stream.skip(run_start(stream)))),
            },
        ),
        total(stream.skip(run_start(stream))) <= u64::MAX ==> replay(stream).current->0.amount
            == total(stream.skip(run_start(stream))),
    decreases stream.len(),
{
    let front = stream.drop_last();
    let start = run_start(stream);
    let run = stream.skip(start);
    lemma_run_start(stream);
    assert(run.last() == stream.last());
    if stream.len() == 1 {
        assert(run.drop_last().len() == 0);
        assert(total(run.drop_last()) == 0);
    } else {
        lemma_current_is_last_run(front);
        assert(front.last() == stream[stream.len() - 2]);
        if stream[stream.len() - 2].0 == stream.last().0 {
            assert(run.drop_last() =~= front.skip(run_start(front)));
            lemma_held_add(total(front.skip(run_start(front))), stream.last().1);
        } else {
            assert(run.drop_last().len() == 0);
            assert(total(run.drop_last()) == 0);
        }
    }
}

/// A stream's last observation completes a run exactly when it is not the
/// first and its key differs from the one before. The run it completes is then
/// the run that was in progress before it, and otherwise nothing is completed.
pub proof fn lemma_completed_is_previous_run<K>(stream: Seq<(K, u64)>)
    requires
        stream.len() > 0,
    ensures
        replay(stream).completed is Some <==> (stream.len() >= 2 && stream[stream.len() - 2].0
            != stream.last().0),
        replay(stream).completed is Some ==> replay(stream).completed == replay(
            stream.drop_last(),
        ).current,
{
    let front = stream.drop_last();
    lemma_replay_inv(front);
    if front.len() > 0 {
        lemma_current_is_last_run(front);
        assert(front.last() == stream[stream.len() - 2]);
    }
}

/// While one key is repeated nothing is completed: of the observations of the
/// stream's last run only the first can complete a run, and every later one
/// leaves a state with nothing completed.
pub proof fn lemma_nothing_completed_within_run<K>(stream: Seq<(K, u64)>, upto: int)
    requires
        stream.len() > 0,
        run_start(stream) < upto < stream.len(),
    ensures
        replay(stream.take(upto + 1)).completed is None,
{
    let prefix = stream.take(upto + 1);
    lemma_run_start(stream);
    assert(prefix.last() == stream[upto]);
    assert(prefix[prefix.len() - 2] == stream[upto - 1]);
    lemma_completed_is_previous_run(prefix);
}

/// What `completed_count` answers is settled by the counter alone: any two
/// answers that it can give for one counter are the same.
pub proof fn lemma_completed_count_is_settled<Type: Eq + Copy>(
    counter: ConsecutiveCounter<Type>,
    first: Option<(Type, u64)>,
    second: Option<(Type, u64)>,
)
    requires
        call_ensures(ConsecutiveCounter::<Type>::completed_count, (&counter,), first),
        call_ensures(ConsecutiveCounter::<Type>::completed_count, (&counter,), second),
    ensures
        first == second,
{
}

} // verus!
