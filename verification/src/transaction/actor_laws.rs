//! What holds of every run of an actor.

use crate::transaction::actor::{
    exchange_bound, initial, is_done, next, within_bounds, ActorAction, ActorInput, ActorPhase,
    ActorSetting, ActorState,
};
use vstd::prelude::*;

verus! {

/// How many actions of a run are of a certain kind.
pub open spec fn action_count(
    s: ActorState,
    c: ActorSetting,
    inputs: Seq<ActorInput>,
    kind: spec_fn(ActorAction) -> bool,
) -> nat
    decreases inputs.len(),
{
    if inputs.len() == 0 {
        0
    } else {
        let t = next(s, c, inputs[0]);
        action_count(t.0, c, inputs.drop_first(), kind) + if kind(t.1) {
            1nat
        } else {
            0nat
        }
    }
}

/// Actions that end the work.
pub open spec fn ends() -> spec_fn(ActorAction) -> bool {
    |a: ActorAction| a is Finish || a is Abandon || a is RejectStart
}

/// Actions that begin an exchange.
pub open spec fn begins_exchange() -> spec_fn(ActorAction) -> bool {
    |a: ActorAction| a is RunExchange
}

/// The work of an actor ends at most once, and nothing follows its end.
pub proof fn end_is_unique(s: ActorState, c: ActorSetting, inputs: Seq<ActorInput>)
    ensures
        action_count(s, c, inputs, ends()) <= 1,
        is_done(s) ==> action_count(s, c, inputs, ends()) == 0,
    decreases inputs.len(),
{
    if inputs.len() > 0 {
        end_is_unique(next(s, c, inputs[0]).0, c, inputs.drop_first());
    }
}

/// Exchanges that a state still allows.
pub open spec fn exchanges_left(s: ActorState, c: ActorSetting) -> int {
    let max = exchange_bound(c) as int;
    match s.phase {
        ActorPhase::Exchanging => max - 1,
        ActorPhase::JoiningClaimAfterFailure(_) => 0,
        ActorPhase::Continuing | ActorPhase::JoiningContinuationFanOut(_) => max - s.exchanges_done
            - 1,
        ActorPhase::Done => 0,
        _ => max - s.exchanges_done,
    }
}

proof fn lemma_step(s: ActorState, c: ActorSetting, input: ActorInput)
    requires
        within_bounds(s, c),
    ensures
        within_bounds(next(s, c, input).0, c),
        exchanges_left(s, c) >= 0,
        exchanges_left(next(s, c, input).0, c) + (if begins_exchange()(next(s, c, input).1) {
            1int
        } else {
            0
        }) <= exchanges_left(s, c),
{
}

proof fn lemma_count(s: ActorState, c: ActorSetting, inputs: Seq<ActorInput>)
    requires
        within_bounds(s, c),
    ensures
        action_count(s, c, inputs, begins_exchange()) <= exchanges_left(s, c),
    decreases inputs.len(),
{
    if inputs.len() > 0 {
        lemma_step(s, c, inputs[0]);
        lemma_count(next(s, c, inputs[0]).0, c, inputs.drop_first());
    } else {
        lemma_step(s, c, ActorInput::Claimed);
    }
}

/// In any run, no more exchanges are begun than the limits allow; a limit of
/// none allows one.
pub proof fn exchanges_are_bounded(c: ActorSetting, inputs: Seq<ActorInput>)
    ensures
        action_count(initial(c), c, inputs, begins_exchange()) <= exchange_bound(c),
{
    lemma_count(initial(c), c, inputs);
}

} // verus!
