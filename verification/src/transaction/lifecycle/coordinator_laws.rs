//! What holds of every run of a coordinator.

use crate::transaction::lifecycle::coordinator::{
    bounds_are_kept, continues, initial, next, next_continuation, next_first, within_bounds,
    CoordinatorAction, CoordinatorInput, CoordinatorPhase, CoordinatorSetting, CoordinatorState,
};
use crate::transaction::types::TransactionEndKind;
use vstd::prelude::*;

verus! {

/// State after a sequence of reports.
pub open spec fn run(
    s: CoordinatorState,
    c: CoordinatorSetting,
    inputs: Seq<CoordinatorInput>,
) -> CoordinatorState
    decreases inputs.len(),
{
    if inputs.len() == 0 {
        s
    } else {
        run(next(s, c, inputs[0]).0, c, inputs.drop_first())
    }
}

/// How many actions of a run are of a certain kind.
pub open spec fn action_count(
    s: CoordinatorState,
    c: CoordinatorSetting,
    inputs: Seq<CoordinatorInput>,
    kind: spec_fn(CoordinatorAction) -> bool,
) -> nat
    decreases inputs.len(),
{
    if inputs.len() == 0 {
        0
    } else {
        let t = next(s, c, inputs[0]);
        action_count(t.0, c, inputs.drop_first(), kind) + if kind(t.1) {
            1nat
        } else {
            0nat
        }
    }
}

/// Actions that propose a terminal.
pub open spec fn proposes() -> spec_fn(CoordinatorAction) -> bool {
    |a: CoordinatorAction| a is Propose
}

/// Actions that begin an exchange.
pub open spec fn begins_exchange() -> spec_fn(CoordinatorAction) -> bool {
    |a: CoordinatorAction| a is RunExchange || a is RunContinuation
}

/// Actions that begin a continuation.
pub open spec fn begins_continuation() -> spec_fn(CoordinatorAction) -> bool {
    |a: CoordinatorAction| a is RunContinuation
}

/// A coordinator proposes at most once, and nothing follows its proposal.
pub proof fn proposal_is_unique(
    s: CoordinatorState,
    c: CoordinatorSetting,
    inputs: Seq<CoordinatorInput>,
)
    ensures
        action_count(s, c, inputs, proposes()) <= 1,
        s.phase == CoordinatorPhase::Done ==> action_count(s, c, inputs, proposes()) == 0 && run(
            s,
            c,
            inputs,
        ) == s,
    decreases inputs.len(),
{
    if inputs.len() > 0 {
        proposal_is_unique(next(s, c, inputs[0]).0, c, inputs.drop_first());
    }
}

/// Whether an exchange that counts as complete was counted.
pub open spec fn counted(s: CoordinatorState) -> bool {
    match s.phase {
        CoordinatorPhase::Announcing(r) => r.terminal == TransactionEndKind::Completed
            ==> s.exchanges_used == 1,
        CoordinatorPhase::Publishing(r, _) => r.terminal == TransactionEndKind::Completed
            ==> s.exchanges_used == 1,
        CoordinatorPhase::Looping(t) => t == TransactionEndKind::Completed ==> s.exchanges_used
            == 1,
        _ => true,
    }
}

/// Exchanges that a state still allows.
pub open spec fn exchanges_left(s: CoordinatorState, c: CoordinatorSetting) -> int {
    let max = c.max_provider_exchanges as int;
    match s.phase {
        CoordinatorPhase::Idle
        | CoordinatorPhase::InstallingRoute
        | CoordinatorPhase::BeginningAttach
        | CoordinatorPhase::Attaching => max,
        CoordinatorPhase::Exchanging
        | CoordinatorPhase::Announcing(_)
        | CoordinatorPhase::Publishing(_, _)
        | CoordinatorPhase::Looping(_) => if max == 0 {
            0
        } else {
            max - 1
        },
        CoordinatorPhase::Continuing => max - s.exchanges_used - 1,
        CoordinatorPhase::Done => 0,
        _ => max - s.exchanges_used,
    }
}

/// Continuations that a state still allows.
pub open spec fn continuations_left(s: CoordinatorState, c: CoordinatorSetting) -> int {
    match s.phase {
        CoordinatorPhase::Appending | CoordinatorPhase::CheckingContext => c.max_continuations
            - s.round + 1,
        CoordinatorPhase::Done => 0,
        _ => c.max_continuations - s.round,
    }
}

/// What every reachable state has.
pub open spec fn sound(s: CoordinatorState, c: CoordinatorSetting) -> bool {
    &&& within_bounds(s, c)
    &&& counted(s)
    &&& rounds_fit(s, c)
}

/// Rounds are begun only after the first exchange.
pub open spec fn rounds_fit(s: CoordinatorState, c: CoordinatorSetting) -> bool {
    &&& (s.phase is Announcing || s.phase is Publishing || s.phase is Looping || s.phase
        is Exchanging) ==> s.round == 0 && c.max_provider_exchanges > 0
    &&& (s.phase is Idle || s.phase is InstallingRoute || s.phase is BeginningAttach || s.phase
        is Attaching) ==> s.round == 0
    &&& (s.phase is Appending || s.phase is CheckingContext) ==> s.round >= 1
}

proof fn lemma_sound_step(s: CoordinatorState, c: CoordinatorSetting, input: CoordinatorInput)
    requires
        sound(s, c),
    ensures
        sound(next(s, c, input).0, c),
{
    bounds_are_kept(s, c, input);
    lemma_counted(s, c, input);
    lemma_rounds(s, c, input);
}

#[verifier::spinoff_prover]
proof fn lemma_counted_first(
    s: CoordinatorState,
    c: CoordinatorSetting,
    input: CoordinatorInput,
)
    requires
        counted(s),
        !continues(s.phase),
    ensures
        counted(next_first(s, c, input).0),
{
}

#[verifier::spinoff_prover]
proof fn lemma_counted_continuation(
    s: CoordinatorState,
    c: CoordinatorSetting,
    input: CoordinatorInput,
)
    requires
        counted(s),
        continues(s.phase),
    ensures
        counted(next_continuation(s, c, input).0),
{
}

proof fn lemma_counted(
    s: CoordinatorState,
    c: CoordinatorSetting,
    input: CoordinatorInput,
)
    requires
        counted(s),
    ensures
        counted(next(s, c, input).0),
{
    if continues(s.phase) {
        lemma_counted_continuation(s, c, input);
    } else {
        lemma_counted_first(s, c, input);
    }
}

#[verifier::spinoff_prover]
proof fn lemma_rounds_first(
    s: CoordinatorState,
    c: CoordinatorSetting,
    input: CoordinatorInput,
)
    requires
        within_bounds(s, c),
        rounds_fit(s, c),
        !continues(s.phase),
    ensures
        rounds_fit(next_first(s, c, input).0, c),
{
}

#[verifier::spinoff_prover]
proof fn lemma_rounds_continuation(
    s: CoordinatorState,
    c: CoordinatorSetting,
    input: CoordinatorInput,
)
    requires
        within_bounds(s, c),
        rounds_fit(s, c),
        continues(s.phase),
    ensures
        rounds_fit(next_continuation(s, c, input).0, c),
{
}

proof fn lemma_rounds(
    s: CoordinatorState,
    c: CoordinatorSetting,
    input: CoordinatorInput,
)
    requires
        within_bounds(s, c),
        rounds_fit(s, c),
    ensures
        rounds_fit(next(s, c, input).0, c),
{
    if continues(s.phase) {
        lemma_rounds_continuation(s, c, input);
    } else {
        lemma_rounds_first(s, c, input);
    }
}

proof fn lemma_left(s: CoordinatorState, c: CoordinatorSetting)
    requires
        sound(s, c),
    ensures
        exchanges_left(s, c) >= 0,
        continuations_left(s, c) >= 0,
{
}

#[verifier::spinoff_prover]
proof fn lemma_exchanges_left_first(
    s: CoordinatorState,
    c: CoordinatorSetting,
    input: CoordinatorInput,
)
    requires
        sound(s, c),
        !continues(s.phase),
    ensures
        exchanges_left(next_first(s, c, input).0, c) + (if begins_exchange()(next_first(s, c, input).1) {
            1int
        } else {
            0
        }) <= exchanges_left(s, c),
{
}

#[verifier::spinoff_prover]
proof fn lemma_exchanges_left_continuation(
    s: CoordinatorState,
    c: CoordinatorSetting,
    input: CoordinatorInput,
)
    requires
        sound(s, c),
        continues(s.phase),
    ensures
        exchanges_left(next_continuation(s, c, input).0, c) + (if begins_exchange()(next_continuation(s, c, input).1) {
            1int
        } else {
            0
        }) <= exchanges_left(s, c),
{
}

proof fn lemma_exchanges_left(
    s: CoordinatorState,
    c: CoordinatorSetting,
    input: CoordinatorInput,
)
    requires
        sound(s, c),
    ensures
        exchanges_left(next(s, c, input).0, c) + (if begins_exchange()(next(s, c, input).1) {
            1int
        } else {
            0
        }) <= exchanges_left(s, c),
{
    if continues(s.phase) {
        lemma_exchanges_left_continuation(s, c, input);
    } else {
        lemma_exchanges_left_first(s, c, input);
    }
}

#[verifier::spinoff_prover]
proof fn lemma_continuations_left_first(
    s: CoordinatorState,
    c: CoordinatorSetting,
    input: CoordinatorInput,
)
    requires
        sound(s, c),
        !continues(s.phase),
    ensures
        continuations_left(next_first(s, c, input).0, c) + (if begins_continuation()(
            next_first(s, c, input).1,
        ) {
            1int
        } else {
            0
        }) <= continuations_left(s, c),
{
}

#[verifier::spinoff_prover]
proof fn lemma_continuations_left_continuation(
    s: CoordinatorState,
    c: CoordinatorSetting,
    input: CoordinatorInput,
)
    requires
        sound(s, c),
        continues(s.phase),
    ensures
        continuations_left(next_continuation(s, c, input).0, c) + (if begins_continuation()(
            next_continuation(s, c, input).1,
        ) {
            1int
        } else {
            0
        }) <= continuations_left(s, c),
{
}

proof fn lemma_continuations_left(
    s: CoordinatorState,
    c: CoordinatorSetting,
    input: CoordinatorInput,
)
    requires
        sound(s, c),
    ensures
        continuations_left(next(s, c, input).0, c) + (if begins_continuation()(
            next(s, c, input).1,
        ) {
            1int
        } else {
            0
        }) <= continuations_left(s, c),
{
    if continues(s.phase) {
        lemma_continuations_left_continuation(s, c, input);
    } else {
        lemma_continuations_left_first(s, c, input);
    }
}

proof fn lemma_counts(s: CoordinatorState, c: CoordinatorSetting, inputs: Seq<CoordinatorInput>)
    requires
        sound(s, c),
    ensures
        action_count(s, c, inputs, begins_exchange()) <= exchanges_left(s, c),
        action_count(s, c, inputs, begins_continuation()) <= continuations_left(s, c),
    decreases inputs.len(),
{
    lemma_left(s, c);
    if inputs.len() > 0 {
        lemma_sound_step(s, c, inputs[0]);
        lemma_exchanges_left(s, c, inputs[0]);
        lemma_continuations_left(s, c, inputs[0]);
        lemma_counts(next(s, c, inputs[0]).0, c, inputs.drop_first());
    }
}

/// In any run, no more exchanges and no more continuations are begun than the
/// limits allow.
pub proof fn exchanges_are_bounded(c: CoordinatorSetting, inputs: Seq<CoordinatorInput>)
    ensures
        action_count(initial(), c, inputs, begins_exchange()) <= c.max_provider_exchanges,
        action_count(initial(), c, inputs, begins_continuation()) <= c.max_continuations,
{
    lemma_counts(initial(), c, inputs);
}

/// In any run, a route is held only until the proposal: a coordinator that is
/// done holds none.
pub proof fn no_route_outlives_a_run(
    s: CoordinatorState,
    c: CoordinatorSetting,
    inputs: Seq<CoordinatorInput>,
)
    requires
        s.phase == CoordinatorPhase::Done ==> !s.route,
    ensures
        run(s, c, inputs).phase == CoordinatorPhase::Done ==> !run(s, c, inputs).route,
    decreases inputs.len(),
{
    if inputs.len() > 0 {
        no_route_outlives_a_run(next(s, c, inputs[0]).0, c, inputs.drop_first());
    }
}

} // verus!
