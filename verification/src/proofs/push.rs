//! What holds of every push.

use crate::action::{ActionView, OutcomeView};
use crate::config::ConfigView;
use crate::error::ErrorView;
use crate::machine::{
    effects, lemma_done_stays, lemma_first_performed, lemma_quiet_run, run, trace, Durable,
    Machine, Performed, StepView,
};
use crate::push::{PushStage, PushView};
use crate::trust_store::StoreEntryView;
use vstd::prelude::*;

verus! {

/// How many actions of a push come before its pending one, where the push
/// has reached the receiver at `index` and is in `stage` there: three for
/// each earlier receiver, and those of the stages gone through.
pub open spec fn position(index: nat, stage: PushStage) -> nat {
    3 * index + match stage {
        PushStage::Collecting => 0nat,
        PushStage::Sending => 1nat,
        PushStage::Emitting => 2nat,
    }
}

/// The pending action belongs to the stage and to the receiver that the
/// push has reached, and the push has not run past the last receiver.
pub open spec fn on_course(step: StepView<PushView>) -> bool {
    match step {
        StepView::Continue { state, action } => state.index < state.store.len()
            && match state.stage {
            PushStage::Collecting => action == (ActionView::Collect {
                package_name: state.package_name,
            }),
            PushStage::Sending => action == (ActionView::SendPayload {
                address: state.store[state.index as int].address,
                host_id: state.store[state.index as int].record.uuid,
                payload: action->SendPayload_payload,
            }),
            PushStage::Emitting => action is Emit,
        },
        StepView::Done { .. } => true,
    }
}

/// How many actions came before the pending one of `step`.
pub open spec fn offset(step: StepView<PushView>) -> nat {
    match step {
        StepView::Continue { state, .. } => position(state.index, state.stage),
        StepView::Done { .. } => 0,
    }
}

/// The step of a push that a failed transmission ends it with.
pub open spec fn push_failed(cause: Seq<char>) -> StepView<PushView> {
    StepView::Done { result: Err(ErrorView::Push { cause }) }
}

/// The cause that a failed action was reported with.
pub open spec fn cause_of(outcome: OutcomeView) -> Seq<char> {
    match outcome {
        OutcomeView::Failed { cause } => cause,
        _ => Seq::empty(),
    }
}

/// The action at `place` of `performed` is a transmission that failed with
/// `cause`.
pub open spec fn failed_at(performed: Seq<Performed>, place: int, cause: Seq<char>) -> bool {
    0 <= place < performed.len() && performed[place].action is SendPayload
        && performed[place].outcome == (OutcomeView::Failed { cause })
}

/// `action` is what a push to `store` does as its action number `turn`,
/// counted from zero: the actions come in threes, one three for each
/// receiver in the order of the store. The first collects from the selected
/// source, the second sends to the receiver under the host identifier
/// registered there, the third shows an acknowledgment.
pub open spec fn due(
    action: ActionView,
    store: Seq<StoreEntryView>,
    package_name: Option<Seq<char>>,
    turn: int,
) -> bool {
    &&& 0 <= turn / 3 < store.len()
    &&& turn % 3 == 0 ==> action == (ActionView::Collect { package_name })
    &&& turn % 3 == 1 ==> action == (ActionView::SendPayload {
        address: store[turn / 3].address,
        host_id: store[turn / 3].record.uuid,
        payload: action->SendPayload_payload,
    })
    &&& turn % 3 == 2 ==> action is Emit
}

/// `action` takes up what the action before it gave: the data that was
/// collected is the data that is sent, and the acknowledgment that came
/// back is the one that is shown.
pub open spec fn hands_on(before: Performed, action: ActionView) -> bool {
    match action {
        ActionView::SendPayload { payload, .. } => before.outcome == (OutcomeView::Payload {
            bytes: payload,
        }),
        ActionView::Emit { message } => before.outcome == (OutcomeView::Text { text: message }),
        _ => true,
    }
}

/// From any point of a push on: each action that follows is the one that is
/// due at its place, counted from the start of the push, and takes up what
/// the action before it gave; and a transmission that failed is the last
/// action performed and gives the push its result.
pub proof fn lemma_push_course(step: StepView<PushView>, outcomes: Seq<OutcomeView>, place: int)
    requires
        on_course(step),
        0 <= place < trace(step, outcomes).len(),
    ensures
        step is Continue,
        due(
            trace(step, outcomes)[place].action,
            step->Continue_state.store,
            step->Continue_state.package_name,
            offset(step) + place,
        ),
        place > 0 ==> hands_on(
            trace(step, outcomes)[place - 1],
            trace(step, outcomes)[place].action,
        ),
        failed_at(trace(step, outcomes), place, cause_of(trace(step, outcomes)[place].outcome))
            ==> trace(step, outcomes).len() == place + 1 && run(step, outcomes) == push_failed(
            cause_of(trace(step, outcomes)[place].outcome),
        ),
    decreases outcomes.len(),
{
    lemma_first_performed(step, outcomes);
    let state = step->Continue_state;
    let following = state.next(outcomes[0]);
    let rest = outcomes.drop_first();
    let performed = trace(step, outcomes);
    if place == 0 {
        if performed[0].action is SendPayload && outcomes[0] is Failed {
            lemma_done_stays(following, rest);
        }
    } else {
        assert(performed[place] == performed.drop_first()[place - 1]);
        assert(offset(following) == offset(step) + 1);
        lemma_push_course(following, rest, place - 1);
        if place > 1 {
            assert(performed[place - 1] == performed.drop_first()[place - 2]);
        }
    }
}

/// The first failure ends a push. Every action of a push to the receivers
/// in `store` is the one that is due at its place, so the receiver at
/// position `k` is sent to by the action at place `3 * k + 1` and by no
/// other. Where a transmission failed with `cause`, it is the only one that
/// failed; no action was performed after it, so no later receiver was
/// tried; and the push ended with the one failure `Push { cause }`.
pub proof fn lemma_push_fails_fast(
    config: ConfigView,
    store: Seq<StoreEntryView>,
    outcomes: Seq<OutcomeView>,
    place: int,
    cause: Seq<char>,
)
    requires
        failed_at(trace(PushView::start(config, store), outcomes), place, cause),
    ensures
        trace(PushView::start(config, store), outcomes).len() == place + 1,
        run(PushView::start(config, store), outcomes) == push_failed(cause),
        forall|turn: int|
            0 <= turn <= place ==> due(
                (#[trigger] trace(PushView::start(config, store), outcomes)[turn]).action,
                store,
                config.package_name,
                turn,
            ),
        forall|turn: int, other: Seq<char>|
            0 <= turn < place ==> !#[trigger] failed_at(
                trace(PushView::start(config, store), outcomes),
                turn,
                other,
            ),
{
    let start = PushView::start(config, store);
    let performed = trace(start, outcomes);
    lemma_push_course(start, outcomes, place);
    assert forall|turn: int| 0 <= turn <= place implies due(
        (#[trigger] performed[turn]).action,
        store,
        config.package_name,
        turn,
    ) by {
        lemma_push_course(start, outcomes, turn);
    }
    assert forall|turn: int, other: Seq<char>| 0 <= turn < place implies !#[trigger] failed_at(
        performed,
        turn,
        other,
    ) by {
        lemma_push_course(start, outcomes, turn);
    }
}

/// From any point of a push on: where the push ends with success, every
/// receiver from that point on was served.
pub proof fn lemma_success_serves_the_rest(step: StepView<PushView>, outcomes: Seq<OutcomeView>)
    requires
        on_course(step),
        step is Continue,
        run(step, outcomes) == (StepView::<PushView>::Done { result: Ok(()) }),
    ensures
        offset(step) + trace(step, outcomes).len() == 3 * step->Continue_state.store.len(),
    decreases outcomes.len(),
{
    if outcomes.len() > 0 {
        let state = step->Continue_state;
        let following = state.next(outcomes[0]);
        let rest = outcomes.drop_first();
        assert(trace(step, outcomes).len() > 0);
        lemma_first_performed(step, outcomes);
        assert(trace(step, outcomes).len() == 1 + trace(following, rest).len());
        if following is Continue {
            assert(offset(following) == offset(step) + 1);
            lemma_success_serves_the_rest(following, rest);
        } else {
            lemma_done_stays(following, rest);
        }
    }
}

/// A push that ended with success has served every receiver: it performed
/// three actions for each, and each was the one that was due and took up
/// what the one before it gave.
pub proof fn lemma_successful_push_serves_all(
    config: ConfigView,
    store: Seq<StoreEntryView>,
    outcomes: Seq<OutcomeView>,
)
    requires
        run(PushView::start(config, store), outcomes) == (StepView::<PushView>::Done {
            result: Ok(()),
        }),
    ensures
        trace(PushView::start(config, store), outcomes).len() == 3 * store.len(),
        forall|turn: int|
            0 <= turn < 3 * store.len() ==> due(
                (#[trigger] trace(PushView::start(config, store), outcomes)[turn]).action,
                store,
                config.package_name,
                turn,
            ),
        forall|turn: int|
            0 < turn < 3 * store.len() ==> hands_on(
                trace(PushView::start(config, store), outcomes)[turn - 1],
                (#[trigger] trace(PushView::start(config, store), outcomes)[turn]).action,
            ),
{
    let start = PushView::start(config, store);
    let performed = trace(start, outcomes);
    if start is Continue {
        lemma_success_serves_the_rest(start, outcomes);
    } else {
        lemma_done_stays(start, outcomes);
    }
    assert forall|turn: int| 0 <= turn < 3 * store.len() implies due(
        (#[trigger] performed[turn]).action,
        store,
        config.package_name,
        turn,
    ) by {
        lemma_push_course(start, outcomes, turn);
    }
    assert forall|turn: int| 0 < turn < 3 * store.len() implies hands_on(
        performed[turn - 1],
        (#[trigger] performed[turn]).action,
    ) by {
        lemma_push_course(start, outcomes, turn);
    }
}

/// A push changes neither the trust store nor the legacy marker, whatever
/// it is answered.
pub proof fn lemma_push_writes_nothing(
    config: ConfigView,
    store: Seq<StoreEntryView>,
    outcomes: Seq<OutcomeView>,
    before: Durable,
)
    ensures
        effects(before, trace(PushView::start(config, store), outcomes)) == before,
{
    lemma_quiet_run(
        PushView::start(config, store),
        outcomes,
        before,
        |step: StepView<PushView>| on_course(step),
    );
}

} // verus!
