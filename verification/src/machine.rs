//! The shape that all workflows share: a state that, given the outcome of
//! the pending action, either asks for the next action or is done.

use crate::action::{Action, ActionView, OutcomeView};
use crate::error::{result_view, Error, ErrorView};
use crate::trust_store::StoreEntryView;
use vstd::prelude::*;

verus! {

/// Where a workflow stands after a step.
#[derive(Debug, PartialEq, Eq)]
pub enum Step<S> {
    /// `action` is to be performed; its outcome goes to `state`.
    Continue { state: S, action: Action },
    /// The workflow is over, with this result. Nothing is left to perform.
    Done { result: Result<(), Error> },
}

/// Mathematical model of a [`Step`].
pub enum StepView<V> {
    Continue { state: V, action: ActionView },
    Done { result: Result<(), ErrorView> },
}

impl<S: View> View for Step<S> {
    type V = StepView<S::V>;

    open spec fn view(&self) -> StepView<S::V> {
        match self {
            Step::Continue { state, action } => StepView::Continue {
                state: state@,
                action: action@,
            },
            Step::Done { result } => StepView::Done { result: result_view(*result) },
        }
    }
}

/// The model of a workflow state: what it does on each outcome.
pub trait Machine: Sized {
    /// The step that follows when the pending action ended with `outcome`.
    spec fn next(self, outcome: OutcomeView) -> StepView<Self>;
}

/// An action that was performed, with the outcome it had.
pub struct Performed {
    pub action: ActionView,
    pub outcome: OutcomeView,
}

/// Where a workflow stands after the outcomes, one for each action it asked
/// for, were handed in. Outcomes that come after the workflow is done are
/// not looked at.
pub open spec fn run<M: Machine>(step: StepView<M>, outcomes: Seq<OutcomeView>) -> StepView<M>
    decreases outcomes.len(),
{
    if outcomes.len() == 0 {
        step
    } else {
        match step {
            StepView::Continue { state, action } => run(
                state.next(outcomes[0]),
                outcomes.drop_first(),
            ),
            StepView::Done { .. } => step,
        }
    }
}

/// The actions that were performed on the way, in order, each with its
/// outcome.
pub open spec fn trace<M: Machine>(step: StepView<M>, outcomes: Seq<OutcomeView>) -> Seq<
    Performed,
>
    decreases outcomes.len(),
{
    if outcomes.len() == 0 {
        Seq::empty()
    } else {
        match step {
            StepView::Continue { state, action } => seq![
                Performed { action, outcome: outcomes[0] },
            ] + trace(state.next(outcomes[0]), outcomes.drop_first()),
            StepView::Done { .. } => Seq::empty(),
        }
    }
}

/// What is kept on disk between invocations.
pub struct Durable {
    /// The persisted trust store.
    pub store: Seq<StoreEntryView>,
    /// Whether the legacy marker is present.
    pub marker: bool,
}

/// The durable state after one action was performed. A write that failed
/// leaves what was there; no action other than the two writes touches it.
pub open spec fn effect(before: Durable, performed: Performed) -> Durable {
    if performed.outcome is Failed {
        before
    } else {
        match performed.action {
            ActionView::Persist { state } => Durable { store: state, marker: before.marker },
            ActionView::RemoveMarker => Durable { store: before.store, marker: false },
            _ => before,
        }
    }
}

/// The durable state after the actions were performed, first to last.
pub open spec fn effects(before: Durable, performed: Seq<Performed>) -> Durable
    decreases performed.len(),
{
    if performed.len() == 0 {
        before
    } else {
        effects(effect(before, performed[0]), performed.drop_first())
    }
}

/// A workflow that is done stays done and performs nothing more.
pub proof fn lemma_done_stays<M: Machine>(step: StepView<M>, outcomes: Seq<OutcomeView>)
    requires
        step is Done,
    ensures
        run(step, outcomes) == step,
        trace(step, outcomes) == Seq::<Performed>::empty(),
{
}

/// A step of one workflow, seen as a step of a workflow that holds it: the
/// state is put into the holder's state by `wrap`; action and result stay.
pub open spec fn lifted<M, N>(step: StepView<M>, wrap: spec_fn(M) -> N) -> StepView<N> {
    match step {
        StepView::Continue { state, action } => StepView::Continue { state: wrap(state), action },
        StepView::Done { result } => StepView::Done { result },
    }
}

/// Where the holder steps as the workflow it holds does, it runs as that
/// workflow does: the same actions, the same result.
pub proof fn lemma_lifted_run<M: Machine, N: Machine>(
    step: StepView<M>,
    wrap: spec_fn(M) -> N,
    outcomes: Seq<OutcomeView>,
)
    requires
        forall|state: M, outcome: OutcomeView| #[trigger]
            wrap(state).next(outcome) == lifted(state.next(outcome), wrap),
    ensures
        run(lifted(step, wrap), outcomes) == lifted(run(step, outcomes), wrap),
        trace(lifted(step, wrap), outcomes) == trace(step, outcomes),
    decreases outcomes.len(),
{
    if outcomes.len() > 0 {
        match step {
            StepView::Continue { state, action } => {
                assert(wrap(state).next(outcomes[0]) == lifted(state.next(outcomes[0]), wrap));
                lemma_lifted_run(state.next(outcomes[0]), wrap, outcomes.drop_first());
            },
            StepView::Done { .. } => {},
        }
    }
}

/// The legacy marker was dealt with by the last of the actions: it was
/// looked for and found absent, or it was removed.
pub open spec fn marker_settled(performed: Seq<Performed>) -> bool {
    performed.len() > 0 && (performed.last() == (Performed {
        action: ActionView::ProbeMarker,
        outcome: OutcomeView::Flag { set: false },
    }) || performed.last() == (Performed {
        action: ActionView::RemoveMarker,
        outcome: OutcomeView::Done,
    }))
}

/// Each look for the legacy marker was answered as the durable state was
/// when it was made.
pub open spec fn probes_are_true(before: Durable, performed: Seq<Performed>) -> bool
    decreases performed.len(),
{
    performed.len() == 0 || {
        &&& performed[0].action is ProbeMarker ==> performed[0].outcome == (OutcomeView::Flag {
            set: before.marker,
        })
        &&& probes_are_true(effect(before, performed[0]), performed.drop_first())
    }
}

/// Where the last action dealt with the legacy marker and the looks for it
/// were answered truly, the marker is absent afterwards.
pub proof fn lemma_settled_marker_is_absent(before: Durable, performed: Seq<Performed>)
    requires
        marker_settled(performed),
        probes_are_true(before, performed),
    ensures
        !effects(before, performed).marker,
    decreases performed.len(),
{
    let rest = performed.drop_first();
    if performed.len() == 1 {
        assert(performed.last() == performed[0]);
        assert(effects(effect(before, performed[0]), rest) == effect(before, performed[0]));
    } else {
        assert(rest.last() == performed.last());
        lemma_settled_marker_is_absent(effect(before, performed[0]), rest);
    }
}

/// Where an action was performed at all, the first one is the pending
/// action with the first outcome, and the others are those of the run that
/// follows it.
pub proof fn lemma_first_performed<M: Machine>(step: StepView<M>, outcomes: Seq<OutcomeView>)
    requires
        trace(step, outcomes).len() > 0,
    ensures
        step is Continue,
        outcomes.len() > 0,
        trace(step, outcomes)[0] == (Performed {
            action: step->Continue_action,
            outcome: outcomes[0],
        }),
        trace(step, outcomes).drop_first() == trace(
            step->Continue_state.next(outcomes[0]),
            outcomes.drop_first(),
        ),
        run(step, outcomes) == run(step->Continue_state.next(outcomes[0]), outcomes.drop_first()),
{
    assert(trace(step, outcomes).drop_first() =~= trace(
        step->Continue_state.next(outcomes[0]),
        outcomes.drop_first(),
    ));
}

/// The pending action of `step`, if there is one, is no write to the trust
/// store or to the legacy marker.
pub open spec fn asks_no_write<M>(step: StepView<M>) -> bool {
    match step {
        StepView::Continue { action, .. } => !(action is Persist) && !(action is RemoveMarker),
        StepView::Done { .. } => true,
    }
}

/// A workflow that never asks for a write leaves the durable state as it
/// was. `quiet` is a property of steps that holds of the first step, rules
/// out a pending write, and goes on to hold after every outcome.
pub proof fn lemma_quiet_run<M: Machine>(
    step: StepView<M>,
    outcomes: Seq<OutcomeView>,
    before: Durable,
    quiet: spec_fn(StepView<M>) -> bool,
)
    requires
        quiet(step),
        forall|each: StepView<M>| #[trigger] quiet(each) ==> asks_no_write(each),
        forall|state: M, action: ActionView, outcome: OutcomeView|
            #![trigger quiet(StepView::Continue { state, action }), state.next(outcome)]
            quiet(StepView::Continue { state, action }) ==> quiet(state.next(outcome)),
    ensures
        effects(before, trace(step, outcomes)) == before,
    decreases outcomes.len(),
{
    if trace(step, outcomes).len() > 0 {
        lemma_first_performed(step, outcomes);
        let state = step->Continue_state;
        let action = step->Continue_action;
        assert(step == StepView::Continue { state, action });
        assert(effect(before, trace(step, outcomes)[0]) == before);
        lemma_quiet_run(state.next(outcomes[0]), outcomes.drop_first(), before, quiet);
    }
}

} // verus!
