//! What holds of every invocation, whatever the collaborators answer.

use crate::action::{ActionView, OutcomeView};
use crate::config::ConfigView;
use crate::dispatch::{mode_of, ControllerView, Mode, WorkflowView};
use crate::dump::DumpView;
use crate::error::ErrorView;
use crate::hygiene::HygieneView;
use crate::machine::{
    effect, effects, lemma_done_stays, lemma_first_performed, lemma_lifted_run, lifted, run, trace,
    Durable, Machine, Performed, StepView,
};
use crate::proofs::dump::lemma_dump_writes_nothing;
use crate::proofs::hygiene::tidy;
use crate::proofs::push::{failed_at, lemma_push_fails_fast, lemma_push_writes_nothing};
use crate::proofs::register::{fails_before_commit, lemma_failed_registration_persists_nothing};
use crate::pull::PullView;
use crate::push::PushView;
use crate::register::RegistrationView;
use crate::trust_store::StoreEntryView;
use vstd::prelude::*;

verus! {

/// No sequence of actions brings the legacy marker back: where it is
/// present afterwards, it was present before. So once it is cleared, it
/// stays cleared through every later workflow.
pub proof fn lemma_marker_never_returns(before: Durable, performed: Seq<Performed>)
    ensures
        effects(before, performed).marker ==> before.marker,
    decreases performed.len(),
{
    if performed.len() > 0 {
        lemma_marker_never_returns(effect(before, performed[0]), performed.drop_first());
    }
}

/// The same of workflows: whatever workflow runs, from whatever point, and
/// whatever it is answered, it does not bring the legacy marker back.
pub proof fn lemma_no_workflow_restores_marker<M: Machine>(
    step: StepView<M>,
    outcomes: Seq<OutcomeView>,
    before: Durable,
)
    ensures
        !before.marker ==> !effects(before, trace(step, outcomes)).marker,
{
    lemma_marker_never_returns(before, trace(step, outcomes));
}

/// Where the legacy marker is looked for at the end of a registration or of
/// a pull and is absent, nothing is removed and the workflow ends with
/// success.
pub proof fn lemma_absent_marker_clears()
    ensures
        RegistrationView::AwaitMarkerProbe.next(OutcomeView::Flag { set: false }) == (StepView::<
            RegistrationView,
        >::Done { result: Ok(()) }),
        PullView::AwaitMarkerProbe.next(OutcomeView::Flag { set: false }) == (StepView::<
            PullView,
        >::Done { result: Ok(()) }),
{
}

/// The pending action of the hygiene pass is one of its own.
proof fn lemma_hygiene_stays_tidy(state: HygieneView, outcome: OutcomeView)
    ensures
        tidy(state.next(outcome)),
{
}

/// The hygiene pass, as part of the invocation: it leaves the trust store
/// and the legacy marker alone, and where the invocation ends, it ends with
/// the result that the workflow had.
pub proof fn lemma_cleaning(
    step: StepView<HygieneView>,
    primary: Result<(), ErrorView>,
    outcomes: Seq<OutcomeView>,
    before: Durable,
)
    requires
        tidy(step),
    ensures
        effects(before, trace(ControllerView::cleaning(step, primary), outcomes)) == before,
        run(ControllerView::cleaning(step, primary), outcomes) is Done ==> run(
            ControllerView::cleaning(step, primary),
            outcomes,
        ) == (StepView::<ControllerView>::Done { result: primary }),
    decreases outcomes.len(),
{
    let whole = ControllerView::cleaning(step, primary);
    if outcomes.len() == 0 {
        assert(trace(whole, outcomes) =~= Seq::<Performed>::empty());
    } else {
        let rest = outcomes.drop_first();
        match step {
            StepView::Continue { state: hygiene, action } => {
                let state = ControllerView::Cleanup { hygiene, primary };
                assert(whole == StepView::Continue { state, action });
                let following = ControllerView::cleaning(hygiene.next(outcomes[0]), primary);
                assert(state.next(outcomes[0]) == following);
                let first = Performed { action, outcome: outcomes[0] };
                assert(trace(whole, outcomes) =~= seq![first] + trace(following, rest));
                assert(trace(whole, outcomes).drop_first() =~= trace(following, rest));
                assert(effect(before, first) == before);
                lemma_hygiene_stays_tidy(hygiene, outcomes[0]);
                lemma_cleaning(hygiene.next(outcomes[0]), primary, rest, before);
            },
            StepView::Done { result: Ok(_) } => {
                assert(trace(whole, outcomes) =~= Seq::<Performed>::empty());
            },
            StepView::Done { result: Err(error) } => {
                let state = ControllerView::Reporting { primary };
                let action = ActionView::Log { error };
                assert(whole == StepView::Continue { state, action });
                let following = StepView::<ControllerView>::Done { result: primary };
                assert(state.next(outcomes[0]) == following);
                let first = Performed { action, outcome: outcomes[0] };
                assert(trace(following, rest) =~= Seq::<Performed>::empty());
                assert(trace(whole, outcomes) =~= seq![first]);
                assert(trace(whole, outcomes).drop_first() =~= Seq::<Performed>::empty());
                assert(effect(before, first) == before);
                assert(effects(before, Seq::<Performed>::empty()) == before);
                lemma_done_stays(following, rest);
            },
        }
    }
}

/// An invocation does to the trust store and to the legacy marker what its
/// workflow does, and nothing more; and where it ends, it ends with the
/// result of its workflow: the hygiene pass overrides nothing.
pub proof fn lemma_supervision(
    step: StepView<WorkflowView>,
    process_uid: u32,
    paths: Seq<Seq<char>>,
    account: Seq<char>,
    outcomes: Seq<OutcomeView>,
    before: Durable,
)
    ensures
        effects(
            before,
            trace(ControllerView::supervised(step, process_uid, paths, account), outcomes),
        ) == effects(before, trace(step, outcomes)),
        run(ControllerView::supervised(step, process_uid, paths, account), outcomes) is Done
            ==> run(step, outcomes) is Done && run(
            ControllerView::supervised(step, process_uid, paths, account),
            outcomes,
        )->Done_result == run(step, outcomes)->Done_result,
    decreases outcomes.len(),
{
    let whole = ControllerView::supervised(step, process_uid, paths, account);
    match step {
        StepView::Continue { state, action } => {
            if outcomes.len() > 0 {
                let rest = outcomes.drop_first();
                let following = state.next(outcomes[0]);
                let first = Performed { action, outcome: outcomes[0] };
                assert(trace(whole, outcomes)[0] == first);
                assert(trace(whole, outcomes).drop_first() =~= trace(
                    ControllerView::supervised(following, process_uid, paths, account),
                    rest,
                ));
                assert(trace(step, outcomes)[0] == first);
                assert(trace(step, outcomes).drop_first() =~= trace(following, rest));
                lemma_supervision(
                    following,
                    process_uid,
                    paths,
                    account,
                    rest,
                    effect(before, first),
                );
            }
        },
        StepView::Done { result } => {
            lemma_cleaning(
                HygieneView::start(process_uid, paths, account),
                result,
                outcomes,
                before,
            );
            assert(trace(step, outcomes) =~= Seq::<Performed>::empty());
        },
    }
}

/// The action belongs to the hygiene pass: a lookup of the account, a look
/// at a path, a change of owner, or the note of a failure in the log.
pub open spec fn housekeeping(action: ActionView) -> bool {
    action is ResolveUser || action is ResolveGroup || action is ProbePath
        || action is ChangeOwner || action is Log
}

/// The hygiene pass, as part of the invocation, performs nothing but
/// housekeeping.
pub proof fn lemma_cleaning_is_housekeeping(
    step: StepView<HygieneView>,
    primary: Result<(), ErrorView>,
    outcomes: Seq<OutcomeView>,
    place: int,
)
    requires
        tidy(step),
        0 <= place < trace(ControllerView::cleaning(step, primary), outcomes).len(),
    ensures
        housekeeping(trace(ControllerView::cleaning(step, primary), outcomes)[place].action),
    decreases outcomes.len(),
{
    let whole = ControllerView::cleaning(step, primary);
    lemma_first_performed(whole, outcomes);
    if place > 0 {
        let rest = outcomes.drop_first();
        assert(trace(whole, outcomes)[place] == trace(whole, outcomes).drop_first()[place - 1]);
        match step {
            StepView::Continue { state: hygiene, .. } => {
                lemma_hygiene_stays_tidy(hygiene, outcomes[0]);
                lemma_cleaning_is_housekeeping(hygiene.next(outcomes[0]), primary, rest, place - 1);
            },
            StepView::Done { .. } => {
                lemma_done_stays(whole->Continue_state.next(outcomes[0]), rest);
            },
        }
    }
}

/// The actions of an invocation are those of its workflow, in order, and
/// after them nothing but housekeeping.
pub proof fn lemma_invocation_actions(
    step: StepView<WorkflowView>,
    process_uid: u32,
    paths: Seq<Seq<char>>,
    account: Seq<char>,
    outcomes: Seq<OutcomeView>,
    place: int,
)
    requires
        0 <= place < trace(
            ControllerView::supervised(step, process_uid, paths, account),
            outcomes,
        ).len(),
    ensures
        place < trace(step, outcomes).len() ==> trace(
            ControllerView::supervised(step, process_uid, paths, account),
            outcomes,
        )[place] == trace(step, outcomes)[place],
        place >= trace(step, outcomes).len() ==> housekeeping(
            trace(
                ControllerView::supervised(step, process_uid, paths, account),
                outcomes,
            )[place].action,
        ),
    decreases outcomes.len(),
{
    let whole = ControllerView::supervised(step, process_uid, paths, account);
    match step {
        StepView::Continue { state, action } => {
            lemma_first_performed(whole, outcomes);
            lemma_first_performed(step, outcomes);
            if place > 0 {
                let rest = outcomes.drop_first();
                let following = state.next(outcomes[0]);
                assert(trace(whole, outcomes)[place] == trace(whole, outcomes).drop_first()[place
                    - 1]);
                lemma_invocation_actions(following, process_uid, paths, account, rest, place - 1);
                if place < trace(step, outcomes).len() {
                    assert(trace(step, outcomes)[place] == trace(step, outcomes).drop_first()[place
                        - 1]);
                }
            }
        },
        StepView::Done { result } => {
            lemma_done_stays(step, outcomes);
            lemma_cleaning_is_housekeeping(
                HygieneView::start(process_uid, paths, account),
                result,
                outcomes,
                place,
            );
        },
    }
}

/// The first failure ends a push, as a whole invocation. Where a
/// transmission of an invocation in the mode `push` failed with `cause`,
/// the invocation sent to no receiver after it: whatever it performed
/// afterwards was housekeeping. And where the invocation ends, it ends with
/// the one failure `Push { cause }`.
pub proof fn lemma_push_invocation_fails_fast(
    name: Seq<char>,
    config: ConfigView,
    store: Seq<StoreEntryView>,
    paths: Seq<Seq<char>>,
    account: Seq<char>,
    host_id: Seq<char>,
    process_uid: u32,
    outcomes: Seq<OutcomeView>,
    place: int,
    cause: Seq<char>,
)
    requires
        mode_of(name) == Some(Mode::Push),
        failed_at(
            trace(
                ControllerView::start(name, config, store, paths, account, host_id, process_uid),
                outcomes,
            ),
            place,
            cause,
        ),
    ensures
        forall|later: int|
            place < later < trace(
                ControllerView::start(name, config, store, paths, account, host_id, process_uid),
                outcomes,
            ).len() ==> housekeeping(
                (#[trigger] trace(
                    ControllerView::start(name, config, store, paths, account, host_id, process_uid),
                    outcomes,
                )[later]).action,
            ),
        run(
            ControllerView::start(name, config, store, paths, account, host_id, process_uid),
            outcomes,
        ) is Done ==> run(
            ControllerView::start(name, config, store, paths, account, host_id, process_uid),
            outcomes,
        ) == (StepView::<ControllerView>::Done { result: Err(ErrorView::Push { cause }) }),
{
    let inner = PushView::start(config, store);
    let wrap = WorkflowView::pushing();
    let primary = WorkflowView::start(Mode::Push, config, store, host_id);
    let whole = ControllerView::start(name, config, store, paths, account, host_id, process_uid);
    assert forall|state: PushView, outcome: OutcomeView| #[trigger]
        wrap(state).next(outcome) == lifted(state.next(outcome), wrap) by {}
    lemma_lifted_run(inner, wrap, outcomes);
    lemma_invocation_actions(primary, process_uid, paths, account, outcomes, place);
    lemma_push_fails_fast(config, store, outcomes, place, cause);
    lemma_supervision(primary, process_uid, paths, account, outcomes, Durable {
        store,
        marker: false,
    });
    assert forall|later: int| place < later < trace(whole, outcomes).len() implies housekeeping(
        (#[trigger] trace(whole, outcomes)[later]).action,
    ) by {
        lemma_invocation_actions(primary, process_uid, paths, account, outcomes, later);
    }
}

/// A mode name that names no mode ends the invocation at once with the
/// failure that quotes the name. No action is asked for, so the trust store
/// and the legacy marker are as they were.
pub proof fn lemma_invalid_mode_does_nothing(
    name: Seq<char>,
    config: ConfigView,
    store: Seq<StoreEntryView>,
    paths: Seq<Seq<char>>,
    account: Seq<char>,
    host_id: Seq<char>,
    process_uid: u32,
    outcomes: Seq<OutcomeView>,
    before: Durable,
)
    requires
        mode_of(name) is None,
    ensures
        ControllerView::start(name, config, store, paths, account, host_id, process_uid) == (
        StepView::<ControllerView>::Done { result: Err(ErrorView::InvalidMode { mode: name }) }),
        trace(
            ControllerView::start(name, config, store, paths, account, host_id, process_uid),
            outcomes,
        ) == Seq::<Performed>::empty(),
        effects(
            before,
            trace(
                ControllerView::start(name, config, store, paths, account, host_id, process_uid),
                outcomes,
            ),
        ) == before,
{
}

/// An invocation in the mode `status` writes nothing and, where it ends,
/// ends with the same failure, whatever the configuration and the trust
/// store hold and whatever the hygiene pass meets.
pub proof fn lemma_status_always_fails_alike(
    name: Seq<char>,
    config: ConfigView,
    store: Seq<StoreEntryView>,
    paths: Seq<Seq<char>>,
    account: Seq<char>,
    host_id: Seq<char>,
    process_uid: u32,
    outcomes: Seq<OutcomeView>,
    before: Durable,
)
    requires
        mode_of(name) == Some(Mode::Status),
    ensures
        WorkflowView::start(Mode::Status, config, store, host_id) == (StepView::<
            WorkflowView,
        >::Done { result: Err(ErrorView::StatusNotImplemented) }),
        run(
            ControllerView::start(name, config, store, paths, account, host_id, process_uid),
            outcomes,
        ) is Done ==> run(
            ControllerView::start(name, config, store, paths, account, host_id, process_uid),
            outcomes,
        ) == (StepView::<ControllerView>::Done {
            result: Err(ErrorView::StatusNotImplemented),
        }),
        effects(
            before,
            trace(
                ControllerView::start(name, config, store, paths, account, host_id, process_uid),
                outcomes,
            ),
        ) == before,
{
    let primary = WorkflowView::start(Mode::Status, config, store, host_id);
    lemma_supervision(primary, process_uid, paths, account, outcomes, before);
    assert(trace(primary, outcomes) =~= Seq::<Performed>::empty());
}

/// A failed registration writes nothing, as a whole invocation. Where an
/// invocation in the mode `register` ends with a failure of the
/// configuration, of the root of trust, of the signing request, of pairing,
/// of the binding of the host name or of the write itself, the trust store
/// and the legacy marker are as they were before the invocation.
pub proof fn lemma_failed_register_invocation_persists_nothing(
    name: Seq<char>,
    config: ConfigView,
    store: Seq<StoreEntryView>,
    paths: Seq<Seq<char>>,
    account: Seq<char>,
    host_id: Seq<char>,
    process_uid: u32,
    outcomes: Seq<OutcomeView>,
    before: Durable,
)
    requires
        mode_of(name) == Some(Mode::Register),
        run(
            ControllerView::start(name, config, store, paths, account, host_id, process_uid),
            outcomes,
        ) matches StepView::Done { result: Err(error) } && fails_before_commit(error),
    ensures
        effects(
            before,
            trace(
                ControllerView::start(name, config, store, paths, account, host_id, process_uid),
                outcomes,
            ),
        ) == before,
{
    let inner = RegistrationView::start(config, store, host_id);
    let wrap = WorkflowView::registering();
    let primary = WorkflowView::start(Mode::Register, config, store, host_id);
    assert(primary == lifted(inner, wrap));
    assert forall|state: RegistrationView, outcome: OutcomeView| #[trigger]
        wrap(state).next(outcome) == lifted(state.next(outcome), wrap) by {}
    lemma_lifted_run(inner, wrap, outcomes);
    lemma_supervision(primary, process_uid, paths, account, outcomes, before);
    lemma_failed_registration_persists_nothing(config, store, host_id, outcomes, before);
}

/// Each of the five mode names names its mode.
pub proof fn lemma_mode_names()
    ensures
        mode_of("dump"@) == Some(Mode::Dump),
        mode_of("register"@) == Some(Mode::Register),
        mode_of("push"@) == Some(Mode::Push),
        mode_of("status"@) == Some(Mode::Status),
        mode_of("pull"@) == Some(Mode::Pull),
{
    reveal_strlit("dump");
    reveal_strlit("register");
    reveal_strlit("push");
    reveal_strlit("status");
    reveal_strlit("pull");
    assert("dump"@.len() == 4 && "register"@.len() == 8 && "push"@.len() == 4);
    assert("status"@.len() == 6 && "pull"@.len() == 4);
    assert("push"@[2] != "pull"@[2]);
    assert("dump"@[0] != "push"@[0]);
    assert("dump"@[0] != "pull"@[0]);
}

/// An invocation in the mode `dump`, `push` or `status` changes neither the
/// trust store nor the legacy marker, whatever it is answered.
pub proof fn lemma_delivery_writes_nothing(
    name: Seq<char>,
    config: ConfigView,
    store: Seq<StoreEntryView>,
    paths: Seq<Seq<char>>,
    account: Seq<char>,
    host_id: Seq<char>,
    process_uid: u32,
    outcomes: Seq<OutcomeView>,
    before: Durable,
)
    requires
        mode_of(name) == Some(Mode::Dump) || mode_of(name) == Some(Mode::Push) || mode_of(name)
            == Some(Mode::Status),
    ensures
        effects(
            before,
            trace(
                ControllerView::start(name, config, store, paths, account, host_id, process_uid),
                outcomes,
            ),
        ) == before,
{
    let mode = mode_of(name)->0;
    let primary = WorkflowView::start(mode, config, store, host_id);
    lemma_supervision(primary, process_uid, paths, account, outcomes, before);
    match mode {
        Mode::Dump => {
            let wrap = WorkflowView::dumping();
            assert forall|state: DumpView, outcome: OutcomeView| #[trigger]
                wrap(state).next(outcome) == lifted(state.next(outcome), wrap) by {}
            lemma_lifted_run(DumpView::start(config), wrap, outcomes);
            lemma_dump_writes_nothing(config, outcomes, before);
        },
        Mode::Push => {
            let wrap = WorkflowView::pushing();
            assert forall|state: PushView, outcome: OutcomeView| #[trigger]
                wrap(state).next(outcome) == lifted(state.next(outcome), wrap) by {}
            lemma_lifted_run(PushView::start(config, store), wrap, outcomes);
            lemma_push_writes_nothing(config, store, outcomes, before);
        },
        _ => {
            assert(trace(primary, outcomes) =~= Seq::<Performed>::empty());
        },
    }
}

} // verus!
