//! What holds of every hygiene pass.

use crate::action::{ActionView, OutcomeView};
use crate::error::ErrorView;
use crate::hygiene::{HygieneStage, HygieneView};
use crate::machine::{
    effect, effects, lemma_done_stays, lemma_first_performed, run, trace, Durable, Machine,
    Performed, StepView,
};
use vstd::prelude::*;

verus! {

/// The pending action is one of a hygiene pass: a lookup of the account, a
/// look at a path, or a change of owner.
pub open spec fn tidy(step: StepView<HygieneView>) -> bool {
    match step {
        StepView::Continue { state, action } => action is ResolveUser || action is ResolveGroup
            || action is ProbePath || action is ChangeOwner,
        StepView::Done { .. } => true,
    }
}

/// A hygiene pass writes neither the trust store nor the legacy marker.
pub proof fn lemma_hygiene_keeps_durable(
    step: StepView<HygieneView>,
    outcomes: Seq<OutcomeView>,
    before: Durable,
)
    requires
        tidy(step),
    ensures
        effects(before, trace(step, outcomes)) == before,
    decreases outcomes.len(),
{
    if outcomes.len() > 0 {
        match step {
            StepView::Continue { state, action } => {
                let following = state.next(outcomes[0]);
                let rest = outcomes.drop_first();
                let performed = trace(step, outcomes);
                assert(performed[0] == Performed { action, outcome: outcomes[0] });
                assert(performed.drop_first() =~= trace(following, rest));
                assert(effect(before, performed[0]) == before);
                lemma_hygiene_keeps_durable(following, rest, before);
            },
            StepView::Done { .. } => {},
        }
    }
}

/// The pass for `account` has resolved it to `uid` and `gid` and is going
/// through `paths`: it looks at a path of the list, or hands over the one
/// it has just looked at.
pub open spec fn handing_over(
    step: StepView<HygieneView>,
    paths: Seq<Seq<char>>,
    account: Seq<char>,
    uid: u32,
    gid: u32,
) -> bool {
    match step {
        StepView::Continue { state, action } => state.paths == paths && state.account == account
            && match state.stage {
            HygieneStage::AwaitProbe { uid: held_uid, gid: held_gid, index } => held_uid == uid
                && held_gid == gid && index < paths.len() && action == (ActionView::ProbePath {
                path: paths[index as int],
            }),
            HygieneStage::AwaitChange { uid: held_uid, gid: held_gid, index } => held_uid == uid
                && held_gid == gid && index < paths.len() && action == (ActionView::ChangeOwner {
                path: paths[index as int],
                uid,
                gid,
            }),
            _ => false,
        },
        StepView::Done { .. } => true,
    }
}

/// The action is the change of owner of one of `paths` to `uid` and `gid`.
pub open spec fn hands_over(action: ActionView, paths: Seq<Seq<char>>, uid: u32, gid: u32) -> bool {
    action matches ActionView::ChangeOwner { path, uid: to_uid, gid: to_gid } && to_uid == uid
        && to_gid == gid && paths.contains(path)
}

/// `before` is the look at the path that `action` hands over, and the path
/// was found.
pub open spec fn found_first(before: Performed, action: ActionView) -> bool {
    action matches ActionView::ChangeOwner { path, .. } && before == (Performed {
        action: ActionView::ProbePath { path },
        outcome: OutcomeView::Flag { set: true },
    })
}

/// The step that a pass for `account` ends with where `change`, a change of
/// owner, failed: the failure names the path and the account and keeps the
/// cause.
pub open spec fn change_failed(change: Performed, account: Seq<char>) -> StepView<HygieneView> {
    StepView::Done {
        result: Err(
            ErrorView::Ownership {
                path: change.action->ChangeOwner_path,
                account,
                cause: change.outcome->Failed_cause,
            },
        ),
    }
}

/// From any point of the going through the paths on: a change of owner
/// among the actions that follow is of one of the paths, to the resolved
/// account, and comes right after the look that found the path; and where
/// it failed, it is the last action performed and gives the pass its
/// result.
pub proof fn lemma_handing_over(
    step: StepView<HygieneView>,
    paths: Seq<Seq<char>>,
    account: Seq<char>,
    uid: u32,
    gid: u32,
    outcomes: Seq<OutcomeView>,
    place: int,
)
    requires
        handing_over(step, paths, account, uid, gid),
        0 <= place < trace(step, outcomes).len(),
        trace(step, outcomes)[place].action is ChangeOwner,
    ensures
        hands_over(trace(step, outcomes)[place].action, paths, uid, gid),
        place == 0 ==> step->Continue_state.stage is AwaitChange,
        place > 0 ==> found_first(
            trace(step, outcomes)[place - 1],
            trace(step, outcomes)[place].action,
        ),
        trace(step, outcomes)[place].outcome is Failed ==> trace(step, outcomes).len() == place + 1
            && run(step, outcomes) == change_failed(trace(step, outcomes)[place], account),
    decreases outcomes.len(),
{
    lemma_first_performed(step, outcomes);
    let state = step->Continue_state;
    let following = state.next(outcomes[0]);
    let rest = outcomes.drop_first();
    let performed = trace(step, outcomes);
    if place == 0 {
        assert(paths[state.stage->AwaitChange_index as int]
            == performed[0].action->ChangeOwner_path);
        if outcomes[0] is Failed {
            lemma_done_stays(following, rest);
        }
    } else {
        assert(performed[place] == performed.drop_first()[place - 1]);
        lemma_handing_over(following, paths, account, uid, gid, rest, place - 1);
        if place > 1 {
            assert(performed[place - 1] == performed.drop_first()[place - 2]);
        }
    }
}

/// Only what exists changes its owner, and only to the service account. A
/// change of owner in a hygiene pass is of one of the paths it was started
/// with; it goes to the user and the group that the two lookups, the first
/// two actions of the pass, gave; and it comes right after the look that
/// found that path. The process that runs the pass is privileged. Where the
/// change failed, no path after it was looked at, and the pass ended with
/// the failure that names the path and the account.
pub proof fn lemma_owner_changes(
    process_uid: u32,
    paths: Seq<Seq<char>>,
    account: Seq<char>,
    outcomes: Seq<OutcomeView>,
    place: int,
    uid: u32,
    gid: u32,
)
    requires
        0 <= place < trace(HygieneView::start(process_uid, paths, account), outcomes).len(),
        trace(HygieneView::start(process_uid, paths, account), outcomes)[place].action == (
        ActionView::ChangeOwner {
            path: trace(
                HygieneView::start(process_uid, paths, account),
                outcomes,
            )[place].action->ChangeOwner_path,
            uid,
            gid,
        }),
    ensures
        process_uid == 0,
        place >= 3,
        trace(HygieneView::start(process_uid, paths, account), outcomes)[0] == (Performed {
            action: ActionView::ResolveUser { account },
            outcome: OutcomeView::Id { id: Some(uid) },
        }),
        trace(HygieneView::start(process_uid, paths, account), outcomes)[1] == (Performed {
            action: ActionView::ResolveGroup { account },
            outcome: OutcomeView::Id { id: Some(gid) },
        }),
        hands_over(
            trace(HygieneView::start(process_uid, paths, account), outcomes)[place].action,
            paths,
            uid,
            gid,
        ),
        found_first(
            trace(HygieneView::start(process_uid, paths, account), outcomes)[place - 1],
            trace(HygieneView::start(process_uid, paths, account), outcomes)[place].action,
        ),
        trace(HygieneView::start(process_uid, paths, account), outcomes)[place].outcome is Failed
            ==> trace(HygieneView::start(process_uid, paths, account), outcomes).len() == place
            + 1 && run(HygieneView::start(process_uid, paths, account), outcomes)
            == change_failed(
            trace(HygieneView::start(process_uid, paths, account), outcomes)[place],
            account,
        ),
{
    let start = HygieneView::start(process_uid, paths, account);
    let performed = trace(start, outcomes);
    lemma_first_performed(start, outcomes);
    let second = start->Continue_state.next(outcomes[0]);
    let after_first = outcomes.drop_first();
    assert(performed[place] == trace(second, after_first)[place - 1]);
    lemma_first_performed(second, after_first);
    assert(performed[1] == trace(second, after_first)[0]);
    let third = second->Continue_state.next(after_first[0]);
    let after_second = after_first.drop_first();
    assert(performed[place] == trace(third, after_second)[place - 2]);
    let resolved_uid = second->Continue_state.stage->AwaitGroup_uid;
    let resolved_gid = after_first[0]->Id_id->0;
    lemma_handing_over(third, paths, account, resolved_uid, resolved_gid, after_second, place - 2);
    if place > 2 {
        assert(performed[place - 1] == trace(second, after_first)[place - 2]);
        assert(trace(second, after_first)[place - 2] == trace(third, after_second)[place - 3]);
    }
}

} // verus!
