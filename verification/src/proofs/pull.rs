//! What holds of every pull.

use crate::action::{ActionView, OutcomeView};
use crate::config::ConfigView;
use crate::dump::DumpView;
use crate::legacy::legacy_eligible;
use crate::machine::{
    effects, lemma_first_performed, lemma_lifted_run, lemma_settled_marker_is_absent, lifted,
    marker_settled, probes_are_true, run, trace, Durable, Machine, Performed, StepView,
};
use crate::pull::{preamble_bytes, PullView};
use crate::trust_store::StoreEntryView;
use vstd::prelude::*;

verus! {

/// A pull looks for the legacy marker before anything else, and the answer
/// decides which path it takes.
pub proof fn lemma_pull_looks_for_marker_first(
    config: ConfigView,
    store: Seq<StoreEntryView>,
    marker_present: bool,
)
    ensures
        PullView::start(config, store) is Continue,
        PullView::start(config, store)->Continue_action == ActionView::ProbeMarker,
        PullView::start(config, store)->Continue_state.next(
            OutcomeView::Flag { set: marker_present },
        ) == PullView::path(marker_present, store, config.package_name),
{
}

/// After the marker was looked for, a pull goes over the legacy channel if
/// and only if the marker is present and the trust store is empty; in every
/// other case its next action is to write the preamble.
pub proof fn lemma_legacy_iff_marker_and_empty(
    marker_present: bool,
    store: Seq<StoreEntryView>,
    package_name: Option<Seq<char>>,
)
    ensures
        PullView::path(marker_present, store, package_name) is Continue,
        (PullView::path(marker_present, store, package_name)->Continue_state is Legacy) <==> (
        marker_present && store.len() == 0),
        (PullView::path(marker_present, store, package_name)->Continue_action is WritePreamble)
            <==> !(marker_present && store.len() == 0),
        (PullView::path(marker_present, store, package_name)->Continue_action is Collect) <==> (
        marker_present && store.len() == 0),
{
}

/// A pull over the legacy channel is a dump: once the marker was found and
/// the trust store is empty, the actions and the result are those of a dump
/// with the same configuration. No preamble is written and no handshake is
/// made.
pub proof fn lemma_legacy_pull_is_dump(config: ConfigView, outcomes: Seq<OutcomeView>)
    ensures
        run(PullView::path(true, Seq::empty(), config.package_name), outcomes) == lifted(
            run(DumpView::start(config), outcomes),
            PullView::legacy(),
        ),
        trace(PullView::path(true, Seq::empty(), config.package_name), outcomes) == trace(
            DumpView::start(config),
            outcomes,
        ),
{
    let wrap = PullView::legacy();
    assert forall|state: DumpView, outcome: OutcomeView| #[trigger]
        wrap(state).next(outcome) == lifted(state.next(outcome), wrap) by {}
    assert(PullView::path(true, Seq::empty(), config.package_name) == lifted(
        DumpView::start(config),
        wrap,
    ));
    lemma_lifted_run(DumpView::start(config), wrap, outcomes);
}

/// The pull is on the encrypted path, and the pending action is the one
/// that the state waits for.
pub open spec fn on_secure_path(step: StepView<PullView>) -> bool {
    match step {
        StepView::Continue { state, action } => match state {
            PullView::AwaitMarker { .. } => false,
            PullView::Legacy { .. } => false,
            PullView::AwaitPreamble { .. } => action is WritePreamble,
            PullView::AwaitHandshake { .. } => action is Handshake,
            PullView::AwaitPayload => action is Collect,
            PullView::AwaitWrite => action is WriteSecure,
            PullView::AwaitMarkerProbe => action == ActionView::ProbeMarker,
            PullView::AwaitMarkerRemoval => action == ActionView::RemoveMarker,
        },
        StepView::Done { result } => result is Err,
    }
}

/// From any point of the encrypted path on: a pull that ends with success
/// has dealt with the legacy marker by its last action.
pub proof fn lemma_secure_path_settles_marker(
    step: StepView<PullView>,
    outcomes: Seq<OutcomeView>,
)
    requires
        on_secure_path(step),
        run(step, outcomes) == (StepView::<PullView>::Done { result: Ok(()) }),
    ensures
        marker_settled(trace(step, outcomes)),
    decreases outcomes.len(),
{
    if outcomes.len() > 0 {
        match step {
            StepView::Continue { state, action } => {
                let following = state.next(outcomes[0]);
                let rest = outcomes.drop_first();
                let performed = trace(step, outcomes);
                assert(performed =~= seq![Performed { action, outcome: outcomes[0] }] + trace(
                    following,
                    rest,
                ));
                if following is Done {
                    assert(trace(following, rest).len() == 0);
                    assert(run(following, rest) == following);
                } else {
                    lemma_secure_path_settles_marker(following, rest);
                    assert(performed.last() == trace(following, rest).last());
                }
            },
            StepView::Done { .. } => {},
        }
    }
}

/// A pull that did not go over the legacy channel and ended with success
/// has retired the legacy marker: its last action found the marker absent,
/// or removed it. Where the looks for the marker were answered truly, the
/// marker is absent afterwards.
pub proof fn lemma_secure_pull_retires_marker(
    marker_present: bool,
    store: Seq<StoreEntryView>,
    package_name: Option<Seq<char>>,
    outcomes: Seq<OutcomeView>,
)
    requires
        !legacy_eligible(marker_present, store),
        run(PullView::path(marker_present, store, package_name), outcomes) == (StepView::<
            PullView,
        >::Done { result: Ok(()) }),
    ensures
        marker_settled(trace(PullView::path(marker_present, store, package_name), outcomes)),
        forall|before: Durable| #[trigger]
            probes_are_true(
                before,
                trace(PullView::path(marker_present, store, package_name), outcomes),
            ) ==> !effects(
                before,
                trace(PullView::path(marker_present, store, package_name), outcomes),
            ).marker,
{
    let performed = trace(PullView::path(marker_present, store, package_name), outcomes);
    lemma_secure_path_settles_marker(PullView::path(marker_present, store, package_name), outcomes);
    assert forall|before: Durable| #[trigger] probes_are_true(before, performed) implies !effects(
        before,
        performed,
    ).marker by {
        lemma_settled_marker_is_absent(before, performed);
    }
}

/// How many actions of the encrypted path come before the pending one of
/// `state`.
pub open spec fn place_of(state: PullView) -> int {
    match state {
        PullView::AwaitPreamble { .. } => 0,
        PullView::AwaitHandshake { .. } => 1,
        PullView::AwaitPayload => 2,
        PullView::AwaitWrite => 3,
        PullView::AwaitMarkerProbe => 4,
        _ => 5,
    }
}

/// From any point of the encrypted path on: the monitoring data is written
/// to the encrypted stream by the fourth action, counted from the preamble,
/// and by no other.
pub proof fn lemma_secure_path_places(
    step: StepView<PullView>,
    outcomes: Seq<OutcomeView>,
    place: int,
)
    requires
        on_secure_path(step),
        0 <= place < trace(step, outcomes).len(),
        trace(step, outcomes)[place].action is WriteSecure,
    ensures
        step is Continue,
        place_of(step->Continue_state) + place == 3,
    decreases outcomes.len(),
{
    lemma_first_performed(step, outcomes);
    if place > 0 {
        let following = step->Continue_state.next(outcomes[0]);
        let rest = outcomes.drop_first();
        assert(trace(step, outcomes)[place] == trace(step, outcomes).drop_first()[place - 1]);
        lemma_secure_path_places(following, rest, place - 1);
    }
}

/// The actions of a pull after the marker was looked for.
pub open spec fn pulled(
    marker_present: bool,
    store: Seq<StoreEntryView>,
    package_name: Option<Seq<char>>,
    outcomes: Seq<OutcomeView>,
) -> Seq<Performed> {
    trace(PullView::path(marker_present, store, package_name), outcomes)
}

/// What came before the encrypted payload. In a pull that does not go over
/// the legacy channel, the monitoring data is written to the encrypted
/// stream by the fourth action and by no other. By then the preamble, the
/// two bytes and nothing else, was written to the raw stream as the first
/// action; the handshake was made as the second, with the credentials of
/// the most recent registration, and succeeded; and the data that is
/// written is the data that the third action collected.
pub proof fn lemma_payload_follows_handshake(
    marker_present: bool,
    store: Seq<StoreEntryView>,
    package_name: Option<Seq<char>>,
    outcomes: Seq<OutcomeView>,
    place: int,
)
    requires
        !legacy_eligible(marker_present, store),
        0 <= place < pulled(marker_present, store, package_name, outcomes).len(),
        pulled(marker_present, store, package_name, outcomes)[place].action is WriteSecure,
    ensures
        place == 3,
        store.len() > 0,
        pulled(marker_present, store, package_name, outcomes)[0] == (Performed {
            action: ActionView::WritePreamble { bytes: preamble_bytes() },
            outcome: OutcomeView::Done,
        }),
        pulled(marker_present, store, package_name, outcomes)[1] == (Performed {
            action: ActionView::Handshake { identity: store.last().record },
            outcome: OutcomeView::Done,
        }),
        pulled(marker_present, store, package_name, outcomes)[2] == (Performed {
            action: ActionView::Collect { package_name },
            outcome: OutcomeView::Payload {
                bytes: pulled(
                    marker_present,
                    store,
                    package_name,
                    outcomes,
                )[3].action->WriteSecure_payload,
            },
        }),
{
    let start = PullView::path(marker_present, store, package_name);
    let performed = trace(start, outcomes);
    lemma_secure_path_places(start, outcomes, place);
    lemma_first_performed(start, outcomes);
    let second = start->Continue_state.next(outcomes[0]);
    let after_first = outcomes.drop_first();
    assert(performed[1] == trace(second, after_first)[0]);
    assert(performed[2] == trace(second, after_first)[1]);
    assert(performed[3] == trace(second, after_first)[2]);
    lemma_first_performed(second, after_first);
    let third = second->Continue_state.next(after_first[0]);
    let after_second = after_first.drop_first();
    assert(performed[2] == trace(third, after_second)[0]);
    assert(performed[3] == trace(third, after_second)[1]);
    lemma_first_performed(third, after_second);
    let fourth = third->Continue_state.next(after_second[0]);
    let after_third = after_second.drop_first();
    assert(performed[3] == trace(fourth, after_third)[0]);
    lemma_first_performed(fourth, after_third);
}

} // verus!
