//! What holds of every registration.

use crate::action::{ActionView, OutcomeView};
use crate::config::ConfigView;
use crate::error::ErrorView;
use crate::machine::{
    effect, effects, lemma_done_stays, lemma_first_performed, lemma_settled_marker_is_absent,
    marker_settled, probes_are_true, run, trace, Durable, Machine, Performed, StepView,
};
use crate::register::{failed, EnrollmentView, RegistrationView};
use crate::trust_store::{lemma_with_record, with_record, ServerSpecView, StoreEntryView};
use vstd::prelude::*;

verus! {

/// The failures that end a registration before anything was written.
pub open spec fn fails_before_commit(error: ErrorView) -> bool {
    error is MissingAddress || error is MissingCredentials || error is MissingHostName
        || error is EstablishTrust || error is CreateCsr || error is Pairing
        || error is Registering || error is Persist
}

/// The pending action is the one that the state waits for.
pub open spec fn coherent(step: StepView<RegistrationView>) -> bool {
    match step {
        StepView::Continue { state, action } => match state {
            RegistrationView::AwaitRoot { .. } => action is FetchRoot,
            RegistrationView::AwaitCsr { .. } => action is MakeCsr,
            RegistrationView::AwaitCertificate { .. } => action is Pair,
            RegistrationView::AwaitBinding { .. } => action is RegisterHost,
            RegistrationView::AwaitPersist => action is Persist,
            RegistrationView::AwaitMarkerProbe => action is ProbeMarker,
            RegistrationView::AwaitMarkerRemoval => action is RemoveMarker,
        },
        StepView::Done { .. } => true,
    }
}

/// The trust store has been written: what is left is the legacy marker.
pub open spec fn committed(step: StepView<RegistrationView>) -> bool {
    match step {
        StepView::Continue { state, action } => (state is AwaitMarkerProbe && action is ProbeMarker)
            || (state is AwaitMarkerRemoval && action is RemoveMarker),
        StepView::Done { result } => match result {
            Ok(_) => true,
            Err(error) => !fails_before_commit(error),
        },
    }
}

/// Once the trust store has been written, no later outcome makes the
/// registration end with a failure of an earlier step.
pub proof fn lemma_committed_stays(step: StepView<RegistrationView>, outcomes: Seq<OutcomeView>)
    requires
        committed(step),
    ensures
        committed(run(step, outcomes)),
    decreases outcomes.len(),
{
    if outcomes.len() > 0 {
        match step {
            StepView::Continue { state, action } => {
                lemma_committed_stays(state.next(outcomes[0]), outcomes.drop_first());
            },
            StepView::Done { .. } => {},
        }
    }
}

/// From any point of a registration on: where it ends with a failure of a
/// step before the write, the steps from that point on changed nothing.
pub proof fn lemma_failure_changes_nothing(
    step: StepView<RegistrationView>,
    outcomes: Seq<OutcomeView>,
    before: Durable,
)
    requires
        coherent(step),
    ensures
        run(step, outcomes) matches StepView::Done { result: Err(error) } && fails_before_commit(
            error,
        ) ==> effects(before, trace(step, outcomes)) == before,
    decreases outcomes.len(),
{
    if outcomes.len() > 0 {
        match step {
            StepView::Continue { state, action } => {
                let following = state.next(outcomes[0]);
                let rest = outcomes.drop_first();
                let first = Performed { action, outcome: outcomes[0] };
                let performed = trace(step, outcomes);
                assert(performed[0] == first);
                assert(performed.drop_first() =~= trace(following, rest));
                if committed(following) {
                    lemma_committed_stays(following, rest);
                } else {
                    lemma_failure_changes_nothing(following, rest, before);
                }
            },
            StepView::Done { .. } => {},
        }
    }
}

/// A registration that fails at the configuration, at the root of trust, at
/// the signing request, at pairing, at the binding of the host name or at
/// the write itself leaves the persisted trust store and the legacy marker
/// exactly as they were, whatever the collaborators answered on the way.
pub proof fn lemma_failed_registration_persists_nothing(
    config: ConfigView,
    store: Seq<StoreEntryView>,
    host_id: Seq<char>,
    outcomes: Seq<OutcomeView>,
    before: Durable,
)
    ensures
        run(RegistrationView::start(config, store, host_id), outcomes) matches StepView::Done {
            result: Err(error),
        } && fails_before_commit(error) ==> effects(
            before,
            trace(RegistrationView::start(config, store, host_id), outcomes),
        ) == before,
{
    lemma_failure_changes_nothing(
        RegistrationView::start(config, store, host_id),
        outcomes,
        before,
    );
}

/// `after` is `store` with one registration made at `address` under
/// `host_id`: the record for `address` is the most recent one, it carries
/// `host_id`, and where a root was pinned, it carries that root.
pub open spec fn commits(
    after: Seq<StoreEntryView>,
    store: Seq<StoreEntryView>,
    address: Seq<char>,
    host_id: Seq<char>,
    pinned: Option<Seq<char>>,
) -> bool {
    &&& after.len() > 0
    &&& after == with_record(store, address, after.last().record)
    &&& after.last().record.uuid == host_id
    &&& pinned is Some ==> after.last().record.root_cert == pinned->0
}

/// The registration has not written yet, and what it holds is what it was
/// started with.
pub open spec fn heading_for(
    step: StepView<RegistrationView>,
    store: Seq<StoreEntryView>,
    address: Seq<char>,
    host_id: Seq<char>,
    pinned: Option<Seq<char>>,
) -> bool {
    match step {
        StepView::Continue { state, action } => match state {
            RegistrationView::AwaitRoot { enrollment, store: held } => action is FetchRoot && held
                == store && enrollment.address == address && enrollment.host_id == host_id
                && pinned is None,
            RegistrationView::AwaitCsr { enrollment, store: held, root_cert } => action is MakeCsr
                && held == store && enrollment.address == address && enrollment.host_id
                == host_id && (pinned is Some ==> root_cert == pinned->0),
            RegistrationView::AwaitCertificate {
                enrollment,
                store: held,
                root_cert,
                ..
            } => action is Pair && held == store && enrollment.address == address
                && enrollment.host_id == host_id && (pinned is Some ==> root_cert == pinned->0),
            RegistrationView::AwaitBinding {
                enrollment,
                store: held,
                root_cert,
                ..
            } => action is RegisterHost && held == store && enrollment.address == address
                && enrollment.host_id == host_id && (pinned is Some ==> root_cert == pinned->0),
            RegistrationView::AwaitPersist => action is Persist && commits(
                action->Persist_state,
                store,
                address,
                host_id,
                pinned,
            ),
            _ => false,
        },
        StepView::Done { result } => result is Err,
    }
}

/// The registration has written, and the pending action is the one that
/// the state waits for.
pub open spec fn clearing(step: StepView<RegistrationView>) -> bool {
    match step {
        StepView::Continue { state, action } => (state is AwaitMarkerProbe
            && action is ProbeMarker) || (state is AwaitMarkerRemoval && action is RemoveMarker),
        StepView::Done { .. } => true,
    }
}

/// After the write, a registration leaves the trust store alone.
pub proof fn lemma_clearing_keeps_store(
    step: StepView<RegistrationView>,
    outcomes: Seq<OutcomeView>,
    before: Durable,
)
    requires
        clearing(step),
    ensures
        effects(before, trace(step, outcomes)).store == before.store,
    decreases outcomes.len(),
{
    if outcomes.len() > 0 {
        match step {
            StepView::Continue { state, action } => {
                let following = state.next(outcomes[0]);
                let rest = outcomes.drop_first();
                let performed = trace(step, outcomes);
                assert(performed[0] == Performed { action, outcome: outcomes[0] });
                assert(performed.drop_first() =~= trace(following, rest));
                lemma_clearing_keeps_store(following, rest, effect(before, performed[0]));
            },
            StepView::Done { .. } => {},
        }
    }
}

/// From any point before the write on: a registration that ends with
/// success has written the trust store with the one registration made.
pub proof fn lemma_success_commits(
    step: StepView<RegistrationView>,
    outcomes: Seq<OutcomeView>,
    before: Durable,
    store: Seq<StoreEntryView>,
    address: Seq<char>,
    host_id: Seq<char>,
    pinned: Option<Seq<char>>,
)
    requires
        heading_for(step, store, address, host_id, pinned),
        run(step, outcomes) == (StepView::<RegistrationView>::Done { result: Ok(()) }),
    ensures
        commits(effects(before, trace(step, outcomes)).store, store, address, host_id, pinned),
    decreases outcomes.len(),
{
    if outcomes.len() > 0 {
        match step {
            StepView::Continue { state, action } => {
                let following = state.next(outcomes[0]);
                let rest = outcomes.drop_first();
                let performed = trace(step, outcomes);
                let first = Performed { action, outcome: outcomes[0] };
                assert(performed[0] == first);
                assert(performed.drop_first() =~= trace(following, rest));
                match state {
                    RegistrationView::AwaitPersist => {
                        if outcomes[0] is Done {
                            lemma_clearing_keeps_store(following, rest, effect(before, first));
                        } else {
                            lemma_done_stays(following, rest);
                        }
                    },
                    RegistrationView::AwaitBinding {
                        enrollment,
                        store: held,
                        root_cert,
                        private_key,
                        certificate,
                    } => {
                        if outcomes[0] is Done {
                            lemma_with_record(
                                held,
                                enrollment.address,
                                ServerSpecView {
                                    uuid: enrollment.host_id,
                                    private_key,
                                    certificate,
                                    root_cert,
                                },
                            );
                            lemma_success_commits(
                                following,
                                rest,
                                before,
                                store,
                                address,
                                host_id,
                                pinned,
                            );
                        } else {
                            lemma_done_stays(following, rest);
                        }
                    },
                    _ => {
                        if following is Done {
                            lemma_done_stays(following, rest);
                        } else {
                            lemma_success_commits(
                                following,
                                rest,
                                before,
                                store,
                                address,
                                host_id,
                                pinned,
                            );
                        }
                    },
                }
            },
            StepView::Done { .. } => {},
        }
    }
}

/// A registration that ends with success has replaced the persisted trust
/// store by the store it was started with and the one new registration:
/// the record for the receiver's address is the most recent one, carries
/// the host identifier that the registration was made with and, where the
/// configuration pins a root, that root.
pub proof fn lemma_successful_registration_commits(
    config: ConfigView,
    store: Seq<StoreEntryView>,
    host_id: Seq<char>,
    outcomes: Seq<OutcomeView>,
    before: Durable,
)
    requires
        run(RegistrationView::start(config, store, host_id), outcomes) == (StepView::<
            RegistrationView,
        >::Done { result: Ok(()) }),
    ensures
        RegistrationView::complete(config),
        commits(
            effects(before, trace(RegistrationView::start(config, store, host_id), outcomes)).store,
            store,
            config.agent_receiver_address->0,
            host_id,
            config.root_certificate,
        ),
{
    let start = RegistrationView::start(config, store, host_id);
    if !RegistrationView::complete(config) {
        lemma_done_stays(start, outcomes);
    }
    lemma_success_commits(
        start,
        outcomes,
        before,
        store,
        config.agent_receiver_address->0,
        host_id,
        config.root_certificate,
    );
}

/// How many actions of a registration come before the pending one of
/// `state`, counted from the fetch of the root.
pub open spec fn place_of(state: RegistrationView) -> int {
    match state {
        RegistrationView::AwaitRoot { .. } => 0,
        RegistrationView::AwaitCsr { .. } => 1,
        RegistrationView::AwaitCertificate { .. } => 2,
        RegistrationView::AwaitBinding { .. } => 3,
        RegistrationView::AwaitPersist => 4,
        RegistrationView::AwaitMarkerProbe => 5,
        RegistrationView::AwaitMarkerRemoval => 6,
    }
}

/// From any point of a registration on: the trust store is written by the
/// fifth action, counted from the fetch of the root, and by no other.
pub proof fn lemma_write_place(
    step: StepView<RegistrationView>,
    outcomes: Seq<OutcomeView>,
    place: int,
)
    requires
        coherent(step),
        0 <= place < trace(step, outcomes).len(),
        trace(step, outcomes)[place].action is Persist,
    ensures
        step is Continue,
        place_of(step->Continue_state) + place == 4,
    decreases outcomes.len(),
{
    lemma_first_performed(step, outcomes);
    if place > 0 {
        let following = step->Continue_state.next(outcomes[0]);
        assert(trace(step, outcomes)[place] == trace(step, outcomes).drop_first()[place - 1]);
        lemma_write_place(following, outcomes.drop_first(), place - 1);
    }
}

/// The text that an outcome hands back.
pub open spec fn text_of(outcome: OutcomeView) -> Seq<char> {
    match outcome {
        OutcomeView::Text { text } => text,
        _ => Seq::empty(),
    }
}

/// The signing request that an outcome hands back.
pub open spec fn csr_of(outcome: OutcomeView) -> Seq<char> {
    match outcome {
        OutcomeView::Csr { csr, .. } => csr,
        _ => Seq::empty(),
    }
}

/// The private key that an outcome hands back.
pub open spec fn key_of(outcome: OutcomeView) -> Seq<char> {
    match outcome {
        OutcomeView::Csr { private_key, .. } => private_key,
        _ => Seq::empty(),
    }
}

/// The four actions up to the write, `performed[at]` to `performed[at + 3]`,
/// are those of a registration at `enrollment.address` with the root
/// `root_cert`, each but the last has succeeded, and each hands on what the
/// one before it gave: the signing request goes into the pairing, and the
/// key, the certificate that the pairing gave, the root and the host
/// identifier go into the record that is written on top of `store`.
pub open spec fn bootstrapped(
    performed: Seq<Performed>,
    at: int,
    enrollment: EnrollmentView,
    root_cert: Seq<char>,
    store: Seq<StoreEntryView>,
) -> bool {
    &&& performed[at].action == (ActionView::MakeCsr { host_id: enrollment.host_id })
    &&& performed[at].outcome is Csr
    &&& performed[at + 1].action == (ActionView::Pair {
        address: enrollment.address,
        root_cert,
        csr: csr_of(performed[at].outcome),
        credentials: enrollment.credentials,
    })
    &&& performed[at + 1].outcome is Text
    &&& performed[at + 2] == (Performed {
        action: ActionView::RegisterHost {
            address: enrollment.address,
            root_cert,
            credentials: enrollment.credentials,
            host_id: enrollment.host_id,
            host_name: enrollment.host_name,
        },
        outcome: OutcomeView::Done,
    })
    &&& performed[at + 3].action == (ActionView::Persist {
        state: with_record(
            store,
            enrollment.address,
            ServerSpecView {
                uuid: enrollment.host_id,
                private_key: key_of(performed[at].outcome),
                certificate: text_of(performed[at + 1].outcome),
                root_cert,
            },
        ),
    })
}

/// From the signing request on: where the fourth action is the write, the
/// four are a bootstrap of trust.
pub proof fn lemma_bootstrap(
    enrollment: EnrollmentView,
    store: Seq<StoreEntryView>,
    root_cert: Seq<char>,
    outcomes: Seq<OutcomeView>,
)
    requires
        trace(
            StepView::Continue {
                state: RegistrationView::AwaitCsr { enrollment, store, root_cert },
                action: ActionView::MakeCsr { host_id: enrollment.host_id },
            },
            outcomes,
        ).len() > 3,
    ensures
        bootstrapped(
            trace(
                StepView::Continue {
                    state: RegistrationView::AwaitCsr { enrollment, store, root_cert },
                    action: ActionView::MakeCsr { host_id: enrollment.host_id },
                },
                outcomes,
            ),
            0,
            enrollment,
            root_cert,
            store,
        ),
{
    let first = StepView::Continue {
        state: RegistrationView::AwaitCsr { enrollment, store, root_cert },
        action: ActionView::MakeCsr { host_id: enrollment.host_id },
    };
    let performed = trace(first, outcomes);
    lemma_first_performed(first, outcomes);
    let second = first->Continue_state.next(outcomes[0]);
    let after_first = outcomes.drop_first();
    assert(performed[1] == trace(second, after_first)[0]);
    assert(performed[2] == trace(second, after_first)[1]);
    assert(performed[3] == trace(second, after_first)[2]);
    lemma_first_performed(second, after_first);
    let third = second->Continue_state.next(after_first[0]);
    let after_second = after_first.drop_first();
    assert(performed[2] == trace(third, after_second)[0]);
    assert(performed[3] == trace(third, after_second)[1]);
    lemma_first_performed(third, after_second);
    let fourth = third->Continue_state.next(after_second[0]);
    let after_third = after_second.drop_first();
    assert(performed[3] == trace(fourth, after_third)[0]);
    lemma_first_performed(fourth, after_third);
}

/// The write comes last and holds what the steps before it gave. Where a
/// registration writes the trust store, the configuration was complete,
/// and the actions up to the write were, in this order and each with
/// success: the fetch of the root from the receiver's address, unless a
/// root is pinned; the making of key and signing request for the host
/// identifier; the pairing, with that request, the credentials and the
/// root; and the binding to the host name. What is written is the store
/// that the registration was started with and the record of the host
/// identifier, the key, the certificate that the pairing gave, and the
/// root. Nothing is written before.
pub proof fn lemma_write_follows_binding(
    config: ConfigView,
    store: Seq<StoreEntryView>,
    host_id: Seq<char>,
    outcomes: Seq<OutcomeView>,
    place: int,
)
    requires
        0 <= place < trace(RegistrationView::start(config, store, host_id), outcomes).len(),
        trace(RegistrationView::start(config, store, host_id), outcomes)[place].action is Persist,
    ensures
        RegistrationView::complete(config),
        config.root_certificate is Some ==> place == 3 && bootstrapped(
            trace(RegistrationView::start(config, store, host_id), outcomes),
            0,
            RegistrationView::start(config, store, host_id)->Continue_state->AwaitCsr_enrollment,
            config.root_certificate->0,
            store,
        ),
        config.root_certificate is None ==> place == 4 && trace(
            RegistrationView::start(config, store, host_id),
            outcomes,
        )[0].action == (ActionView::FetchRoot { address: config.agent_receiver_address->0 })
            && trace(RegistrationView::start(config, store, host_id), outcomes)[0].outcome is Text
            && bootstrapped(
            trace(RegistrationView::start(config, store, host_id), outcomes),
            1,
            RegistrationView::start(config, store, host_id)->Continue_state->AwaitRoot_enrollment,
            text_of(trace(RegistrationView::start(config, store, host_id), outcomes)[0].outcome),
            store,
        ),
        forall|earlier: int|
            0 <= earlier < place ==> !((#[trigger] trace(
                RegistrationView::start(config, store, host_id),
                outcomes,
            )[earlier]).action is Persist),
{
    let start = RegistrationView::start(config, store, host_id);
    let performed = trace(start, outcomes);
    lemma_write_place(start, outcomes, place);
    assert forall|earlier: int| 0 <= earlier < place implies !((
    #[trigger] performed[earlier]).action is Persist) by {
        if performed[earlier].action is Persist {
            lemma_write_place(start, outcomes, earlier);
        }
    }
    match start->Continue_state {
        RegistrationView::AwaitCsr { enrollment, store: held, root_cert } => {
            lemma_bootstrap(enrollment, held, root_cert, outcomes);
        },
        RegistrationView::AwaitRoot { enrollment, store: held } => {
            lemma_first_performed(start, outcomes);
            let second = start->Continue_state.next(outcomes[0]);
            let rest = outcomes.drop_first();
            assert(performed.drop_first().len() > 3);
            let root_cert = text_of(outcomes[0]);
            lemma_bootstrap(enrollment, held, root_cert, rest);
            assert(performed[1] == trace(second, rest)[0]);
            assert(performed[2] == trace(second, rest)[1]);
            assert(performed[3] == trace(second, rest)[2]);
            assert(performed[4] == trace(second, rest)[3]);
        },
        _ => {},
    }
}

/// A registration with an incomplete configuration ends before anything is
/// asked for: it performs no action, whatever outcomes are handed in, and
/// names the first setting that is missing.
pub proof fn lemma_incomplete_configuration_asks_nothing(
    config: ConfigView,
    store: Seq<StoreEntryView>,
    host_id: Seq<char>,
    outcomes: Seq<OutcomeView>,
)
    requires
        !RegistrationView::complete(config),
    ensures
        trace(RegistrationView::start(config, store, host_id), outcomes) == Seq::<
            Performed,
        >::empty(),
        run(RegistrationView::start(config, store, host_id), outcomes) == failed::<
            RegistrationView,
        >(
            if config.agent_receiver_address is None {
                ErrorView::MissingAddress
            } else if config.credentials is None {
                ErrorView::MissingCredentials
            } else {
                ErrorView::MissingHostName
            },
        ),
{
    lemma_done_stays(RegistrationView::start(config, store, host_id), outcomes);
}

/// Each registration writes the host identifier it was made with. Of two
/// registrations that ended with success and were made with different host
/// identifiers, the records written carry different identifiers, also
/// where both were made with the same receiver.
pub proof fn lemma_records_carry_their_host_ids(
    config: ConfigView,
    store: Seq<StoreEntryView>,
    first_id: Seq<char>,
    second_id: Seq<char>,
    first_outcomes: Seq<OutcomeView>,
    second_outcomes: Seq<OutcomeView>,
    before: Durable,
)
    requires
        first_id != second_id,
        run(RegistrationView::start(config, store, first_id), first_outcomes) == (StepView::<
            RegistrationView,
        >::Done { result: Ok(()) }),
        run(
            RegistrationView::start(
                config,
                effects(
                    before,
                    trace(RegistrationView::start(config, store, first_id), first_outcomes),
                ).store,
                second_id,
            ),
            second_outcomes,
        ) == (StepView::<RegistrationView>::Done { result: Ok(()) }),
    ensures
        effects(
            before,
            trace(RegistrationView::start(config, store, first_id), first_outcomes),
        ).store.last().record.uuid == first_id,
        effects(
            effects(
                before,
                trace(RegistrationView::start(config, store, first_id), first_outcomes),
            ),
            trace(
                RegistrationView::start(
                    config,
                    effects(
                        before,
                        trace(RegistrationView::start(config, store, first_id), first_outcomes),
                    ).store,
                    second_id,
                ),
                second_outcomes,
            ),
        ).store.last().record.uuid == second_id,
{
    let after_first = effects(
        before,
        trace(RegistrationView::start(config, store, first_id), first_outcomes),
    );
    lemma_successful_registration_commits(config, store, first_id, first_outcomes, before);
    lemma_successful_registration_commits(
        config,
        after_first.store,
        second_id,
        second_outcomes,
        after_first,
    );
}

/// From any point of a registration on: where it ends with success, its
/// last action dealt with the legacy marker.
pub proof fn lemma_success_settles_marker(
    step: StepView<RegistrationView>,
    outcomes: Seq<OutcomeView>,
)
    requires
        coherent(step),
        step is Continue,
        run(step, outcomes) == (StepView::<RegistrationView>::Done { result: Ok(()) }),
    ensures
        marker_settled(trace(step, outcomes)),
    decreases outcomes.len(),
{
    if outcomes.len() > 0 {
        let following = step->Continue_state.next(outcomes[0]);
        let rest = outcomes.drop_first();
        let performed = trace(step, outcomes);
        assert(performed.len() > 0);
        lemma_first_performed(step, outcomes);
        if following is Continue {
            lemma_success_settles_marker(following, rest);
            assert(performed.last() == performed.drop_first().last());
        } else {
            lemma_done_stays(following, rest);
            assert(performed.last() == performed[0]);
        }
    }
}

/// A registration that ended with success has retired the legacy marker:
/// its last action found the marker absent, or removed it. Where the looks
/// for the marker were answered truly, the marker is absent afterwards.
pub proof fn lemma_successful_registration_retires_marker(
    config: ConfigView,
    store: Seq<StoreEntryView>,
    host_id: Seq<char>,
    outcomes: Seq<OutcomeView>,
    before: Durable,
)
    requires
        run(RegistrationView::start(config, store, host_id), outcomes) == (StepView::<
            RegistrationView,
        >::Done { result: Ok(()) }),
    ensures
        marker_settled(trace(RegistrationView::start(config, store, host_id), outcomes)),
        probes_are_true(
            before,
            trace(RegistrationView::start(config, store, host_id), outcomes),
        ) ==> !effects(
            before,
            trace(RegistrationView::start(config, store, host_id), outcomes),
        ).marker,
{
    let start = RegistrationView::start(config, store, host_id);
    if start is Continue {
        lemma_success_settles_marker(start, outcomes);
        if probes_are_true(before, trace(start, outcomes)) {
            lemma_settled_marker_is_absent(before, trace(start, outcomes));
        }
    } else {
        lemma_done_stays(start, outcomes);
    }
}

/// `outcome` without the private key that it may hold.
pub open spec fn without_key(outcome: OutcomeView) -> OutcomeView {
    match outcome {
        OutcomeView::Csr { csr, .. } => OutcomeView::Csr { csr, private_key: Seq::empty() },
        _ => outcome,
    }
}

/// The outcomes without the private keys that they may hold.
pub open spec fn without_keys(outcomes: Seq<OutcomeView>) -> Seq<OutcomeView> {
    outcomes.map_values(|outcome: OutcomeView| without_key(outcome))
}

/// `state` without the private key that it may hold.
pub open spec fn blind(state: RegistrationView) -> RegistrationView {
    match state {
        RegistrationView::AwaitCertificate {
            enrollment,
            store,
            root_cert,
            ..
        } => RegistrationView::AwaitCertificate {
            enrollment,
            store,
            root_cert,
            private_key: Seq::empty(),
        },
        RegistrationView::AwaitBinding {
            enrollment,
            store,
            root_cert,
            certificate,
            ..
        } => RegistrationView::AwaitBinding {
            enrollment,
            store,
            root_cert,
            private_key: Seq::empty(),
            certificate,
        },
        _ => state,
    }
}

/// The two steps differ at most in the private key: they end with the same
/// result, or go on in states that are the same but for the key and with
/// the same action, unless the action is the write of the trust store.
pub open spec fn alike(
    one: StepView<RegistrationView>,
    other: StepView<RegistrationView>,
) -> bool {
    match one {
        StepView::Continue { state, action } => other is Continue && blind(state) == blind(
            other->Continue_state,
        ) && if action is Persist {
            other->Continue_action is Persist
        } else {
            action == other->Continue_action
        },
        StepView::Done { result } => other == one,
    }
}

/// From any two points of a registration that differ at most in the
/// private key: the actions that follow are the same, but for the write of
/// the trust store, whatever key is handed in.
pub proof fn lemma_key_blind_run(
    one: StepView<RegistrationView>,
    other: StepView<RegistrationView>,
    outcomes: Seq<OutcomeView>,
    place: int,
)
    requires
        alike(one, other),
        0 <= place < trace(one, outcomes).len(),
    ensures
        trace(other, without_keys(outcomes)).len() == trace(one, outcomes).len(),
        trace(one, outcomes)[place].action is Persist || trace(one, outcomes)[place].action
            == trace(other, without_keys(outcomes))[place].action,
    decreases outcomes.len(),
{
    let blinded = without_keys(outcomes);
    lemma_first_performed(one, outcomes);
    assert(blinded.len() == outcomes.len());
    assert(blinded[0] == without_key(outcomes[0]));
    assert(blinded.drop_first() =~= without_keys(outcomes.drop_first()));
    let next_one = one->Continue_state.next(outcomes[0]);
    let next_other = other->Continue_state.next(blinded[0]);
    assert(alike(next_one, next_other));
    assert(trace(other, blinded).len() > 0);
    lemma_first_performed(other, blinded);
    lemma_alike_length(next_one, next_other, outcomes.drop_first());
    if place > 0 {
        assert(trace(one, outcomes)[place] == trace(one, outcomes).drop_first()[place - 1]);
        assert(trace(other, blinded)[place] == trace(other, blinded).drop_first()[place - 1]);
        lemma_key_blind_run(next_one, next_other, outcomes.drop_first(), place - 1);
    }
}

/// Two registrations that differ at most in the private key perform the
/// same number of actions.
pub proof fn lemma_alike_length(
    one: StepView<RegistrationView>,
    other: StepView<RegistrationView>,
    outcomes: Seq<OutcomeView>,
)
    requires
        alike(one, other),
    ensures
        trace(other, without_keys(outcomes)).len() == trace(one, outcomes).len(),
    decreases outcomes.len(),
{
    let blinded = without_keys(outcomes);
    assert(blinded.len() == outcomes.len());
    if outcomes.len() > 0 && one is Continue {
        assert(blinded[0] == without_key(outcomes[0]));
        assert(blinded.drop_first() =~= without_keys(outcomes.drop_first()));
        let next_one = one->Continue_state.next(outcomes[0]);
        let next_other = other->Continue_state.next(blinded[0]);
        assert(alike(next_one, next_other));
        lemma_alike_length(next_one, next_other, outcomes.drop_first());
        assert(trace(one, outcomes).len() == 1 + trace(next_one, outcomes.drop_first()).len());
        assert(trace(other, blinded).len() == 1 + trace(next_other, blinded.drop_first()).len());
    }
}

/// The private key reaches nothing but the trust store. Had the making of
/// key and signing request handed back another key with the same request,
/// the registration would have performed the same actions, but for the
/// write of the trust store: what is fetched, what is sent to the receiver
/// for the pairing and for the binding of the host name, and what is done
/// about the legacy marker does not depend on the key.
pub proof fn lemma_key_reaches_only_the_store(
    config: ConfigView,
    store: Seq<StoreEntryView>,
    host_id: Seq<char>,
    outcomes: Seq<OutcomeView>,
    place: int,
)
    requires
        0 <= place < trace(RegistrationView::start(config, store, host_id), outcomes).len(),
    ensures
        trace(RegistrationView::start(config, store, host_id), without_keys(outcomes)).len()
            == trace(RegistrationView::start(config, store, host_id), outcomes).len(),
        trace(RegistrationView::start(config, store, host_id), outcomes)[place].action is Persist
            || trace(RegistrationView::start(config, store, host_id), outcomes)[place].action
            == trace(
            RegistrationView::start(config, store, host_id),
            without_keys(outcomes),
        )[place].action,
{
    let start = RegistrationView::start(config, store, host_id);
    lemma_key_blind_run(start, start, outcomes, place);
}

} // verus!
