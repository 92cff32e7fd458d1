use cmk_agent_ctl::action::{Action, Outcome};
use cmk_agent_ctl::config::Config;
use cmk_agent_ctl::error::Error;
use cmk_agent_ctl::machine::Step;
use cmk_agent_ctl::register::{register, register_as, Registration};
use cmk_agent_ctl::trust_store::{RegistrationState, ServerSpec, StoreEntry};

const HOST_ID: &str = "67e55044-10b1-426f-9247-bb680e5fe0c8";

fn s(value: &str) -> String {
    value.to_string()
}

fn full_config(root: Option<&str>) -> Config {
    Config {
        agent_receiver_address: Some(s("server:8000")),
        package_name: None,
        credentials: Some(s("user:password")),
        root_certificate: root.map(s),
        host_name: Some(s("myhost")),
    }
}

fn proceed(step: Step<Registration>) -> (Registration, Action) {
    match step {
        Step::Continue { state, action } => (state, action),
        Step::Done { result } => panic!("registration ended with {:?}", result),
    }
}

fn ended(step: Step<Registration>) -> Result<(), Error> {
    match step {
        Step::Continue { action, .. } => panic!("registration goes on with {:?}", action),
        Step::Done { result } => result,
    }
}

fn text(value: &str) -> Outcome {
    Outcome::Text { text: s(value) }
}

fn failed(cause: &str) -> Outcome {
    Outcome::Failed { cause: s(cause) }
}

fn csr() -> Outcome {
    Outcome::Csr { csr: s("the csr"), private_key: s("the key") }
}

/// Runs a registration up to the state that waits for the binding of the host name.
fn up_to_binding(reg_state: RegistrationState) -> Registration {
    let (state, _) = proceed(register_as(full_config(None), reg_state, s(HOST_ID)));
    let (state, _) = proceed(state.step(text("fetched root")));
    let (state, _) = proceed(state.step(csr()));
    let (state, _) = proceed(state.step(text("the certificate")));
    state
}

fn expected_record() -> ServerSpec {
    ServerSpec {
        uuid: s(HOST_ID),
        private_key: s("the key"),
        certificate: s("the certificate"),
        root_cert: s("fetched root"),
    }
}

#[test]
fn empty_configuration_fails_with_missing_address() {
    let result = ended(register_as(Config::empty(), RegistrationState::new(), s(HOST_ID)));
    assert_eq!(result, Err(Error::MissingAddress));
    assert_eq!(result.unwrap_err().message(), "Server addresses not specified.");
}

#[test]
fn empty_configuration_fails_before_anything_is_asked_for() {
    let step = register(Config::empty(), RegistrationState::new());
    assert_eq!(step, Step::Done { result: Err(Error::MissingAddress) });
}

#[test]
fn missing_credentials_are_named() {
    let mut config = full_config(None);
    config.credentials = None;
    let result = ended(register_as(config, RegistrationState::new(), s(HOST_ID)));
    assert_eq!(result, Err(Error::MissingCredentials));
}

#[test]
fn missing_host_name_is_named() {
    let mut config = full_config(None);
    config.host_name = None;
    let result = ended(register_as(config, RegistrationState::new(), s(HOST_ID)));
    assert_eq!(result, Err(Error::MissingHostName));
}

#[test]
fn missing_address_is_reported_before_missing_credentials() {
    let mut config = Config::empty();
    config.host_name = Some(s("myhost"));
    let result = ended(register_as(config, RegistrationState::new(), s(HOST_ID)));
    assert_eq!(result, Err(Error::MissingAddress));
    let mut config = Config::empty();
    config.agent_receiver_address = Some(s("server:8000"));
    let result = ended(register_as(config, RegistrationState::new(), s(HOST_ID)));
    assert_eq!(result, Err(Error::MissingCredentials));
}

#[test]
fn registration_without_pinned_root_fetches_it_first() {
    let (state, action) = proceed(register_as(full_config(None), RegistrationState::new(), s(HOST_ID)));
    assert_eq!(action, Action::FetchRoot { address: s("server:8000") });

    let (state, action) = proceed(state.step(text("fetched root")));
    assert_eq!(action, Action::MakeCsr { host_id: s(HOST_ID) });

    let (state, action) = proceed(state.step(csr()));
    assert_eq!(
        action,
        Action::Pair {
            address: s("server:8000"),
            root_cert: s("fetched root"),
            csr: s("the csr"),
            credentials: s("user:password"),
        }
    );

    let (state, action) = proceed(state.step(text("the certificate")));
    assert_eq!(
        action,
        Action::RegisterHost {
            address: s("server:8000"),
            root_cert: s("fetched root"),
            credentials: s("user:password"),
            host_id: s(HOST_ID),
            host_name: s("myhost"),
        }
    );

    let (state, action) = proceed(state.step(Outcome::Done));
    let mut expected = RegistrationState::new();
    expected.insert(s("server:8000"), expected_record());
    assert_eq!(action, Action::Persist { state: expected });

    let (state, action) = proceed(state.step(Outcome::Done));
    assert_eq!(action, Action::ProbeMarker);

    let (state, action) = proceed(state.step(Outcome::Flag { set: true }));
    assert_eq!(action, Action::RemoveMarker);

    assert_eq!(ended(state.step(Outcome::Done)), Ok(()));
}

#[test]
fn registration_with_pinned_root_uses_it_verbatim() {
    let (state, action) =
        proceed(register_as(full_config(Some("pinned root")), RegistrationState::new(), s(HOST_ID)));
    assert_eq!(action, Action::MakeCsr { host_id: s(HOST_ID) });
    let (state, action) = proceed(state.step(csr()));
    assert_eq!(
        action,
        Action::Pair {
            address: s("server:8000"),
            root_cert: s("pinned root"),
            csr: s("the csr"),
            credentials: s("user:password"),
        }
    );
    let (state, _) = proceed(state.step(text("the certificate")));
    let (_, action) = proceed(state.step(Outcome::Done));
    match action {
        Action::Persist { state } => {
            assert_eq!(state.len(), 1);
            assert_eq!(state.entry(0).record.root_cert, "pinned root");
        }
        other => panic!("expected the write, got {:?}", other),
    }
}

#[test]
fn registration_adds_to_the_receivers_already_known() {
    let mut known = RegistrationState::new();
    known.insert(s("other:8000"), expected_record());
    let (_, action) = proceed(up_to_binding(known).step(Outcome::Done));
    match action {
        Action::Persist { state } => {
            assert_eq!(state.len(), 2);
            assert_eq!(state.entry(0).address, "other:8000");
            assert_eq!(
                state.entry(1),
                &StoreEntry { address: s("server:8000"), record: expected_record() }
            );
        }
        other => panic!("expected the write, got {:?}", other),
    }
}

#[test]
fn registration_again_replaces_the_record() {
    let mut known = RegistrationState::new();
    let mut stale = expected_record();
    stale.uuid = s("00000000-0000-4000-8000-000000000000");
    known.insert(s("server:8000"), stale);
    known.insert(s("other:8000"), expected_record());
    let (_, action) = proceed(up_to_binding(known).step(Outcome::Done));
    match action {
        Action::Persist { state } => {
            assert_eq!(state.len(), 2);
            assert_eq!(state.entry(0).address, "other:8000");
            assert_eq!(state.entry(1).address, "server:8000");
            assert_eq!(state.entry(1).record.uuid, HOST_ID);
        }
        other => panic!("expected the write, got {:?}", other),
    }
}

#[test]
fn failing_root_fetch_ends_the_registration() {
    let (state, _) = proceed(register_as(full_config(None), RegistrationState::new(), s(HOST_ID)));
    assert_eq!(
        ended(state.step(failed("connection refused"))),
        Err(Error::EstablishTrust { cause: s("connection refused") })
    );
}

#[test]
fn failing_csr_ends_the_registration() {
    let (state, _) =
        proceed(register_as(full_config(Some("root")), RegistrationState::new(), s(HOST_ID)));
    assert_eq!(
        ended(state.step(failed("no randomness"))),
        Err(Error::CreateCsr { cause: s("no randomness") })
    );
}

#[test]
fn failing_pairing_persists_nothing() {
    let (state, _) =
        proceed(register_as(full_config(Some("root")), RegistrationState::new(), s(HOST_ID)));
    let (state, _) = proceed(state.step(csr()));
    let step = state.step(failed("401 Unauthorized"));
    assert_eq!(
        step,
        Step::Done {
            result: Err(Error::Pairing { address: s("server:8000"), cause: s("401 Unauthorized") })
        }
    );
}

#[test]
fn failing_binding_persists_nothing() {
    let step = up_to_binding(RegistrationState::new()).step(failed("host unknown"));
    assert_eq!(
        step,
        Step::Done {
            result: Err(Error::Registering { address: s("server:8000"), cause: s("host unknown") })
        }
    );
}

#[test]
fn failing_write_is_reported() {
    let (state, _) = proceed(up_to_binding(RegistrationState::new()).step(Outcome::Done));
    assert_eq!(
        ended(state.step(failed("disk full"))),
        Err(Error::Persist { cause: s("disk full") })
    );
}

#[test]
fn absent_marker_needs_no_removal() {
    assert_eq!(
        Registration::AwaitMarkerProbe.step(Outcome::Flag { set: false }),
        Step::Done { result: Ok(()) }
    );
}

#[test]
fn failing_marker_removal_is_reported_apart() {
    let result = ended(Registration::AwaitMarkerRemoval.step(failed("read-only file system")));
    assert_eq!(
        result,
        Err(Error::MarkerAfterRegistration { cause: s("read-only file system") })
    );
    assert_eq!(
        result.unwrap_err().message(),
        "Registration successful, but could not delete marker for legacy pull mode: read-only file system"
    );
    assert_eq!(
        ended(Registration::AwaitMarkerProbe.step(failed("EIO"))),
        Err(Error::MarkerAfterRegistration { cause: s("EIO") })
    );
}

#[test]
fn outcomes_of_other_actions_end_the_registration() {
    let (state, _) = proceed(register_as(full_config(None), RegistrationState::new(), s(HOST_ID)));
    assert_eq!(ended(state.step(Outcome::Done)), Err(Error::UnexpectedOutcome));
    let (state, _) =
        proceed(register_as(full_config(Some("root")), RegistrationState::new(), s(HOST_ID)));
    assert_eq!(ended(state.step(text("not a csr"))), Err(Error::UnexpectedOutcome));
    assert_eq!(
        ended(up_to_binding(RegistrationState::new()).step(text("surplus"))),
        Err(Error::UnexpectedOutcome)
    );
    assert_eq!(
        ended(Registration::AwaitPersist.step(Outcome::Flag { set: true })),
        Err(Error::UnexpectedOutcome)
    );
    assert_eq!(
        ended(Registration::AwaitMarkerProbe.step(Outcome::Done)),
        Err(Error::UnexpectedOutcome)
    );
    assert_eq!(
        ended(Registration::AwaitMarkerRemoval.step(Outcome::Flag { set: false })),
        Err(Error::UnexpectedOutcome)
    );
}

fn drawn_host_id() -> String {
    match register(full_config(Some("root")), RegistrationState::new()) {
        Step::Continue { action: Action::MakeCsr { host_id }, .. } => host_id,
        other => panic!("expected the signing request, got {:?}", other),
    }
}

#[test]
fn drawn_host_id_is_a_random_uuid_in_text() {
    let id = drawn_host_id();
    let chars: Vec<char> = id.chars().collect();
    assert_eq!(chars.len(), 36);
    for (index, c) in chars.iter().enumerate() {
        if index == 8 || index == 13 || index == 18 || index == 23 {
            assert_eq!(*c, '-');
        } else {
            assert!(matches!(*c, '0'..='9' | 'a'..='f'));
        }
    }
    assert_eq!(chars[14], '4');
    assert!(matches!(chars[19], '8' | '9' | 'a' | 'b'));
    assert_eq!(uuid::Uuid::parse_str(&id).unwrap().get_version_num(), 4);
}

#[test]
fn two_registrations_draw_distinct_host_ids() {
    assert_ne!(drawn_host_id(), drawn_host_id());
}

#[test]
fn drawn_host_id_is_carried_into_the_state() {
    match register(full_config(None), RegistrationState::new()) {
        Step::Continue {
            state: Registration::AwaitRoot { enrollment, reg_state },
            action: Action::FetchRoot { address },
        } => {
            assert_eq!(address, "server:8000");
            assert_eq!(enrollment.address, "server:8000");
            assert_eq!(enrollment.credentials, "user:password");
            assert_eq!(enrollment.host_name, "myhost");
            assert_eq!(enrollment.host_id.len(), 36);
            assert!(reg_state.is_empty());
        }
        other => panic!("expected the fetch of the root, got {:?}", other),
    }
}
