use cmk_agent_ctl::action::{Action, Outcome};
use cmk_agent_ctl::config::Config;
use cmk_agent_ctl::error::Error;
use cmk_agent_ctl::machine::Step;
use cmk_agent_ctl::push::{push, Push};
use cmk_agent_ctl::trust_store::{RegistrationState, ServerSpec};

fn s(value: &str) -> String {
    value.to_string()
}

fn record(id: &str) -> ServerSpec {
    ServerSpec { uuid: s(id), private_key: s("key"), certificate: s("cert"), root_cert: s("root") }
}

fn two_receivers() -> RegistrationState {
    let mut store = RegistrationState::new();
    store.insert(s("a:8000"), record("id-a"));
    store.insert(s("b:8000"), record("id-b"));
    store
}

fn config() -> Config {
    let mut config = Config::empty();
    config.package_name = Some(s("checkmk"));
    config
}

fn proceed(step: Step<Push>) -> (Push, Action) {
    match step {
        Step::Continue { state, action } => (state, action),
        Step::Done { result } => panic!("push ended with {:?}", result),
    }
}

fn ended(step: Step<Push>) -> Result<(), Error> {
    match step {
        Step::Continue { action, .. } => panic!("push goes on with {:?}", action),
        Step::Done { result } => result,
    }
}

fn payload(bytes: &[u8]) -> Outcome {
    Outcome::Payload { bytes: bytes.to_vec() }
}

#[test]
fn push_to_no_receiver_does_nothing() {
    assert_eq!(push(config(), RegistrationState::new()), Step::Done { result: Ok(()) });
}

#[test]
fn push_serves_the_receivers_in_order() {
    let (state, action) = proceed(push(config(), two_receivers()));
    assert_eq!(action, Action::Collect { package_name: Some(s("checkmk")) });

    let (state, action) = proceed(state.step(payload(b"first")));
    assert_eq!(
        action,
        Action::SendPayload { address: s("a:8000"), host_id: s("id-a"), payload: b"first".to_vec() }
    );

    let (state, action) = proceed(state.step(Outcome::Text { text: s("a says thanks") }));
    assert_eq!(action, Action::Emit { message: s("a says thanks") });

    let (state, action) = proceed(state.step(Outcome::Done));
    assert_eq!(action, Action::Collect { package_name: Some(s("checkmk")) });

    let (state, action) = proceed(state.step(payload(b"second")));
    assert_eq!(
        action,
        Action::SendPayload { address: s("b:8000"), host_id: s("id-b"), payload: b"second".to_vec() }
    );

    let (state, action) = proceed(state.step(Outcome::Text { text: s("b says thanks") }));
    assert_eq!(action, Action::Emit { message: s("b says thanks") });

    assert_eq!(ended(state.step(Outcome::Done)), Ok(()));
}

#[test]
fn push_stops_at_the_first_failed_transmission() {
    let (state, _) = proceed(push(config(), two_receivers()));
    let (state, _) = proceed(state.step(payload(b"data")));
    assert_eq!(
        state.step(Outcome::Failed { cause: s("a is down") }),
        Step::Done { result: Err(Error::Push { cause: s("a is down") }) }
    );
}

#[test]
fn second_receiver_fails_after_first_was_acknowledged() {
    let mut emitted: Vec<String> = Vec::new();
    let (state, _) = proceed(push(config(), two_receivers()));
    let (state, _) = proceed(state.step(payload(b"data")));
    let (state, action) = proceed(state.step(Outcome::Text { text: s("ack of a") }));
    if let Action::Emit { message } = action {
        emitted.push(message);
    }
    let (state, _) = proceed(state.step(Outcome::Done));
    let (state, action) = proceed(state.step(payload(b"data")));
    assert!(matches!(action, Action::SendPayload { ref address, .. } if address == "b:8000"));
    let result = ended(state.step(Outcome::Failed { cause: s("b is down") }));
    assert_eq!(result, Err(Error::Push { cause: s("b is down") }));
    assert_eq!(result.unwrap_err().message(), "Error pushing monitoring data.: b is down");
    assert_eq!(emitted, vec![s("ack of a")]);
}

#[test]
fn push_fails_when_collecting_fails() {
    let (state, _) = proceed(push(config(), two_receivers()));
    let result = ended(state.step(Outcome::Failed { cause: s("no agent") }));
    assert_eq!(result, Err(Error::PushCollect { cause: s("no agent") }));
    assert_eq!(result.unwrap_err().message(), "Error collecting monitoring data: no agent");
}

#[test]
fn push_fails_when_the_acknowledgment_cannot_be_shown() {
    let (state, _) = proceed(push(config(), two_receivers()));
    let (state, _) = proceed(state.step(payload(b"data")));
    let (state, _) = proceed(state.step(Outcome::Text { text: s("ack") }));
    assert_eq!(
        ended(state.step(Outcome::Failed { cause: s("stdout closed") })),
        Err(Error::Transport { cause: s("stdout closed") })
    );
}

#[test]
fn push_rejects_outcomes_of_other_actions() {
    let (state, _) = proceed(push(config(), two_receivers()));
    assert_eq!(ended(state.step(Outcome::Done)), Err(Error::UnexpectedOutcome));
    let (state, _) = proceed(push(config(), two_receivers()));
    let (state, _) = proceed(state.step(payload(b"data")));
    assert_eq!(ended(state.step(Outcome::Done)), Err(Error::UnexpectedOutcome));
    let (state, _) = proceed(push(config(), two_receivers()));
    let (state, _) = proceed(state.step(payload(b"data")));
    let (state, _) = proceed(state.step(Outcome::Text { text: s("ack") }));
    assert_eq!(ended(state.step(Outcome::Flag { set: true })), Err(Error::UnexpectedOutcome));
}

#[test]
fn push_to_one_receiver_ends_after_its_acknowledgment() {
    let mut store = RegistrationState::new();
    store.insert(s("only:8000"), record("id-only"));
    let (state, action) = proceed(push(Config::empty(), store));
    assert_eq!(action, Action::Collect { package_name: None });
    let (state, action) = proceed(state.step(payload(b"")));
    assert_eq!(
        action,
        Action::SendPayload { address: s("only:8000"), host_id: s("id-only"), payload: Vec::new() }
    );
    let (state, _) = proceed(state.step(Outcome::Text { text: s("") }));
    assert_eq!(ended(state.step(Outcome::Done)), Ok(()));
}
