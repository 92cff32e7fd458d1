use cmk_agent_ctl::action::{Action, Outcome};
use cmk_agent_ctl::config::Config;
use cmk_agent_ctl::dispatch::{dispatch, dispatch_as, status, Controller, Mode, Workflow};
use cmk_agent_ctl::error::Error;
use cmk_agent_ctl::machine::Step;
use cmk_agent_ctl::trust_store::{RegistrationState, ServerSpec};

const HOST_ID: &str = "67e55044-10b1-426f-9247-bb680e5fe0c8";
const ROOT: u32 = 0;
const UNPRIVILEGED: u32 = 1000;

fn s(value: &str) -> String {
    value.to_string()
}

fn paths() -> Vec<String> {
    vec![s("/var/lib/cmk-agent"), s("/var/lib/cmk-agent/cmk-agent-ctl-state.json")]
}

fn record(id: &str) -> ServerSpec {
    ServerSpec { uuid: s(id), private_key: s("key"), certificate: s("cert"), root_cert: s("root") }
}

fn registered() -> RegistrationState {
    let mut store = RegistrationState::new();
    store.insert(s("a:8000"), record("id-a"));
    store
}

fn full_config() -> Config {
    Config {
        agent_receiver_address: Some(s("server:8000")),
        package_name: Some(s("checkmk")),
        credentials: Some(s("user:password")),
        root_certificate: None,
        host_name: Some(s("myhost")),
    }
}

fn start(mode: &str, config: Config, store: RegistrationState, uid: u32) -> Step<Controller> {
    dispatch_as(mode, config, store, paths(), s("cmk-agent"), s(HOST_ID), uid)
}

fn proceed(step: Step<Controller>) -> (Controller, Action) {
    match step {
        Step::Continue { state, action } => (state, action),
        Step::Done { result } => panic!("invocation ended with {:?}", result),
    }
}

fn ended(step: Step<Controller>) -> Result<(), Error> {
    match step {
        Step::Continue { action, .. } => panic!("invocation goes on with {:?}", action),
        Step::Done { result } => result,
    }
}

#[test]
fn mode_names_are_parsed() {
    assert_eq!(Mode::parse("dump"), Some(Mode::Dump));
    assert_eq!(Mode::parse("register"), Some(Mode::Register));
    assert_eq!(Mode::parse("push"), Some(Mode::Push));
    assert_eq!(Mode::parse("status"), Some(Mode::Status));
    assert_eq!(Mode::parse("pull"), Some(Mode::Pull));
}

#[test]
fn other_names_are_no_modes() {
    assert_eq!(Mode::parse("foo"), None);
    assert_eq!(Mode::parse(""), None);
    assert_eq!(Mode::parse("Dump"), None);
    assert_eq!(Mode::parse("dump "), None);
    assert_eq!(Mode::parse("pul"), None);
    assert_eq!(Mode::parse("pulll"), None);
}

#[test]
fn invalid_mode_fails_at_once() {
    let step = start("foo", full_config(), registered(), ROOT);
    assert_eq!(step, Step::Done { result: Err(Error::InvalidMode { mode: s("foo") }) });
    assert_eq!(ended(step).unwrap_err().message(), "Invalid mode: foo");
}

#[test]
fn invalid_mode_fails_at_once_for_the_calling_process() {
    let step = dispatch("foo", full_config(), registered(), paths(), s("cmk-agent"));
    assert_eq!(step, Step::Done { result: Err(Error::InvalidMode { mode: s("foo") }) });
}

#[test]
fn status_is_not_implemented() {
    assert_eq!(status(Config::empty()), Err(Error::StatusNotImplemented));
    assert_eq!(status(full_config()), Err(Error::StatusNotImplemented));
    assert_eq!(
        status(full_config()).unwrap_err().message(),
        "Status mode not yet implemented"
    );
}

#[test]
fn status_fails_alike_whatever_is_configured_or_registered() {
    let expected: Step<Controller> = Step::Done { result: Err(Error::StatusNotImplemented) };
    assert_eq!(start("status", Config::empty(), RegistrationState::new(), UNPRIVILEGED), expected);
    assert_eq!(start("status", full_config(), RegistrationState::new(), UNPRIVILEGED), expected);
    assert_eq!(start("status", Config::empty(), registered(), UNPRIVILEGED), expected);
    assert_eq!(start("status", full_config(), registered(), UNPRIVILEGED), expected);
}

#[test]
fn status_of_a_privileged_process_is_followed_by_hygiene() {
    let (state, action) = proceed(start("status", full_config(), registered(), ROOT));
    assert_eq!(action, Action::ResolveUser { account: s("cmk-agent") });
    let (state, _) = proceed(state.step(Outcome::Id { id: Some(998) }));
    let (state, action) = proceed(state.step(Outcome::Id { id: Some(997) }));
    assert_eq!(action, Action::ProbePath { path: s("/var/lib/cmk-agent") });
    let (state, _) = proceed(state.step(Outcome::Flag { set: false }));
    assert_eq!(
        ended(state.step(Outcome::Flag { set: false })),
        Err(Error::StatusNotImplemented)
    );
}

#[test]
fn dump_mode_starts_a_dump() {
    let (_, action) = proceed(start("dump", full_config(), registered(), UNPRIVILEGED));
    assert_eq!(action, Action::Collect { package_name: Some(s("checkmk")) });
}

#[test]
fn register_mode_starts_a_registration() {
    let (_, action) = proceed(start("register", full_config(), registered(), UNPRIVILEGED));
    assert_eq!(action, Action::FetchRoot { address: s("server:8000") });
}

#[test]
fn register_mode_uses_the_host_id_it_is_given() {
    let mut config = full_config();
    config.root_certificate = Some(s("pinned"));
    let (_, action) = proceed(start("register", config, registered(), UNPRIVILEGED));
    assert_eq!(action, Action::MakeCsr { host_id: s(HOST_ID) });
}

#[test]
fn register_mode_with_empty_configuration_fails() {
    let result = ended(start("register", Config::empty(), RegistrationState::new(), UNPRIVILEGED));
    assert_eq!(result, Err(Error::MissingAddress));
    assert_eq!(result.unwrap_err().message(), "Server addresses not specified.");
}

#[test]
fn push_mode_starts_a_push() {
    let (state, action) = proceed(start("push", full_config(), registered(), UNPRIVILEGED));
    assert_eq!(action, Action::Collect { package_name: Some(s("checkmk")) });
    let (_, action) = proceed(state.step(Outcome::Payload { bytes: b"data".to_vec() }));
    assert_eq!(
        action,
        Action::SendPayload { address: s("a:8000"), host_id: s("id-a"), payload: b"data".to_vec() }
    );
}

#[test]
fn pull_mode_starts_a_pull() {
    let (_, action) = proceed(start("pull", full_config(), registered(), UNPRIVILEGED));
    assert_eq!(action, Action::ProbeMarker);
}

#[test]
fn unprivileged_invocation_ends_with_the_workflow() {
    let (state, _) = proceed(start("dump", full_config(), registered(), UNPRIVILEGED));
    let (state, _) = proceed(state.step(Outcome::Payload { bytes: b"data".to_vec() }));
    assert_eq!(ended(state.step(Outcome::Done)), Ok(()));
}

#[test]
fn privileged_invocation_tidies_up_after_success() {
    let (state, _) = proceed(start("dump", full_config(), registered(), ROOT));
    let (state, _) = proceed(state.step(Outcome::Payload { bytes: b"data".to_vec() }));
    let (state, action) = proceed(state.step(Outcome::Done));
    assert_eq!(action, Action::ResolveUser { account: s("cmk-agent") });
    let (state, action) = proceed(state.step(Outcome::Id { id: Some(998) }));
    assert_eq!(action, Action::ResolveGroup { account: s("cmk-agent") });
    let (state, action) = proceed(state.step(Outcome::Id { id: Some(997) }));
    assert_eq!(action, Action::ProbePath { path: s("/var/lib/cmk-agent") });
    let (state, action) = proceed(state.step(Outcome::Flag { set: true }));
    assert_eq!(
        action,
        Action::ChangeOwner { path: s("/var/lib/cmk-agent"), uid: 998, gid: 997 }
    );
    let (state, _) = proceed(state.step(Outcome::Done));
    assert_eq!(ended(state.step(Outcome::Flag { set: false })), Ok(()));
}

#[test]
fn privileged_invocation_tidies_up_after_failure() {
    let (state, _) = proceed(start("dump", full_config(), registered(), ROOT));
    let (state, action) = proceed(state.step(Outcome::Failed { cause: s("no agent") }));
    assert_eq!(action, Action::ResolveUser { account: s("cmk-agent") });
    let (state, _) = proceed(state.step(Outcome::Id { id: Some(998) }));
    let (state, _) = proceed(state.step(Outcome::Id { id: Some(997) }));
    let (state, _) = proceed(state.step(Outcome::Flag { set: false }));
    assert_eq!(
        ended(state.step(Outcome::Flag { set: false })),
        Err(Error::Collect { cause: s("no agent") })
    );
}

#[test]
fn hygiene_failure_is_logged_and_overrides_nothing() {
    let (state, _) = proceed(start("dump", full_config(), registered(), ROOT));
    let (state, _) = proceed(state.step(Outcome::Payload { bytes: b"data".to_vec() }));
    let (state, _) = proceed(state.step(Outcome::Done));
    let (state, action) = proceed(state.step(Outcome::Id { id: None }));
    assert_eq!(action, Action::Log { error: Error::UserNotFound { account: s("cmk-agent") } });
    assert_eq!(ended(state.step(Outcome::Done)), Ok(()));
}

#[test]
fn hygiene_failure_does_not_hide_the_workflow_failure() {
    let (state, _) = proceed(start("register", Config::empty(), registered(), ROOT));
    let (state, _) = proceed(state.step(Outcome::Id { id: Some(998) }));
    let (state, _) = proceed(state.step(Outcome::Id { id: Some(997) }));
    let (state, _) = proceed(state.step(Outcome::Flag { set: true }));
    let (state, action) = proceed(state.step(Outcome::Failed { cause: s("EPERM") }));
    assert_eq!(
        action,
        Action::Log {
            error: Error::Ownership {
                path: s("/var/lib/cmk-agent"),
                account: s("cmk-agent"),
                cause: s("EPERM"),
            }
        }
    );
    assert_eq!(ended(state.step(Outcome::Failed { cause: s("log is gone") })), Err(Error::MissingAddress));
}

#[test]
fn dispatch_for_the_calling_process_starts_the_workflow() {
    let (state, action) =
        proceed(dispatch("dump", full_config(), registered(), paths(), s("cmk-agent")));
    assert_eq!(action, Action::Collect { package_name: Some(s("checkmk")) });
    assert!(matches!(state, Controller::Primary { workflow: Workflow::Dump { .. }, .. }));
}

#[test]
fn dispatch_draws_a_host_id_for_a_registration() {
    let mut config = full_config();
    config.root_certificate = Some(s("pinned"));
    let (_, action) =
        proceed(dispatch("register", config, registered(), paths(), s("cmk-agent")));
    match action {
        Action::MakeCsr { host_id } => {
            assert_eq!(host_id.len(), 36);
            assert_eq!(uuid::Uuid::parse_str(&host_id).unwrap().get_version_num(), 4);
        }
        other => panic!("expected the signing request, got {:?}", other),
    }
}

#[test]
fn workflow_start_selects_by_mode() {
    let step = Workflow::start(Mode::Status, full_config(), registered(), s(HOST_ID));
    assert_eq!(step, Step::Done { result: Err(Error::StatusNotImplemented) });
    let step = Workflow::start(Mode::Pull, full_config(), registered(), s(HOST_ID));
    assert!(matches!(step, Step::Continue { action: Action::ProbeMarker, .. }));
}
