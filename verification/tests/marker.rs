use cmk_agent_ctl::action::{Action, Outcome};
use cmk_agent_ctl::config::Config;
use cmk_agent_ctl::dispatch::{dispatch_as, Controller};
use cmk_agent_ctl::error::Error;
use cmk_agent_ctl::machine::Step;
use cmk_agent_ctl::trust_store::{get_reg_state, RegistrationState, StoreEntry};

const HOST_ID: &str = "67e55044-10b1-426f-9247-bb680e5fe0c8";

/// What a host keeps between invocations, and what was done to it.
struct Host {
    store: Vec<StoreEntry>,
    marker: bool,
    performed: Vec<String>,
}

impl Host {
    fn fresh() -> Host {
        Host { store: Vec::new(), marker: true, performed: Vec::new() }
    }

    fn store(&self) -> RegistrationState {
        get_reg_state(self.store.clone())
    }

    /// Performs `action` as a well-behaved program and receiver would.
    fn perform(&mut self, action: Action) -> Outcome {
        let (name, outcome) = match action {
            Action::FetchRoot { .. } => ("fetch root", Outcome::Text { text: "root".to_string() }),
            Action::MakeCsr { .. } => (
                "make csr",
                Outcome::Csr { csr: "csr".to_string(), private_key: "key".to_string() },
            ),
            Action::Pair { .. } => ("pair", Outcome::Text { text: "certificate".to_string() }),
            Action::RegisterHost { .. } => ("register host", Outcome::Done),
            Action::Persist { state } => {
                self.store = state.into_entries();
                ("persist", Outcome::Done)
            }
            Action::ProbeMarker => ("probe marker", Outcome::Flag { set: self.marker }),
            Action::RemoveMarker => {
                self.marker = false;
                ("remove marker", Outcome::Done)
            }
            Action::Collect { .. } => ("collect", Outcome::Payload { bytes: b"data".to_vec() }),
            Action::SendPayload { .. } => ("send", Outcome::Text { text: "thanks".to_string() }),
            Action::Emit { .. } => ("emit", Outcome::Done),
            Action::WriteStdout { .. } => ("write raw", Outcome::Done),
            Action::WritePreamble { .. } => ("write preamble", Outcome::Done),
            Action::Handshake { .. } => ("handshake", Outcome::Done),
            Action::WriteSecure { .. } => ("write encrypted", Outcome::Done),
            other => panic!("unprivileged invocation asked for {:?}", other),
        };
        self.performed.push(name.to_string());
        outcome
    }

    fn invoke(&mut self, mode: &str, config: Config) -> Result<(), Error> {
        self.performed.clear();
        let mut step: Step<Controller> = dispatch_as(
            mode,
            config,
            self.store(),
            vec!["/var/lib/cmk-agent".to_string()],
            "cmk-agent".to_string(),
            HOST_ID.to_string(),
            1000,
        );
        loop {
            match step {
                Step::Done { result } => return result,
                Step::Continue { state, action } => {
                    let outcome = self.perform(action);
                    step = state.step(outcome);
                }
            }
        }
    }
}

fn registration_config() -> Config {
    Config {
        agent_receiver_address: Some("server:8000".to_string()),
        package_name: None,
        credentials: Some("user:password".to_string()),
        root_certificate: None,
        host_name: Some("myhost".to_string()),
    }
}

#[test]
fn fresh_host_pulls_over_the_legacy_channel() {
    let mut host = Host::fresh();
    assert_eq!(host.invoke("pull", Config::empty()), Ok(()));
    assert_eq!(host.performed, vec!["probe marker", "collect", "write raw"]);
    assert!(host.marker);
    assert!(host.store.is_empty());
}

#[test]
fn registration_persists_and_clears_the_marker() {
    let mut host = Host::fresh();
    assert_eq!(host.invoke("register", registration_config()), Ok(()));
    assert_eq!(
        host.performed,
        vec![
            "fetch root",
            "make csr",
            "pair",
            "register host",
            "persist",
            "probe marker",
            "remove marker"
        ]
    );
    assert!(!host.marker);
    assert_eq!(host.store.len(), 1);
    assert_eq!(host.store[0].address, "server:8000");
    assert_eq!(host.store[0].record.uuid, HOST_ID);
    assert_eq!(host.store[0].record.root_cert, "root");
    assert_eq!(host.store[0].record.private_key, "key");
    assert_eq!(host.store[0].record.certificate, "certificate");
}

#[test]
fn registered_host_pulls_encrypted() {
    let mut host = Host::fresh();
    assert_eq!(host.invoke("register", registration_config()), Ok(()));
    assert_eq!(host.invoke("pull", Config::empty()), Ok(()));
    assert_eq!(
        host.performed,
        vec![
            "probe marker",
            "write preamble",
            "handshake",
            "collect",
            "write encrypted",
            "probe marker"
        ]
    );
    assert!(!host.marker);
}

#[test]
fn encrypted_pull_clears_a_marker_left_behind() {
    let mut host = Host::fresh();
    assert_eq!(host.invoke("register", registration_config()), Ok(()));
    host.marker = true;
    assert_eq!(host.invoke("pull", Config::empty()), Ok(()));
    assert_eq!(
        host.performed,
        vec![
            "probe marker",
            "write preamble",
            "handshake",
            "collect",
            "write encrypted",
            "probe marker",
            "remove marker"
        ]
    );
    assert!(!host.marker);
}

#[test]
fn cleared_marker_stays_cleared_through_later_invocations() {
    let mut host = Host::fresh();
    assert_eq!(host.invoke("register", registration_config()), Ok(()));
    assert!(!host.marker);
    for mode in ["pull", "register", "push", "dump", "pull", "status", "register", "pull"] {
        let _ = host.invoke(mode, registration_config());
        assert!(!host.marker, "the marker came back in mode {}", mode);
    }
}

#[test]
fn host_without_marker_and_registration_never_pulls_raw() {
    let mut host = Host::fresh();
    host.marker = false;
    let result = host.invoke("pull", Config::empty());
    assert_eq!(result, Err(Error::InitTls { cause: "No registration found.".to_string() }));
    assert_eq!(host.performed, vec!["probe marker", "write preamble"]);
}

#[test]
fn push_and_dump_leave_store_and_marker_alone() {
    let mut host = Host::fresh();
    assert_eq!(host.invoke("register", registration_config()), Ok(()));
    host.marker = true;
    let before = host.store.clone();
    assert_eq!(host.invoke("push", Config::empty()), Ok(()));
    assert_eq!(host.performed, vec!["collect", "send", "emit"]);
    assert_eq!(host.invoke("dump", Config::empty()), Ok(()));
    assert_eq!(host.performed, vec!["collect", "write raw"]);
    assert_eq!(host.store, before);
    assert!(host.marker);
}

#[test]
fn invalid_mode_performs_nothing() {
    let mut host = Host::fresh();
    let result = host.invoke("foo", registration_config());
    assert_eq!(result, Err(Error::InvalidMode { mode: "foo".to_string() }));
    assert!(host.performed.is_empty());
    assert!(host.marker);
    assert!(host.store.is_empty());
}

#[test]
fn second_registration_with_the_same_receiver_keeps_one_entry() {
    let mut host = Host::fresh();
    assert_eq!(host.invoke("register", registration_config()), Ok(()));
    assert_eq!(host.invoke("register", registration_config()), Ok(()));
    assert_eq!(host.store.len(), 1);
    let mut other = registration_config();
    other.agent_receiver_address = Some("other:8000".to_string());
    assert_eq!(host.invoke("register", other), Ok(()));
    assert_eq!(host.store.len(), 2);
    assert_eq!(host.store[0].address, "server:8000");
    assert_eq!(host.store[1].address, "other:8000");
}
