use cmk_agent_ctl::action::Action;
use cmk_agent_ctl::legacy::{disallow_legacy_pull, is_legacy_pull};
use cmk_agent_ctl::trust_store::{RegistrationState, ServerSpec};

fn record(id: &str) -> ServerSpec {
    ServerSpec {
        uuid: id.to_string(),
        private_key: "key".to_string(),
        certificate: "cert".to_string(),
        root_cert: "root".to_string(),
    }
}

#[test]
fn legacy_pull_needs_marker_and_empty_store() {
    let empty = RegistrationState::new();
    let mut registered = RegistrationState::new();
    registered.insert("server:8000".to_string(), record("a"));
    assert!(is_legacy_pull(true, &empty));
    assert!(!is_legacy_pull(false, &empty));
    assert!(!is_legacy_pull(true, &registered));
    assert!(!is_legacy_pull(false, &registered));
}

#[test]
fn clearing_an_absent_marker_asks_for_nothing() {
    assert_eq!(disallow_legacy_pull(false), None);
}

#[test]
fn clearing_a_present_marker_asks_for_its_removal() {
    assert_eq!(disallow_legacy_pull(true), Some(Action::RemoveMarker));
}
