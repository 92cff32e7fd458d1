use cmk_agent_ctl::action::{Action, Outcome};
use cmk_agent_ctl::config::Config;
use cmk_agent_ctl::dump::{dump, Dump};
use cmk_agent_ctl::error::Error;
use cmk_agent_ctl::machine::Step;

fn config_with_package(package: Option<&str>) -> Config {
    let mut config = Config::empty();
    config.package_name = package.map(|p| p.to_string());
    config
}

#[test]
fn dump_collects_then_writes() {
    let step = dump(config_with_package(Some("checkmk")));
    assert_eq!(
        step,
        Step::Continue {
            state: Dump::AwaitPayload,
            action: Action::Collect { package_name: Some("checkmk".to_string()) },
        }
    );
    let step = Dump::AwaitPayload.step(Outcome::Payload { bytes: b"<<<check_mk>>>".to_vec() });
    assert_eq!(
        step,
        Step::Continue {
            state: Dump::AwaitWrite,
            action: Action::WriteStdout { payload: b"<<<check_mk>>>".to_vec() },
        }
    );
    assert_eq!(Dump::AwaitWrite.step(Outcome::Done), Step::Done { result: Ok(()) });
}

#[test]
fn dump_without_package_collects_from_the_default_source() {
    assert_eq!(
        dump(Config::empty()),
        Step::Continue { state: Dump::AwaitPayload, action: Action::Collect { package_name: None } }
    );
}

#[test]
fn dump_writes_an_empty_payload_too() {
    assert_eq!(
        Dump::AwaitPayload.step(Outcome::Payload { bytes: Vec::new() }),
        Step::Continue { state: Dump::AwaitWrite, action: Action::WriteStdout { payload: Vec::new() } }
    );
}

#[test]
fn dump_fails_when_collecting_fails() {
    assert_eq!(
        Dump::AwaitPayload.step(Outcome::Failed { cause: "no socket".to_string() }),
        Step::Done { result: Err(Error::Collect { cause: "no socket".to_string() }) }
    );
}

#[test]
fn dump_fails_when_writing_fails() {
    assert_eq!(
        Dump::AwaitWrite.step(Outcome::Failed { cause: "broken pipe".to_string() }),
        Step::Done { result: Err(Error::WriteStdout { cause: "broken pipe".to_string() }) }
    );
}

#[test]
fn dump_rejects_outcomes_of_other_actions() {
    assert_eq!(
        Dump::AwaitPayload.step(Outcome::Done),
        Step::Done { result: Err(Error::UnexpectedOutcome) }
    );
    assert_eq!(
        Dump::AwaitWrite.step(Outcome::Text { text: "ok".to_string() }),
        Step::Done { result: Err(Error::UnexpectedOutcome) }
    );
}
