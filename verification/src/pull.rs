//! The `pull` workflow: answer a request for monitoring data. While the
//! legacy marker is present and this host is registered nowhere, the data
//! goes out as a dump does. Otherwise the preamble is written, the
//! handshake is made with the most recent registration, the data goes out
//! encrypted, and the legacy marker is removed for good.

use crate::action::{Action, ActionView, Outcome, OutcomeView};
use crate::config::{text_view, Config, ConfigView};
use crate::dump::{dump, Dump, DumpView};
use crate::error::{Error, ErrorView};
use crate::legacy::{disallow_legacy_pull, is_legacy_pull, legacy_eligible};
use crate::machine::{lifted, Machine, Step, StepView};
use crate::trust_store::{RegistrationState, ServerSpec, ServerSpecView, StoreEntryView};
use vstd::prelude::*;
use vstd::string::StringExecFns;

verus! {

/// The bytes that announce an encrypted session to the peer: the characters
/// `1` and `6`.
pub open spec fn preamble_bytes() -> Seq<u8> {
    seq![0x31u8, 0x36u8]
}

/// The bytes that announce an encrypted session to the peer.
pub fn preamble() -> (r: Vec<u8>)
    ensures
        r@ == preamble_bytes(),
{
    let mut bytes: Vec<u8> = Vec::new();
    bytes.push(0x31u8);
    bytes.push(0x36u8);
    assert(bytes@ =~= preamble_bytes());
    bytes
}

/// The cause that is reported where a handshake is due and this host is
/// registered nowhere.
pub open spec fn no_registration() -> Seq<char> {
    "No registration found."@
}

/// Where a pull stands.
#[derive(Debug, PartialEq, Eq)]
pub enum Pull {
    /// The legacy marker is being looked for.
    AwaitMarker { reg_state: RegistrationState, package_name: Option<String> },
    /// The data goes out over the legacy channel.
    Legacy { dump: Dump },
    /// The preamble is being written.
    AwaitPreamble { identity: Option<ServerSpec>, package_name: Option<String> },
    /// The handshake is being made.
    AwaitHandshake { package_name: Option<String> },
    /// The monitoring data is being collected.
    AwaitPayload,
    /// The monitoring data is being written to the encrypted stream.
    AwaitWrite,
    /// The legacy marker is being looked for, to remove it.
    AwaitMarkerProbe,
    /// The legacy marker is being removed.
    AwaitMarkerRemoval,
}

/// Mathematical model of a [`Pull`].
pub enum PullView {
    AwaitMarker { store: Seq<StoreEntryView>, package_name: Option<Seq<char>> },
    Legacy { dump: DumpView },
    AwaitPreamble { identity: Option<ServerSpecView>, package_name: Option<Seq<char>> },
    AwaitHandshake { package_name: Option<Seq<char>> },
    AwaitPayload,
    AwaitWrite,
    AwaitMarkerProbe,
    AwaitMarkerRemoval,
}

/// The model of an optional identity.
pub open spec fn identity_view(identity: Option<ServerSpec>) -> Option<ServerSpecView> {
    match identity {
        Some(record) => Some(record@),
        None => None,
    }
}

impl View for Pull {
    type V = PullView;

    open spec fn view(&self) -> PullView {
        match self {
            Pull::AwaitMarker { reg_state, package_name } => PullView::AwaitMarker {
                store: reg_state@,
                package_name: text_view(*package_name),
            },
            Pull::Legacy { dump } => PullView::Legacy { dump: dump@ },
            Pull::AwaitPreamble { identity, package_name } => PullView::AwaitPreamble {
                identity: identity_view(*identity),
                package_name: text_view(*package_name),
            },
            Pull::AwaitHandshake { package_name } => PullView::AwaitHandshake {
                package_name: text_view(*package_name),
            },
            Pull::AwaitPayload => PullView::AwaitPayload,
            Pull::AwaitWrite => PullView::AwaitWrite,
            Pull::AwaitMarkerProbe => PullView::AwaitMarkerProbe,
            Pull::AwaitMarkerRemoval => PullView::AwaitMarkerRemoval,
        }
    }
}

/// The credentials of the most recent registration, if there is one.
pub open spec fn latest_identity(store: Seq<StoreEntryView>) -> Option<ServerSpecView> {
    if store.len() > 0 {
        Some(store.last().record)
    } else {
        None
    }
}

impl PullView {
    /// The first step of a pull: to look for the legacy marker.
    pub open spec fn start(config: ConfigView, store: Seq<StoreEntryView>) -> StepView<PullView> {
        StepView::Continue {
            state: PullView::AwaitMarker { store, package_name: config.package_name },
            action: ActionView::ProbeMarker,
        }
    }

    /// A dump's state, as the state of a pull over the legacy channel.
    pub open spec fn legacy() -> spec_fn(DumpView) -> PullView {
        |dump: DumpView| PullView::Legacy { dump }
    }

    /// The step after the marker was looked for and `marker_present` came
    /// back: over the legacy channel where that is still permitted, else
    /// the preamble of an encrypted session.
    pub open spec fn path(
        marker_present: bool,
        store: Seq<StoreEntryView>,
        package_name: Option<Seq<char>>,
    ) -> StepView<PullView> {
        if legacy_eligible(marker_present, store) {
            StepView::Continue {
                state: PullView::Legacy { dump: DumpView::AwaitPayload },
                action: ActionView::Collect { package_name },
            }
        } else {
            StepView::Continue {
                state: PullView::AwaitPreamble { identity: latest_identity(store), package_name },
                action: ActionView::WritePreamble { bytes: preamble_bytes() },
            }
        }
    }
}

impl Machine for PullView {
    open spec fn next(self, outcome: OutcomeView) -> StepView<PullView> {
        match self {
            PullView::AwaitMarker { store, package_name } => match outcome {
                OutcomeView::Flag { set } => Self::path(set, store, package_name),
                _ => StepView::Done { result: Err(ErrorView::UnexpectedOutcome) },
            },
            PullView::Legacy { dump } => lifted(dump.next(outcome), Self::legacy()),
            PullView::AwaitPreamble { identity, package_name } => match outcome {
                OutcomeView::Done => match identity {
                    Some(identity) => StepView::Continue {
                        state: PullView::AwaitHandshake { package_name },
                        action: ActionView::Handshake { identity },
                    },
                    None => StepView::Done {
                        result: Err(ErrorView::InitTls { cause: no_registration() }),
                    },
                },
                OutcomeView::Failed { cause } => StepView::Done {
                    result: Err(ErrorView::Transport { cause }),
                },
                _ => StepView::Done { result: Err(ErrorView::UnexpectedOutcome) },
            },
            PullView::AwaitHandshake { package_name } => match outcome {
                OutcomeView::Done => StepView::Continue {
                    state: PullView::AwaitPayload,
                    action: ActionView::Collect { package_name },
                },
                OutcomeView::Failed { cause } => StepView::Done {
                    result: Err(ErrorView::InitTls { cause }),
                },
                _ => StepView::Done { result: Err(ErrorView::UnexpectedOutcome) },
            },
            PullView::AwaitPayload => match outcome {
                OutcomeView::Payload { bytes } => StepView::Continue {
                    state: PullView::AwaitWrite,
                    action: ActionView::WriteSecure { payload: bytes },
                },
                OutcomeView::Failed { cause } => StepView::Done {
                    result: Err(ErrorView::Collect { cause }),
                },
                _ => StepView::Done { result: Err(ErrorView::UnexpectedOutcome) },
            },
            PullView::AwaitWrite => match outcome {
                OutcomeView::Done => StepView::Continue {
                    state: PullView::AwaitMarkerProbe,
                    action: ActionView::ProbeMarker,
                },
                OutcomeView::Failed { cause } => StepView::Done {
                    result: Err(ErrorView::Transport { cause }),
                },
                _ => StepView::Done { result: Err(ErrorView::UnexpectedOutcome) },
            },
            PullView::AwaitMarkerProbe => match outcome {
                OutcomeView::Flag { set } => if set {
                    StepView::Continue {
                        state: PullView::AwaitMarkerRemoval,
                        action: ActionView::RemoveMarker,
                    }
                } else {
                    StepView::Done { result: Ok(()) }
                },
                OutcomeView::Failed { cause } => StepView::Done {
                    result: Err(ErrorView::MarkerAfterPull { cause }),
                },
                _ => StepView::Done { result: Err(ErrorView::UnexpectedOutcome) },
            },
            PullView::AwaitMarkerRemoval => match outcome {
                OutcomeView::Done => StepView::Done { result: Ok(()) },
                OutcomeView::Failed { cause } => StepView::Done {
                    result: Err(ErrorView::MarkerAfterPull { cause }),
                },
                _ => StepView::Done { result: Err(ErrorView::UnexpectedOutcome) },
            },
        }
    }
}

/// A step of a dump, as the step of a pull over the legacy channel.
fn over_legacy(step: Step<Dump>) -> (r: Step<Pull>)
    ensures
        r@ == lifted(step@, PullView::legacy()),
{
    match step {
        Step::Continue { state, action } => Step::Continue {
            state: Pull::Legacy { dump: state },
            action,
        },
        Step::Done { result } => Step::Done { result },
    }
}

/// Starts a pull.
pub fn pull(config: Config, reg_state: RegistrationState) -> (r: Step<Pull>)
    ensures
        r@ == PullView::start(config@, reg_state@),
{
    Step::Continue {
        state: Pull::AwaitMarker { reg_state, package_name: config.package_name },
        action: Action::ProbeMarker,
    }
}

impl Pull {
    /// Takes the outcome of the pending action and says what follows.
    pub fn step(self, outcome: Outcome) -> (r: Step<Pull>)
        ensures
            r@ == self@.next(outcome@),
    {
        match self {
            Pull::AwaitMarker { reg_state, package_name } => match outcome {
                Outcome::Flag { set } => {
                    if is_legacy_pull(set, &reg_state) {
                        let config = Config {
                            agent_receiver_address: None,
                            package_name,
                            credentials: None,
                            root_certificate: None,
                            host_name: None,
                        };
                        over_legacy(dump(config))
                    } else {
                        let identity = match reg_state.latest() {
                            Some(entry) => Some(entry.record.clone()),
                            None => None,
                        };
                        Step::Continue {
                            state: Pull::AwaitPreamble { identity, package_name },
                            action: Action::WritePreamble { bytes: preamble() },
                        }
                    }
                },
                _ => Step::Done { result: Err(Error::UnexpectedOutcome) },
            },
            Pull::Legacy { dump } => over_legacy(dump.step(outcome)),
            Pull::AwaitPreamble { identity, package_name } => match outcome {
                Outcome::Done => match identity {
                    Some(identity) => Step::Continue {
                        state: Pull::AwaitHandshake { package_name },
                        action: Action::Handshake { identity },
                    },
                    None => Step::Done {
                        result: Err(
                            Error::InitTls { cause: String::from_str("No registration found.") },
                        ),
                    },
                },
                Outcome::Failed { cause } => Step::Done {
                    result: Err(Error::Transport { cause }),
                },
                _ => Step::Done { result: Err(Error::UnexpectedOutcome) },
            },
            Pull::AwaitHandshake { package_name } => match outcome {
                Outcome::Done => Step::Continue {
                    state: Pull::AwaitPayload,
                    action: Action::Collect { package_name },
                },
                Outcome::Failed { cause } => Step::Done { result: Err(Error::InitTls { cause }) },
                _ => Step::Done { result: Err(Error::UnexpectedOutcome) },
            },
            Pull::AwaitPayload => match outcome {
                Outcome::Payload { bytes } => Step::Continue {
                    state: Pull::AwaitWrite,
                    action: Action::WriteSecure { payload: bytes },
                },
                Outcome::Failed { cause } => Step::Done { result: Err(Error::Collect { cause }) },
                _ => Step::Done { result: Err(Error::UnexpectedOutcome) },
            },
            Pull::AwaitWrite => match outcome {
                Outcome::Done => Step::Continue {
                    state: Pull::AwaitMarkerProbe,
                    action: Action::ProbeMarker,
                },
                Outcome::Failed { cause } => Step::Done {
                    result: Err(Error::Transport { cause }),
                },
                _ => Step::Done { result: Err(Error::UnexpectedOutcome) },
            },
            Pull::AwaitMarkerProbe => match outcome {
                Outcome::Flag { set } => match disallow_legacy_pull(set) {
                    Some(action) => Step::Continue { state: Pull::AwaitMarkerRemoval, action },
                    None => Step::Done { result: Ok(()) },
                },
                Outcome::Failed { cause } => Step::Done {
                    result: Err(Error::MarkerAfterPull { cause }),
                },
                _ => Step::Done { result: Err(Error::UnexpectedOutcome) },
            },
            Pull::AwaitMarkerRemoval => match outcome {
                Outcome::Done => Step::Done { result: Ok(()) },
                Outcome::Failed { cause } => Step::Done {
                    result: Err(Error::MarkerAfterPull { cause }),
                },
                _ => Step::Done { result: Err(Error::UnexpectedOutcome) },
            },
        }
    }
}

} // verus!
