//! The `register` workflow: trust bootstrap against one receiver. The trust
//! store is written once, as a whole, and only after the receiver has both
//! issued a certificate and bound it to the host name.

use crate::action::{Action, ActionView, Outcome, OutcomeView};
use crate::config::{Config, ConfigView};
use crate::error::{Error, ErrorView};
use crate::legacy::disallow_legacy_pull;
use crate::machine::{Machine, Step, StepView};
use crate::outside::{fresh_host_id, is_host_id};
use crate::trust_store::{
    with_record, RegistrationState, ServerSpec, ServerSpecView, StoreEntryView,
};
use vstd::prelude::*;

verus! {

/// What a registration is made with.
#[derive(Debug, PartialEq, Eq)]
pub struct Enrollment {
    /// Network address of the receiver.
    pub address: String,
    /// One-time credentials for pairing.
    pub credentials: String,
    /// Name under which the receiver is to know this host.
    pub host_name: String,
    /// Identifier of this host, fresh for this registration.
    pub host_id: String,
}

/// Mathematical model of an [`Enrollment`].
pub struct EnrollmentView {
    pub address: Seq<char>,
    pub credentials: Seq<char>,
    pub host_name: Seq<char>,
    pub host_id: Seq<char>,
}

impl View for Enrollment {
    type V = EnrollmentView;

    open spec fn view(&self) -> EnrollmentView {
        EnrollmentView {
            address: self.address@,
            credentials: self.credentials@,
            host_name: self.host_name@,
            host_id: self.host_id@,
        }
    }
}

/// Where a registration stands.
#[derive(Debug, PartialEq, Eq)]
pub enum Registration {
    /// The root of trust is being fetched.
    AwaitRoot { enrollment: Enrollment, reg_state: RegistrationState },
    /// The key and the signing request are being generated.
    AwaitCsr { enrollment: Enrollment, reg_state: RegistrationState, root_cert: String },
    /// The receiver is asked for a certificate.
    AwaitCertificate {
        enrollment: Enrollment,
        reg_state: RegistrationState,
        root_cert: String,
        private_key: String,
    },
    /// The receiver is asked to bind the certificate to the host name.
    AwaitBinding {
        enrollment: Enrollment,
        reg_state: RegistrationState,
        root_cert: String,
        private_key: String,
        certificate: String,
    },
    /// The trust store is being written.
    AwaitPersist,
    /// The legacy marker is being looked for.
    AwaitMarkerProbe,
    /// The legacy marker is being removed.
    AwaitMarkerRemoval,
}

/// Mathematical model of a [`Registration`].
pub enum RegistrationView {
    AwaitRoot { enrollment: EnrollmentView, store: Seq<StoreEntryView> },
    AwaitCsr { enrollment: EnrollmentView, store: Seq<StoreEntryView>, root_cert: Seq<char> },
    AwaitCertificate {
        enrollment: EnrollmentView,
        store: Seq<StoreEntryView>,
        root_cert: Seq<char>,
        private_key: Seq<char>,
    },
    AwaitBinding {
        enrollment: EnrollmentView,
        store: Seq<StoreEntryView>,
        root_cert: Seq<char>,
        private_key: Seq<char>,
        certificate: Seq<char>,
    },
    AwaitPersist,
    AwaitMarkerProbe,
    AwaitMarkerRemoval,
}

impl View for Registration {
    type V = RegistrationView;

    open spec fn view(&self) -> RegistrationView {
        match self {
            Registration::AwaitRoot { enrollment, reg_state } => RegistrationView::AwaitRoot {
                enrollment: enrollment@,
                store: reg_state@,
            },
            Registration::AwaitCsr {
                enrollment,
                reg_state,
                root_cert,
            } => RegistrationView::AwaitCsr {
                enrollment: enrollment@,
                store: reg_state@,
                root_cert: root_cert@,
            },
            Registration::AwaitCertificate {
                enrollment,
                reg_state,
                root_cert,
                private_key,
            } => RegistrationView::AwaitCertificate {
                enrollment: enrollment@,
                store: reg_state@,
                root_cert: root_cert@,
                private_key: private_key@,
            },
            Registration::AwaitBinding {
                enrollment,
                reg_state,
                root_cert,
                private_key,
                certificate,
            } => RegistrationView::AwaitBinding {
                enrollment: enrollment@,
                store: reg_state@,
                root_cert: root_cert@,
                private_key: private_key@,
                certificate: certificate@,
            },
            Registration::AwaitPersist => RegistrationView::AwaitPersist,
            Registration::AwaitMarkerProbe => RegistrationView::AwaitMarkerProbe,
            Registration::AwaitMarkerRemoval => RegistrationView::AwaitMarkerRemoval,
        }
    }
}

/// The step that ends a workflow with `error`.
pub open spec fn failed<V>(error: ErrorView) -> StepView<V> {
    StepView::Done { result: Err(error) }
}

impl RegistrationView {
    /// The first step of a registration that is made with `host_id`. A
    /// missing setting ends it at once: the address is looked for first,
    /// then the credentials, then the host name. With a pinned root the
    /// registration goes on to the signing request; without one it fetches
    /// the root from the receiver.
    pub open spec fn start(
        config: ConfigView,
        store: Seq<StoreEntryView>,
        host_id: Seq<char>,
    ) -> StepView<RegistrationView> {
        if config.agent_receiver_address is None {
            failed(ErrorView::MissingAddress)
        } else if config.credentials is None {
            failed(ErrorView::MissingCredentials)
        } else if config.host_name is None {
            failed(ErrorView::MissingHostName)
        } else {
            let enrollment = EnrollmentView {
                address: config.agent_receiver_address->0,
                credentials: config.credentials->0,
                host_name: config.host_name->0,
                host_id,
            };
            match config.root_certificate {
                Some(root_cert) => StepView::Continue {
                    state: RegistrationView::AwaitCsr { enrollment, store, root_cert },
                    action: ActionView::MakeCsr { host_id },
                },
                None => StepView::Continue {
                    state: RegistrationView::AwaitRoot { enrollment, store },
                    action: ActionView::FetchRoot { address: enrollment.address },
                },
            }
        }
    }

    /// Whether `config` holds what a registration needs.
    pub open spec fn complete(config: ConfigView) -> bool {
        config.agent_receiver_address is Some && config.credentials is Some
            && config.host_name is Some
    }
}

impl Machine for RegistrationView {
    open spec fn next(self, outcome: OutcomeView) -> StepView<RegistrationView> {
        match self {
            RegistrationView::AwaitRoot { enrollment, store } => match outcome {
                OutcomeView::Text { text } => StepView::Continue {
                    state: RegistrationView::AwaitCsr { enrollment, store, root_cert: text },
                    action: ActionView::MakeCsr { host_id: enrollment.host_id },
                },
                OutcomeView::Failed { cause } => failed(ErrorView::EstablishTrust { cause }),
                _ => failed(ErrorView::UnexpectedOutcome),
            },
            RegistrationView::AwaitCsr { enrollment, store, root_cert } => match outcome {
                OutcomeView::Csr { csr, private_key } => StepView::Continue {
                    state: RegistrationView::AwaitCertificate {
                        enrollment,
                        store,
                        root_cert,
                        private_key,
                    },
                    action: ActionView::Pair {
                        address: enrollment.address,
                        root_cert,
                        csr,
                        credentials: enrollment.credentials,
                    },
                },
                OutcomeView::Failed { cause } => failed(ErrorView::CreateCsr { cause }),
                _ => failed(ErrorView::UnexpectedOutcome),
            },
            RegistrationView::AwaitCertificate {
                enrollment,
                store,
                root_cert,
                private_key,
            } => match outcome {
                OutcomeView::Text { text } => StepView::Continue {
                    state: RegistrationView::AwaitBinding {
                        enrollment,
                        store,
                        root_cert,
                        private_key,
                        certificate: text,
                    },
                    action: ActionView::RegisterHost {
                        address: enrollment.address,
                        root_cert,
                        credentials: enrollment.credentials,
                        host_id: enrollment.host_id,
                        host_name: enrollment.host_name,
                    },
                },
                OutcomeView::Failed { cause } => failed(
                    ErrorView::Pairing { address: enrollment.address, cause },
                ),
                _ => failed(ErrorView::UnexpectedOutcome),
            },
            RegistrationView::AwaitBinding {
                enrollment,
                store,
                root_cert,
                private_key,
                certificate,
            } => match outcome {
                OutcomeView::Done => StepView::Continue {
                    state: RegistrationView::AwaitPersist,
                    action: ActionView::Persist {
                        state: with_record(
                            store,
                            enrollment.address,
                            ServerSpecView {
                                uuid: enrollment.host_id,
                                private_key,
                                certificate,
                                root_cert,
                            },
                        ),
                    },
                },
                OutcomeView::Failed { cause } => failed(
                    ErrorView::Registering { address: enrollment.address, cause },
                ),
                _ => failed(ErrorView::UnexpectedOutcome),
            },
            RegistrationView::AwaitPersist => match outcome {
                OutcomeView::Done => StepView::Continue {
                    state: RegistrationView::AwaitMarkerProbe,
                    action: ActionView::ProbeMarker,
                },
                OutcomeView::Failed { cause } => failed(ErrorView::Persist { cause }),
                _ => failed(ErrorView::UnexpectedOutcome),
            },
            RegistrationView::AwaitMarkerProbe => match outcome {
                OutcomeView::Flag { set } => if set {
                    StepView::Continue {
                        state: RegistrationView::AwaitMarkerRemoval,
                        action: ActionView::RemoveMarker,
                    }
                } else {
                    StepView::Done { result: Ok(()) }
                },
                OutcomeView::Failed { cause } => failed(
                    ErrorView::MarkerAfterRegistration { cause },
                ),
                _ => failed(ErrorView::UnexpectedOutcome),
            },
            RegistrationView::AwaitMarkerRemoval => match outcome {
                OutcomeView::Done => StepView::Done { result: Ok(()) },
                OutcomeView::Failed { cause } => failed(
                    ErrorView::MarkerAfterRegistration { cause },
                ),
                _ => failed(ErrorView::UnexpectedOutcome),
            },
        }
    }
}

/// Whether `config` holds what a registration needs.
pub fn is_complete(config: &Config) -> (r: bool)
    ensures
        r == RegistrationView::complete(config@),
{
    config.agent_receiver_address.is_some() && config.credentials.is_some()
        && config.host_name.is_some()
}

/// Starts a registration. Where the configuration holds what a
/// registration needs, a fresh host identifier is drawn, and which one is
/// not determined; where it does not, none is drawn.
pub fn register(config: Config, reg_state: RegistrationState) -> (r: Step<Registration>)
    ensures
        !RegistrationView::complete(config@) ==> r@ == RegistrationView::start(
            config@,
            reg_state@,
            Seq::empty(),
        ),
        RegistrationView::complete(config@) ==> exists|host_id: Seq<char>|
            is_host_id(host_id) && r@ == #[trigger] RegistrationView::start(
                config@,
                reg_state@,
                host_id,
            ),
{
    if !is_complete(&config) {
        return register_as(config, reg_state, String::new());
    }
    let host_id = fresh_host_id();
    register_as(config, reg_state, host_id)
}

/// Starts a registration that is made with `host_id`.
pub fn register_as(config: Config, reg_state: RegistrationState, host_id: String) -> (r: Step<
    Registration,
>)
    ensures
        r@ == RegistrationView::start(config@, reg_state@, host_id@),
{
    let address = match config.agent_receiver_address {
        Some(address) => address,
        None => {
            return Step::Done { result: Err(Error::MissingAddress) };
        },
    };
    let credentials = match config.credentials {
        Some(credentials) => credentials,
        None => {
            return Step::Done { result: Err(Error::MissingCredentials) };
        },
    };
    let host_name = match config.host_name {
        Some(host_name) => host_name,
        None => {
            return Step::Done { result: Err(Error::MissingHostName) };
        },
    };
    match config.root_certificate {
        Some(root_cert) => {
            let action = Action::MakeCsr { host_id: host_id.clone() };
            let enrollment = Enrollment { address, credentials, host_name, host_id };
            Step::Continue {
                state: Registration::AwaitCsr { enrollment, reg_state, root_cert },
                action,
            }
        },
        None => {
            let action = Action::FetchRoot { address: address.clone() };
            let enrollment = Enrollment { address, credentials, host_name, host_id };
            Step::Continue { state: Registration::AwaitRoot { enrollment, reg_state }, action }
        },
    }
}

impl Registration {
    /// Takes the outcome of the pending action and says what follows.
    pub fn step(self, outcome: Outcome) -> (r: Step<Registration>)
        ensures
            r@ == self@.next(outcome@),
    {
        match self {
            Registration::AwaitRoot { enrollment, reg_state } => match outcome {
                Outcome::Text { text } => {
                    let action = Action::MakeCsr { host_id: enrollment.host_id.clone() };
                    Step::Continue {
                        state: Registration::AwaitCsr { enrollment, reg_state, root_cert: text },
                        action,
                    }
                },
                Outcome::Failed { cause } => Step::Done {
                    result: Err(Error::EstablishTrust { cause }),
                },
                _ => Step::Done { result: Err(Error::UnexpectedOutcome) },
            },
            Registration::AwaitCsr { enrollment, reg_state, root_cert } => match outcome {
                Outcome::Csr { csr, private_key } => {
                    let action = Action::Pair {
                        address: enrollment.address.clone(),
                        root_cert: root_cert.clone(),
                        csr,
                        credentials: enrollment.credentials.clone(),
                    };
                    Step::Continue {
                        state: Registration::AwaitCertificate {
                            enrollment,
                            reg_state,
                            root_cert,
                            private_key,
                        },
                        action,
                    }
                },
                Outcome::Failed { cause } => Step::Done { result: Err(Error::CreateCsr { cause }) },
                _ => Step::Done { result: Err(Error::UnexpectedOutcome) },
            },
            Registration::AwaitCertificate {
                enrollment,
                reg_state,
                root_cert,
                private_key,
            } => match outcome {
                Outcome::Text { text } => {
                    let action = Action::RegisterHost {
                        address: enrollment.address.clone(),
                        root_cert: root_cert.clone(),
                        credentials: enrollment.credentials.clone(),
                        host_id: enrollment.host_id.clone(),
                        host_name: enrollment.host_name.clone(),
                    };
                    Step::Continue {
                        state: Registration::AwaitBinding {
                            enrollment,
                            reg_state,
                            root_cert,
                            private_key,
                            certificate: text,
                        },
                        action,
                    }
                },
                Outcome::Failed { cause } => Step::Done {
                    result: Err(Error::Pairing { address: enrollment.address, cause }),
                },
                _ => Step::Done { result: Err(Error::UnexpectedOutcome) },
            },
            Registration::AwaitBinding {
                enrollment,
                reg_state,
                root_cert,
                private_key,
                certificate,
            } => match outcome {
                Outcome::Done => {
                    let mut state = reg_state;
                    let record = ServerSpec {
                        uuid: enrollment.host_id,
                        private_key,
                        certificate,
                        root_cert,
                    };
                    state.insert(enrollment.address, record);
                    Step::Continue {
                        state: Registration::AwaitPersist,
                        action: Action::Persist { state },
                    }
                },
                Outcome::Failed { cause } => Step::Done {
                    result: Err(Error::Registering { address: enrollment.address, cause }),
                },
                _ => Step::Done { result: Err(Error::UnexpectedOutcome) },
            },
            Registration::AwaitPersist => match outcome {
                Outcome::Done => Step::Continue {
                    state: Registration::AwaitMarkerProbe,
                    action: Action::ProbeMarker,
                },
                Outcome::Failed { cause } => Step::Done { result: Err(Error::Persist { cause }) },
                _ => Step::Done { result: Err(Error::UnexpectedOutcome) },
            },
            Registration::AwaitMarkerProbe => match outcome {
                Outcome::Flag { set } => match disallow_legacy_pull(set) {
                    Some(action) => Step::Continue {
                        state: Registration::AwaitMarkerRemoval,
                        action,
                    },
                    None => Step::Done { result: Ok(()) },
                },
                Outcome::Failed { cause } => Step::Done {
                    result: Err(Error::MarkerAfterRegistration { cause }),
                },
                _ => Step::Done { result: Err(Error::UnexpectedOutcome) },
            },
            Registration::AwaitMarkerRemoval => match outcome {
                Outcome::Done => Step::Done { result: Ok(()) },
                Outcome::Failed { cause } => Step::Done {
                    result: Err(Error::MarkerAfterRegistration { cause }),
                },
                _ => Step::Done { result: Err(Error::UnexpectedOutcome) },
            },
        }
    }
}

} // verus!
