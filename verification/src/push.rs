//! The `push` workflow: for each receiver in the trust store, oldest
//! registration first, collect the monitoring data, send it, and show the
//! receiver's acknowledgment. The first failure ends the workflow; the
//! receivers after it are not tried.

use crate::action::{Action, ActionView, Outcome, OutcomeView};
use crate::config::{copy_text, text_view, Config, ConfigView};
use crate::error::{Error, ErrorView};
use crate::machine::{Machine, Step, StepView};
use crate::trust_store::{RegistrationState, StoreEntryView};
use vstd::prelude::*;

verus! {

/// What a push is doing for the receiver it has reached.
#[derive(Debug, PartialEq, Eq, Clone, Copy)]
pub enum PushStage {
    /// The monitoring data is being collected.
    Collecting,
    /// The monitoring data is being sent.
    Sending,
    /// The acknowledgment is being shown.
    Emitting,
}

/// Where a push stands.
#[derive(Debug, PartialEq, Eq)]
pub struct Push {
    reg_state: RegistrationState,
    package_name: Option<String>,
    index: usize,
    stage: PushStage,
}

/// Mathematical model of a [`Push`].
pub struct PushView {
    /// The receivers, oldest registration first.
    pub store: Seq<StoreEntryView>,
    /// The selected source of monitoring data.
    pub package_name: Option<Seq<char>>,
    /// The position of the receiver that the push has reached.
    pub index: nat,
    pub stage: PushStage,
}

impl View for Push {
    type V = PushView;

    closed spec fn view(&self) -> PushView {
        PushView {
            store: self.reg_state@,
            package_name: text_view(self.package_name),
            index: self.index as nat,
            stage: self.stage,
        }
    }
}

impl PushView {
    /// The step that turns to the receiver at position `index`: to collect
    /// for it, or to end with success where no receiver is left.
    pub open spec fn turn_to(
        store: Seq<StoreEntryView>,
        package_name: Option<Seq<char>>,
        index: nat,
    ) -> StepView<PushView> {
        if index < store.len() {
            StepView::Continue {
                state: PushView { store, package_name, index, stage: PushStage::Collecting },
                action: ActionView::Collect { package_name },
            }
        } else {
            StepView::Done { result: Ok(()) }
        }
    }

    /// The first step of a push.
    pub open spec fn start(config: ConfigView, store: Seq<StoreEntryView>) -> StepView<PushView> {
        Self::turn_to(store, config.package_name, 0)
    }
}

impl Machine for PushView {
    open spec fn next(self, outcome: OutcomeView) -> StepView<PushView> {
        match self.stage {
            PushStage::Collecting => match outcome {
                OutcomeView::Payload { bytes } => if self.index < self.store.len() {
                    StepView::Continue {
                        state: PushView {
                            store: self.store,
                            package_name: self.package_name,
                            index: self.index,
                            stage: PushStage::Sending,
                        },
                        action: ActionView::SendPayload {
                            address: self.store[self.index as int].address,
                            host_id: self.store[self.index as int].record.uuid,
                            payload: bytes,
                        },
                    }
                } else {
                    StepView::Done { result: Ok(()) }
                },
                OutcomeView::Failed { cause } => StepView::Done {
                    result: Err(ErrorView::PushCollect { cause }),
                },
                _ => StepView::Done { result: Err(ErrorView::UnexpectedOutcome) },
            },
            PushStage::Sending => match outcome {
                OutcomeView::Text { text } => StepView::Continue {
                    state: PushView {
                        store: self.store,
                        package_name: self.package_name,
                        index: self.index,
                        stage: PushStage::Emitting,
                    },
                    action: ActionView::Emit { message: text },
                },
                OutcomeView::Failed { cause } => StepView::Done {
                    result: Err(ErrorView::Push { cause }),
                },
                _ => StepView::Done { result: Err(ErrorView::UnexpectedOutcome) },
            },
            PushStage::Emitting => match outcome {
                OutcomeView::Done => Self::turn_to(self.store, self.package_name, self.index + 1),
                OutcomeView::Failed { cause } => StepView::Done {
                    result: Err(ErrorView::Transport { cause }),
                },
                _ => StepView::Done { result: Err(ErrorView::UnexpectedOutcome) },
            },
        }
    }
}

/// Turns to the receiver at position `index`.
fn turn_to(reg_state: RegistrationState, package_name: Option<String>, index: usize) -> (r: Step<
    Push,
>)
    ensures
        r@ == PushView::turn_to(reg_state@, text_view(package_name), index as nat),
{
    if index < reg_state.len() {
        let action = Action::Collect { package_name: copy_text(&package_name) };
        Step::Continue {
            state: Push { reg_state, package_name, index, stage: PushStage::Collecting },
            action,
        }
    } else {
        Step::Done { result: Ok(()) }
    }
}

/// Starts a push to the receivers in `reg_state`.
pub fn push(config: Config, reg_state: RegistrationState) -> (r: Step<Push>)
    ensures
        r@ == PushView::start(config@, reg_state@),
{
    turn_to(reg_state, config.package_name, 0)
}

impl Push {
    /// Takes the outcome of the pending action and says what follows.
    pub fn step(self, outcome: Outcome) -> (r: Step<Push>)
        ensures
            r@ == self@.next(outcome@),
    {
        match self.stage {
            PushStage::Collecting => match outcome {
                Outcome::Payload { bytes } => {
                    if self.index < self.reg_state.len() {
                        let entry = self.reg_state.entry(self.index);
                        let action = Action::SendPayload {
                            address: entry.address.clone(),
                            host_id: entry.record.uuid.clone(),
                            payload: bytes,
                        };
                        Step::Continue {
                            state: Push {
                                reg_state: self.reg_state,
                                package_name: self.package_name,
                                index: self.index,
                                stage: PushStage::Sending,
                            },
                            action,
                        }
                    } else {
                        Step::Done { result: Ok(()) }
                    }
                },
                Outcome::Failed { cause } => Step::Done {
                    result: Err(Error::PushCollect { cause }),
                },
                _ => Step::Done { result: Err(Error::UnexpectedOutcome) },
            },
            PushStage::Sending => match outcome {
                Outcome::Text { text } => Step::Continue {
                    state: Push {
                        reg_state: self.reg_state,
                        package_name: self.package_name,
                        index: self.index,
                        stage: PushStage::Emitting,
                    },
                    action: Action::Emit { message: text },
                },
                Outcome::Failed { cause } => Step::Done { result: Err(Error::Push { cause }) },
                _ => Step::Done { result: Err(Error::UnexpectedOutcome) },
            },
            PushStage::Emitting => match outcome {
                Outcome::Done => {
                    if self.index < self.reg_state.len() {
                        turn_to(self.reg_state, self.package_name, self.index + 1)
                    } else {
                        Step::Done { result: Ok(()) }
                    }
                },
                Outcome::Failed { cause } => Step::Done {
                    result: Err(Error::Transport { cause }),
                },
                _ => Step::Done { result: Err(Error::UnexpectedOutcome) },
            },
        }
    }
}

} // verus!
