//! The `dump` workflow: collect the monitoring data and write it to
//! standard output, unencrypted. Nothing is sent and nothing is stored.

use crate::action::{Action, ActionView, Outcome, OutcomeView};
use crate::config::{Config, ConfigView};
use crate::error::{Error, ErrorView};
use crate::machine::{Machine, Step, StepView};
use vstd::prelude::*;

verus! {

/// Where a dump stands.
#[derive(Debug, PartialEq, Eq)]
pub enum Dump {
    /// The monitoring data is being collected.
    AwaitPayload,
    /// The monitoring data is being written.
    AwaitWrite,
}

/// Mathematical model of a [`Dump`].
pub enum DumpView {
    AwaitPayload,
    AwaitWrite,
}

impl View for Dump {
    type V = DumpView;

    open spec fn view(&self) -> DumpView {
        match self {
            Dump::AwaitPayload => DumpView::AwaitPayload,
            Dump::AwaitWrite => DumpView::AwaitWrite,
        }
    }
}

impl DumpView {
    /// The first step of a dump: to collect from the configured source.
    pub open spec fn start(config: ConfigView) -> StepView<DumpView> {
        StepView::Continue {
            state: DumpView::AwaitPayload,
            action: ActionView::Collect { package_name: config.package_name },
        }
    }
}

impl Machine for DumpView {
    open spec fn next(self, outcome: OutcomeView) -> StepView<DumpView> {
        match self {
            DumpView::AwaitPayload => match outcome {
                OutcomeView::Payload { bytes } => StepView::Continue {
                    state: DumpView::AwaitWrite,
                    action: ActionView::WriteStdout { payload: bytes },
                },
                OutcomeView::Failed { cause } => StepView::Done {
                    result: Err(ErrorView::Collect { cause }),
                },
                _ => StepView::Done { result: Err(ErrorView::UnexpectedOutcome) },
            },
            DumpView::AwaitWrite => match outcome {
                OutcomeView::Done => StepView::Done { result: Ok(()) },
                OutcomeView::Failed { cause } => StepView::Done {
                    result: Err(ErrorView::WriteStdout { cause }),
                },
                _ => StepView::Done { result: Err(ErrorView::UnexpectedOutcome) },
            },
        }
    }
}

/// Starts a dump.
pub fn dump(config: Config) -> (r: Step<Dump>)
    ensures
        r@ == DumpView::start(config@),
{
    Step::Continue {
        state: Dump::AwaitPayload,
        action: Action::Collect { package_name: config.package_name },
    }
}

impl Dump {
    /// Takes the outcome of the pending action and says what follows.
    pub fn step(self, outcome: Outcome) -> (r: Step<Dump>)
        ensures
            r@ == self@.next(outcome@),
    {
        match self {
            Dump::AwaitPayload => match outcome {
                Outcome::Payload { bytes } => Step::Continue {
                    state: Dump::AwaitWrite,
                    action: Action::WriteStdout { payload: bytes },
                },
                Outcome::Failed { cause } => Step::Done { result: Err(Error::Collect { cause }) },
                _ => Step::Done { result: Err(Error::UnexpectedOutcome) },
            },
            Dump::AwaitWrite => match outcome {
                Outcome::Done => Step::Done { result: Ok(()) },
                Outcome::Failed { cause } => Step::Done {
                    result: Err(Error::WriteStdout { cause }),
                },
                _ => Step::Done { result: Err(Error::UnexpectedOutcome) },
            },
        }
    }
}

} // verus!
