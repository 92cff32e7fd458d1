//! The mode dispatcher: picks the one workflow that the mode names, runs it,
//! and lets a hygiene pass follow whatever the workflow's result was. The
//! result of the invocation is the result of the workflow.

use crate::action::{Action, ActionView, Outcome, OutcomeView};
use crate::config::{Config, ConfigView};
use crate::dump::{dump, Dump, DumpView};
use crate::error::{result_view, Error, ErrorView};
use crate::hygiene::{sanitize_as, text_views, Hygiene, HygieneView};
use crate::machine::{lifted, Machine, Step, StepView};
use crate::outside::{current_uid, is_host_id};
use crate::pull::{pull, Pull, PullView};
use crate::push::{push, Push, PushView};
use crate::register::{register, register_as, Registration, RegistrationView};
use crate::trust_store::{RegistrationState, StoreEntryView};
use vstd::prelude::*;
use vstd::string::StringExecFns;

verus! {

/// The operating modes. One is selected for each invocation.
#[derive(Debug, PartialEq, Eq, Clone, Copy)]
pub enum Mode {
    Dump,
    Register,
    Push,
    Status,
    Pull,
}

/// The mode that `name` names, if it names one.
pub open spec fn mode_of(name: Seq<char>) -> Option<Mode> {
    if name == "dump"@ {
        Some(Mode::Dump)
    } else if name == "register"@ {
        Some(Mode::Register)
    } else if name == "push"@ {
        Some(Mode::Push)
    } else if name == "status"@ {
        Some(Mode::Status)
    } else if name == "pull"@ {
        Some(Mode::Pull)
    } else {
        None
    }
}

/// Whether `text` reads `name`.
fn reads(text: &String, name: &str) -> (r: bool)
    ensures
        r == (text@ == name@),
{
    let other = String::from_str(name);
    *text == other
}

impl Mode {
    /// The mode that `name` names, if it names one.
    pub fn parse(name: &str) -> (r: Option<Mode>)
        ensures
            r == mode_of(name@),
    {
        let text = String::from_str(name);
        if reads(&text, "dump") {
            Some(Mode::Dump)
        } else if reads(&text, "register") {
            Some(Mode::Register)
        } else if reads(&text, "push") {
            Some(Mode::Push)
        } else if reads(&text, "status") {
            Some(Mode::Status)
        } else if reads(&text, "pull") {
            Some(Mode::Pull)
        } else {
            None
        }
    }
}

/// The `status` workflow: it is not there yet, and says so, whatever the
/// configuration holds.
pub fn status(config: Config) -> (r: Result<(), Error>)
    ensures
        result_view(r) == Err::<(), ErrorView>(ErrorView::StatusNotImplemented),
{
    Err(Error::StatusNotImplemented)
}

/// Where the workflow of the selected mode stands.
#[derive(Debug, PartialEq, Eq)]
pub enum Workflow {
    Dump { dump: Dump },
    Register { registration: Registration },
    Push { push: Push },
    Pull { pull: Pull },
}

/// Mathematical model of a [`Workflow`].
pub enum WorkflowView {
    Dump { dump: DumpView },
    Register { registration: RegistrationView },
    Push { push: PushView },
    Pull { pull: PullView },
}

impl View for Workflow {
    type V = WorkflowView;

    open spec fn view(&self) -> WorkflowView {
        match self {
            Workflow::Dump { dump } => WorkflowView::Dump { dump: dump@ },
            Workflow::Register { registration } => WorkflowView::Register {
                registration: registration@,
            },
            Workflow::Push { push } => WorkflowView::Push { push: push@ },
            Workflow::Pull { pull } => WorkflowView::Pull { pull: pull@ },
        }
    }
}

impl WorkflowView {
    /// A dump's state, as the state of the selected workflow.
    pub open spec fn dumping() -> spec_fn(DumpView) -> WorkflowView {
        |state: DumpView| WorkflowView::Dump { dump: state }
    }

    /// A registration's state, as the state of the selected workflow.
    pub open spec fn registering() -> spec_fn(RegistrationView) -> WorkflowView {
        |state: RegistrationView| WorkflowView::Register { registration: state }
    }

    /// A push's state, as the state of the selected workflow.
    pub open spec fn pushing() -> spec_fn(PushView) -> WorkflowView {
        |state: PushView| WorkflowView::Push { push: state }
    }

    /// A pull's state, as the state of the selected workflow.
    pub open spec fn pulling() -> spec_fn(PullView) -> WorkflowView {
        |state: PullView| WorkflowView::Pull { pull: state }
    }

    /// The first step of the workflow that `mode` selects. A registration
    /// is made with `host_id`; the other workflows do not look at it.
    pub open spec fn start(
        mode: Mode,
        config: ConfigView,
        store: Seq<StoreEntryView>,
        host_id: Seq<char>,
    ) -> StepView<WorkflowView> {
        match mode {
            Mode::Dump => lifted(DumpView::start(config), Self::dumping()),
            Mode::Register => lifted(
                RegistrationView::start(config, store, host_id),
                Self::registering(),
            ),
            Mode::Push => lifted(PushView::start(config, store), Self::pushing()),
            Mode::Status => StepView::Done { result: Err(ErrorView::StatusNotImplemented) },
            Mode::Pull => lifted(PullView::start(config, store), Self::pulling()),
        }
    }
}

impl Machine for WorkflowView {
    open spec fn next(self, outcome: OutcomeView) -> StepView<WorkflowView> {
        match self {
            WorkflowView::Dump { dump } => lifted(dump.next(outcome), Self::dumping()),
            WorkflowView::Register { registration } => lifted(
                registration.next(outcome),
                Self::registering(),
            ),
            WorkflowView::Push { push } => lifted(push.next(outcome), Self::pushing()),
            WorkflowView::Pull { pull } => lifted(pull.next(outcome), Self::pulling()),
        }
    }
}

/// A step of a dump, as a step of the selected workflow.
fn as_dump(step: Step<Dump>) -> (r: Step<Workflow>)
    ensures
        r@ == lifted(step@, WorkflowView::dumping()),
{
    match step {
        Step::Continue { state, action } => Step::Continue {
            state: Workflow::Dump { dump: state },
            action,
        },
        Step::Done { result } => Step::Done { result },
    }
}

/// A step of a registration, as a step of the selected workflow.
fn as_registration(step: Step<Registration>) -> (r: Step<Workflow>)
    ensures
        r@ == lifted(step@, WorkflowView::registering()),
{
    match step {
        Step::Continue { state, action } => Step::Continue {
            state: Workflow::Register { registration: state },
            action,
        },
        Step::Done { result } => Step::Done { result },
    }
}

/// A step of a push, as a step of the selected workflow.
fn as_push(step: Step<Push>) -> (r: Step<Workflow>)
    ensures
        r@ == lifted(step@, WorkflowView::pushing()),
{
    match step {
        Step::Continue { state, action } => Step::Continue {
            state: Workflow::Push { push: state },
            action,
        },
        Step::Done { result } => Step::Done { result },
    }
}

/// A step of a pull, as a step of the selected workflow.
fn as_pull(step: Step<Pull>) -> (r: Step<Workflow>)
    ensures
        r@ == lifted(step@, WorkflowView::pulling()),
{
    match step {
        Step::Continue { state, action } => Step::Continue {
            state: Workflow::Pull { pull: state },
            action,
        },
        Step::Done { result } => Step::Done { result },
    }
}

impl Workflow {
    /// Starts the workflow that `mode` selects.
    pub fn start(mode: Mode, config: Config, reg_state: RegistrationState, host_id: String) -> (r:
        Step<Workflow>)
        ensures
            r@ == WorkflowView::start(mode, config@, reg_state@, host_id@),
    {
        match mode {
            Mode::Dump => as_dump(dump(config)),
            Mode::Register => as_registration(register_as(config, reg_state, host_id)),
            Mode::Push => as_push(push(config, reg_state)),
            Mode::Status => Step::Done { result: status(config) },
            Mode::Pull => as_pull(pull(config, reg_state)),
        }
    }

    /// Takes the outcome of the pending action and says what follows.
    pub fn step(self, outcome: Outcome) -> (r: Step<Workflow>)
        ensures
            r@ == self@.next(outcome@),
    {
        match self {
            Workflow::Dump { dump } => as_dump(dump.step(outcome)),
            Workflow::Register { registration } => as_registration(registration.step(outcome)),
            Workflow::Push { push } => as_push(push.step(outcome)),
            Workflow::Pull { pull } => as_pull(pull.step(outcome)),
        }
    }
}

/// Where an invocation stands.
#[derive(Debug, PartialEq, Eq)]
pub enum Controller {
    /// The selected workflow is at work.
    Primary { workflow: Workflow, process_uid: u32, paths: Vec<String>, account: String },
    /// The workflow ended with `primary`; the hygiene pass is at work.
    Cleanup { hygiene: Hygiene, primary: Result<(), Error> },
    /// The hygiene pass failed; its failure is being written to the log.
    Reporting { primary: Result<(), Error> },
}

/// Mathematical model of a [`Controller`].
pub enum ControllerView {
    Primary {
        workflow: WorkflowView,
        process_uid: u32,
        paths: Seq<Seq<char>>,
        account: Seq<char>,
    },
    Cleanup { hygiene: HygieneView, primary: Result<(), ErrorView> },
    Reporting { primary: Result<(), ErrorView> },
}

impl View for Controller {
    type V = ControllerView;

    open spec fn view(&self) -> ControllerView {
        match self {
            Controller::Primary {
                workflow,
                process_uid,
                paths,
                account,
            } => ControllerView::Primary {
                workflow: workflow@,
                process_uid: *process_uid,
                paths: text_views(paths@),
                account: account@,
            },
            Controller::Cleanup { hygiene, primary } => ControllerView::Cleanup {
                hygiene: hygiene@,
                primary: result_view(*primary),
            },
            Controller::Reporting { primary } => ControllerView::Reporting {
                primary: result_view(*primary),
            },
        }
    }
}

impl ControllerView {
    /// A step of the hygiene pass, as a step of the invocation. Where the
    /// pass is over, the invocation ends with the result of the workflow;
    /// a failure of the pass is written to the log first.
    pub open spec fn cleaning(
        step: StepView<HygieneView>,
        primary: Result<(), ErrorView>,
    ) -> StepView<ControllerView> {
        match step {
            StepView::Continue { state, action } => StepView::Continue {
                state: ControllerView::Cleanup { hygiene: state, primary },
                action,
            },
            StepView::Done { result: Ok(_) } => StepView::Done { result: primary },
            StepView::Done { result: Err(error) } => StepView::Continue {
                state: ControllerView::Reporting { primary },
                action: ActionView::Log { error },
            },
        }
    }

    /// A step of the selected workflow, as a step of the invocation. Where
    /// the workflow is over, the hygiene pass starts.
    pub open spec fn supervised(
        step: StepView<WorkflowView>,
        process_uid: u32,
        paths: Seq<Seq<char>>,
        account: Seq<char>,
    ) -> StepView<ControllerView> {
        match step {
            StepView::Continue { state, action } => StepView::Continue {
                state: ControllerView::Primary { workflow: state, process_uid, paths, account },
                action,
            },
            StepView::Done { result } => Self::cleaning(
                HygieneView::start(process_uid, paths, account),
                result,
            ),
        }
    }

    /// The first step of the invocation with the mode `name`, in a process
    /// that runs as the user `process_uid`. A name that names no mode ends
    /// the invocation at once: no workflow and no hygiene pass is started.
    pub open spec fn start(
        name: Seq<char>,
        config: ConfigView,
        store: Seq<StoreEntryView>,
        paths: Seq<Seq<char>>,
        account: Seq<char>,
        host_id: Seq<char>,
        process_uid: u32,
    ) -> StepView<ControllerView> {
        match mode_of(name) {
            Some(mode) => Self::supervised(
                WorkflowView::start(mode, config, store, host_id),
                process_uid,
                paths,
                account,
            ),
            None => StepView::Done { result: Err(ErrorView::InvalidMode { mode: name }) },
        }
    }
}

impl Machine for ControllerView {
    open spec fn next(self, outcome: OutcomeView) -> StepView<ControllerView> {
        match self {
            ControllerView::Primary { workflow, process_uid, paths, account } => Self::supervised(
                workflow.next(outcome),
                process_uid,
                paths,
                account,
            ),
            ControllerView::Cleanup { hygiene, primary } => Self::cleaning(
                hygiene.next(outcome),
                primary,
            ),
            ControllerView::Reporting { primary } => StepView::Done { result: primary },
        }
    }
}

/// A step of the hygiene pass, as a step of the invocation.
fn cleaning(step: Step<Hygiene>, primary: Result<(), Error>) -> (r: Step<Controller>)
    ensures
        r@ == ControllerView::cleaning(step@, result_view(primary)),
{
    match step {
        Step::Continue { state, action } => Step::Continue {
            state: Controller::Cleanup { hygiene: state, primary },
            action,
        },
        Step::Done { result: Ok(_) } => Step::Done { result: primary },
        Step::Done { result: Err(error) } => Step::Continue {
            state: Controller::Reporting { primary },
            action: Action::Log { error },
        },
    }
}

/// A step of the selected workflow, as a step of the invocation.
fn supervised(step: Step<Workflow>, process_uid: u32, paths: Vec<String>, account: String) -> (r:
    Step<Controller>)
    ensures
        r@ == ControllerView::supervised(step@, process_uid, text_views(paths@), account@),
{
    match step {
        Step::Continue { state, action } => Step::Continue {
            state: Controller::Primary { workflow: state, process_uid, paths, account },
            action,
        },
        Step::Done { result } => cleaning(sanitize_as(process_uid, paths, account), result),
    }
}

/// Whether an invocation with the mode `name` and with `config` draws a
/// host identifier: it is a registration, and the configuration holds what
/// a registration needs.
pub open spec fn draws_host_id(name: Seq<char>, config: ConfigView) -> bool {
    mode_of(name) == Some(Mode::Register) && RegistrationView::complete(config)
}

/// Starts the invocation with the mode `mode`. The files at `paths` belong
/// to the account `user`. The operating system is asked which user the
/// process runs as, and a registration draws a fresh host identifier;
/// neither answer is determined.
pub fn dispatch(
    mode: &str,
    config: Config,
    reg_state: RegistrationState,
    paths: Vec<String>,
    user: String,
) -> (r: Step<Controller>)
    ensures
        draws_host_id(mode@, config@) ==> exists|host_id: Seq<char>, process_uid: u32|
            is_host_id(host_id) && r@ == #[trigger] ControllerView::start(
                mode@,
                config@,
                reg_state@,
                text_views(paths@),
                user@,
                host_id,
                process_uid,
            ),
        !draws_host_id(mode@, config@) ==> exists|process_uid: u32|
            r@ == #[trigger] ControllerView::start(
                mode@,
                config@,
                reg_state@,
                text_views(paths@),
                user@,
                Seq::empty(),
                process_uid,
            ),
{
    let ghost config_view = config@;
    let ghost store = reg_state@;
    match Mode::parse(mode) {
        Some(selected) => {
            let process_uid = current_uid();
            let ghost host_id: Seq<char> = Seq::empty();
            let primary = match selected {
                Mode::Register => {
                    let step = register(config, reg_state);
                    proof {
                        if RegistrationView::complete(config_view) {
                            host_id = choose|host_id: Seq<char>|
                                is_host_id(host_id) && step@ == #[trigger] RegistrationView::start(
                                    config_view,
                                    store,
                                    host_id,
                                );
                        }
                    }
                    as_registration(step)
                },
                _ => Workflow::start(selected, config, reg_state, String::new()),
            };
            assert(primary@ == WorkflowView::start(selected, config_view, store, host_id));
            let step = supervised(primary, process_uid, paths, user);
            assert(step@ == ControllerView::start(
                mode@,
                config_view,
                store,
                text_views(paths@),
                user@,
                host_id,
                process_uid,
            ));
            step
        },
        None => {
            let step = Step::Done {
                result: Err(Error::InvalidMode { mode: String::from_str(mode) }),
            };
            assert(step@ == ControllerView::start(
                mode@,
                config_view,
                store,
                text_views(paths@),
                user@,
                Seq::empty(),
                0u32,
            ));
            step
        },
    }
}

/// Starts the invocation with the mode `mode`, in a process that runs as
/// the user `process_uid`; a registration is made with `host_id`.
pub fn dispatch_as(
    mode: &str,
    config: Config,
    reg_state: RegistrationState,
    paths: Vec<String>,
    user: String,
    host_id: String,
    process_uid: u32,
) -> (r: Step<Controller>)
    ensures
        r@ == ControllerView::start(
            mode@,
            config@,
            reg_state@,
            text_views(paths@),
            user@,
            host_id@,
            process_uid,
        ),
{
    match Mode::parse(mode) {
        Some(selected) => supervised(
            Workflow::start(selected, config, reg_state, host_id),
            process_uid,
            paths,
            user,
        ),
        None => Step::Done { result: Err(Error::InvalidMode { mode: String::from_str(mode) }) },
    }
}

impl Controller {
    /// Takes the outcome of the pending action and says what follows.
    pub fn step(self, outcome: Outcome) -> (r: Step<Controller>)
        ensures
            r@ == self@.next(outcome@),
    {
        match self {
            Controller::Primary { workflow, process_uid, paths, account } => supervised(
                workflow.step(outcome),
                process_uid,
                paths,
                account,
            ),
            Controller::Cleanup { hygiene, primary } => cleaning(hygiene.step(outcome), primary),
            Controller::Reporting { primary } => Step::Done { result: primary },
        }
    }
}

} // verus!
