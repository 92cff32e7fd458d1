//! Privilege hygiene: after work that ran as the privileged user, hand the
//! files of the agent back to its service account. Without privilege there
//! is nothing to do. Only paths that exist are touched, in the order given,
//! and the first failure ends the pass.

use crate::action::{Action, ActionView, Outcome, OutcomeView};
use crate::error::{Error, ErrorView};
use crate::machine::{Machine, Step, StepView};
use crate::outside::{current_uid, is_root_uid};
use vstd::prelude::*;

verus! {

/// What a hygiene pass waits for.
#[derive(Debug, PartialEq, Eq, Clone, Copy)]
pub enum HygieneStage {
    /// The user entry of the service account is being looked up.
    AwaitUser,
    /// The group entry of the service account is being looked up.
    AwaitGroup { uid: u32 },
    /// The path at position `index` is being looked for.
    AwaitProbe { uid: u32, gid: u32, index: usize },
    /// The path at position `index` is being handed over.
    AwaitChange { uid: u32, gid: u32, index: usize },
}

/// Where a hygiene pass stands.
#[derive(Debug, PartialEq, Eq)]
pub struct Hygiene {
    account: String,
    paths: Vec<String>,
    stage: HygieneStage,
}

/// Mathematical model of a [`Hygiene`].
pub struct HygieneView {
    /// Name of the service account.
    pub account: Seq<char>,
    /// The paths to hand over.
    pub paths: Seq<Seq<char>>,
    pub stage: HygieneStage,
}

/// The models of a list of texts.
pub open spec fn text_views(texts: Seq<String>) -> Seq<Seq<char>> {
    Seq::new(texts.len(), |i: int| texts[i]@)
}

impl View for Hygiene {
    type V = HygieneView;

    closed spec fn view(&self) -> HygieneView {
        HygieneView { account: self.account@, paths: text_views(self.paths@), stage: self.stage }
    }
}

/// The path at position `index`, or the empty text where there is none.
pub open spec fn path_at(paths: Seq<Seq<char>>, index: int) -> Seq<char> {
    if 0 <= index < paths.len() {
        paths[index]
    } else {
        Seq::empty()
    }
}

impl HygieneView {
    /// The step that turns to the path at position `index`: to look for it,
    /// or to end with success where no path is left.
    pub open spec fn turn_to(
        account: Seq<char>,
        paths: Seq<Seq<char>>,
        uid: u32,
        gid: u32,
        index: int,
    ) -> StepView<HygieneView> {
        if 0 <= index < paths.len() && index <= usize::MAX {
            StepView::Continue {
                state: HygieneView {
                    account,
                    paths,
                    stage: HygieneStage::AwaitProbe { uid, gid, index: index as usize },
                },
                action: ActionView::ProbePath { path: paths[index] },
            }
        } else {
            StepView::Done { result: Ok(()) }
        }
    }

    /// The first step of a hygiene pass in a process that runs as the user
    /// `process_uid`: nothing unless that is the privileged user, whose id
    /// is zero.
    pub open spec fn start(process_uid: u32, paths: Seq<Seq<char>>, account: Seq<char>) -> StepView<
        HygieneView,
    > {
        if process_uid == 0 {
            StepView::Continue {
                state: HygieneView { account, paths, stage: HygieneStage::AwaitUser },
                action: ActionView::ResolveUser { account },
            }
        } else {
            StepView::Done { result: Ok(()) }
        }
    }
}

impl Machine for HygieneView {
    open spec fn next(self, outcome: OutcomeView) -> StepView<HygieneView> {
        match self.stage {
            HygieneStage::AwaitUser => match outcome {
                OutcomeView::Id { id: Some(uid) } => StepView::Continue {
                    state: HygieneView {
                        account: self.account,
                        paths: self.paths,
                        stage: HygieneStage::AwaitGroup { uid },
                    },
                    action: ActionView::ResolveGroup { account: self.account },
                },
                OutcomeView::Id { id: None } => StepView::Done {
                    result: Err(ErrorView::UserNotFound { account: self.account }),
                },
                OutcomeView::Failed { cause } => StepView::Done {
                    result: Err(ErrorView::AccountLookup { account: self.account, cause }),
                },
                _ => StepView::Done { result: Err(ErrorView::UnexpectedOutcome) },
            },
            HygieneStage::AwaitGroup { uid } => match outcome {
                OutcomeView::Id { id: Some(gid) } => Self::turn_to(
                    self.account,
                    self.paths,
                    uid,
                    gid,
                    0,
                ),
                OutcomeView::Id { id: None } => StepView::Done {
                    result: Err(ErrorView::GroupNotFound { account: self.account }),
                },
                OutcomeView::Failed { cause } => StepView::Done {
                    result: Err(ErrorView::AccountLookup { account: self.account, cause }),
                },
                _ => StepView::Done { result: Err(ErrorView::UnexpectedOutcome) },
            },
            HygieneStage::AwaitProbe { uid, gid, index } => match outcome {
                OutcomeView::Flag { set } => if set && index < self.paths.len() {
                    StepView::Continue {
                        state: HygieneView {
                            account: self.account,
                            paths: self.paths,
                            stage: HygieneStage::AwaitChange { uid, gid, index },
                        },
                        action: ActionView::ChangeOwner {
                            path: self.paths[index as int],
                            uid,
                            gid,
                        },
                    }
                } else {
                    Self::turn_to(self.account, self.paths, uid, gid, index + 1)
                },
                _ => StepView::Done { result: Err(ErrorView::UnexpectedOutcome) },
            },
            HygieneStage::AwaitChange { uid, gid, index } => match outcome {
                OutcomeView::Done => Self::turn_to(self.account, self.paths, uid, gid, index + 1),
                OutcomeView::Failed { cause } => StepView::Done {
                    result: Err(
                        ErrorView::Ownership {
                            path: path_at(self.paths, index as int),
                            account: self.account,
                            cause,
                        },
                    ),
                },
                _ => StepView::Done { result: Err(ErrorView::UnexpectedOutcome) },
            },
        }
    }
}

/// Turns to the path at position `index`.
fn turn_to(account: String, paths: Vec<String>, uid: u32, gid: u32, index: usize) -> (r: Step<
    Hygiene,
>)
    ensures
        r@ == HygieneView::turn_to(account@, text_views(paths@), uid, gid, index as int),
{
    if index < paths.len() {
        let action = Action::ProbePath { path: paths[index].clone() };
        Step::Continue {
            state: Hygiene { account, paths, stage: HygieneStage::AwaitProbe { uid, gid, index } },
            action,
        }
    } else {
        Step::Done { result: Ok(()) }
    }
}

/// Starts a hygiene pass for the calling process: the files at `paths` go
/// to the account `user`, if the process is privileged. Which user the
/// process runs as is asked of the operating system.
pub fn sanitize_home_dir_ownership(paths: Vec<String>, user: String) -> (r: Step<Hygiene>)
    ensures
        exists|process_uid: u32|
            r@ == #[trigger] HygieneView::start(process_uid, text_views(paths@), user@),
{
    sanitize_as(current_uid(), paths, user)
}

/// Starts a hygiene pass in a process that runs as the user `process_uid`.
pub fn sanitize_as(process_uid: u32, paths: Vec<String>, user: String) -> (r: Step<Hygiene>)
    ensures
        r@ == HygieneView::start(process_uid, text_views(paths@), user@),
{
    if !is_root_uid(process_uid) {
        return Step::Done { result: Ok(()) };
    }
    let action = Action::ResolveUser { account: user.clone() };
    Step::Continue {
        state: Hygiene { account: user, paths, stage: HygieneStage::AwaitUser },
        action,
    }
}

impl Hygiene {
    /// Takes the outcome of the pending action and says what follows.
    pub fn step(self, outcome: Outcome) -> (r: Step<Hygiene>)
        ensures
            r@ == self@.next(outcome@),
    {
        match self.stage {
            HygieneStage::AwaitUser => match outcome {
                Outcome::Id { id: Some(uid) } => {
                    let action = Action::ResolveGroup { account: self.account.clone() };
                    Step::Continue {
                        state: Hygiene {
                            account: self.account,
                            paths: self.paths,
                            stage: HygieneStage::AwaitGroup { uid },
                        },
                        action,
                    }
                },
                Outcome::Id { id: None } => Step::Done {
                    result: Err(Error::UserNotFound { account: self.account }),
                },
                Outcome::Failed { cause } => Step::Done {
                    result: Err(Error::AccountLookup { account: self.account, cause }),
                },
                _ => Step::Done { result: Err(Error::UnexpectedOutcome) },
            },
            HygieneStage::AwaitGroup { uid } => match outcome {
                Outcome::Id { id: Some(gid) } => turn_to(self.account, self.paths, uid, gid, 0),
                Outcome::Id { id: None } => Step::Done {
                    result: Err(Error::GroupNotFound { account: self.account }),
                },
                Outcome::Failed { cause } => Step::Done {
                    result: Err(Error::AccountLookup { account: self.account, cause }),
                },
                _ => Step::Done { result: Err(Error::UnexpectedOutcome) },
            },
            HygieneStage::AwaitProbe { uid, gid, index } => match outcome {
                Outcome::Flag { set } => {
                    if index < self.paths.len() {
                        if set {
                            let action = Action::ChangeOwner {
                                path: self.paths[index].clone(),
                                uid,
                                gid,
                            };
                            Step::Continue {
                                state: Hygiene {
                                    account: self.account,
                                    paths: self.paths,
                                    stage: HygieneStage::AwaitChange { uid, gid, index },
                                },
                                action,
                            }
                        } else {
                            turn_to(self.account, self.paths, uid, gid, index + 1)
                        }
                    } else {
                        Step::Done { result: Ok(()) }
                    }
                },
                _ => Step::Done { result: Err(Error::UnexpectedOutcome) },
            },
            HygieneStage::AwaitChange { uid, gid, index } => match outcome {
                Outcome::Done => {
                    if index < self.paths.len() {
                        turn_to(self.account, self.paths, uid, gid, index + 1)
                    } else {
                        Step::Done { result: Ok(()) }
                    }
                },
                Outcome::Failed { cause } => {
                    let path = if index < self.paths.len() {
                        self.paths[index].clone()
                    } else {
                        String::new()
                    };
                    Step::Done {
                        result: Err(Error::Ownership { path, account: self.account, cause }),
                    }
                },
                _ => Step::Done { result: Err(Error::UnexpectedOutcome) },
            },
        }
    }
}

} // verus!
