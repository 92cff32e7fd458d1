//! Controller core of a monitoring agent: trust bootstrap against a receiver,
//! delivery of monitoring data, and the one-way retirement of the
//! unauthenticated legacy channel.
//!
//! The library touches no file and opens no connection. Every workflow is a
//! state machine: a start function and a `step` function hand out the next
//! action to perform, and take back its outcome. The embedding program
//! performs the actions.
//!
//! - [`config`] and [`trust_store`] hold what an invocation is given.
//! - [`action`] names the outside work and its outcomes, [`machine`] the
//!   shape of a workflow and what its runs do to the durable state.
//! - [`register`], [`push`], [`pull`] and [`dump`] are the workflows,
//!   [`hygiene`] is the pass that follows them, [`legacy`] decides on the
//!   legacy channel, and [`dispatch`] selects by mode and holds them
//!   together.
//! - [`proofs`] states and proves what holds of every run.
//! - [`outside`] holds the calls that are taken on trust.

pub mod action;
pub mod config;
pub mod dispatch;
pub mod dump;
pub mod error;
pub mod hygiene;
pub mod legacy;
pub mod machine;
pub mod outside;
pub mod proofs;
pub mod pull;
pub mod push;
pub mod register;
pub mod trust_store;
