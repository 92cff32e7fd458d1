//! What holds of the workflows, whatever the collaborators answer: the
//! statements and their proofs.

pub mod dump;
pub mod hygiene;
pub mod invocation;
pub mod pull;
pub mod push;
pub mod register;
