//! What a workflow asks the embedding program to do, and what the program
//! reports back.

use crate::config::text_view;
use crate::error::{Error, ErrorView};
use crate::trust_store::{RegistrationState, ServerSpec, ServerSpecView, StoreEntryView};
use vstd::prelude::*;

verus! {

/// One piece of outside work. The program performs it and hands its
/// [`Outcome`] to the workflow that asked for it.
#[derive(Debug, PartialEq, Eq)]
pub enum Action {
    /// Fetch the root of trust from the receiver, over a channel that is not
    /// yet authenticated. Answered by [`Outcome::Text`].
    FetchRoot { address: String },
    /// Generate a private key and a signing request bound to `host_id`.
    /// Answered by [`Outcome::Csr`].
    MakeCsr { host_id: String },
    /// Exchange the signing request and the credentials for a certificate.
    /// Answered by [`Outcome::Text`].
    Pair { address: String, root_cert: String, csr: String, credentials: String },
    /// Bind the certificate of `host_id` to `host_name` at the receiver.
    /// Answered by [`Outcome::Done`].
    RegisterHost {
        address: String,
        root_cert: String,
        credentials: String,
        host_id: String,
        host_name: String,
    },
    /// Replace the persisted trust store by `state`, as a whole.
    /// Answered by [`Outcome::Done`].
    Persist { state: RegistrationState },
    /// Look whether the legacy marker is present. Answered by [`Outcome::Flag`].
    ProbeMarker,
    /// Remove the legacy marker. Answered by [`Outcome::Done`].
    RemoveMarker,
    /// Collect the monitoring data from the selected source.
    /// Answered by [`Outcome::Payload`].
    Collect { package_name: Option<String> },
    /// Send the monitoring data to a receiver. Answered by [`Outcome::Text`],
    /// the receiver's acknowledgment.
    SendPayload { address: String, host_id: String, payload: Vec<u8> },
    /// Show a receiver's acknowledgment to the caller. Answered by [`Outcome::Done`].
    Emit { message: String },
    /// Write the monitoring data to standard output as it is.
    /// Answered by [`Outcome::Done`].
    WriteStdout { payload: Vec<u8> },
    /// Write the preamble to the raw stream and flush it.
    /// Answered by [`Outcome::Done`].
    WritePreamble { bytes: Vec<u8> },
    /// Perform the handshake as the responding side, presenting `identity`
    /// and trusting peers by its root. Answered by [`Outcome::Done`].
    Handshake { identity: ServerSpec },
    /// Write the monitoring data to the encrypted stream and flush it.
    /// Answered by [`Outcome::Done`].
    WriteSecure { payload: Vec<u8> },
    /// Look up the user entry of the service account. Answered by [`Outcome::Id`].
    ResolveUser { account: String },
    /// Look up the group entry of the service account. Answered by [`Outcome::Id`].
    ResolveGroup { account: String },
    /// Look whether `path` exists. Answered by [`Outcome::Flag`].
    ProbePath { path: String },
    /// Hand `path` over to the user `uid` and the group `gid`.
    /// Answered by [`Outcome::Done`].
    ChangeOwner { path: String, uid: u32, gid: u32 },
    /// Write `error` to the log. Answered by [`Outcome::Done`].
    Log { error: Error },
}

/// Mathematical model of an [`Action`].
pub enum ActionView {
    FetchRoot { address: Seq<char> },
    MakeCsr { host_id: Seq<char> },
    Pair { address: Seq<char>, root_cert: Seq<char>, csr: Seq<char>, credentials: Seq<char> },
    RegisterHost {
        address: Seq<char>,
        root_cert: Seq<char>,
        credentials: Seq<char>,
        host_id: Seq<char>,
        host_name: Seq<char>,
    },
    Persist { state: Seq<StoreEntryView> },
    ProbeMarker,
    RemoveMarker,
    Collect { package_name: Option<Seq<char>> },
    SendPayload { address: Seq<char>, host_id: Seq<char>, payload: Seq<u8> },
    Emit { message: Seq<char> },
    WriteStdout { payload: Seq<u8> },
    WritePreamble { bytes: Seq<u8> },
    Handshake { identity: ServerSpecView },
    WriteSecure { payload: Seq<u8> },
    ResolveUser { account: Seq<char> },
    ResolveGroup { account: Seq<char> },
    ProbePath { path: Seq<char> },
    ChangeOwner { path: Seq<char>, uid: u32, gid: u32 },
    Log { error: ErrorView },
}

impl View for Action {
    type V = ActionView;

    open spec fn view(&self) -> ActionView {
        match self {
            Action::FetchRoot { address } => ActionView::FetchRoot { address: address@ },
            Action::MakeCsr { host_id } => ActionView::MakeCsr { host_id: host_id@ },
            Action::Pair { address, root_cert, csr, credentials } => ActionView::Pair {
                address: address@,
                root_cert: root_cert@,
                csr: csr@,
                credentials: credentials@,
            },
            Action::RegisterHost {
                address,
                root_cert,
                credentials,
                host_id,
                host_name,
            } => ActionView::RegisterHost {
                address: address@,
                root_cert: root_cert@,
                credentials: credentials@,
                host_id: host_id@,
                host_name: host_name@,
            },
            Action::Persist { state } => ActionView::Persist { state: state@ },
            Action::ProbeMarker => ActionView::ProbeMarker,
            Action::RemoveMarker => ActionView::RemoveMarker,
            Action::Collect { package_name } => ActionView::Collect {
                package_name: text_view(*package_name),
            },
            Action::SendPayload { address, host_id, payload } => ActionView::SendPayload {
                address: address@,
                host_id: host_id@,
                payload: payload@,
            },
            Action::Emit { message } => ActionView::Emit { message: message@ },
            Action::WriteStdout { payload } => ActionView::WriteStdout { payload: payload@ },
            Action::WritePreamble { bytes } => ActionView::WritePreamble { bytes: bytes@ },
            Action::Handshake { identity } => ActionView::Handshake { identity: identity@ },
            Action::WriteSecure { payload } => ActionView::WriteSecure { payload: payload@ },
            Action::ResolveUser { account } => ActionView::ResolveUser { account: account@ },
            Action::ResolveGroup { account } => ActionView::ResolveGroup { account: account@ },
            Action::ProbePath { path } => ActionView::ProbePath { path: path@ },
            Action::ChangeOwner { path, uid, gid } => ActionView::ChangeOwner {
                path: path@,
                uid: *uid,
                gid: *gid,
            },
            Action::Log { error } => ActionView::Log { error: error@ },
        }
    }
}

/// How an [`Action`] ended.
#[derive(Debug, PartialEq, Eq)]
pub enum Outcome {
    /// The action failed; `cause` is the detail as the collaborator gave it.
    Failed { cause: String },
    /// The action succeeded and has nothing to hand back.
    Done,
    /// A certificate or an acknowledgment.
    Text { text: String },
    /// A signing request and the private key that belongs to it.
    Csr { csr: String, private_key: String },
    /// Monitoring data.
    Payload { bytes: Vec<u8> },
    /// The answer to a probe.
    Flag { set: bool },
    /// The numeric id of an account entry, or none where no entry exists.
    Id { id: Option<u32> },
}

/// Mathematical model of an [`Outcome`].
pub enum OutcomeView {
    Failed { cause: Seq<char> },
    Done,
    Text { text: Seq<char> },
    Csr { csr: Seq<char>, private_key: Seq<char> },
    Payload { bytes: Seq<u8> },
    Flag { set: bool },
    Id { id: Option<u32> },
}

impl View for Outcome {
    type V = OutcomeView;

    open spec fn view(&self) -> OutcomeView {
        match self {
            Outcome::Failed { cause } => OutcomeView::Failed { cause: cause@ },
            Outcome::Done => OutcomeView::Done,
            Outcome::Text { text } => OutcomeView::Text { text: text@ },
            Outcome::Csr { csr, private_key } => OutcomeView::Csr {
                csr: csr@,
                private_key: private_key@,
            },
            Outcome::Payload { bytes } => OutcomeView::Payload { bytes: bytes@ },
            Outcome::Flag { set } => OutcomeView::Flag { set: *set },
            Outcome::Id { id } => OutcomeView::Id { id: *id },
        }
    }
}

} // verus!
