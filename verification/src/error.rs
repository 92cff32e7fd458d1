//! The failures that a workflow can end with. Each names the step that
//! failed and keeps the underlying cause as it was reported.

use vstd::prelude::*;
use vstd::string::StringExecFns;

verus! {

/// Why a workflow failed.
#[derive(Debug, PartialEq, Eq)]
pub enum Error {
    /// The configuration names no receiver address.
    MissingAddress,
    /// The configuration holds no pairing credentials.
    MissingCredentials,
    /// The configuration holds no host name.
    MissingHostName,
    /// The root of trust could not be fetched from the receiver.
    EstablishTrust { cause: String },
    /// No key and signing request could be generated.
    CreateCsr { cause: String },
    /// The receiver at `address` did not issue a certificate.
    Pairing { address: String, cause: String },
    /// The receiver at `address` did not bind the certificate to the host name.
    Registering { address: String, cause: String },
    /// The trust store could not be written.
    Persist { cause: String },
    /// The registration succeeded, but the legacy marker could not be removed.
    MarkerAfterRegistration { cause: String },
    /// No monitoring data could be collected for a push.
    PushCollect { cause: String },
    /// A receiver did not take the monitoring data.
    Push { cause: String },
    /// No monitoring data could be collected.
    Collect { cause: String },
    /// The monitoring data could not be written to standard output.
    WriteStdout { cause: String },
    /// A write to the transport stream failed.
    Transport { cause: String },
    /// No encrypted session could be set up.
    InitTls { cause: String },
    /// The data went out encrypted, but the legacy marker could not be removed.
    MarkerAfterPull { cause: String },
    /// The `status` mode does nothing yet.
    StatusNotImplemented,
    /// The mode is none of the known ones.
    InvalidMode { mode: String },
    /// An outcome was handed in that does not answer the pending action.
    UnexpectedOutcome,
    /// The service account has no user entry.
    UserNotFound { account: String },
    /// The service account has no group entry.
    GroupNotFound { account: String },
    /// The service account could not be looked up.
    AccountLookup { account: String, cause: String },
    /// The owner of `path` could not be changed to the service account.
    Ownership { path: String, account: String, cause: String },
}

/// Mathematical model of an [`Error`].
pub enum ErrorView {
    MissingAddress,
    MissingCredentials,
    MissingHostName,
    EstablishTrust { cause: Seq<char> },
    CreateCsr { cause: Seq<char> },
    Pairing { address: Seq<char>, cause: Seq<char> },
    Registering { address: Seq<char>, cause: Seq<char> },
    Persist { cause: Seq<char> },
    MarkerAfterRegistration { cause: Seq<char> },
    PushCollect { cause: Seq<char> },
    Push { cause: Seq<char> },
    Collect { cause: Seq<char> },
    WriteStdout { cause: Seq<char> },
    Transport { cause: Seq<char> },
    InitTls { cause: Seq<char> },
    MarkerAfterPull { cause: Seq<char> },
    StatusNotImplemented,
    InvalidMode { mode: Seq<char> },
    UnexpectedOutcome,
    UserNotFound { account: Seq<char> },
    GroupNotFound { account: Seq<char> },
    AccountLookup { account: Seq<char>, cause: Seq<char> },
    Ownership { path: Seq<char>, account: Seq<char>, cause: Seq<char> },
}

impl View for Error {
    type V = ErrorView;

    open spec fn view(&self) -> ErrorView {
        match self {
            Error::MissingAddress => ErrorView::MissingAddress,
            Error::MissingCredentials => ErrorView::MissingCredentials,
            Error::MissingHostName => ErrorView::MissingHostName,
            Error::EstablishTrust { cause } => ErrorView::EstablishTrust { cause: cause@ },
            Error::CreateCsr { cause } => ErrorView::CreateCsr { cause: cause@ },
            Error::Pairing { address, cause } => ErrorView::Pairing {
                address: address@,
                cause: cause@,
            },
            Error::Registering { address, cause } => ErrorView::Registering {
                address: address@,
                cause: cause@,
            },
            Error::Persist { cause } => ErrorView::Persist { cause: cause@ },
            Error::MarkerAfterRegistration { cause } => ErrorView::MarkerAfterRegistration {
                cause: cause@,
            },
            Error::PushCollect { cause } => ErrorView::PushCollect { cause: cause@ },
            Error::Push { cause } => ErrorView::Push { cause: cause@ },
            Error::Collect { cause } => ErrorView::Collect { cause: cause@ },
            Error::WriteStdout { cause } => ErrorView::WriteStdout { cause: cause@ },
            Error::Transport { cause } => ErrorView::Transport { cause: cause@ },
            Error::InitTls { cause } => ErrorView::InitTls { cause: cause@ },
            Error::MarkerAfterPull { cause } => ErrorView::MarkerAfterPull { cause: cause@ },
            Error::StatusNotImplemented => ErrorView::StatusNotImplemented,
            Error::InvalidMode { mode } => ErrorView::InvalidMode { mode: mode@ },
            Error::UnexpectedOutcome => ErrorView::UnexpectedOutcome,
            Error::UserNotFound { account } => ErrorView::UserNotFound { account: account@ },
            Error::GroupNotFound { account } => ErrorView::GroupNotFound { account: account@ },
            Error::AccountLookup { account, cause } => ErrorView::AccountLookup {
                account: account@,
                cause: cause@,
            },
            Error::Ownership { path, account, cause } => ErrorView::Ownership {
                path: path@,
                account: account@,
                cause: cause@,
            },
        }
    }
}

/// The model of a workflow's result.
pub open spec fn result_view(result: Result<(), Error>) -> Result<(), ErrorView> {
    match result {
        Ok(_) => Ok(()),
        Err(error) => Err(error@),
    }
}

impl ErrorView {
    /// The description of the step that failed.
    pub open spec fn context(self) -> Seq<char> {
        match self {
            ErrorView::MissingAddress => "Server addresses not specified."@,
            ErrorView::MissingCredentials => "Missing credentials for registration."@,
            ErrorView::MissingHostName => "Missing host name for registration"@,
            ErrorView::EstablishTrust { .. } => "Error establishing trust with agent_receiver."@,
            ErrorView::CreateCsr { .. } => "Error creating CSR."@,
            ErrorView::Pairing { address, .. } => "Error pairing with "@ + address,
            ErrorView::Registering { address, .. } => "Error registering "@ + address,
            ErrorView::Persist { .. } => "Error writing registration state."@,
            ErrorView::MarkerAfterRegistration { .. } =>
                "Registration successful, but could not delete marker for legacy pull mode"@,
            ErrorView::PushCollect { .. } => "Error collecting monitoring data"@,
            ErrorView::Push { .. } => "Error pushing monitoring data."@,
            ErrorView::Collect { .. } => "Error collecting monitoring data."@,
            ErrorView::WriteStdout { .. } => "Error writing monitoring data to stdout."@,
            ErrorView::Transport { .. } => "Error writing to transport stream."@,
            ErrorView::InitTls { .. } => "Could not initialize TLS."@,
            ErrorView::MarkerAfterPull { .. } =>
                "Just provided agent data via TLS, but legacy pull mode is still allowed, and could not delete marker"@,
            ErrorView::StatusNotImplemented => "Status mode not yet implemented"@,
            ErrorView::InvalidMode { mode } => "Invalid mode: "@ + mode,
            ErrorView::UnexpectedOutcome => "Outcome does not answer the pending action."@,
            ErrorView::UserNotFound { account } => "Could not find user "@ + account,
            ErrorView::GroupNotFound { account } => "Could not find group "@ + account,
            ErrorView::AccountLookup { account, .. } => "Could not look up account "@ + account,
            ErrorView::Ownership { path, account, .. } => "Failed to set ownership of "@ + path
                + " to "@ + account,
        }
    }

    /// The underlying cause, as it was reported, where there is one.
    pub open spec fn cause(self) -> Option<Seq<char>> {
        match self {
            ErrorView::EstablishTrust { cause } => Some(cause),
            ErrorView::CreateCsr { cause } => Some(cause),
            ErrorView::Pairing { cause, .. } => Some(cause),
            ErrorView::Registering { cause, .. } => Some(cause),
            ErrorView::Persist { cause } => Some(cause),
            ErrorView::MarkerAfterRegistration { cause } => Some(cause),
            ErrorView::PushCollect { cause } => Some(cause),
            ErrorView::Push { cause } => Some(cause),
            ErrorView::Collect { cause } => Some(cause),
            ErrorView::WriteStdout { cause } => Some(cause),
            ErrorView::Transport { cause } => Some(cause),
            ErrorView::InitTls { cause } => Some(cause),
            ErrorView::MarkerAfterPull { cause } => Some(cause),
            ErrorView::AccountLookup { cause, .. } => Some(cause),
            ErrorView::Ownership { cause, .. } => Some(cause),
            _ => None,
        }
    }

    /// The whole message: the description of the step, then a colon and the
    /// cause where there is one.
    pub open spec fn message(self) -> Seq<char> {
        match self.cause() {
            Some(cause) => self.context() + ": "@ + cause,
            None => self.context(),
        }
    }
}

/// `head` followed by `tail`.
fn joined(head: &str, tail: &String) -> (r: String)
    ensures
        r@ == head@ + tail@,
{
    let mut text = String::from_str(head);
    text.append(tail.as_str());
    text
}

impl Error {
    /// The description of the step that failed.
    pub fn context(&self) -> (r: String)
        ensures
            r@ == self@.context(),
    {
        match self {
            Error::MissingAddress => String::from_str("Server addresses not specified."),
            Error::MissingCredentials => String::from_str("Missing credentials for registration."),
            Error::MissingHostName => String::from_str("Missing host name for registration"),
            Error::EstablishTrust { .. } => String::from_str(
                "Error establishing trust with agent_receiver.",
            ),
            Error::CreateCsr { .. } => String::from_str("Error creating CSR."),
            Error::Pairing { address, .. } => joined("Error pairing with ", address),
            Error::Registering { address, .. } => joined("Error registering ", address),
            Error::Persist { .. } => String::from_str("Error writing registration state."),
            Error::MarkerAfterRegistration { .. } => String::from_str(
                "Registration successful, but could not delete marker for legacy pull mode",
            ),
            Error::PushCollect { .. } => String::from_str("Error collecting monitoring data"),
            Error::Push { .. } => String::from_str("Error pushing monitoring data."),
            Error::Collect { .. } => String::from_str("Error collecting monitoring data."),
            Error::WriteStdout { .. } => String::from_str(
                "Error writing monitoring data to stdout.",
            ),
            Error::Transport { .. } => String::from_str("Error writing to transport stream."),
            Error::InitTls { .. } => String::from_str("Could not initialize TLS."),
            Error::MarkerAfterPull { .. } => String::from_str(
                "Just provided agent data via TLS, but legacy pull mode is still allowed, and could not delete marker",
            ),
            Error::StatusNotImplemented => String::from_str("Status mode not yet implemented"),
            Error::InvalidMode { mode } => joined("Invalid mode: ", mode),
            Error::UnexpectedOutcome => String::from_str(
                "Outcome does not answer the pending action.",
            ),
            Error::UserNotFound { account } => joined("Could not find user ", account),
            Error::GroupNotFound { account } => joined("Could not find group ", account),
            Error::AccountLookup { account, .. } => joined("Could not look up account ", account),
            Error::Ownership { path, account, .. } => {
                let mut text = joined("Failed to set ownership of ", path);
                text.append(" to ");
                text.append(account.as_str());
                text
            },
        }
    }

    /// The underlying cause, as it was reported, where there is one.
    pub fn cause(&self) -> (r: Option<&String>)
        ensures
            match r {
                Some(cause) => self@.cause() == Some(cause@),
                None => self@.cause() is None,
            },
    {
        match self {
            Error::EstablishTrust { cause } => Some(cause),
            Error::CreateCsr { cause } => Some(cause),
            Error::Pairing { cause, .. } => Some(cause),
            Error::Registering { cause, .. } => Some(cause),
            Error::Persist { cause } => Some(cause),
            Error::MarkerAfterRegistration { cause } => Some(cause),
            Error::PushCollect { cause } => Some(cause),
            Error::Push { cause } => Some(cause),
            Error::Collect { cause } => Some(cause),
            Error::WriteStdout { cause } => Some(cause),
            Error::Transport { cause } => Some(cause),
            Error::InitTls { cause } => Some(cause),
            Error::MarkerAfterPull { cause } => Some(cause),
            Error::AccountLookup { cause, .. } => Some(cause),
            Error::Ownership { cause, .. } => Some(cause),
            _ => None,
        }
    }

    /// The whole message: the description of the step, then a colon and the
    /// cause where there is one.
    pub fn message(&self) -> (r: String)
        ensures
            r@ == self@.message(),
    {
        let mut text = self.context();
        match self.cause() {
            Some(cause) => {
                text.append(": ");
                text.append(cause.as_str());
            },
            None => {},
        }
        text
    }
}

} // verus!
