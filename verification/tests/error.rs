use cmk_agent_ctl::error::Error;

fn s(value: &str) -> String {
    value.to_string()
}

#[test]
fn configuration_errors_have_fixed_messages() {
    assert_eq!(Error::MissingAddress.message(), "Server addresses not specified.");
    assert_eq!(Error::MissingCredentials.message(), "Missing credentials for registration.");
    assert_eq!(Error::MissingHostName.message(), "Missing host name for registration");
    assert_eq!(Error::MissingAddress.cause(), None);
    assert_eq!(Error::MissingAddress.context(), "Server addresses not specified.");
}

#[test]
fn registration_errors_name_step_and_cause() {
    assert_eq!(
        Error::EstablishTrust { cause: s("refused") }.message(),
        "Error establishing trust with agent_receiver.: refused"
    );
    assert_eq!(Error::CreateCsr { cause: s("no entropy") }.message(), "Error creating CSR.: no entropy");
    assert_eq!(
        Error::Pairing { address: s("server:8000"), cause: s("403") }.message(),
        "Error pairing with server:8000: 403"
    );
    assert_eq!(
        Error::Registering { address: s("server:8000"), cause: s("404") }.message(),
        "Error registering server:8000: 404"
    );
    assert_eq!(
        Error::Persist { cause: s("disk full") }.message(),
        "Error writing registration state.: disk full"
    );
    assert_eq!(
        Error::MarkerAfterRegistration { cause: s("read-only") }.message(),
        "Registration successful, but could not delete marker for legacy pull mode: read-only"
    );
}

#[test]
fn registration_errors_keep_the_address_in_the_context() {
    let error = Error::Pairing { address: s("server:8000"), cause: s("403") };
    assert_eq!(error.context(), "Error pairing with server:8000");
    assert_eq!(error.cause(), Some(&s("403")));
    let error = Error::Registering { address: s("server:8000"), cause: s("404") };
    assert_eq!(error.context(), "Error registering server:8000");
    assert_eq!(error.cause(), Some(&s("404")));
}

#[test]
fn transport_errors_name_step_and_cause() {
    assert_eq!(
        Error::PushCollect { cause: s("x") }.message(),
        "Error collecting monitoring data: x"
    );
    assert_eq!(Error::Push { cause: s("x") }.message(), "Error pushing monitoring data.: x");
    assert_eq!(Error::Collect { cause: s("x") }.message(), "Error collecting monitoring data.: x");
    assert_eq!(
        Error::WriteStdout { cause: s("x") }.message(),
        "Error writing monitoring data to stdout.: x"
    );
    assert_eq!(Error::Transport { cause: s("x") }.message(), "Error writing to transport stream.: x");
    assert_eq!(Error::InitTls { cause: s("x") }.message(), "Could not initialize TLS.: x");
    assert_eq!(
        Error::MarkerAfterPull { cause: s("x") }.message(),
        "Just provided agent data via TLS, but legacy pull mode is still allowed, and could not delete marker: x"
    );
}

#[test]
fn mode_errors_have_fixed_messages() {
    assert_eq!(Error::StatusNotImplemented.message(), "Status mode not yet implemented");
    assert_eq!(Error::InvalidMode { mode: s("foo") }.message(), "Invalid mode: foo");
    assert_eq!(Error::InvalidMode { mode: s("") }.message(), "Invalid mode: ");
    assert_eq!(
        Error::UnexpectedOutcome.message(),
        "Outcome does not answer the pending action."
    );
    assert_eq!(Error::StatusNotImplemented.cause(), None);
    assert_eq!(Error::InvalidMode { mode: s("foo") }.cause(), None);
}

#[test]
fn hygiene_errors_name_path_and_account() {
    assert_eq!(
        Error::UserNotFound { account: s("cmk-agent") }.message(),
        "Could not find user cmk-agent"
    );
    assert_eq!(
        Error::GroupNotFound { account: s("cmk-agent") }.message(),
        "Could not find group cmk-agent"
    );
    assert_eq!(
        Error::AccountLookup { account: s("cmk-agent"), cause: s("EIO") }.message(),
        "Could not look up account cmk-agent: EIO"
    );
    assert_eq!(
        Error::Ownership { path: s("/var/lib/cmk-agent"), account: s("cmk-agent"), cause: s("EPERM") }
            .message(),
        "Failed to set ownership of /var/lib/cmk-agent to cmk-agent: EPERM"
    );
    assert_eq!(
        Error::Ownership { path: s("/var/lib/cmk-agent"), account: s("cmk-agent"), cause: s("EPERM") }
            .context(),
        "Failed to set ownership of /var/lib/cmk-agent to cmk-agent"
    );
}

#[test]
fn every_cause_is_handed_back_as_it_came() {
    let cause = s("receiver said: \"certificate expired\"\nsecond line");
    let errors = vec![
        Error::EstablishTrust { cause: cause.clone() },
        Error::CreateCsr { cause: cause.clone() },
        Error::Pairing { address: s("a"), cause: cause.clone() },
        Error::Registering { address: s("a"), cause: cause.clone() },
        Error::Persist { cause: cause.clone() },
        Error::MarkerAfterRegistration { cause: cause.clone() },
        Error::PushCollect { cause: cause.clone() },
        Error::Push { cause: cause.clone() },
        Error::Collect { cause: cause.clone() },
        Error::WriteStdout { cause: cause.clone() },
        Error::Transport { cause: cause.clone() },
        Error::InitTls { cause: cause.clone() },
        Error::MarkerAfterPull { cause: cause.clone() },
        Error::AccountLookup { account: s("a"), cause: cause.clone() },
        Error::Ownership { path: s("p"), account: s("a"), cause: cause.clone() },
    ];
    for error in errors {
        assert_eq!(error.cause(), Some(&cause));
        assert_eq!(error.message(), format!("{}: {}", error.context(), cause));
    }
}
