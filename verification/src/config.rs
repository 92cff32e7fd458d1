//! The configuration of one invocation. Every field is optional; a workflow
//! that needs an absent field fails with an error that names it.

use vstd::prelude::*;

verus! {

/// What the configuration file and the command line say.
#[derive(Debug, PartialEq, Eq)]
pub struct Config {
    /// Network address of the receiver.
    pub agent_receiver_address: Option<String>,
    /// Selects the source of the monitoring data.
    pub package_name: Option<String>,
    /// One-time credentials for pairing.
    pub credentials: Option<String>,
    /// Root of trust that the operator pinned.
    pub root_certificate: Option<String>,
    /// Name under which the receiver knows this host.
    pub host_name: Option<String>,
}

/// Mathematical model of a [`Config`].
pub struct ConfigView {
    pub agent_receiver_address: Option<Seq<char>>,
    pub package_name: Option<Seq<char>>,
    pub credentials: Option<Seq<char>>,
    pub root_certificate: Option<Seq<char>>,
    pub host_name: Option<Seq<char>>,
}

/// The model of an optional text.
pub open spec fn text_view(text: Option<String>) -> Option<Seq<char>> {
    match text {
        Some(t) => Some(t@),
        None => None,
    }
}

impl View for Config {
    type V = ConfigView;

    open spec fn view(&self) -> ConfigView {
        ConfigView {
            agent_receiver_address: text_view(self.agent_receiver_address),
            package_name: text_view(self.package_name),
            credentials: text_view(self.credentials),
            root_certificate: text_view(self.root_certificate),
            host_name: text_view(self.host_name),
        }
    }
}

/// The first setting where it is given, else the second.
pub open spec fn preferred(first: Option<Seq<char>>, second: Option<Seq<char>>) -> Option<
    Seq<char>,
> {
    if first is Some {
        first
    } else {
        second
    }
}

impl ConfigView {
    /// The configuration without any setting.
    pub open spec fn empty() -> ConfigView {
        ConfigView {
            agent_receiver_address: None,
            package_name: None,
            credentials: None,
            root_certificate: None,
            host_name: None,
        }
    }

    /// This configuration, with each setting it lacks taken from `fallback`.
    pub open spec fn or(self, fallback: ConfigView) -> ConfigView {
        ConfigView {
            agent_receiver_address: preferred(
                self.agent_receiver_address,
                fallback.agent_receiver_address,
            ),
            package_name: preferred(self.package_name, fallback.package_name),
            credentials: preferred(self.credentials, fallback.credentials),
            root_certificate: preferred(self.root_certificate, fallback.root_certificate),
            host_name: preferred(self.host_name, fallback.host_name),
        }
    }
}

/// A copy of an optional text.
pub fn copy_text(text: &Option<String>) -> (r: Option<String>)
    ensures
        text_view(r) == text_view(*text),
{
    match text {
        Some(t) => Some(t.clone()),
        None => None,
    }
}

/// The first setting where it is given, else the second.
fn prefer(first: Option<String>, second: Option<String>) -> (r: Option<String>)
    ensures
        text_view(r) == preferred(text_view(first), text_view(second)),
{
    match first {
        Some(t) => Some(t),
        None => second,
    }
}

impl Config {
    /// The configuration without any setting.
    pub fn empty() -> (r: Config)
        ensures
            r@ == ConfigView::empty(),
    {
        Config {
            agent_receiver_address: None,
            package_name: None,
            credentials: None,
            root_certificate: None,
            host_name: None,
        }
    }
}

/// The configuration of this invocation: each setting as the command line
/// gives it, and where the command line is silent, as the file gives it.
pub fn get_configuration(from_file: Config, from_args: Config) -> (r: Config)
    ensures
        r@ == from_args@.or(from_file@),
{
    Config {
        agent_receiver_address: prefer(
            from_args.agent_receiver_address,
            from_file.agent_receiver_address,
        ),
        package_name: prefer(from_args.package_name, from_file.package_name),
        credentials: prefer(from_args.credentials, from_file.credentials),
        root_certificate: prefer(from_args.root_certificate, from_file.root_certificate),
        host_name: prefer(from_args.host_name, from_file.host_name),
    }
}

} // verus!
