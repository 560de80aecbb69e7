//! The settings of the service and the rules they have to meet.

use vstd::prelude::*;
use vstd::string::*;

pub mod server;
pub mod vnstat;

use crate::config::server::ServerConfig;
use crate::config::vnstat::VnstatConfig;

verus! {

/// Why a configuration is turned down.
#[derive(Debug, Clone, PartialEq, Eq)]
pub enum ConfigError {
    /// The listen address, given here, is not an IP address.
    InvalidListenAddress(String),
    /// No monitor executable is named.
    EmptyExecutable,
    /// The monitor executable that is named does not exist.
    MissingExecutable,
}

/// A configuration error as contracts speak of it.
pub enum ConfigErrorView {
    InvalidListenAddress(Seq<char>),
    EmptyExecutable,
    MissingExecutable,
}

impl View for ConfigError {
    type V = ConfigErrorView;

    open spec fn view(&self) -> ConfigErrorView {
        match self {
            ConfigError::InvalidListenAddress(listen) => ConfigErrorView::InvalidListenAddress(
                listen@,
            ),
            ConfigError::EmptyExecutable => ConfigErrorView::EmptyExecutable,
            ConfigError::MissingExecutable => ConfigErrorView::MissingExecutable,
        }
    }
}

impl ConfigErrorView {
    /// The sentence that reports this error.
    pub open spec fn text(self) -> Seq<char> {
        match self {
            ConfigErrorView::InvalidListenAddress(listen) => "Invalid listen address: "@ + listen,
            ConfigErrorView::EmptyExecutable => "Vnstat executable is empty"@,
            ConfigErrorView::MissingExecutable => "Vnstat executable does not exist"@,
        }
    }
}

impl ConfigError {
    /// The sentence that reports this error.
    pub fn message(&self) -> (text: String)
        ensures
            text@ == self@.text(),
    {
        match self {
            ConfigError::InvalidListenAddress(listen) => {
                let mut text = String::from_str("Invalid listen address: ");
                text.append(listen.as_str());
                text
            },
            ConfigError::EmptyExecutable => String::from_str("Vnstat executable is empty"),
            ConfigError::MissingExecutable => String::from_str("Vnstat executable does not exist"),
        }
    }
}

/// What only the machine can tell about a configuration.
#[derive(Debug, Clone, Copy, PartialEq, Eq, Structural)]
pub struct Facts {
    /// Whether the listen address reads as an IP address.
    pub listen_is_address: bool,
    /// Whether a file exists at the path of the monitor executable.
    pub executable_exists: bool,
}

/// The settings of the whole service.
#[derive(Debug)]
pub struct AppConfig {
    pub server: ServerConfig,
    pub vnstat: VnstatConfig,
}

impl AppConfig {
    /// Brings every part into its final form.
    pub fn finalize(&mut self)
        ensures
            final(self).server.listen@ == server::final_listen(old(self).server.listen@),
            final(self).server.port == old(self).server.port,
            final(self).vnstat.executable@ == old(self).vnstat.executable@,
    {
        self.server.finalize();
        self.vnstat.finalize();
    }

    /// What is wrong with these settings, the server's part first.
    pub open spec fn problem(&self, facts: Facts) -> Option<ConfigErrorView> {
        match self.server.problem(facts.listen_is_address) {
            Some(error) => Some(error),
            None => self.vnstat.problem(facts.executable_exists),
        }
    }

    /// Checks the settings against the rules, the server's part first.
    pub fn validate(&self, facts: Facts) -> (checked: Result<(), ConfigError>)
        ensures
            checked is Ok <==> self.problem(facts) is None,
            checked matches Err(error) ==> Some(error@) == self.problem(facts),
    {
        match self.server.validate(facts.listen_is_address) {
            Ok(()) => self.vnstat.validate(facts.executable_exists),
            Err(error) => Err(error),
        }
    }
}

} // verus!
