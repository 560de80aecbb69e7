//! Where the traffic monitor is found.

use vstd::prelude::*;
use vstd::string::*;
use crate::config::{ConfigError, ConfigErrorView};

verus! {

/// The path of the monitor executable.
#[derive(Debug)]
pub struct VnstatConfig {
    pub executable: String,
}

/// The path of the monitor executable when none is given.
pub fn default_executable() -> (executable: String)
    ensures
        executable@ == "/usr/bin/vnstat"@,
{
    String::from_str("/usr/bin/vnstat")
}

impl Default for VnstatConfig {
    fn default() -> (config: VnstatConfig)
        ensures
            config.executable@ == "/usr/bin/vnstat"@,
    {
        VnstatConfig { executable: default_executable() }
    }
}

impl VnstatConfig {
    /// These settings are final as they are read.
    pub fn finalize(&mut self)
        ensures
            *final(self) == *old(self),
    {
    }

    /// What is wrong with these settings, given whether a file exists at the
    /// path: an empty path first, then a path without a file.
    pub open spec fn problem(&self, executable_exists: bool) -> Option<ConfigErrorView> {
        if self.executable@.len() == 0 {
            Some(ConfigErrorView::EmptyExecutable)
        } else if !executable_exists {
            Some(ConfigErrorView::MissingExecutable)
        } else {
            None
        }
    }

    /// Turns the settings down if no executable is named or none exists there.
    pub fn validate(&self, executable_exists: bool) -> (checked: Result<(), ConfigError>)
        ensures
            checked is Ok <==> self.problem(executable_exists) is None,
            checked matches Err(error) ==> Some(error@) == self.problem(executable_exists),
    {
        if self.executable.as_str().is_empty() {
            Err(ConfigError::EmptyExecutable)
        } else if !executable_exists {
            Err(ConfigError::MissingExecutable)
        } else {
            Ok(())
        }
    }
}

} // verus!
