//! Where the service listens.

use vstd::prelude::*;
use vstd::string::*;
use crate::config::{ConfigError, ConfigErrorView};

verus! {

/// The address and port to listen on.
#[derive(Debug)]
pub struct ServerConfig {
    pub listen: String,
    pub port: u16,
}

/// The lower-case form of an ASCII capital; every other character as it is.
pub open spec fn ascii_lower(c: char) -> char {
    if 'A' <= c && c <= 'Z' {
        ((c as u8 + 32) as u8) as char
    } else {
        c
    }
}

/// Whether two texts are the same but for the case of their ASCII letters.
pub open spec fn same_ignoring_ascii_case(a: Seq<char>, b: Seq<char>) -> bool {
    &&& a.len() == b.len()
    &&& forall|i: int| 0 <= i < a.len() ==> ascii_lower(#[trigger] a[i]) == ascii_lower(b[i])
}

/// The listen address in its final form: the name of the local host, in any
/// case, becomes the loopback address.
pub open spec fn final_listen(listen: Seq<char>) -> Seq<char> {
    if same_ignoring_ascii_case(listen, "localhost"@) {
        "127.0.0.1"@
    } else {
        listen
    }
}

/// Calls `str::eq_ignore_ascii_case`, which compares two strings as if their
/// ASCII letters were all of one case and every other character as it is.
#[verifier::external_body]
fn matches_ignoring_case(a: &str, b: &str) -> (same: bool)
    ensures
        same == same_ignoring_ascii_case(a@, b@),
{
    a.eq_ignore_ascii_case(b)
}

/// The address to listen on when none is given.
pub fn default_listen() -> (listen: String)
    ensures
        listen@ == "0.0.0.0"@,
{
    String::from_str("0.0.0.0")
}

/// The port to listen on when none is given.
pub fn default_port() -> (port: u16)
    ensures
        port == 3000,
{
    3000
}

impl Default for ServerConfig {
    fn default() -> (config: ServerConfig)
        ensures
            config.listen@ == "0.0.0.0"@,
            config.port == 3000,
    {
        ServerConfig { listen: default_listen(), port: default_port() }
    }
}

impl ServerConfig {
    /// Replaces the name of the local host by the loopback address.
    pub fn finalize(&mut self)
        ensures
            final(self).listen@ == final_listen(old(self).listen@),
            final(self).port == old(self).port,
    {
        if matches_ignoring_case(self.listen.as_str(), "localhost") {
            self.listen = String::from_str("127.0.0.1");
        }
    }

    /// What is wrong with these settings, given whether the listen address
    /// reads as an IP address.
    pub open spec fn problem(&self, listen_is_address: bool) -> Option<ConfigErrorView> {
        if listen_is_address {
            None
        } else {
            Some(ConfigErrorView::InvalidListenAddress(self.listen@))
        }
    }

    /// Turns the settings down unless the listen address is an IP address.
    pub fn validate(&self, listen_is_address: bool) -> (checked: Result<(), ConfigError>)
        ensures
            checked is Ok <==> self.problem(listen_is_address) is None,
            checked matches Err(error) ==> Some(error@) == self.problem(listen_is_address),
    {
        if listen_is_address {
            Ok(())
        } else {
            Err(ConfigError::InvalidListenAddress(self.listen.clone()))
        }
    }
}

} // verus!
