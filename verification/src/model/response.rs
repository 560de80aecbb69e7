//! Plain answers that are not monitor records.

use vstd::prelude::*;

verus! {

/// The names of the monitored interfaces.
#[derive(Debug, Clone)]
pub struct InterfacesResponse {
    pub name: Vec<String>,
}

} // verus!
