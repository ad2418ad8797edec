//! Settings shared by every http client, so that all requests are made
//! with one uniform configuration.

use vstd::prelude::*;

verus! {

/// Settings for http clients
///
/// Any settings that should apply to all http requests should
/// be stored here, to avoid different configurations.
#[derive(Debug, Clone, Copy, PartialEq, Eq)]
pub struct ClientSettings {}

impl ClientSettings {
    /// Create new ClientSettings using all necessary values
    pub fn new() -> (r: Self)
        ensures
            r == (ClientSettings {  }),
    {
        ClientSettings {  }
    }
}

impl Default for ClientSettings {
    fn default() -> (r: Self)
        ensures
            r == (ClientSettings {  }),
    {
        ClientSettings {  }
    }
}

} // verus!
