use vstd::prelude::*;

verus! {

/// A route to a port, by host and path.
#[derive(Debug, Clone)]
pub struct Route {
    pub host: String,
    pub path: String,
    pub port: String,
}

/// What a route came to: nothing that others could use.
#[derive(Debug, Clone)]
pub struct Outputs {}

impl Route {
    /// The outputs of this route.
    pub fn outputs(&self) -> Outputs {
        Outputs {  }
    }
}

} // verus!
