use vstd::prelude::*;

verus! {

/// A route that was asked for.
pub struct Route {
    pub params: Params,
}

/// What is asked of a route.
#[derive(Debug, Clone)]
pub struct Params {
    pub host: String,
    pub path: String,
    pub port: String,
}

} // verus!
