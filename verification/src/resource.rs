pub mod dns;
pub mod route;

use vstd::prelude::*;

verus! {

/// What a provisioned resource came to.
#[derive(Debug)]
pub enum ResourceOutputs {
    Dns(dns::Outputs),
    Route(route::Outputs),
}

} // verus!
