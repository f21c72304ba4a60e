use vstd::prelude::*;

verus! {

/// The versions of the configuration format.
#[derive(Debug, Clone)]
pub enum ApiVersion {
    V1beta1,
}

} // verus!
