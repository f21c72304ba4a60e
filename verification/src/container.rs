use vstd::prelude::*;

verus! {

/// A container in its shortest form: an image and what to run in it.
#[derive(Debug, Clone)]
pub struct Container {
    pub image: String,
    pub command: Option<Vec<String>>,
    pub args: Option<Vec<String>>,
}

} // verus!
