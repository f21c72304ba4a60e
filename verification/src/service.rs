use crate::named::Named;
use vstd::prelude::*;

verus! {

/// A service in its shortest form: its named ports.
#[derive(Debug, Clone)]
pub struct Service {
    pub ports: Named<Port>,
}

/// A port number with its protocol.
#[derive(Debug, Clone)]
pub struct Port {
    pub port: i32,
    pub protocol: Option<String>,
}

} // verus!
