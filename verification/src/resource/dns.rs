use vstd::prelude::*;
use vstd::string::StringExecFns;

verus! {

/// A DNS name under the local domain.
#[derive(Debug, Clone)]
pub struct Dns {
    pub subdomain: Option<String>,
}

/// What a DNS name came to.
#[derive(Debug, Clone)]
pub struct Outputs {
    pub host: String,
}

/// The host of a subdomain: the subdomain under `.localhost`, or a fixed
/// stand-in where no subdomain is given.
pub open spec fn host_of(subdomain: Option<String>) -> Seq<char> {
    match subdomain {
        Some(s) => s@ + ".localhost"@,
        None => "todogeneratedomainhere.localhost"@,
    }
}

impl Dns {
    /// The host of this name.
    pub fn outputs(&self) -> (r: Outputs)
        ensures
            r.host@ == host_of(self.subdomain),
    {
        match &self.subdomain {
            Some(subdomain) => Outputs { host: subdomain.clone().concat(".localhost") },
            None => Outputs { host: "todogeneratedomainhere.localhost".to_string() },
        }
    }
}

} // verus!
