use vstd::prelude::*;

verus! {

/// A DNS name that was asked for, with what came of it.
pub struct Dns {
    pub params: Params,
    pub outputs: Outputs,
}

/// What is asked of a DNS name.
#[derive(Debug, Clone)]
pub struct Params {
    pub subdomain: Option<String>,
}

/// What a DNS name came to.
#[derive(Debug, Clone)]
pub struct Outputs {
    pub host: String,
}

impl Dns {
    /// The DNS name for `params`: its host is the subdomain asked for, or
    /// empty where none is.
    pub fn new(params: Params) -> (r: Self)
        ensures
            r.params == params,
            r.outputs.host@ == match params.subdomain {
                Some(s) => s@,
                None => Seq::<char>::empty(),
            },
    {
        let host = match &params.subdomain {
            Some(s) => s.clone(),
            None => String::new(),
        };
        Dns { params, outputs: Outputs { host } }
    }

    /// The resources that a DNS name needs: none.
    pub fn resources(&self) -> (r: Option<Vec<String>>)
        ensures
            r is None,
    {
        None
    }
}

} // verus!
