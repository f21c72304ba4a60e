use crate::generators::common::generate_overlaid_metadata;
use crate::generators::common::overlaid_metadata_of;
use crate::generators::ResourceGenerator;
use crate::manifest::ObjectReference;
use crate::manifest::ObjectReferenceView;
use crate::manifest::ServiceAccount;
use crate::manifest::ServiceAccountView;
use crate::named::lookup;
use crate::values::Values;
use vstd::prelude::*;

verus! {

/// The generator of service accounts, from the service account entries of
/// the configuration.
pub struct ServiceAccountGenerator;

/// References to the named secrets, in their order, or nothing where no
/// secret is named.
pub open spec fn secret_references_of(secrets: Seq<Seq<char>>) -> Option<Seq<ObjectReferenceView>> {
    if secrets.len() == 0 {
        None
    } else {
        Some(Seq::new(secrets.len(), |i: int| ObjectReferenceView { name: Some(secrets[i]) }))
    }
}

/// The service account of the entry `account`, entered under `name`:
/// nothing where the entry is disabled.
pub open spec fn service_account_for(
    values: Values,
    name: Seq<char>,
    account: crate::values::ServiceAccount,
) -> Option<ServiceAccountView> {
    if !account.enabled {
        None
    } else {
        Some(
            ServiceAccountView {
                metadata: overlaid_metadata_of(
                    values,
                    name,
                    "serviceaccount"@,
                    account.labels@,
                    account.annotations@,
                ),
                automount_service_account_token: account.automount_service_account_token,
                secrets: secret_references_of(account.secrets.deep_view()),
            },
        )
    }
}

/// The service account that the configuration yields for the entry `name`:
/// nothing where there is no such entry or it is disabled.
pub open spec fn service_account_of(values: Values, name: Seq<char>) -> Option<ServiceAccountView> {
    match lookup(values.service_account@, name) {
        Some(account) => service_account_for(values, name, account),
        None => None,
    }
}

fn secret_references(secrets: &Vec<String>) -> (r: Option<Vec<ObjectReference>>)
    ensures
        r.deep_view() == secret_references_of(secrets.deep_view()),
{
    let n: usize = secrets.len();
    if n == 0 {
        return None;
    }
    let mut out: Vec<ObjectReference> = Vec::new();
    let mut i: usize = 0;
    while i < n
        invariant
            n == secrets@.len(),
            i <= n,
            out@.len() == i,
            forall|j: int|
                0 <= j < i ==> (#[trigger] out@[j])@ == (ObjectReferenceView {
                    name: Some(secrets@[j]@),
                }),
        decreases n - i,
    {
        out.push(ObjectReference { name: Some(secrets[i].clone()) });
        i += 1;
    }
    Some(out)
}

impl ResourceGenerator for ServiceAccountGenerator {
    type Output = ServiceAccount;

    /// The service account of the entry `name`.
    fn generate(&self, values: &Values, name: &str) -> (r: Option<ServiceAccount>)
        ensures
            r.deep_view() == service_account_of(*values, name@),
    {
        match values.service_account.get(name) {
            Some(account) => {
                if !account.enabled {
                    return None;
                }
                let metadata = generate_overlaid_metadata(
                    values,
                    name,
                    "serviceaccount",
                    &account.labels,
                    &account.annotations,
                );
                Some(
                    ServiceAccount {
                        metadata,
                        automount_service_account_token: account.automount_service_account_token,
                        secrets: secret_references(&account.secrets),
                    },
                )
            },
            None => None,
        }
    }
}

} // verus!
