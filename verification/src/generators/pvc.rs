use crate::generators::common::generate_overlaid_metadata;
use crate::generators::common::overlaid_metadata_of;
use crate::generators::ResourceGenerator;
use crate::manifest::PersistentVolumeClaim;
use crate::manifest::PersistentVolumeClaimSpec;
use crate::manifest::PersistentVolumeClaimSpecView;
use crate::manifest::PersistentVolumeClaimView;
use crate::manifest::VolumeResourceRequirements;
use crate::manifest::VolumeResourceRequirementsView;
use crate::named::lookup;
use crate::payload::local_object_reference_in;
use crate::payload::object_reference_in;
use crate::payload::read_local_object_reference;
use crate::payload::read_object_reference;
use crate::string_map::StringMap;
use crate::text::copy_text;
use crate::text::copy_text_list;
use crate::text::same_text;
use crate::values::PersistenceItem;
use crate::values::Values;
use serde_json::Value;
use vstd::prelude::*;

verus! {

/// The generator of persistent volume claims, from the persistence entries
/// of the configuration.
pub struct PvcGenerator;

/// The access modes of a claim: the configured ones, or a single writer
/// where none is configured.
pub open spec fn access_modes_of(modes: Seq<Seq<char>>) -> Seq<Seq<char>> {
    if modes.len() == 0 {
        seq!["ReadWriteOnce"@]
    } else {
        modes
    }
}

/// The storage that a claim asks for: the configured size, where there is one.
pub open spec fn storage_request_of(size: Option<String>) -> VolumeResourceRequirementsView {
    VolumeResourceRequirementsView {
        requests: match size {
            Some(s) => Some(Map::empty().insert("storage"@, s@)),
            None => None,
        },
    }
}

/// What reading an optional payload as a data source gives.
pub open spec fn data_source_of(payload: Option<Value>) -> Option<
    k8s_openapi::api::core::v1::TypedLocalObjectReference,
> {
    match payload {
        Some(p) => local_object_reference_in(p),
        None => None,
    }
}

/// What reading an optional payload as a data source reference gives.
pub open spec fn data_source_ref_of(payload: Option<Value>) -> Option<
    k8s_openapi::api::core::v1::TypedObjectReference,
> {
    match payload {
        Some(p) => object_reference_in(p),
        None => None,
    }
}

/// The claim of the entry `item`, entered under `name`, given what its data
/// source payloads were read as: nothing where the entry is disabled or not
/// of the claim kind.
pub open spec fn claim_with(
    values: Values,
    name: Seq<char>,
    item: PersistenceItem,
    data_source: Option<k8s_openapi::api::core::v1::TypedLocalObjectReference>,
    data_source_ref: Option<k8s_openapi::api::core::v1::TypedObjectReference>,
) -> Option<PersistentVolumeClaimView> {
    if !item.enabled || item.type_@ != "pvc"@ {
        None
    } else {
        Some(
            PersistentVolumeClaimView {
                metadata: overlaid_metadata_of(
                    values,
                    name,
                    "pvc"@,
                    item.labels@,
                    item.annotations@,
                ),
                spec: Some(
                    PersistentVolumeClaimSpecView {
                        access_modes: Some(access_modes_of(item.access_modes.deep_view())),
                        resources: Some(storage_request_of(item.size)),
                        storage_class_name: item.storage_class.deep_view(),
                        data_source: data_source,
                        data_source_ref: data_source_ref,
                    },
                ),
            },
        )
    }
}

/// The claim that the configuration yields for the entry `name`: nothing
/// where there is no such entry, or it is disabled or not of the claim kind.
pub open spec fn claim_of(values: Values, name: Seq<char>) -> Option<PersistentVolumeClaimView> {
    match lookup(values.persistence@, name) {
        Some(item) => claim_with(
            values,
            name,
            item,
            data_source_of(item.data_source),
            data_source_ref_of(item.data_source_ref),
        ),
        None => None,
    }
}

fn access_modes(modes: &Vec<String>) -> (r: Vec<String>)
    ensures
        r.deep_view() == access_modes_of(modes.deep_view()),
{
    if modes.len() == 0 {
        let mut single: Vec<String> = Vec::new();
        single.push("ReadWriteOnce".to_string());
        single
    } else {
        copy_text_list(modes)
    }
}

fn storage_request(size: &Option<String>) -> (r: VolumeResourceRequirements)
    ensures
        r@ == storage_request_of(*size),
{
    match size {
        Some(s) => {
            let mut requests = StringMap::new();
            requests.insert("storage".to_string(), s.clone());
            VolumeResourceRequirements { requests: Some(requests) }
        },
        None => VolumeResourceRequirements { requests: None },
    }
}

/// The claim of the entry `item`, entered under `name`, given what its data
/// source payloads were read as.
pub fn assemble_claim(
    values: &Values,
    name: &str,
    item: &PersistenceItem,
    data_source: Option<k8s_openapi::api::core::v1::TypedLocalObjectReference>,
    data_source_ref: Option<k8s_openapi::api::core::v1::TypedObjectReference>,
) -> (r: Option<PersistentVolumeClaim>)
    ensures
        r.deep_view() == claim_with(*values, name@, *item, data_source, data_source_ref),
{
    if !item.enabled || !same_text(item.type_.as_str(), "pvc") {
        return None;
    }
    let metadata = generate_overlaid_metadata(values, name, "pvc", &item.labels, &item.annotations);
    let spec = PersistentVolumeClaimSpec {
        access_modes: Some(access_modes(&item.access_modes)),
        resources: Some(storage_request(&item.size)),
        storage_class_name: copy_text(&item.storage_class),
        data_source,
        data_source_ref,
    };
    Some(PersistentVolumeClaim { metadata, spec: Some(spec) })
}

impl ResourceGenerator for PvcGenerator {
    type Output = PersistentVolumeClaim;

    /// The claim of the entry `name`.
    fn generate(&self, values: &Values, name: &str) -> (r: Option<PersistentVolumeClaim>)
        ensures
            r.deep_view() == claim_of(*values, name@),
    {
        match values.persistence.get(name) {
            Some(item) => {
                let data_source = match &item.data_source {
                    Some(payload) => read_local_object_reference(payload),
                    None => None,
                };
                let data_source_ref = match &item.data_source_ref {
                    Some(payload) => read_object_reference(payload),
                    None => None,
                };
                assemble_claim(values, name, item, data_source, data_source_ref)
            },
            None => None,
        }
    }
}

} // verus!
