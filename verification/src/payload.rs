use serde_json::Value;
use vstd::prelude::*;

verus! {

/// A JSON value of `serde_json`. The library carries payloads as such
/// values and never looks inside one.
#[verifier::external_type_specification]
#[verifier::external_body]
pub struct ExValue(Value);

/// The source of an environment variable, as `k8s_openapi` has it.
#[verifier::external_type_specification]
#[verifier::external_body]
pub struct ExEnvVarSource(k8s_openapi::api::core::v1::EnvVarSource);

/// A probe of a container, as `k8s_openapi` has it.
#[verifier::external_type_specification]
#[verifier::external_body]
pub struct ExProbe(k8s_openapi::api::core::v1::Probe);

/// The security context of a container, as `k8s_openapi` has it.
#[verifier::external_type_specification]
#[verifier::external_body]
pub struct ExSecurityContext(k8s_openapi::api::core::v1::SecurityContext);

/// The session affinity configuration of a service, as `k8s_openapi` has it.
#[verifier::external_type_specification]
#[verifier::external_body]
pub struct ExSessionAffinityConfig(k8s_openapi::api::core::v1::SessionAffinityConfig);

/// A reference to an object of the same namespace, as `k8s_openapi` has it.
#[verifier::external_type_specification]
#[verifier::external_body]
pub struct ExTypedLocalObjectReference(k8s_openapi::api::core::v1::TypedLocalObjectReference);

/// A reference to an object of any namespace, as `k8s_openapi` has it.
#[verifier::external_type_specification]
#[verifier::external_body]
pub struct ExTypedObjectReference(k8s_openapi::api::core::v1::TypedObjectReference);

/// `Value::clone`: the copy is the same JSON value.
pub assume_specification[ <Value as Clone>::clone ](v: &Value) -> (r: Value)
    ensures
        r == *v,
;

/// What `serde_json::from_value` makes of a payload read as the source of
/// an environment variable: the source, or `None` where the payload does
/// not have that shape.
pub uninterp spec fn env_var_source_in(payload: Value) -> Option<
    k8s_openapi::api::core::v1::EnvVarSource,
>;

/// What `serde_json::from_value` makes of a payload read as a probe: the
/// probe, or `None` where the payload does not have that shape.
pub uninterp spec fn probe_in(payload: Value) -> Option<k8s_openapi::api::core::v1::Probe>;

/// What `serde_json::from_value` makes of a payload read as the security
/// context of a container: the context, or `None` where the payload does
/// not have that shape.
pub uninterp spec fn security_context_in(payload: Value) -> Option<
    k8s_openapi::api::core::v1::SecurityContext,
>;

/// What `serde_json::from_value` makes of a payload read as a session
/// affinity configuration: the configuration, or `None` where the payload
/// does not have that shape.
pub uninterp spec fn session_affinity_config_in(payload: Value) -> Option<
    k8s_openapi::api::core::v1::SessionAffinityConfig,
>;

/// What `serde_json::from_value` makes of a payload read as a reference to
/// an object of the same namespace: the reference, or `None` where the
/// payload does not have that shape.
pub uninterp spec fn local_object_reference_in(payload: Value) -> Option<
    k8s_openapi::api::core::v1::TypedLocalObjectReference,
>;

/// What `serde_json::from_value` makes of a payload read as a reference to
/// an object of any namespace: the reference, or `None` where the payload
/// does not have that shape.
pub uninterp spec fn object_reference_in(payload: Value) -> Option<
    k8s_openapi::api::core::v1::TypedObjectReference,
>;

/// `serde_json::from_value` at `EnvVarSource`, on a copy of the payload,
/// its error dropped. The result depends on the payload alone.
#[verifier::external_body]
pub(crate) fn read_env_var_source(payload: &Value) -> (r: Option<
    k8s_openapi::api::core::v1::EnvVarSource,
>)
    ensures
        r == env_var_source_in(*payload),
{
    serde_json::from_value(payload.clone()).ok()
}

/// `serde_json::from_value` at `Probe`, on a copy of the payload, its error
/// dropped. The result depends on the payload alone.
#[verifier::external_body]
pub(crate) fn read_probe(payload: &Value) -> (r: Option<k8s_openapi::api::core::v1::Probe>)
    ensures
        r == probe_in(*payload),
{
    serde_json::from_value(payload.clone()).ok()
}

/// `serde_json::from_value` at `SecurityContext`, on a copy of the payload,
/// its error dropped. The result depends on the payload alone.
#[verifier::external_body]
pub(crate) fn read_security_context(payload: &Value) -> (r: Option<
    k8s_openapi::api::core::v1::SecurityContext,
>)
    ensures
        r == security_context_in(*payload),
{
    serde_json::from_value(payload.clone()).ok()
}

/// `serde_json::from_value` at `SessionAffinityConfig`, on a copy of the
/// payload, its error dropped. The result depends on the payload alone.
#[verifier::external_body]
pub(crate) fn read_session_affinity_config(payload: &Value) -> (r: Option<
    k8s_openapi::api::core::v1::SessionAffinityConfig,
>)
    ensures
        r == session_affinity_config_in(*payload),
{
    serde_json::from_value(payload.clone()).ok()
}

/// `serde_json::from_value` at `TypedLocalObjectReference`, on a copy of
/// the payload, its error dropped. The result depends on the payload alone.
#[verifier::external_body]
pub(crate) fn read_local_object_reference(payload: &Value) -> (r: Option<
    k8s_openapi::api::core::v1::TypedLocalObjectReference,
>)
    ensures
        r == local_object_reference_in(*payload),
{
    serde_json::from_value(payload.clone()).ok()
}

/// `serde_json::from_value` at `TypedObjectReference`, on a copy of the
/// payload, its error dropped. The result depends on the payload alone.
#[verifier::external_body]
pub(crate) fn read_object_reference(payload: &Value) -> (r: Option<
    k8s_openapi::api::core::v1::TypedObjectReference,
>)
    ensures
        r == object_reference_in(*payload),
{
    serde_json::from_value(payload.clone()).ok()
}

/// A copy of an optional payload.
pub fn copy_payload(payload: &Option<Value>) -> (r: Option<Value>)
    ensures
        r == *payload,
{
    payload.clone()
}

/// A copy of a list of payloads.
pub fn copy_payloads(payloads: &Vec<Value>) -> (r: Vec<Value>)
    ensures
        r@ == payloads@,
{
    payloads.clone()
}

} // verus!
