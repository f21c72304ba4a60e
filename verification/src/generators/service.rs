use crate::generators::common::generate_overlaid_metadata;
use crate::generators::common::generate_selector_labels;
use crate::generators::common::overlaid_metadata_of;
use crate::generators::common::selector_labels_of;
use crate::generators::deployment::deployment_of;
use crate::generators::ResourceGenerator;
use crate::manifest::IntOrString;
use crate::manifest::IntOrStringView;
use crate::manifest::Service;
use crate::manifest::ServicePort;
use crate::manifest::ServicePortView;
use crate::manifest::ServiceSpec;
use crate::manifest::ServiceSpecView;
use crate::manifest::ServiceView;
use crate::named::lookup;
use crate::named::Named;
use crate::payload::read_session_affinity_config;
use crate::payload::session_affinity_config_in;
use crate::text::copy_text;
use crate::text::copy_texts;
use crate::values::Values;
use serde_json::Value;
use vstd::prelude::*;

verus! {

/// The generator of services, from the service entries of the configuration.
pub struct ServiceGenerator;

/// A target port given as a number, where one is configured.
pub open spec fn target_port_of(port: Option<i32>) -> Option<IntOrStringView> {
    match port {
        Some(p) => Some(IntOrStringView::Int(p)),
        None => None,
    }
}

/// What a configured port becomes in the service.
pub open spec fn service_port_of(
    name: Seq<char>,
    port: crate::values::ServicePort,
) -> ServicePortView {
    ServicePortView {
        name: Some(name),
        port: port.port,
        target_port: target_port_of(port.target_port),
        protocol: port.protocol.deep_view(),
        node_port: port.node_port,
        app_protocol: port.app_protocol.deep_view(),
    }
}

/// The ports of a service in the order of the configuration.
pub open spec fn service_ports_of(ports: Seq<(Seq<char>, crate::values::ServicePort)>) -> Seq<
    ServicePortView,
> {
    Seq::new(ports.len(), |i: int| service_port_of(ports[i].0, ports[i].1))
}

/// The controller whose pods stand behind a service: the one that the entry
/// names, else the one that bears the service's own name.
pub open spec fn backing_controller_of(name: Seq<char>, service: crate::values::Service) -> Seq<
    char,
> {
    match service.controller {
        Some(c) => c@,
        None => name,
    }
}

/// The labels by which a service selects its pods: the selector labels of
/// the backing controller, overlaid with the entry's extra selector labels.
pub open spec fn service_selector_of(name: Seq<char>, service: crate::values::Service) -> Map<
    Seq<char>,
    Seq<char>,
> {
    selector_labels_of(backing_controller_of(name, service)).union_prefer_right(
        service.extra_selector_labels@,
    )
}

/// What reading an optional payload as a session affinity configuration gives.
pub open spec fn session_affinity_of(payload: Option<Value>) -> Option<
    k8s_openapi::api::core::v1::SessionAffinityConfig,
> {
    match payload {
        Some(p) => session_affinity_config_in(p),
        None => None,
    }
}

/// The service of the entry `service`, entered under `name`, given what its
/// session affinity payload was read as: nothing where the entry is disabled
/// or has no port.
pub open spec fn service_with(
    values: Values,
    name: Seq<char>,
    service: crate::values::Service,
    affinity: Option<k8s_openapi::api::core::v1::SessionAffinityConfig>,
) -> Option<ServiceView> {
    if !service.enabled || service.ports@.len() == 0 {
        None
    } else {
        Some(
            ServiceView {
                metadata: overlaid_metadata_of(
                    values,
                    name,
                    "service"@,
                    service.labels@,
                    service.annotations@,
                ),
                spec: Some(
                    ServiceSpecView {
                        type_: Some(service.type_@),
                        selector: Some(service_selector_of(name, service)),
                        ports: Some(service_ports_of(service.ports@)),
                        cluster_ip: service.cluster_ip.deep_view(),
                        load_balancer_ip: service.load_balancer_ip.deep_view(),
                        load_balancer_source_ranges:
                            service.load_balancer_source_ranges.deep_view(),
                        load_balancer_class: service.load_balancer_class.deep_view(),
                        external_name: service.external_name.deep_view(),
                        internal_traffic_policy: service.internal_traffic_policy.deep_view(),
                        external_traffic_policy: service.external_traffic_policy.deep_view(),
                        allocate_load_balancer_node_ports:
                            service.allocate_load_balancer_node_ports,
                        session_affinity: service.session_affinity.deep_view(),
                        session_affinity_config: affinity,
                        external_ips: service.external_ips.deep_view(),
                        publish_not_ready_addresses: service.publish_not_ready_addresses,
                        ip_family_policy: service.ip_family_policy.deep_view(),
                        ip_families: service.ip_families.deep_view(),
                    },
                ),
            },
        )
    }
}

/// The service that the configuration yields for the entry `name`: nothing
/// where there is no such entry, or it is disabled or has no port.
pub open spec fn service_of(values: Values, name: Seq<char>) -> Option<ServiceView> {
    match lookup(values.service@, name) {
        Some(service) => service_with(
            values,
            name,
            service,
            session_affinity_of(service.session_affinity_config),
        ),
        None => None,
    }
}

/// A service entry without ports yields no service.
pub proof fn lemma_no_service_without_ports(
    values: Values,
    name: Seq<char>,
    service: crate::values::Service,
)
    requires
        lookup(values.service@, name) == Some(service),
        service.ports@.len() == 0,
    ensures
        service_of(values, name) is None,
{
}

/// A service that adds no selector labels of its own selects by exactly
/// the labels by which its backing controller's deployment selects.
pub proof fn lemma_service_selects_its_controller(
    name: Seq<char>,
    service: crate::values::Service,
)
    requires
        service.extra_selector_labels@.is_empty(),
    ensures
        service_selector_of(name, service) == selector_labels_of(
            backing_controller_of(name, service),
        ),
{
    assert(service_selector_of(name, service) =~= selector_labels_of(
        backing_controller_of(name, service),
    ));
}

/// A service that adds no selector labels of its own selects exactly the
/// pods that the deployment of its backing controller selects.
pub proof fn lemma_service_and_deployment_select_alike(
    values: Values,
    name: Seq<char>,
    service: crate::values::Service,
)
    requires
        lookup(values.service@, name) == Some(service),
        service.extra_selector_labels@.is_empty(),
        service_of(values, name) is Some,
        deployment_of(values, backing_controller_of(name, service)) is Some,
    ensures
        service_of(values, name)->0.spec->0.selector == deployment_of(
            values,
            backing_controller_of(name, service),
        )->0.spec->0.selector.match_labels,
{
    lemma_service_selects_its_controller(name, service);
}

fn convert_target_port(port: Option<i32>) -> (r: Option<IntOrString>)
    ensures
        r.deep_view() == target_port_of(port),
{
    match port {
        Some(p) => Some(IntOrString::Int(p)),
        None => None,
    }
}

fn convert_ports(ports: &Named<crate::values::ServicePort>) -> (r: Vec<ServicePort>)
    ensures
        r.deep_view() == service_ports_of(ports@),
{
    let n: usize = ports.len();
    let mut out: Vec<ServicePort> = Vec::new();
    let mut i: usize = 0;
    while i < n
        invariant
            n == ports@.len(),
            i <= n,
            out@.len() == i,
            forall|j: int|
                0 <= j < i ==> (#[trigger] out@[j])@ == service_port_of(ports@[j].0, ports@[j].1),
        decreases n - i,
    {
        match ports.entry(i) {
            Some((name, port)) => {
                out.push(
                    ServicePort {
                        name: Some(name.clone()),
                        port: port.port,
                        target_port: convert_target_port(port.target_port),
                        protocol: copy_text(&port.protocol),
                        node_port: port.node_port,
                        app_protocol: copy_text(&port.app_protocol),
                    },
                );
            },
            None => {},
        }
        i += 1;
    }
    out
}

/// The service of the entry `service`, entered under `name`, given what its
/// session affinity payload was read as.
pub fn assemble_service(
    values: &Values,
    name: &str,
    service: &crate::values::Service,
    affinity: Option<k8s_openapi::api::core::v1::SessionAffinityConfig>,
) -> (r: Option<Service>)
    ensures
        r.deep_view() == service_with(*values, name@, *service, affinity),
{
    if !service.enabled || service.ports.is_empty() {
        return None;
    }
    let mut selector = match &service.controller {
        Some(controller) => generate_selector_labels(values, controller.as_str()),
        None => generate_selector_labels(values, name),
    };
    selector.extend(&service.extra_selector_labels);
    let ports = convert_ports(&service.ports);
    let metadata = generate_overlaid_metadata(
        values,
        name,
        "service",
        &service.labels,
        &service.annotations,
    );
    let spec = ServiceSpec {
        type_: Some(service.type_.clone()),
        selector: Some(selector),
        ports: Some(ports),
        cluster_ip: copy_text(&service.cluster_ip),
        load_balancer_ip: copy_text(&service.load_balancer_ip),
        load_balancer_source_ranges: copy_texts(&service.load_balancer_source_ranges),
        load_balancer_class: copy_text(&service.load_balancer_class),
        external_name: copy_text(&service.external_name),
        internal_traffic_policy: copy_text(&service.internal_traffic_policy),
        external_traffic_policy: copy_text(&service.external_traffic_policy),
        allocate_load_balancer_node_ports: service.allocate_load_balancer_node_ports,
        session_affinity: copy_text(&service.session_affinity),
        session_affinity_config: affinity,
        external_ips: copy_texts(&service.external_ips),
        publish_not_ready_addresses: service.publish_not_ready_addresses,
        ip_family_policy: copy_text(&service.ip_family_policy),
        ip_families: copy_texts(&service.ip_families),
    };
    Some(Service { metadata, spec: Some(spec) })
}

impl ResourceGenerator for ServiceGenerator {
    type Output = Service;

    /// The service of the entry `name`.
    fn generate(&self, values: &Values, name: &str) -> (r: Option<Service>)
        ensures
            r.deep_view() == service_of(*values, name@),
    {
        match values.service.get(name) {
            Some(service) => {
                let affinity = match &service.session_affinity_config {
                    Some(payload) => read_session_affinity_config(payload),
                    None => None,
                };
                assemble_service(values, name, service, affinity)
            },
            None => None,
        }
    }
}

} // verus!
