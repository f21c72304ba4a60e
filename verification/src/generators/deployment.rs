use crate::generators::common::generate_annotations;
use crate::generators::common::generate_labels;
use crate::generators::common::generate_name;
use crate::generators::common::generate_selector_labels;
use crate::generators::common::labels_of;
use crate::generators::common::merge_pod_options;
use crate::generators::common::merged_pod_options;
use crate::generators::common::name_of;
use crate::generators::common::selector_labels_of;
use crate::generators::common::unless_empty;
use crate::generators::ResourceGenerator;
use crate::manifest::Container;
use crate::manifest::ContainerPort;
use crate::manifest::ContainerPortView;
use crate::manifest::ContainerView;
use crate::manifest::Deployment;
use crate::manifest::DeploymentSpec;
use crate::manifest::DeploymentSpecView;
use crate::manifest::DeploymentStrategy;
use crate::manifest::DeploymentStrategyView;
use crate::manifest::DeploymentView;
use crate::manifest::EnvVar;
use crate::manifest::EnvVarView;
use crate::manifest::IntOrString;
use crate::manifest::IntOrStringView;
use crate::manifest::LabelSelector;
use crate::manifest::LabelSelectorView;
use crate::manifest::ObjectMeta;
use crate::manifest::ObjectMetaView;
use crate::manifest::PodSpec;
use crate::manifest::PodSpecView;
use crate::manifest::PodTemplateSpec;
use crate::manifest::PodTemplateSpecView;
use crate::manifest::ResourceRequirements;
use crate::manifest::ResourceRequirementsView;
use crate::manifest::RollingUpdateDeployment;
use crate::manifest::RollingUpdateDeploymentView;
use crate::manifest::VolumeMount;
use crate::manifest::VolumeMountView;
use crate::named::lookup;
use crate::named::Named;
use crate::payload::env_var_source_in;
use crate::payload::probe_in;
use crate::payload::read_env_var_source;
use crate::payload::read_probe;
use crate::payload::read_security_context;
use crate::payload::security_context_in;
use crate::string_map::StringMap;
use crate::text::copy_text;
use crate::text::copy_texts;
use crate::text::same_text;
use crate::values::Controller;
use crate::values::PodOptions;
use crate::values::PodOptionsView;
use crate::values::RollingUpdateConfig;
use crate::values::ServiceAccountRef;
use crate::values::Values;
use serde_json::Value;
use vstd::prelude::*;

verus! {

/// The generator of deployments, from the controllers of the configuration.
pub struct DeploymentGenerator;

/// What a configured port becomes in the container.
pub open spec fn container_port_of(
    name: Seq<char>,
    port: crate::values::ContainerPort,
) -> ContainerPortView {
    ContainerPortView {
        name: Some(name),
        container_port: port.container_port,
        protocol: port.protocol.deep_view(),
    }
}

/// The ports of a container in the order of the configuration, or nothing
/// where none is configured.
pub open spec fn container_ports_of(
    ports: Seq<(Seq<char>, crate::values::ContainerPort)>,
) -> Option<Seq<ContainerPortView>> {
    if ports.len() == 0 {
        None
    } else {
        Some(Seq::new(ports.len(), |i: int| container_port_of(ports[i].0, ports[i].1)))
    }
}

/// A configured mount as a mount of the container.
pub open spec fn volume_mount_of(mount: crate::values::VolumeMount) -> VolumeMountView {
    VolumeMountView {
        name: mount.name@,
        mount_path: mount.mount_path@,
        read_only: mount.read_only,
        sub_path: mount.sub_path.deep_view(),
    }
}

/// The mounts of a container in the order of the configuration, or nothing
/// where none is configured.
pub open spec fn volume_mounts_of(mounts: Seq<crate::values::VolumeMount>) -> Option<
    Seq<VolumeMountView>,
> {
    if mounts.len() == 0 {
        None
    } else {
        Some(Seq::new(mounts.len(), |i: int| volume_mount_of(mounts[i])))
    }
}

/// The configured requests and limits as quantities of the container.
pub open spec fn resources_of(resources: Option<crate::values::ResourceRequirements>) -> Option<
    ResourceRequirementsView,
> {
    match resources {
        Some(r) => Some(
            ResourceRequirementsView {
                limits: r.limits.deep_view(),
                requests: r.requests.deep_view(),
            },
        ),
        None => None,
    }
}

/// An environment variable whose source payload has been read as `source`.
pub open spec fn env_var_with(
    name: Seq<char>,
    var: crate::values::EnvVar,
    source: Option<k8s_openapi::api::core::v1::EnvVarSource>,
) -> EnvVarView {
    EnvVarView { name: name, value: var.value.deep_view(), value_from: source }
}

/// What reading the source payload of a variable gives: nothing where
/// there is no payload or it has another shape.
pub open spec fn env_source_of(var: crate::values::EnvVar) -> Option<
    k8s_openapi::api::core::v1::EnvVarSource,
> {
    match var.value_from {
        Some(payload) => env_var_source_in(payload),
        None => None,
    }
}

/// A configured environment variable as a variable of the container.
pub open spec fn env_var_of(name: Seq<char>, var: crate::values::EnvVar) -> EnvVarView {
    env_var_with(name, var, env_source_of(var))
}

/// The environment of a container in the order of the configuration, or
/// nothing where no variable is configured.
pub open spec fn env_of(env: Seq<(Seq<char>, crate::values::EnvVar)>) -> Option<Seq<EnvVarView>> {
    if env.len() == 0 {
        None
    } else {
        Some(Seq::new(env.len(), |i: int| env_var_of(env[i].0, env[i].1)))
    }
}

/// What reading an optional payload as a probe gives.
pub open spec fn probe_of(payload: Option<Value>) -> Option<k8s_openapi::api::core::v1::Probe> {
    match payload {
        Some(p) => probe_in(p),
        None => None,
    }
}

/// What reading an optional payload as a security context gives.
pub open spec fn security_context_of(payload: Option<Value>) -> Option<
    k8s_openapi::api::core::v1::SecurityContext,
> {
    match payload {
        Some(p) => security_context_in(p),
        None => None,
    }
}

/// The container that a configured container becomes, given its
/// environment and what its payloads were read as.
pub open spec fn container_with(
    name: Seq<char>,
    config: crate::values::Container,
    env: Option<Seq<EnvVarView>>,
    security_context: Option<k8s_openapi::api::core::v1::SecurityContext>,
    liveness_probe: Option<k8s_openapi::api::core::v1::Probe>,
    readiness_probe: Option<k8s_openapi::api::core::v1::Probe>,
    startup_probe: Option<k8s_openapi::api::core::v1::Probe>,
) -> ContainerView {
    ContainerView {
        name: name,
        image: Some(config.image@),
        command: config.command.deep_view(),
        args: config.args.deep_view(),
        env: env,
        ports: container_ports_of(config.ports@),
        resources: resources_of(config.resources),
        security_context: security_context,
        volume_mounts: volume_mounts_of(config.volume_mounts@),
        liveness_probe: liveness_probe,
        readiness_probe: readiness_probe,
        startup_probe: startup_probe,
    }
}

/// The container that a configured container becomes.
pub open spec fn container_of(name: Seq<char>, config: crate::values::Container) -> ContainerView {
    container_with(
        name,
        config,
        env_of(config.env@),
        security_context_of(config.security_context),
        probe_of(config.liveness_probe),
        probe_of(config.readiness_probe),
        probe_of(config.startup_probe),
    )
}

/// The containers of a controller in the order of the configuration.
pub open spec fn containers_of(containers: Seq<(Seq<char>, crate::values::Container)>) -> Seq<
    ContainerView,
> {
    Seq::new(containers.len(), |i: int| container_of(containers[i].0, containers[i].1))
}

/// The labels of the pods of a controller: the selector labels, overlaid
/// with those of the pod options and, where global metadata goes to the
/// pods, with the global labels.
pub open spec fn pod_labels_of(values: Values, name: Seq<char>, options: PodOptionsView) -> Map<
    Seq<char>,
    Seq<char>,
> {
    let own = selector_labels_of(name).union_prefer_right(options.labels);
    if values.global.propagate_global_metadata_to_pods {
        own.union_prefer_right(values.global.labels@)
    } else {
        own
    }
}

/// The annotations of the pods of a controller: those of the pod options,
/// overlaid with the global ones where global metadata goes to the pods.
pub open spec fn pod_annotations_of(values: Values, options: PodOptionsView) -> Map<
    Seq<char>,
    Seq<char>,
> {
    if values.global.propagate_global_metadata_to_pods {
        options.annotations.union_prefer_right(values.global.annotations@)
    } else {
        options.annotations
    }
}

/// The service account under which the pods run: the explicit name where
/// there is one, else the identifier.
pub open spec fn service_account_name_of(account: Option<ServiceAccountRef>) -> Option<Seq<char>> {
    match account {
        Some(a) => if a.name is Some {
            a.name.deep_view()
        } else {
            a.identifier.deep_view()
        },
        None => None,
    }
}

/// A textual quantity, where one is configured.
pub open spec fn quantity_of(text: Option<String>) -> Option<IntOrStringView> {
    match text {
        Some(t) => Some(IntOrStringView::String(t@)),
        None => None,
    }
}

/// The bounds of a rolling update, where they are configured.
pub open spec fn rolling_update_of(update: Option<RollingUpdateConfig>) -> Option<
    RollingUpdateDeploymentView,
> {
    match update {
        Some(u) => Some(
            RollingUpdateDeploymentView {
                max_surge: quantity_of(u.surge),
                max_unavailable: quantity_of(u.unavailable),
            },
        ),
        None => None,
    }
}

/// The update strategy of a deployment, where the controller names one.
pub open spec fn strategy_of(controller: Controller) -> Option<DeploymentStrategyView> {
    match controller.strategy {
        Some(s) => Some(
            DeploymentStrategyView {
                type_: Some(s@),
                rolling_update: rolling_update_of(controller.rolling_update),
            },
        ),
        None => None,
    }
}

/// The pod that a controller runs, under the pod options that hold for it.
pub open spec fn pod_spec_of(
    controller: Controller,
    options: PodOptionsView,
    containers: Seq<ContainerView>,
    init_containers: Seq<ContainerView>,
) -> PodSpecView {
    PodSpecView {
        containers: containers,
        init_containers: if init_containers.len() == 0 {
            None
        } else {
            Some(init_containers)
        },
        service_account_name: service_account_name_of(controller.service_account),
        automount_service_account_token: Some(options.automount_service_account_token),
        dns_policy: options.dns_policy,
        enable_service_links: Some(options.enable_service_links),
        hostname: options.hostname,
        host_ipc: Some(options.host_ipc),
        host_network: Some(options.host_network),
        host_pid: Some(options.host_pid),
        node_selector: unless_empty(options.node_selector),
        priority_class_name: options.priority_class_name,
        restart_policy: options.restart_policy,
        runtime_class_name: options.runtime_class_name,
        scheduler_name: options.scheduler_name,
        termination_grace_period_seconds: options.termination_grace_period_seconds,
    }
}

/// Whether a controller gives rise to a deployment at all, its containers
/// apart: it is enabled and of the deployment kind.
pub open spec fn wants_deployment(controller: Controller) -> bool {
    controller.enabled && controller.type_@ == "deployment"@
}

/// The deployment of the controller `controller`, entered under `name`,
/// with the given containers: nothing where the controller is disabled, of
/// another kind, or without containers.
pub open spec fn deployment_with(
    values: Values,
    name: Seq<char>,
    controller: Controller,
    containers: Seq<ContainerView>,
    init_containers: Seq<ContainerView>,
) -> Option<DeploymentView> {
    if !wants_deployment(controller) || containers.len() == 0 {
        None
    } else {
        let options = merged_pod_options(
            values.default_pod_options@,
            controller.pod_options@,
            values.default_pod_options_strategy@,
        );
        Some(
            DeploymentView {
                metadata: ObjectMetaView {
                    name: Some(name_of(name)),
                    labels: Some(labels_of(values.global.labels@, name, "controller"@)),
                    annotations: unless_empty(values.global.annotations@),
                },
                spec: Some(
                    DeploymentSpecView {
                        replicas: controller.replicas,
                        revision_history_limit: Some(controller.revision_history_limit),
                        selector: LabelSelectorView {
                            match_labels: Some(selector_labels_of(name)),
                        },
                        strategy: strategy_of(controller),
                        template: PodTemplateSpecView {
                            metadata: Some(
                                ObjectMetaView {
                                    name: None,
                                    labels: Some(pod_labels_of(values, name, options)),
                                    annotations: unless_empty(pod_annotations_of(values, options)),
                                },
                            ),
                            spec: Some(
                                pod_spec_of(controller, options, containers, init_containers),
                            ),
                        },
                    },
                ),
            },
        )
    }
}

/// The deployment that the configuration yields for the controller entered
/// under `name`: nothing where there is no such controller, or it is
/// disabled, of another kind, or without containers.
pub open spec fn deployment_of(values: Values, name: Seq<char>) -> Option<DeploymentView> {
    match lookup(values.controllers@, name) {
        Some(controller) => deployment_with(
            values,
            name,
            controller,
            containers_of(controller.containers@),
            containers_of(controller.init_containers@),
        ),
        None => None,
    }
}

/// A controller of another kind than the deployment kind, or without
/// containers, yields no deployment.
pub proof fn lemma_no_deployment_of_other_kind_or_empty(
    values: Values,
    name: Seq<char>,
    controller: Controller,
)
    requires
        lookup(values.controllers@, name) == Some(controller),
        controller.type_@ != "deployment"@ || controller.containers@.len() == 0,
    ensures
        deployment_of(values, name) is None,
{
}

/// The pods of a deployment carry the labels by which the deployment
/// selects them, unless a pod option or a global label that goes to the
/// pods says otherwise under the same key.
pub proof fn lemma_pods_carry_selector_labels(
    values: Values,
    name: Seq<char>,
    options: PodOptionsView,
)
    ensures
        forall|k: Seq<char>| #[trigger]
            selector_labels_of(name).contains_key(k) ==> pod_labels_of(
                values,
                name,
                options,
            ).contains_key(k),
        forall|k: Seq<char>|
            #[trigger] selector_labels_of(name).contains_key(k) && !options.labels.contains_key(k)
                && !(values.global.propagate_global_metadata_to_pods
                && values.global.labels@.contains_key(k)) ==> pod_labels_of(
                values,
                name,
                options,
            )[k] == selector_labels_of(name)[k],
{
}

fn convert_ports(ports: &Named<crate::values::ContainerPort>) -> (r: Option<Vec<ContainerPort>>)
    ensures
        r.deep_view() == container_ports_of(ports@),
{
    let n: usize = ports.len();
    if n == 0 {
        return None;
    }
    let mut out: Vec<ContainerPort> = Vec::new();
    let mut i: usize = 0;
    while i < n
        invariant
            n == ports@.len(),
            i <= n,
            out@.len() == i,
            forall|j: int|
                0 <= j < i ==> (#[trigger] out@[j])@ == container_port_of(ports@[j].0, ports@[j].1),
        decreases n - i,
    {
        match ports.entry(i) {
            Some((name, port)) => {
                out.push(
                    ContainerPort {
                        name: Some(name.clone()),
                        container_port: port.container_port,
                        protocol: copy_text(&port.protocol),
                    },
                );
            },
            None => {},
        }
        i += 1;
    }
    Some(out)
}

fn convert_volume_mounts(mounts: &Vec<crate::values::VolumeMount>) -> (r: Option<Vec<VolumeMount>>)
    ensures
        r.deep_view() == volume_mounts_of(mounts@),
{
    let n: usize = mounts.len();
    if n == 0 {
        return None;
    }
    let mut out: Vec<VolumeMount> = Vec::new();
    let mut i: usize = 0;
    while i < n
        invariant
            n == mounts@.len(),
            i <= n,
            out@.len() == i,
            forall|j: int| 0 <= j < i ==> (#[trigger] out@[j])@ == volume_mount_of(mounts@[j]),
        decreases n - i,
    {
        let mount = &mounts[i];
        out.push(
            VolumeMount {
                name: mount.name.clone(),
                mount_path: mount.mount_path.clone(),
                read_only: mount.read_only,
                sub_path: copy_text(&mount.sub_path),
            },
        );
        i += 1;
    }
    Some(out)
}

fn convert_quantities(quantities: &Option<StringMap>) -> (r: Option<StringMap>)
    ensures
        r.deep_view() == quantities.deep_view(),
{
    match quantities {
        Some(q) => Some(q.clone()),
        None => None,
    }
}

fn convert_resources(resources: &Option<crate::values::ResourceRequirements>) -> (r: Option<
    ResourceRequirements,
>)
    ensures
        r.deep_view() == resources_of(*resources),
{
    match resources {
        Some(res) => Some(
            ResourceRequirements {
                limits: convert_quantities(&res.limits),
                requests: convert_quantities(&res.requests),
            },
        ),
        None => None,
    }
}

/// The variable `name` of a container, given what its source payload was
/// read as.
pub fn assemble_env_var(
    name: &str,
    var: &crate::values::EnvVar,
    source: Option<k8s_openapi::api::core::v1::EnvVarSource>,
) -> (r: EnvVar)
    ensures
        r@ == env_var_with(name@, *var, source),
{
    EnvVar { name: name.to_string(), value: copy_text(&var.value), value_from: source }
}

fn convert_env_var(name: &str, var: &crate::values::EnvVar) -> (r: EnvVar)
    ensures
        r@ == env_var_of(name@, *var),
{
    let source = match &var.value_from {
        Some(payload) => read_env_var_source(payload),
        None => None,
    };
    assemble_env_var(name, var, source)
}

fn convert_env(env: &Named<crate::values::EnvVar>) -> (r: Option<Vec<EnvVar>>)
    ensures
        r.deep_view() == env_of(env@),
{
    let n: usize = env.len();
    if n == 0 {
        return None;
    }
    let mut out: Vec<EnvVar> = Vec::new();
    let mut i: usize = 0;
    while i < n
        invariant
            n == env@.len(),
            i <= n,
            out@.len() == i,
            forall|j: int| 0 <= j < i ==> (#[trigger] out@[j])@ == env_var_of(env@[j].0, env@[j].1),
        decreases n - i,
    {
        match env.entry(i) {
            Some((name, var)) => {
                out.push(convert_env_var(name.as_str(), var));
            },
            None => {},
        }
        i += 1;
    }
    Some(out)
}

fn convert_probe(payload: &Option<Value>) -> (r: Option<k8s_openapi::api::core::v1::Probe>)
    ensures
        r == probe_of(*payload),
{
    match payload {
        Some(p) => read_probe(p),
        None => None,
    }
}

fn convert_security_context(payload: &Option<Value>) -> (r: Option<
    k8s_openapi::api::core::v1::SecurityContext,
>)
    ensures
        r == security_context_of(*payload),
{
    match payload {
        Some(p) => read_security_context(p),
        None => None,
    }
}

/// The container `name`, given its environment and what its payloads were
/// read as; everything else is taken over from the configuration field by
/// field.
pub fn assemble_container(
    name: &str,
    config: &crate::values::Container,
    env: Option<Vec<EnvVar>>,
    security_context: Option<k8s_openapi::api::core::v1::SecurityContext>,
    liveness_probe: Option<k8s_openapi::api::core::v1::Probe>,
    readiness_probe: Option<k8s_openapi::api::core::v1::Probe>,
    startup_probe: Option<k8s_openapi::api::core::v1::Probe>,
) -> (r: Container)
    ensures
        r@ == container_with(
            name@,
            *config,
            env.deep_view(),
            security_context,
            liveness_probe,
            readiness_probe,
            startup_probe,
        ),
{
    Container {
        name: name.to_string(),
        image: Some(config.image.clone()),
        command: copy_texts(&config.command),
        args: copy_texts(&config.args),
        env,
        ports: convert_ports(&config.ports),
        resources: convert_resources(&config.resources),
        security_context,
        volume_mounts: convert_volume_mounts(&config.volume_mounts),
        liveness_probe,
        readiness_probe,
        startup_probe,
    }
}

/// The container that the configured container `config`, entered under
/// `name`, becomes. A payload that does not have the shape of what it is
/// read as is left out.
pub fn convert_container(name: &str, config: &crate::values::Container) -> (r: Container)
    ensures
        r@ == container_of(name@, *config),
{
    let env = convert_env(&config.env);
    let security_context = convert_security_context(&config.security_context);
    let liveness_probe = convert_probe(&config.liveness_probe);
    let readiness_probe = convert_probe(&config.readiness_probe);
    let startup_probe = convert_probe(&config.startup_probe);
    assemble_container(
        name,
        config,
        env,
        security_context,
        liveness_probe,
        readiness_probe,
        startup_probe,
    )
}

fn convert_containers(containers: &Named<crate::values::Container>) -> (r: Vec<Container>)
    ensures
        r.deep_view() == containers_of(containers@),
{
    let n: usize = containers.len();
    let mut out: Vec<Container> = Vec::new();
    let mut i: usize = 0;
    while i < n
        invariant
            n == containers@.len(),
            i <= n,
            out@.len() == i,
            forall|j: int|
                0 <= j < i ==> (#[trigger] out@[j])@ == container_of(
                    containers@[j].0,
                    containers@[j].1,
                ),
        decreases n - i,
    {
        match containers.entry(i) {
            Some((name, config)) => {
                out.push(convert_container(name.as_str(), config));
            },
            None => {},
        }
        i += 1;
    }
    out
}

fn convert_quantity(text: &Option<String>) -> (r: Option<IntOrString>)
    ensures
        r.deep_view() == quantity_of(*text),
{
    match text {
        Some(t) => Some(IntOrString::String(t.clone())),
        None => None,
    }
}

fn convert_strategy(controller: &Controller) -> (r: Option<DeploymentStrategy>)
    ensures
        r.deep_view() == strategy_of(*controller),
{
    match &controller.strategy {
        Some(strategy) => {
            let rolling_update = match &controller.rolling_update {
                Some(update) => Some(
                    RollingUpdateDeployment {
                        max_surge: convert_quantity(&update.surge),
                        max_unavailable: convert_quantity(&update.unavailable),
                    },
                ),
                None => None,
            };
            Some(DeploymentStrategy { type_: Some(strategy.clone()), rolling_update })
        },
        None => None,
    }
}

fn service_account_name(account: &Option<ServiceAccountRef>) -> (r: Option<String>)
    ensures
        r.deep_view() == service_account_name_of(*account),
{
    match account {
        Some(a) => {
            if a.name.is_some() {
                copy_text(&a.name)
            } else {
                copy_text(&a.identifier)
            }
        },
        None => None,
    }
}

fn pod_metadata(values: &Values, name: &str, options: &PodOptions) -> (r: ObjectMeta)
    ensures
        r@ == (ObjectMetaView {
            name: None,
            labels: Some(pod_labels_of(*values, name@, options@)),
            annotations: unless_empty(pod_annotations_of(*values, options@)),
        }),
{
    let mut labels = generate_selector_labels(values, name);
    labels.extend(&options.labels);
    let mut annotations = options.annotations.clone();
    if values.global.propagate_global_metadata_to_pods {
        labels.extend(&values.global.labels);
        annotations.extend(&values.global.annotations);
    }
    ObjectMeta {
        name: None,
        labels: Some(labels),
        annotations: if annotations.is_empty() {
            None
        } else {
            Some(annotations)
        },
    }
}

fn pod_spec(
    controller: &Controller,
    options: &PodOptions,
    containers: Vec<Container>,
    init_containers: Vec<Container>,
) -> (r: PodSpec)
    ensures
        r@ == pod_spec_of(
            *controller,
            options@,
            containers.deep_view(),
            init_containers.deep_view(),
        ),
{
    PodSpec {
        containers,
        init_containers: if init_containers.len() == 0 {
            None
        } else {
            Some(init_containers)
        },
        service_account_name: service_account_name(&controller.service_account),
        automount_service_account_token: Some(options.automount_service_account_token),
        dns_policy: copy_text(&options.dns_policy),
        enable_service_links: Some(options.enable_service_links),
        hostname: copy_text(&options.hostname),
        host_ipc: Some(options.host_ipc),
        host_network: Some(options.host_network),
        host_pid: Some(options.host_pid),
        node_selector: if options.node_selector.is_empty() {
            None
        } else {
            Some(options.node_selector.clone())
        },
        priority_class_name: copy_text(&options.priority_class_name),
        restart_policy: copy_text(&options.restart_policy),
        runtime_class_name: copy_text(&options.runtime_class_name),
        scheduler_name: copy_text(&options.scheduler_name),
        termination_grace_period_seconds: options.termination_grace_period_seconds,
    }
}

/// The deployment of `controller`, entered under `name`, with containers
/// that were converted already: nothing where the controller is disabled, of
/// another kind, or without containers.
pub fn assemble_deployment(
    values: &Values,
    name: &str,
    controller: &Controller,
    containers: Vec<Container>,
    init_containers: Vec<Container>,
) -> (r: Option<Deployment>)
    ensures
        r.deep_view() == deployment_with(
            *values,
            name@,
            *controller,
            containers.deep_view(),
            init_containers.deep_view(),
        ),
{
    if !controller.enabled || !same_text(controller.type_.as_str(), "deployment") {
        return None;
    }
    if containers.len() == 0 {
        return None;
    }
    let options = merge_pod_options(
        &values.default_pod_options,
        &controller.pod_options,
        values.default_pod_options_strategy.as_str(),
    );
    let metadata = ObjectMeta {
        name: Some(generate_name(values, name)),
        labels: Some(generate_labels(values, name, "controller")),
        annotations: if values.global.annotations.is_empty() {
            None
        } else {
            Some(generate_annotations(values))
        },
    };
    let spec = DeploymentSpec {
        replicas: controller.replicas,
        revision_history_limit: Some(controller.revision_history_limit),
        selector: LabelSelector { match_labels: Some(generate_selector_labels(values, name)) },
        strategy: convert_strategy(controller),
        template: PodTemplateSpec {
            metadata: Some(pod_metadata(values, name, &options)),
            spec: Some(pod_spec(controller, &options, containers, init_containers)),
        },
    };
    Some(Deployment { metadata, spec: Some(spec) })
}

impl ResourceGenerator for DeploymentGenerator {
    type Output = Deployment;

    /// The deployment of the controller entered under `name`.
    fn generate(&self, values: &Values, name: &str) -> (r: Option<Deployment>)
        ensures
            r.deep_view() == deployment_of(*values, name@),
    {
        match values.controllers.get(name) {
            Some(controller) => {
                if !controller.enabled || !same_text(controller.type_.as_str(), "deployment") {
                    return None;
                }
                let containers = convert_containers(&controller.containers);
                let init_containers = convert_containers(&controller.init_containers);
                assemble_deployment(values, name, controller, containers, init_containers)
            },
            None => None,
        }
    }
}

} // verus!
