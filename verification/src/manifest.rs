use crate::string_map::StringMap;
use vstd::prelude::*;

verus! {

/// A quantity that is written either as a number or as text.
#[derive(Debug)]
pub enum IntOrString {
    Int(i32),
    String(String),
}

/// The mathematical value of an [`IntOrString`].
pub enum IntOrStringView {
    Int(i32),
    String(Seq<char>),
}

impl View for IntOrString {
    type V = IntOrStringView;

    open spec fn view(&self) -> IntOrStringView {
        match self {
            IntOrString::Int(n) => IntOrStringView::Int(*n),
            IntOrString::String(s) => IntOrStringView::String(s@),
        }
    }
}

impl DeepView for IntOrString {
    type V = IntOrStringView;

    open spec fn deep_view(&self) -> IntOrStringView {
        self@
    }
}

/// The name, labels and annotations of a resource.
#[derive(Debug)]
pub struct ObjectMeta {
    pub name: Option<String>,
    pub labels: Option<StringMap>,
    pub annotations: Option<StringMap>,
}

/// The mathematical value of a [`ObjectMeta`].
pub struct ObjectMetaView {
    pub name: Option<Seq<char>>,
    pub labels: Option<Map<Seq<char>, Seq<char>>>,
    pub annotations: Option<Map<Seq<char>, Seq<char>>>,
}

impl View for ObjectMeta {
    type V = ObjectMetaView;

    open spec fn view(&self) -> ObjectMetaView {
        ObjectMetaView {
            name: self.name.deep_view(),
            labels: self.labels.deep_view(),
            annotations: self.annotations.deep_view(),
        }
    }
}

impl DeepView for ObjectMeta {
    type V = ObjectMetaView;

    open spec fn deep_view(&self) -> ObjectMetaView {
        self@
    }
}

/// A port that a container exposes.
#[derive(Debug)]
pub struct ContainerPort {
    pub name: Option<String>,
    pub container_port: i32,
    pub protocol: Option<String>,
}

/// The mathematical value of a [`ContainerPort`].
pub struct ContainerPortView {
    pub name: Option<Seq<char>>,
    pub container_port: i32,
    pub protocol: Option<Seq<char>>,
}

impl View for ContainerPort {
    type V = ContainerPortView;

    open spec fn view(&self) -> ContainerPortView {
        ContainerPortView {
            name: self.name.deep_view(),
            container_port: self.container_port,
            protocol: self.protocol.deep_view(),
        }
    }
}

impl DeepView for ContainerPort {
    type V = ContainerPortView;

    open spec fn deep_view(&self) -> ContainerPortView {
        self@
    }
}

/// An environment variable of a container.
#[derive(Debug)]
pub struct EnvVar {
    pub name: String,
    pub value: Option<String>,
    pub value_from: Option<k8s_openapi::api::core::v1::EnvVarSource>,
}

/// The mathematical value of a [`EnvVar`].
pub struct EnvVarView {
    pub name: Seq<char>,
    pub value: Option<Seq<char>>,
    pub value_from: Option<k8s_openapi::api::core::v1::EnvVarSource>,
}

impl View for EnvVar {
    type V = EnvVarView;

    open spec fn view(&self) -> EnvVarView {
        EnvVarView {
            name: self.name@,
            value: self.value.deep_view(),
            value_from: self.value_from,
        }
    }
}

impl DeepView for EnvVar {
    type V = EnvVarView;

    open spec fn deep_view(&self) -> EnvVarView {
        self@
    }
}

/// The compute resources of a container, as quantities by resource name.
#[derive(Debug)]
pub struct ResourceRequirements {
    pub limits: Option<StringMap>,
    pub requests: Option<StringMap>,
}

/// The mathematical value of a [`ResourceRequirements`].
pub struct ResourceRequirementsView {
    pub limits: Option<Map<Seq<char>, Seq<char>>>,
    pub requests: Option<Map<Seq<char>, Seq<char>>>,
}

impl View for ResourceRequirements {
    type V = ResourceRequirementsView;

    open spec fn view(&self) -> ResourceRequirementsView {
        ResourceRequirementsView {
            limits: self.limits.deep_view(),
            requests: self.requests.deep_view(),
        }
    }
}

impl DeepView for ResourceRequirements {
    type V = ResourceRequirementsView;

    open spec fn deep_view(&self) -> ResourceRequirementsView {
        self@
    }
}

/// A volume mounted into a container.
#[derive(Debug)]
pub struct VolumeMount {
    pub name: String,
    pub mount_path: String,
    pub read_only: Option<bool>,
    pub sub_path: Option<String>,
}

/// The mathematical value of a [`VolumeMount`].
pub struct VolumeMountView {
    pub name: Seq<char>,
    pub mount_path: Seq<char>,
    pub read_only: Option<bool>,
    pub sub_path: Option<Seq<char>>,
}

impl View for VolumeMount {
    type V = VolumeMountView;

    open spec fn view(&self) -> VolumeMountView {
        VolumeMountView {
            name: self.name@,
            mount_path: self.mount_path@,
            read_only: self.read_only,
            sub_path: self.sub_path.deep_view(),
        }
    }
}

impl DeepView for VolumeMount {
    type V = VolumeMountView;

    open spec fn deep_view(&self) -> VolumeMountView {
        self@
    }
}

/// A container of a pod.
#[derive(Debug)]
pub struct Container {
    pub name: String,
    pub image: Option<String>,
    pub command: Option<Vec<String>>,
    pub args: Option<Vec<String>>,
    pub env: Option<Vec<EnvVar>>,
    pub ports: Option<Vec<ContainerPort>>,
    pub resources: Option<ResourceRequirements>,
    pub security_context: Option<k8s_openapi::api::core::v1::SecurityContext>,
    pub volume_mounts: Option<Vec<VolumeMount>>,
    pub liveness_probe: Option<k8s_openapi::api::core::v1::Probe>,
    pub readiness_probe: Option<k8s_openapi::api::core::v1::Probe>,
    pub startup_probe: Option<k8s_openapi::api::core::v1::Probe>,
}

/// The mathematical value of a [`Container`].
pub struct ContainerView {
    pub name: Seq<char>,
    pub image: Option<Seq<char>>,
    pub command: Option<Seq<Seq<char>>>,
    pub args: Option<Seq<Seq<char>>>,
    pub env: Option<Seq<EnvVarView>>,
    pub ports: Option<Seq<ContainerPortView>>,
    pub resources: Option<ResourceRequirementsView>,
    pub security_context: Option<k8s_openapi::api::core::v1::SecurityContext>,
    pub volume_mounts: Option<Seq<VolumeMountView>>,
    pub liveness_probe: Option<k8s_openapi::api::core::v1::Probe>,
    pub readiness_probe: Option<k8s_openapi::api::core::v1::Probe>,
    pub startup_probe: Option<k8s_openapi::api::core::v1::Probe>,
}

impl View for Container {
    type V = ContainerView;

    open spec fn view(&self) -> ContainerView {
        ContainerView {
            name: self.name@,
            image: self.image.deep_view(),
            command: self.command.deep_view(),
            args: self.args.deep_view(),
            env: self.env.deep_view(),
            ports: self.ports.deep_view(),
            resources: self.resources.deep_view(),
            security_context: self.security_context,
            volume_mounts: self.volume_mounts.deep_view(),
            liveness_probe: self.liveness_probe,
            readiness_probe: self.readiness_probe,
            startup_probe: self.startup_probe,
        }
    }
}

impl DeepView for Container {
    type V = ContainerView;

    open spec fn deep_view(&self) -> ContainerView {
        self@
    }
}

/// What a pod runs and how.
#[derive(Debug)]
pub struct PodSpec {
    pub containers: Vec<Container>,
    pub init_containers: Option<Vec<Container>>,
    pub service_account_name: Option<String>,
    pub automount_service_account_token: Option<bool>,
    pub dns_policy: Option<String>,
    pub enable_service_links: Option<bool>,
    pub hostname: Option<String>,
    pub host_ipc: Option<bool>,
    pub host_network: Option<bool>,
    pub host_pid: Option<bool>,
    pub node_selector: Option<StringMap>,
    pub priority_class_name: Option<String>,
    pub restart_policy: Option<String>,
    pub runtime_class_name: Option<String>,
    pub scheduler_name: Option<String>,
    pub termination_grace_period_seconds: Option<i64>,
}

/// The mathematical value of a [`PodSpec`].
pub struct PodSpecView {
    pub containers: Seq<ContainerView>,
    pub init_containers: Option<Seq<ContainerView>>,
    pub service_account_name: Option<Seq<char>>,
    pub automount_service_account_token: Option<bool>,
    pub dns_policy: Option<Seq<char>>,
    pub enable_service_links: Option<bool>,
    pub hostname: Option<Seq<char>>,
    pub host_ipc: Option<bool>,
    pub host_network: Option<bool>,
    pub host_pid: Option<bool>,
    pub node_selector: Option<Map<Seq<char>, Seq<char>>>,
    pub priority_class_name: Option<Seq<char>>,
    pub restart_policy: Option<Seq<char>>,
    pub runtime_class_name: Option<Seq<char>>,
    pub scheduler_name: Option<Seq<char>>,
    pub termination_grace_period_seconds: Option<i64>,
}

impl View for PodSpec {
    type V = PodSpecView;

    open spec fn view(&self) -> PodSpecView {
        PodSpecView {
            containers: self.containers.deep_view(),
            init_containers: self.init_containers.deep_view(),
            service_account_name: self.service_account_name.deep_view(),
            automount_service_account_token: self.automount_service_account_token,
            dns_policy: self.dns_policy.deep_view(),
            enable_service_links: self.enable_service_links,
            hostname: self.hostname.deep_view(),
            host_ipc: self.host_ipc,
            host_network: self.host_network,
            host_pid: self.host_pid,
            node_selector: self.node_selector.deep_view(),
            priority_class_name: self.priority_class_name.deep_view(),
            restart_policy: self.restart_policy.deep_view(),
            runtime_class_name: self.runtime_class_name.deep_view(),
            scheduler_name: self.scheduler_name.deep_view(),
            termination_grace_period_seconds: self.termination_grace_period_seconds,
        }
    }
}

impl DeepView for PodSpec {
    type V = PodSpecView;

    open spec fn deep_view(&self) -> PodSpecView {
        self@
    }
}

/// The pods that a controller makes.
#[derive(Debug)]
pub struct PodTemplateSpec {
    pub metadata: Option<ObjectMeta>,
    pub spec: Option<PodSpec>,
}

/// The mathematical value of a [`PodTemplateSpec`].
pub struct PodTemplateSpecView {
    pub metadata: Option<ObjectMetaView>,
    pub spec: Option<PodSpecView>,
}

impl View for PodTemplateSpec {
    type V = PodTemplateSpecView;

    open spec fn view(&self) -> PodTemplateSpecView {
        PodTemplateSpecView {
            metadata: self.metadata.deep_view(),
            spec: self.spec.deep_view(),
        }
    }
}

impl DeepView for PodTemplateSpec {
    type V = PodTemplateSpecView;

    open spec fn deep_view(&self) -> PodTemplateSpecView {
        self@
    }
}

/// The bounds of a rolling update.
#[derive(Debug)]
pub struct RollingUpdateDeployment {
    pub max_surge: Option<IntOrString>,
    pub max_unavailable: Option<IntOrString>,
}

/// The mathematical value of a [`RollingUpdateDeployment`].
pub struct RollingUpdateDeploymentView {
    pub max_surge: Option<IntOrStringView>,
    pub max_unavailable: Option<IntOrStringView>,
}

impl View for RollingUpdateDeployment {
    type V = RollingUpdateDeploymentView;

    open spec fn view(&self) -> RollingUpdateDeploymentView {
        RollingUpdateDeploymentView {
            max_surge: self.max_surge.deep_view(),
            max_unavailable: self.max_unavailable.deep_view(),
        }
    }
}

impl DeepView for RollingUpdateDeployment {
    type V = RollingUpdateDeploymentView;

    open spec fn deep_view(&self) -> RollingUpdateDeploymentView {
        self@
    }
}

/// How a deployment replaces its pods.
#[derive(Debug)]
pub struct DeploymentStrategy {
    pub type_: Option<String>,
    pub rolling_update: Option<RollingUpdateDeployment>,
}

/// The mathematical value of a [`DeploymentStrategy`].
pub struct DeploymentStrategyView {
    pub type_: Option<Seq<char>>,
    pub rolling_update: Option<RollingUpdateDeploymentView>,
}

impl View for DeploymentStrategy {
    type V = DeploymentStrategyView;

    open spec fn view(&self) -> DeploymentStrategyView {
        DeploymentStrategyView {
            type_: self.type_.deep_view(),
            rolling_update: self.rolling_update.deep_view(),
        }
    }
}

impl DeepView for DeploymentStrategy {
    type V = DeploymentStrategyView;

    open spec fn deep_view(&self) -> DeploymentStrategyView {
        self@
    }
}

/// The labels by which pods are selected.
#[derive(Debug)]
pub struct LabelSelector {
    pub match_labels: Option<StringMap>,
}

/// The mathematical value of a [`LabelSelector`].
pub struct LabelSelectorView {
    pub match_labels: Option<Map<Seq<char>, Seq<char>>>,
}

impl View for LabelSelector {
    type V = LabelSelectorView;

    open spec fn view(&self) -> LabelSelectorView {
        LabelSelectorView {
            match_labels: self.match_labels.deep_view(),
        }
    }
}

impl DeepView for LabelSelector {
    type V = LabelSelectorView;

    open spec fn deep_view(&self) -> LabelSelectorView {
        self@
    }
}

/// What a deployment asks for.
#[derive(Debug)]
pub struct DeploymentSpec {
    pub replicas: Option<i32>,
    pub revision_history_limit: Option<i32>,
    pub selector: LabelSelector,
    pub strategy: Option<DeploymentStrategy>,
    pub template: PodTemplateSpec,
}

/// The mathematical value of a [`DeploymentSpec`].
pub struct DeploymentSpecView {
    pub replicas: Option<i32>,
    pub revision_history_limit: Option<i32>,
    pub selector: LabelSelectorView,
    pub strategy: Option<DeploymentStrategyView>,
    pub template: PodTemplateSpecView,
}

impl View for DeploymentSpec {
    type V = DeploymentSpecView;

    open spec fn view(&self) -> DeploymentSpecView {
        DeploymentSpecView {
            replicas: self.replicas,
            revision_history_limit: self.revision_history_limit,
            selector: self.selector@,
            strategy: self.strategy.deep_view(),
            template: self.template@,
        }
    }
}

impl DeepView for DeploymentSpec {
    type V = DeploymentSpecView;

    open spec fn deep_view(&self) -> DeploymentSpecView {
        self@
    }
}

/// A deployment.
#[derive(Debug)]
pub struct Deployment {
    pub metadata: ObjectMeta,
    pub spec: Option<DeploymentSpec>,
}

/// The mathematical value of a [`Deployment`].
pub struct DeploymentView {
    pub metadata: ObjectMetaView,
    pub spec: Option<DeploymentSpecView>,
}

impl View for Deployment {
    type V = DeploymentView;

    open spec fn view(&self) -> DeploymentView {
        DeploymentView {
            metadata: self.metadata@,
            spec: self.spec.deep_view(),
        }
    }
}

impl DeepView for Deployment {
    type V = DeploymentView;

    open spec fn deep_view(&self) -> DeploymentView {
        self@
    }
}

/// One of the ports of a service.
#[derive(Debug)]
pub struct ServicePort {
    pub name: Option<String>,
    pub port: i32,
    pub target_port: Option<IntOrString>,
    pub protocol: Option<String>,
    pub node_port: Option<i32>,
    pub app_protocol: Option<String>,
}

/// The mathematical value of a [`ServicePort`].
pub struct ServicePortView {
    pub name: Option<Seq<char>>,
    pub port: i32,
    pub target_port: Option<IntOrStringView>,
    pub protocol: Option<Seq<char>>,
    pub node_port: Option<i32>,
    pub app_protocol: Option<Seq<char>>,
}

impl View for ServicePort {
    type V = ServicePortView;

    open spec fn view(&self) -> ServicePortView {
        ServicePortView {
            name: self.name.deep_view(),
            port: self.port,
            target_port: self.target_port.deep_view(),
            protocol: self.protocol.deep_view(),
            node_port: self.node_port,
            app_protocol: self.app_protocol.deep_view(),
        }
    }
}

impl DeepView for ServicePort {
    type V = ServicePortView;

    open spec fn deep_view(&self) -> ServicePortView {
        self@
    }
}

/// What a service asks for.
#[derive(Debug)]
pub struct ServiceSpec {
    pub type_: Option<String>,
    pub selector: Option<StringMap>,
    pub ports: Option<Vec<ServicePort>>,
    pub cluster_ip: Option<String>,
    pub load_balancer_ip: Option<String>,
    pub load_balancer_source_ranges: Option<Vec<String>>,
    pub load_balancer_class: Option<String>,
    pub external_name: Option<String>,
    pub internal_traffic_policy: Option<String>,
    pub external_traffic_policy: Option<String>,
    pub allocate_load_balancer_node_ports: Option<bool>,
    pub session_affinity: Option<String>,
    pub session_affinity_config: Option<k8s_openapi::api::core::v1::SessionAffinityConfig>,
    pub external_ips: Option<Vec<String>>,
    pub publish_not_ready_addresses: Option<bool>,
    pub ip_family_policy: Option<String>,
    pub ip_families: Option<Vec<String>>,
}

/// The mathematical value of a [`ServiceSpec`].
pub struct ServiceSpecView {
    pub type_: Option<Seq<char>>,
    pub selector: Option<Map<Seq<char>, Seq<char>>>,
    pub ports: Option<Seq<ServicePortView>>,
    pub cluster_ip: Option<Seq<char>>,
    pub load_balancer_ip: Option<Seq<char>>,
    pub load_balancer_source_ranges: Option<Seq<Seq<char>>>,
    pub load_balancer_class: Option<Seq<char>>,
    pub external_name: Option<Seq<char>>,
    pub internal_traffic_policy: Option<Seq<char>>,
    pub external_traffic_policy: Option<Seq<char>>,
    pub allocate_load_balancer_node_ports: Option<bool>,
    pub session_affinity: Option<Seq<char>>,
    pub session_affinity_config: Option<k8s_openapi::api::core::v1::SessionAffinityConfig>,
    pub external_ips: Option<Seq<Seq<char>>>,
    pub publish_not_ready_addresses: Option<bool>,
    pub ip_family_policy: Option<Seq<char>>,
    pub ip_families: Option<Seq<Seq<char>>>,
}

impl View for ServiceSpec {
    type V = ServiceSpecView;

    open spec fn view(&self) -> ServiceSpecView {
        ServiceSpecView {
            type_: self.type_.deep_view(),
            selector: self.selector.deep_view(),
            ports: self.ports.deep_view(),
            cluster_ip: self.cluster_ip.deep_view(),
            load_balancer_ip: self.load_balancer_ip.deep_view(),
            load_balancer_source_ranges: self.load_balancer_source_ranges.deep_view(),
            load_balancer_class: self.load_balancer_class.deep_view(),
            external_name: self.external_name.deep_view(),
            internal_traffic_policy: self.internal_traffic_policy.deep_view(),
            external_traffic_policy: self.external_traffic_policy.deep_view(),
            allocate_load_balancer_node_ports: self.allocate_load_balancer_node_ports,
            session_affinity: self.session_affinity.deep_view(),
            session_affinity_config: self.session_affinity_config,
            external_ips: self.external_ips.deep_view(),
            publish_not_ready_addresses: self.publish_not_ready_addresses,
            ip_family_policy: self.ip_family_policy.deep_view(),
            ip_families: self.ip_families.deep_view(),
        }
    }
}

impl DeepView for ServiceSpec {
    type V = ServiceSpecView;

    open spec fn deep_view(&self) -> ServiceSpecView {
        self@
    }
}

/// A service.
#[derive(Debug)]
pub struct Service {
    pub metadata: ObjectMeta,
    pub spec: Option<ServiceSpec>,
}

/// The mathematical value of a [`Service`].
pub struct ServiceView {
    pub metadata: ObjectMetaView,
    pub spec: Option<ServiceSpecView>,
}

impl View for Service {
    type V = ServiceView;

    open spec fn view(&self) -> ServiceView {
        ServiceView {
            metadata: self.metadata@,
            spec: self.spec.deep_view(),
        }
    }
}

impl DeepView for Service {
    type V = ServiceView;

    open spec fn deep_view(&self) -> ServiceView {
        self@
    }
}

/// A config map.
#[derive(Debug)]
pub struct ConfigMap {
    pub metadata: ObjectMeta,
    pub data: Option<StringMap>,
}

/// The mathematical value of a [`ConfigMap`].
pub struct ConfigMapView {
    pub metadata: ObjectMetaView,
    pub data: Option<Map<Seq<char>, Seq<char>>>,
}

impl View for ConfigMap {
    type V = ConfigMapView;

    open spec fn view(&self) -> ConfigMapView {
        ConfigMapView {
            metadata: self.metadata@,
            data: self.data.deep_view(),
        }
    }
}

impl DeepView for ConfigMap {
    type V = ConfigMapView;

    open spec fn deep_view(&self) -> ConfigMapView {
        self@
    }
}

/// The storage that a claim asks for, as quantities by resource name.
#[derive(Debug)]
pub struct VolumeResourceRequirements {
    pub requests: Option<StringMap>,
}

/// The mathematical value of a [`VolumeResourceRequirements`].
pub struct VolumeResourceRequirementsView {
    pub requests: Option<Map<Seq<char>, Seq<char>>>,
}

impl View for VolumeResourceRequirements {
    type V = VolumeResourceRequirementsView;

    open spec fn view(&self) -> VolumeResourceRequirementsView {
        VolumeResourceRequirementsView {
            requests: self.requests.deep_view(),
        }
    }
}

impl DeepView for VolumeResourceRequirements {
    type V = VolumeResourceRequirementsView;

    open spec fn deep_view(&self) -> VolumeResourceRequirementsView {
        self@
    }
}

/// What a persistent volume claim asks for.
#[derive(Debug)]
pub struct PersistentVolumeClaimSpec {
    pub access_modes: Option<Vec<String>>,
    pub resources: Option<VolumeResourceRequirements>,
    pub storage_class_name: Option<String>,
    pub data_source: Option<k8s_openapi::api::core::v1::TypedLocalObjectReference>,
    pub data_source_ref: Option<k8s_openapi::api::core::v1::TypedObjectReference>,
}

/// The mathematical value of a [`PersistentVolumeClaimSpec`].
pub struct PersistentVolumeClaimSpecView {
    pub access_modes: Option<Seq<Seq<char>>>,
    pub resources: Option<VolumeResourceRequirementsView>,
    pub storage_class_name: Option<Seq<char>>,
    pub data_source: Option<k8s_openapi::api::core::v1::TypedLocalObjectReference>,
    pub data_source_ref: Option<k8s_openapi::api::core::v1::TypedObjectReference>,
}

impl View for PersistentVolumeClaimSpec {
    type V = PersistentVolumeClaimSpecView;

    open spec fn view(&self) -> PersistentVolumeClaimSpecView {
        PersistentVolumeClaimSpecView {
            access_modes: self.access_modes.deep_view(),
            resources: self.resources.deep_view(),
            storage_class_name: self.storage_class_name.deep_view(),
            data_source: self.data_source,
            data_source_ref: self.data_source_ref,
        }
    }
}

impl DeepView for PersistentVolumeClaimSpec {
    type V = PersistentVolumeClaimSpecView;

    open spec fn deep_view(&self) -> PersistentVolumeClaimSpecView {
        self@
    }
}

/// A persistent volume claim.
#[derive(Debug)]
pub struct PersistentVolumeClaim {
    pub metadata: ObjectMeta,
    pub spec: Option<PersistentVolumeClaimSpec>,
}

/// The mathematical value of a [`PersistentVolumeClaim`].
pub struct PersistentVolumeClaimView {
    pub metadata: ObjectMetaView,
    pub spec: Option<PersistentVolumeClaimSpecView>,
}

impl View for PersistentVolumeClaim {
    type V = PersistentVolumeClaimView;

    open spec fn view(&self) -> PersistentVolumeClaimView {
        PersistentVolumeClaimView {
            metadata: self.metadata@,
            spec: self.spec.deep_view(),
        }
    }
}

impl DeepView for PersistentVolumeClaim {
    type V = PersistentVolumeClaimView;

    open spec fn deep_view(&self) -> PersistentVolumeClaimView {
        self@
    }
}

/// A reference to an object by its name.
#[derive(Debug)]
pub struct ObjectReference {
    pub name: Option<String>,
}

/// The mathematical value of a [`ObjectReference`].
pub struct ObjectReferenceView {
    pub name: Option<Seq<char>>,
}

impl View for ObjectReference {
    type V = ObjectReferenceView;

    open spec fn view(&self) -> ObjectReferenceView {
        ObjectReferenceView {
            name: self.name.deep_view(),
        }
    }
}

impl DeepView for ObjectReference {
    type V = ObjectReferenceView;

    open spec fn deep_view(&self) -> ObjectReferenceView {
        self@
    }
}

/// A service account.
#[derive(Debug)]
pub struct ServiceAccount {
    pub metadata: ObjectMeta,
    pub automount_service_account_token: Option<bool>,
    pub secrets: Option<Vec<ObjectReference>>,
}

/// The mathematical value of a [`ServiceAccount`].
pub struct ServiceAccountView {
    pub metadata: ObjectMetaView,
    pub automount_service_account_token: Option<bool>,
    pub secrets: Option<Seq<ObjectReferenceView>>,
}

impl View for ServiceAccount {
    type V = ServiceAccountView;

    open spec fn view(&self) -> ServiceAccountView {
        ServiceAccountView {
            metadata: self.metadata@,
            automount_service_account_token: self.automount_service_account_token,
            secrets: self.secrets.deep_view(),
        }
    }
}

impl DeepView for ServiceAccount {
    type V = ServiceAccountView;

    open spec fn deep_view(&self) -> ServiceAccountView {
        self@
    }
}

/// The gateway that a route attaches to.
#[derive(Debug)]
pub struct ParentReference {
    pub name: Option<String>,
}

/// The mathematical value of a [`ParentReference`].
pub struct ParentReferenceView {
    pub name: Option<Seq<char>>,
}

impl View for ParentReference {
    type V = ParentReferenceView;

    open spec fn view(&self) -> ParentReferenceView {
        ParentReferenceView {
            name: self.name.deep_view(),
        }
    }
}

impl DeepView for ParentReference {
    type V = ParentReferenceView;

    open spec fn deep_view(&self) -> ParentReferenceView {
        self@
    }
}

/// A condition on the path of a request.
#[derive(Debug)]
pub struct HttpPathMatch {
    pub type_: Option<String>,
    pub value: Option<String>,
}

/// The mathematical value of a [`HttpPathMatch`].
pub struct HttpPathMatchView {
    pub type_: Option<Seq<char>>,
    pub value: Option<Seq<char>>,
}

impl View for HttpPathMatch {
    type V = HttpPathMatchView;

    open spec fn view(&self) -> HttpPathMatchView {
        HttpPathMatchView {
            type_: self.type_.deep_view(),
            value: self.value.deep_view(),
        }
    }
}

impl DeepView for HttpPathMatch {
    type V = HttpPathMatchView;

    open spec fn deep_view(&self) -> HttpPathMatchView {
        self@
    }
}

/// A condition on a header of a request.
#[derive(Debug)]
pub struct HttpHeaderMatch {
    pub type_: Option<String>,
    pub name: String,
    pub value: String,
}

/// The mathematical value of a [`HttpHeaderMatch`].
pub struct HttpHeaderMatchView {
    pub type_: Option<Seq<char>>,
    pub name: Seq<char>,
    pub value: Seq<char>,
}

impl View for HttpHeaderMatch {
    type V = HttpHeaderMatchView;

    open spec fn view(&self) -> HttpHeaderMatchView {
        HttpHeaderMatchView {
            type_: self.type_.deep_view(),
            name: self.name@,
            value: self.value@,
        }
    }
}

impl DeepView for HttpHeaderMatch {
    type V = HttpHeaderMatchView;

    open spec fn deep_view(&self) -> HttpHeaderMatchView {
        self@
    }
}

/// A condition on a query parameter of a request.
#[derive(Debug)]
pub struct HttpQueryParamMatch {
    pub type_: Option<String>,
    pub name: String,
    pub value: String,
}

/// The mathematical value of a [`HttpQueryParamMatch`].
pub struct HttpQueryParamMatchView {
    pub type_: Option<Seq<char>>,
    pub name: Seq<char>,
    pub value: Seq<char>,
}

impl View for HttpQueryParamMatch {
    type V = HttpQueryParamMatchView;

    open spec fn view(&self) -> HttpQueryParamMatchView {
        HttpQueryParamMatchView {
            type_: self.type_.deep_view(),
            name: self.name@,
            value: self.value@,
        }
    }
}

impl DeepView for HttpQueryParamMatch {
    type V = HttpQueryParamMatchView;

    open spec fn deep_view(&self) -> HttpQueryParamMatchView {
        self@
    }
}

/// The conditions under which a request falls under a rule.
#[derive(Debug)]
pub struct HttpRouteMatch {
    pub path: Option<HttpPathMatch>,
    pub method: Option<String>,
    pub headers: Option<Vec<HttpHeaderMatch>>,
    pub query_params: Option<Vec<HttpQueryParamMatch>>,
}

/// The mathematical value of a [`HttpRouteMatch`].
pub struct HttpRouteMatchView {
    pub path: Option<HttpPathMatchView>,
    pub method: Option<Seq<char>>,
    pub headers: Option<Seq<HttpHeaderMatchView>>,
    pub query_params: Option<Seq<HttpQueryParamMatchView>>,
}

impl View for HttpRouteMatch {
    type V = HttpRouteMatchView;

    open spec fn view(&self) -> HttpRouteMatchView {
        HttpRouteMatchView {
            path: self.path.deep_view(),
            method: self.method.deep_view(),
            headers: self.headers.deep_view(),
            query_params: self.query_params.deep_view(),
        }
    }
}

impl DeepView for HttpRouteMatch {
    type V = HttpRouteMatchView;

    open spec fn deep_view(&self) -> HttpRouteMatchView {
        self@
    }
}

/// A service that takes the requests of a rule, with its weight.
#[derive(Debug)]
pub struct BackendRef {
    pub name: String,
    pub port: Option<i32>,
    pub weight: Option<i32>,
}

/// The mathematical value of a [`BackendRef`].
pub struct BackendRefView {
    pub name: Seq<char>,
    pub port: Option<i32>,
    pub weight: Option<i32>,
}

impl View for BackendRef {
    type V = BackendRefView;

    open spec fn view(&self) -> BackendRefView {
        BackendRefView {
            name: self.name@,
            port: self.port,
            weight: self.weight,
        }
    }
}

impl DeepView for BackendRef {
    type V = BackendRefView;

    open spec fn deep_view(&self) -> BackendRefView {
        self@
    }
}

/// A rule of a route.
#[derive(Debug)]
pub struct HttpRouteRule {
    pub matches: Option<Vec<HttpRouteMatch>>,
    pub backend_refs: Option<Vec<BackendRef>>,
}

/// The mathematical value of a [`HttpRouteRule`].
pub struct HttpRouteRuleView {
    pub matches: Option<Seq<HttpRouteMatchView>>,
    pub backend_refs: Option<Seq<BackendRefView>>,
}

impl View for HttpRouteRule {
    type V = HttpRouteRuleView;

    open spec fn view(&self) -> HttpRouteRuleView {
        HttpRouteRuleView {
            matches: self.matches.deep_view(),
            backend_refs: self.backend_refs.deep_view(),
        }
    }
}

impl DeepView for HttpRouteRule {
    type V = HttpRouteRuleView;

    open spec fn deep_view(&self) -> HttpRouteRuleView {
        self@
    }
}

/// What a route asks for.
#[derive(Debug)]
pub struct HttpRouteSpec {
    pub parent_refs: Option<Vec<ParentReference>>,
    pub hostnames: Option<Vec<String>>,
    pub rules: Option<Vec<HttpRouteRule>>,
}

/// The mathematical value of a [`HttpRouteSpec`].
pub struct HttpRouteSpecView {
    pub parent_refs: Option<Seq<ParentReferenceView>>,
    pub hostnames: Option<Seq<Seq<char>>>,
    pub rules: Option<Seq<HttpRouteRuleView>>,
}

impl View for HttpRouteSpec {
    type V = HttpRouteSpecView;

    open spec fn view(&self) -> HttpRouteSpecView {
        HttpRouteSpecView {
            parent_refs: self.parent_refs.deep_view(),
            hostnames: self.hostnames.deep_view(),
            rules: self.rules.deep_view(),
        }
    }
}

impl DeepView for HttpRouteSpec {
    type V = HttpRouteSpecView;

    open spec fn deep_view(&self) -> HttpRouteSpecView {
        self@
    }
}

/// An HTTP route.
#[derive(Debug)]
pub struct HttpRoute {
    pub metadata: ObjectMeta,
    pub spec: HttpRouteSpec,
}

/// The mathematical value of a [`HttpRoute`].
pub struct HttpRouteView {
    pub metadata: ObjectMetaView,
    pub spec: HttpRouteSpecView,
}

impl View for HttpRoute {
    type V = HttpRouteView;

    open spec fn view(&self) -> HttpRouteView {
        HttpRouteView {
            metadata: self.metadata@,
            spec: self.spec@,
        }
    }
}

impl DeepView for HttpRoute {
    type V = HttpRouteView;

    open spec fn deep_view(&self) -> HttpRouteView {
        self@
    }
}

/// A generated resource of any kind.
#[derive(Debug)]
pub enum Resource {
    Deployment(Deployment),
    Service(Service),
    ConfigMap(ConfigMap),
    ServiceAccount(ServiceAccount),
    PersistentVolumeClaim(PersistentVolumeClaim),
    HttpRoute(HttpRoute),
}

/// The mathematical value of a [`Resource`].
pub enum ResourceView {
    Deployment(DeploymentView),
    Service(ServiceView),
    ConfigMap(ConfigMapView),
    ServiceAccount(ServiceAccountView),
    PersistentVolumeClaim(PersistentVolumeClaimView),
    HttpRoute(HttpRouteView),
}

impl View for Resource {
    type V = ResourceView;

    open spec fn view(&self) -> ResourceView {
        match self {
            Resource::Deployment(d) => ResourceView::Deployment(d@),
            Resource::Service(s) => ResourceView::Service(s@),
            Resource::ConfigMap(c) => ResourceView::ConfigMap(c@),
            Resource::ServiceAccount(a) => ResourceView::ServiceAccount(a@),
            Resource::PersistentVolumeClaim(p) => ResourceView::PersistentVolumeClaim(p@),
            Resource::HttpRoute(h) => ResourceView::HttpRoute(h@),
        }
    }
}

impl DeepView for Resource {
    type V = ResourceView;

    open spec fn deep_view(&self) -> ResourceView {
        self@
    }
}

} // verus!
