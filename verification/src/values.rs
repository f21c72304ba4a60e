use crate::named::Named;
use crate::payload::copy_payload;
use crate::payload::copy_payloads;
use crate::string_map::StringMap;
use crate::text::copy_text;
use crate::text::copy_text_list;
use serde_json::Value;
use vstd::prelude::*;

verus! {

/// The whole configuration: global settings, the pod options that every
/// controller starts from, and one named collection for each kind of resource.
#[derive(Debug, Clone)]
pub struct Values {
    pub global: GlobalConfig,
    pub default_pod_options_strategy: String,
    pub default_pod_options: PodOptions,
    pub controllers: Named<Controller>,
    pub service_account: Named<ServiceAccount>,
    pub config_maps: Named<ConfigMap>,
    pub secrets: Named<Secret>,
    pub ingress: Named<Ingress>,
    pub route: Named<Route>,
    pub service: Named<Service>,
    pub service_monitor: Named<ServiceMonitor>,
    pub networkpolicies: Named<NetworkPolicy>,
    pub persistence: Named<PersistenceItem>,
    pub rbac: RbacConfig,
    pub raw_resources: Named<RawResource>,
}

/// Settings that bear on every generated resource.
#[derive(Debug, Clone)]
pub struct GlobalConfig {
    pub propagate_global_metadata_to_pods: bool,
    pub labels: StringMap,
    pub annotations: StringMap,
}

/// Pod-level settings, given once as defaults and once for each controller.
#[derive(Debug)]
pub struct PodOptions {
    pub affinity: Option<Value>,
    pub annotations: StringMap,
    pub automount_service_account_token: bool,
    pub dns_config: Option<Value>,
    pub dns_policy: Option<String>,
    pub enable_service_links: bool,
    pub hostname: Option<String>,
    pub host_aliases: Vec<Value>,
    pub host_ipc: bool,
    pub host_network: bool,
    pub host_pid: bool,
    pub host_users: Option<bool>,
    pub image_pull_secrets: Vec<String>,
    pub labels: StringMap,
    pub node_selector: StringMap,
    pub priority_class_name: Option<String>,
    pub restart_policy: Option<String>,
    pub runtime_class_name: Option<String>,
    pub scheduler_name: Option<String>,
    pub security_context: Option<Value>,
    pub share_process_namespace: Option<bool>,
    pub termination_grace_period_seconds: Option<i64>,
    pub tolerations: Vec<Value>,
    pub topology_spread_constraints: Vec<Value>,
}

/// The mathematical value of a [`PodOptions`].
pub struct PodOptionsView {
    pub affinity: Option<Value>,
    pub annotations: Map<Seq<char>, Seq<char>>,
    pub automount_service_account_token: bool,
    pub dns_config: Option<Value>,
    pub dns_policy: Option<Seq<char>>,
    pub enable_service_links: bool,
    pub hostname: Option<Seq<char>>,
    pub host_aliases: Seq<Value>,
    pub host_ipc: bool,
    pub host_network: bool,
    pub host_pid: bool,
    pub host_users: Option<bool>,
    pub image_pull_secrets: Seq<Seq<char>>,
    pub labels: Map<Seq<char>, Seq<char>>,
    pub node_selector: Map<Seq<char>, Seq<char>>,
    pub priority_class_name: Option<Seq<char>>,
    pub restart_policy: Option<Seq<char>>,
    pub runtime_class_name: Option<Seq<char>>,
    pub scheduler_name: Option<Seq<char>>,
    pub security_context: Option<Value>,
    pub share_process_namespace: Option<bool>,
    pub termination_grace_period_seconds: Option<i64>,
    pub tolerations: Seq<Value>,
    pub topology_spread_constraints: Seq<Value>,
}

impl View for PodOptions {
    type V = PodOptionsView;

    open spec fn view(&self) -> PodOptionsView {
        PodOptionsView {
            affinity: self.affinity,
            annotations: self.annotations@,
            automount_service_account_token: self.automount_service_account_token,
            dns_config: self.dns_config,
            dns_policy: self.dns_policy.deep_view(),
            enable_service_links: self.enable_service_links,
            hostname: self.hostname.deep_view(),
            host_aliases: self.host_aliases@,
            host_ipc: self.host_ipc,
            host_network: self.host_network,
            host_pid: self.host_pid,
            host_users: self.host_users,
            image_pull_secrets: self.image_pull_secrets.deep_view(),
            labels: self.labels@,
            node_selector: self.node_selector@,
            priority_class_name: self.priority_class_name.deep_view(),
            restart_policy: self.restart_policy.deep_view(),
            runtime_class_name: self.runtime_class_name.deep_view(),
            scheduler_name: self.scheduler_name.deep_view(),
            security_context: self.security_context,
            share_process_namespace: self.share_process_namespace,
            termination_grace_period_seconds: self.termination_grace_period_seconds,
            tolerations: self.tolerations@,
            topology_spread_constraints: self.topology_spread_constraints@,
        }
    }
}

/// A workload and the pods that it runs.
#[derive(Debug, Clone)]
pub struct Controller {
    pub enabled: bool,
    pub type_: String,
    pub annotations: StringMap,
    pub labels: StringMap,
    pub replicas: Option<i32>,
    pub strategy: Option<String>,
    pub rolling_update: Option<RollingUpdateConfig>,
    pub revision_history_limit: i32,
    pub service_account: Option<ServiceAccountRef>,
    pub cronjob: Option<CronJobConfig>,
    pub job: Option<JobConfig>,
    pub statefulset: Option<StatefulSetConfig>,
    pub containers: Named<Container>,
    pub init_containers: Named<Container>,
    pub pod_options: PodOptions,
}

/// One container of a controller.
#[derive(Debug, Clone)]
pub struct Container {
    pub image: String,
    pub command: Option<Vec<String>>,
    pub args: Option<Vec<String>>,
    pub env: Named<EnvVar>,
    pub ports: Named<ContainerPort>,
    pub resources: Option<ResourceRequirements>,
    pub security_context: Option<Value>,
    pub volume_mounts: Vec<VolumeMount>,
    pub liveness_probe: Option<Value>,
    pub readiness_probe: Option<Value>,
    pub startup_probe: Option<Value>,
}

/// An environment variable: a literal value, or a payload that says where
/// the value comes from.
#[derive(Debug, Clone)]
pub struct EnvVar {
    pub value: Option<String>,
    pub value_from: Option<Value>,
}

/// A port that a container listens on.
#[derive(Debug, Clone)]
pub struct ContainerPort {
    pub container_port: i32,
    pub protocol: Option<String>,
}

/// The compute resources that a container asks for and may use at most.
#[derive(Debug, Clone)]
pub struct ResourceRequirements {
    pub requests: Option<StringMap>,
    pub limits: Option<StringMap>,
}

/// Where a volume appears in a container.
#[derive(Debug, Clone)]
pub struct VolumeMount {
    pub name: String,
    pub mount_path: String,
    pub read_only: Option<bool>,
    pub sub_path: Option<String>,
}

/// How many pods a rolling update may add or take away at a time.
#[derive(Debug, Clone)]
pub struct RollingUpdateConfig {
    pub unavailable: Option<String>,
    pub surge: Option<String>,
    pub partition: Option<i32>,
}

/// The service account of a controller, by name or by the identifier of an
/// entry of this configuration.
#[derive(Debug, Clone)]
pub struct ServiceAccountRef {
    pub identifier: Option<String>,
    pub name: Option<String>,
}

/// Settings of a controller of the cron job kind.
#[derive(Debug, Clone)]
pub struct CronJobConfig {
    pub suspend: Option<bool>,
    pub concurrency_policy: String,
    pub time_zone: Option<String>,
    pub schedule: String,
    pub starting_deadline_seconds: Option<i64>,
    pub successful_jobs_history: i32,
    pub failed_jobs_history: i32,
    pub ttl_seconds_after_finished: Option<i32>,
    pub backoff_limit: i32,
    pub parallelism: Option<i32>,
}

/// Settings of a controller of the job kind.
#[derive(Debug, Clone)]
pub struct JobConfig {
    pub suspend: Option<bool>,
    pub ttl_seconds_after_finished: Option<i32>,
    pub backoff_limit: i32,
    pub parallelism: Option<i32>,
    pub completions: Option<i32>,
    pub completion_mode: Option<String>,
}

/// Settings of a controller of the stateful set kind.
#[derive(Debug, Clone)]
pub struct StatefulSetConfig {
    pub pod_management_policy: Option<String>,
    pub volume_claim_templates: Vec<PersistenceItem>,
}

/// An identity for pods.
#[derive(Debug, Clone)]
pub struct ServiceAccount {
    pub enabled: bool,
    pub annotations: StringMap,
    pub labels: StringMap,
    pub automount_service_account_token: Option<bool>,
    pub secrets: Vec<String>,
}

/// A store of literal configuration data.
#[derive(Debug, Clone)]
pub struct ConfigMap {
    pub enabled: bool,
    pub annotations: StringMap,
    pub labels: StringMap,
    pub data: StringMap,
}

/// A store of confidential data.
#[derive(Debug, Clone)]
pub struct Secret {
    pub enabled: bool,
    pub annotations: StringMap,
    pub labels: StringMap,
    pub type_: String,
    pub data: StringMap,
    pub string_data: StringMap,
}

/// HTTP access from outside the cluster.
#[derive(Debug, Clone)]
pub struct Ingress {
    pub enabled: bool,
    pub annotations: StringMap,
    pub labels: StringMap,
    pub class_name: Option<String>,
    pub hosts: Vec<IngressHost>,
    pub tls: Vec<IngressTls>,
}

/// A host of an ingress with its paths.
#[derive(Debug, Clone)]
pub struct IngressHost {
    pub host: String,
    pub paths: Vec<IngressPath>,
}

/// A path of an ingress host and the service behind it.
#[derive(Debug, Clone)]
pub struct IngressPath {
    pub path: String,
    pub path_type: String,
    pub service: IngressService,
}

/// The service behind an ingress path.
#[derive(Debug, Clone)]
pub struct IngressService {
    pub identifier: Option<String>,
    pub name: Option<String>,
    pub port: Option<i32>,
}

/// The hosts that one TLS secret of an ingress covers.
#[derive(Debug, Clone)]
pub struct IngressTls {
    pub secret_name: String,
    pub hosts: Vec<String>,
}

/// A route of the gateway.
#[derive(Debug, Clone)]
pub struct Route {
    pub enabled: bool,
    pub annotations: StringMap,
    pub labels: StringMap,
    pub class_name: Option<String>,
    pub hosts: Vec<String>,
    pub rules: Vec<RouteRule>,
    pub tls: Vec<RouteTls>,
}

/// A rule of a route: requests that match go to the backends.
#[derive(Debug, Clone)]
pub struct RouteRule {
    pub matches: Vec<RouteMatch>,
    pub backend_refs: Vec<RouteBackendRef>,
    pub filters: Option<Vec<Value>>,
}

/// What a request must look like to fall under a rule.
#[derive(Debug, Clone)]
pub struct RouteMatch {
    pub path: Option<RoutePathMatch>,
    pub headers: Option<Vec<RouteHeaderMatch>>,
    pub query_params: Option<Vec<RouteQueryParamMatch>>,
    pub method: Option<String>,
}

/// A condition on the path of a request.
#[derive(Debug, Clone)]
pub struct RoutePathMatch {
    pub type_: String,
    pub value: String,
}

/// A condition on a header of a request.
#[derive(Debug, Clone)]
pub struct RouteHeaderMatch {
    pub name: String,
    pub type_: String,
    pub value: String,
}

/// A condition on a query parameter of a request.
#[derive(Debug, Clone)]
pub struct RouteQueryParamMatch {
    pub name: String,
    pub type_: String,
    pub value: String,
}

/// A backend of a route rule and its share of the traffic.
#[derive(Debug, Clone)]
pub struct RouteBackendRef {
    pub name: String,
    pub port: Option<i32>,
    pub weight: Option<i32>,
}

/// The hosts that one TLS secret of a route covers.
#[derive(Debug, Clone)]
pub struct RouteTls {
    pub hosts: Vec<String>,
    pub secret_name: Option<String>,
}

/// A stable address for the pods of a controller.
#[derive(Debug, Clone)]
pub struct Service {
    pub enabled: bool,
    pub annotations: StringMap,
    pub labels: StringMap,
    pub type_: String,
    pub cluster_ip: Option<String>,
    pub load_balancer_ip: Option<String>,
    pub load_balancer_source_ranges: Option<Vec<String>>,
    pub load_balancer_class: Option<String>,
    pub external_name: Option<String>,
    pub internal_traffic_policy: Option<String>,
    pub external_traffic_policy: Option<String>,
    pub allocate_load_balancer_node_ports: Option<bool>,
    pub session_affinity: Option<String>,
    pub session_affinity_config: Option<Value>,
    pub external_ips: Option<Vec<String>>,
    pub publish_not_ready_addresses: Option<bool>,
    pub ip_family_policy: Option<String>,
    pub ip_families: Option<Vec<String>>,
    pub ports: Named<ServicePort>,
    pub controller: Option<String>,
    pub extra_selector_labels: StringMap,
}

/// One of the ports of a service.
#[derive(Debug, Clone)]
pub struct ServicePort {
    pub port: i32,
    pub target_port: Option<i32>,
    pub protocol: Option<String>,
    pub node_port: Option<i32>,
    pub app_protocol: Option<String>,
}

/// How a service is scraped for metrics.
#[derive(Debug, Clone)]
pub struct ServiceMonitor {
    pub enabled: bool,
    pub annotations: StringMap,
    pub labels: StringMap,
    pub interval: String,
    pub scrape_timeout: Option<String>,
    pub path: Option<String>,
    pub endpoints: Vec<ServiceMonitorEndpoint>,
}

/// One endpoint that a service monitor scrapes.
#[derive(Debug, Clone)]
pub struct ServiceMonitorEndpoint {
    pub port: String,
    pub path: Option<String>,
    pub interval: Option<String>,
    pub scrape_timeout: Option<String>,
}

/// Which traffic may reach or leave the pods.
#[derive(Debug, Clone)]
pub struct NetworkPolicy {
    pub enabled: bool,
    pub annotations: StringMap,
    pub labels: StringMap,
    pub policy_types: Vec<String>,
    pub ingress: Vec<NetworkPolicyRule>,
    pub egress: Vec<NetworkPolicyRule>,
}

/// One rule of a network policy; its parts are payloads.
#[derive(Debug, Clone)]
pub struct NetworkPolicyRule {
    pub from: Vec<Value>,
    pub to: Vec<Value>,
    pub ports: Vec<Value>,
}

/// A volume that outlives its pods.
#[derive(Debug, Clone)]
pub struct PersistenceItem {
    pub enabled: bool,
    pub annotations: StringMap,
    pub labels: StringMap,
    pub type_: String,
    pub storage_class: Option<String>,
    pub size: Option<String>,
    pub access_modes: Vec<String>,
    pub data_source: Option<Value>,
    pub data_source_ref: Option<Value>,
    pub global_mounts: Vec<VolumeMount>,
}

/// Roles and the bindings that grant them.
#[derive(Debug, Clone)]
pub struct RbacConfig {
    pub roles: Named<Role>,
    pub bindings: Named<RoleBinding>,
}

/// A set of permissions.
#[derive(Debug, Clone)]
pub struct Role {
    pub enabled: bool,
    pub annotations: StringMap,
    pub labels: StringMap,
    pub cluster_wide: bool,
    pub rules: Vec<PolicyRule>,
}

/// One permission of a role.
#[derive(Debug, Clone)]
pub struct PolicyRule {
    pub api_groups: Vec<String>,
    pub resources: Vec<String>,
    pub verbs: Vec<String>,
    pub resource_names: Vec<String>,
}

/// A grant of a role to subjects.
#[derive(Debug, Clone)]
pub struct RoleBinding {
    pub enabled: bool,
    pub annotations: StringMap,
    pub labels: StringMap,
    pub cluster_wide: bool,
    pub role_ref: RoleRef,
    pub subjects: Vec<RoleSubject>,
}

/// The role that a binding grants.
#[derive(Debug, Clone)]
pub struct RoleRef {
    pub api_group: String,
    pub kind: String,
    pub name: String,
}

/// One who is granted a role.
#[derive(Debug, Clone)]
pub struct RoleSubject {
    pub kind: String,
    pub name: String,
    pub api_group: Option<String>,
    pub namespace: Option<String>,
}

/// A resource that is handed on as it stands.
#[derive(Debug, Clone)]
pub struct RawResource {
    pub enabled: bool,
    pub spec: Value,
}

impl Clone for PodOptions {
    fn clone(&self) -> (r: Self)
        ensures
            r@ == self@,
    {
        PodOptions {
            affinity: copy_payload(&self.affinity),
            annotations: self.annotations.clone(),
            automount_service_account_token: self.automount_service_account_token,
            dns_config: copy_payload(&self.dns_config),
            dns_policy: copy_text(&self.dns_policy),
            enable_service_links: self.enable_service_links,
            hostname: copy_text(&self.hostname),
            host_aliases: copy_payloads(&self.host_aliases),
            host_ipc: self.host_ipc,
            host_network: self.host_network,
            host_pid: self.host_pid,
            host_users: self.host_users,
            image_pull_secrets: copy_text_list(&self.image_pull_secrets),
            labels: self.labels.clone(),
            node_selector: self.node_selector.clone(),
            priority_class_name: copy_text(&self.priority_class_name),
            restart_policy: copy_text(&self.restart_policy),
            runtime_class_name: copy_text(&self.runtime_class_name),
            scheduler_name: copy_text(&self.scheduler_name),
            security_context: copy_payload(&self.security_context),
            share_process_namespace: self.share_process_namespace,
            termination_grace_period_seconds: self.termination_grace_period_seconds,
            tolerations: copy_payloads(&self.tolerations),
            topology_spread_constraints: copy_payloads(&self.topology_spread_constraints),
        }
    }
}

impl PodOptionsView {
    /// The pod options in which nothing is set.
    pub open spec fn unset() -> PodOptionsView {
        PodOptionsView {
            affinity: None,
            annotations: Map::empty(),
            automount_service_account_token: false,
            dns_config: None,
            dns_policy: None,
            enable_service_links: false,
            hostname: None,
            host_aliases: Seq::empty(),
            host_ipc: false,
            host_network: false,
            host_pid: false,
            host_users: None,
            image_pull_secrets: Seq::empty(),
            labels: Map::empty(),
            node_selector: Map::empty(),
            priority_class_name: None,
            restart_policy: None,
            runtime_class_name: None,
            scheduler_name: None,
            security_context: None,
            share_process_namespace: None,
            termination_grace_period_seconds: None,
            tolerations: Seq::empty(),
            topology_spread_constraints: Seq::empty(),
        }
    }
}

impl Default for PodOptions {
    fn default() -> (r: Self)
        ensures
            r@ == PodOptionsView::unset(),
    {
        let r = PodOptions {
            affinity: None,
            annotations: StringMap::new(),
            automount_service_account_token: false,
            dns_config: None,
            dns_policy: None,
            enable_service_links: false,
            hostname: None,
            host_aliases: Vec::new(),
            host_ipc: false,
            host_network: false,
            host_pid: false,
            host_users: None,
            image_pull_secrets: Vec::new(),
            labels: StringMap::new(),
            node_selector: StringMap::new(),
            priority_class_name: None,
            restart_policy: None,
            runtime_class_name: None,
            scheduler_name: None,
            security_context: None,
            share_process_namespace: None,
            termination_grace_period_seconds: None,
            tolerations: Vec::new(),
            topology_spread_constraints: Vec::new(),
        };
        assert(r@.image_pull_secrets =~= Seq::empty());
        r
    }
}

impl Default for GlobalConfig {
    fn default() -> (r: Self)
        ensures
            !r.propagate_global_metadata_to_pods,
            r.labels@ == Map::<Seq<char>, Seq<char>>::empty(),
            r.annotations@ == Map::<Seq<char>, Seq<char>>::empty(),
    {
        GlobalConfig {
            propagate_global_metadata_to_pods: false,
            labels: StringMap::new(),
            annotations: StringMap::new(),
        }
    }
}

impl Values {
    /// Whether the configuration has no entry of any kind, combines pod
    /// options by `overwrite` and sets nothing else.
    pub open spec fn is_blank(&self) -> bool {
        &&& !self.global.propagate_global_metadata_to_pods
        &&& self.global.labels@.is_empty()
        &&& self.global.annotations@.is_empty()
        &&& self.default_pod_options_strategy@ == "overwrite"@
        &&& self.default_pod_options@ == PodOptionsView::unset()
        &&& self.controllers@.len() == 0
        &&& self.service_account@.len() == 0
        &&& self.config_maps@.len() == 0
        &&& self.secrets@.len() == 0
        &&& self.ingress@.len() == 0
        &&& self.route@.len() == 0
        &&& self.service@.len() == 0
        &&& self.service_monitor@.len() == 0
        &&& self.networkpolicies@.len() == 0
        &&& self.persistence@.len() == 0
        &&& self.rbac.roles@.len() == 0
        &&& self.rbac.bindings@.len() == 0
        &&& self.raw_resources@.len() == 0
    }
}

impl Default for Values {
    /// The configuration that an empty document stands for.
    fn default() -> (r: Self)
        ensures
            r.is_blank(),
    {
        Values {
            global: GlobalConfig::default(),
            default_pod_options_strategy: default_pod_options_strategy(),
            default_pod_options: PodOptions::default(),
            controllers: Named::new(),
            service_account: Named::new(),
            config_maps: Named::new(),
            secrets: Named::new(),
            ingress: Named::new(),
            route: Named::new(),
            service: Named::new(),
            service_monitor: Named::new(),
            networkpolicies: Named::new(),
            persistence: Named::new(),
            rbac: RbacConfig::default(),
            raw_resources: Named::new(),
        }
    }
}

impl Default for RbacConfig {
    fn default() -> (r: Self)
        ensures
            r.roles@.len() == 0,
            r.bindings@.len() == 0,
    {
        RbacConfig { roles: Named::new(), bindings: Named::new() }
    }
}

/// Whether an entry counts when the configuration does not say.
pub fn default_enabled() -> (r: bool)
    ensures
        r == true,
{
    true
}

/// The kind of a controller that names none.
pub fn default_controller_type() -> (r: String)
    ensures
        r@ == "deployment"@,
{
    "deployment".to_string()
}

/// How many old revisions a controller keeps when the configuration does not say.
pub fn default_revision_history_limit() -> (r: i32)
    ensures
        r == 3,
{
    3
}

/// The concurrency policy of a cron job that names none.
pub fn default_concurrency_policy() -> (r: String)
    ensures
        r@ == "Forbid"@,
{
    "Forbid".to_string()
}

/// The schedule of a cron job that names none.
pub fn default_cron_schedule() -> (r: String)
    ensures
        r@ == "*/20 * * * *"@,
{
    "*/20 * * * *".to_string()
}

/// How many successful jobs a cron job keeps when the configuration does not say.
pub fn default_successful_jobs_history() -> (r: i32)
    ensures
        r == 1,
{
    1
}

/// How many failed jobs a cron job keeps when the configuration does not say.
pub fn default_failed_jobs_history() -> (r: i32)
    ensures
        r == 1,
{
    1
}

/// How often a job is tried again when the configuration does not say.
pub fn default_backoff_limit() -> (r: i32)
    ensures
        r == 6,
{
    6
}

/// The type of a secret that names none.
pub fn default_secret_type() -> (r: String)
    ensures
        r@ == "Opaque"@,
{
    "Opaque".to_string()
}

/// The path type of an ingress path that names none.
pub fn default_path_type() -> (r: String)
    ensures
        r@ == "Prefix"@,
{
    "Prefix".to_string()
}

/// The kind of a service that names none.
pub fn default_service_type() -> (r: String)
    ensures
        r@ == "ClusterIP"@,
{
    "ClusterIP".to_string()
}

/// The scrape interval of a service monitor that names none.
pub fn default_service_monitor_interval() -> (r: String)
    ensures
        r@ == "30s"@,
{
    "30s".to_string()
}

/// The kind of a persistence entry that names none.
pub fn default_persistence_type() -> (r: String)
    ensures
        r@ == "pvc"@,
{
    "pvc".to_string()
}

/// The strategy by which pod options are combined when the configuration names none.
pub fn default_pod_options_strategy() -> (r: String)
    ensures
        r@ == "overwrite"@,
{
    "overwrite".to_string()
}

/// The kind of a path match that names none.
pub fn default_path_match_type() -> (r: String)
    ensures
        r@ == "PathPrefix"@,
{
    "PathPrefix".to_string()
}

/// The kind of a header match that names none.
pub fn default_header_match_type() -> (r: String)
    ensures
        r@ == "Exact"@,
{
    "Exact".to_string()
}

/// The kind of a query parameter match that names none.
pub fn default_query_param_match_type() -> (r: String)
    ensures
        r@ == "Exact"@,
{
    "Exact".to_string()
}

} // verus!
