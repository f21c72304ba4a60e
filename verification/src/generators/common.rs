use crate::manifest::ObjectMeta;
use crate::manifest::ObjectMetaView;
use crate::payload::copy_payload;
use crate::payload::copy_payloads;
use crate::string_map::StringMap;
use crate::text::copy_text;
use crate::text::copy_text_list;
use crate::text::same_text;
use crate::values::PodOptions;
use crate::values::PodOptionsView;
use crate::values::Values;
use serde_json::Value;
use vstd::prelude::*;

verus! {

/// The name that a resource gets: the name of its entry.
pub open spec fn name_of(resource_name: Seq<char>) -> Seq<char> {
    resource_name
}

/// The two labels that every resource carries: its name and the instance.
pub open spec fn standard_labels(resource_name: Seq<char>) -> Map<Seq<char>, Seq<char>> {
    Map::empty().insert("app.kubernetes.io/name"@, name_of(resource_name)).insert(
        "app.kubernetes.io/instance"@,
        "release"@,
    )
}

/// The standard labels with the label of the resource's kind, which only
/// controllers and services have.
pub open spec fn kind_labels(resource_name: Seq<char>, resource_type: Seq<char>) -> Map<
    Seq<char>,
    Seq<char>,
> {
    if resource_type == "controller"@ {
        standard_labels(resource_name).insert("app.kubernetes.io/controller"@, resource_name)
    } else if resource_type == "service"@ {
        standard_labels(resource_name).insert("app.kubernetes.io/service"@, resource_name)
    } else {
        standard_labels(resource_name)
    }
}

/// The labels of a resource: those of its kind, overlaid with the global labels.
pub open spec fn labels_of(
    global_labels: Map<Seq<char>, Seq<char>>,
    resource_name: Seq<char>,
    resource_type: Seq<char>,
) -> Map<Seq<char>, Seq<char>> {
    kind_labels(resource_name, resource_type).union_prefer_right(global_labels)
}

/// The labels by which the pods of a controller are selected.
pub open spec fn selector_labels_of(resource_name: Seq<char>) -> Map<Seq<char>, Seq<char>> {
    standard_labels(resource_name).insert("app.kubernetes.io/controller"@, resource_name)
}

/// A map, or nothing where the map is empty.
pub open spec fn unless_empty(m: Map<Seq<char>, Seq<char>>) -> Option<Map<Seq<char>, Seq<char>>> {
    if m.is_empty() {
        None
    } else {
        Some(m)
    }
}

/// The metadata of a resource that adds nothing of its own.
pub open spec fn metadata_of(
    values: Values,
    resource_name: Seq<char>,
    resource_type: Seq<char>,
) -> ObjectMetaView {
    ObjectMetaView {
        name: Some(name_of(resource_name)),
        labels: Some(labels_of(values.global.labels@, resource_name, resource_type)),
        annotations: unless_empty(values.global.annotations@),
    }
}

/// The metadata of a resource whose entry brings labels and annotations:
/// they are laid over the generated ones.
pub open spec fn overlaid_metadata_of(
    values: Values,
    resource_name: Seq<char>,
    resource_type: Seq<char>,
    labels: Map<Seq<char>, Seq<char>>,
    annotations: Map<Seq<char>, Seq<char>>,
) -> ObjectMetaView {
    ObjectMetaView {
        name: Some(name_of(resource_name)),
        labels: Some(
            labels_of(values.global.labels@, resource_name, resource_type).union_prefer_right(
                labels,
            ),
        ),
        annotations: unless_empty(values.global.annotations@.union_prefer_right(annotations)),
    }
}

/// The override where it is present, else the default.
pub open spec fn present_or<T>(over: Option<T>, default: Option<T>) -> Option<T> {
    if over is Some {
        over
    } else {
        default
    }
}

/// The override where it has an entry, else the default.
pub open spec fn map_or_fallback(
    over: Map<Seq<char>, Seq<char>>,
    default: Map<Seq<char>, Seq<char>>,
) -> Map<Seq<char>, Seq<char>> {
    if over.is_empty() {
        default
    } else {
        over
    }
}

/// The override where it has an item, else the default.
pub open spec fn list_or_fallback<T>(over: Seq<T>, default: Seq<T>) -> Seq<T> {
    if over.len() == 0 {
        default
    } else {
        over
    }
}

/// Pod options under the strategy `merge`: labels and annotations are
/// united, the override winning; a flag is set where either side sets it;
/// an optional scalar is the override's where that is present; the node
/// selector, the lists and the payloads stay as the defaults have them.
pub open spec fn united_pod_options(d: PodOptionsView, o: PodOptionsView) -> PodOptionsView {
    PodOptionsView {
        annotations: d.annotations.union_prefer_right(o.annotations),
        labels: d.labels.union_prefer_right(o.labels),
        automount_service_account_token: d.automount_service_account_token
            || o.automount_service_account_token,
        enable_service_links: d.enable_service_links || o.enable_service_links,
        host_ipc: d.host_ipc || o.host_ipc,
        host_network: d.host_network || o.host_network,
        host_pid: d.host_pid || o.host_pid,
        dns_policy: present_or(o.dns_policy, d.dns_policy),
        hostname: present_or(o.hostname, d.hostname),
        priority_class_name: present_or(o.priority_class_name, d.priority_class_name),
        restart_policy: present_or(o.restart_policy, d.restart_policy),
        runtime_class_name: present_or(o.runtime_class_name, d.runtime_class_name),
        scheduler_name: present_or(o.scheduler_name, d.scheduler_name),
        termination_grace_period_seconds: present_or(
            o.termination_grace_period_seconds,
            d.termination_grace_period_seconds,
        ),
        host_users: present_or(o.host_users, d.host_users),
        share_process_namespace: present_or(o.share_process_namespace, d.share_process_namespace),
        ..d
    }
}

/// Pod options under the strategy `overwrite`: the override as it stands,
/// but for five settings that fall back to the defaults where the override
/// leaves them empty.
pub open spec fn overwritten_pod_options(d: PodOptionsView, o: PodOptionsView) -> PodOptionsView {
    PodOptionsView {
        annotations: map_or_fallback(o.annotations, d.annotations),
        labels: map_or_fallback(o.labels, d.labels),
        node_selector: map_or_fallback(o.node_selector, d.node_selector),
        tolerations: list_or_fallback(o.tolerations, d.tolerations),
        topology_spread_constraints: list_or_fallback(
            o.topology_spread_constraints,
            d.topology_spread_constraints,
        ),
        ..o
    }
}

/// Whether the name of a strategy means `overwrite`: every name does but
/// `merge`.
pub open spec fn means_overwrite(strategy: Seq<char>) -> bool {
    strategy != "merge"@
}

/// The pod options that hold for a controller: the defaults `d` and the
/// controller's own `o`, combined by the named strategy.
pub open spec fn merged_pod_options(
    d: PodOptionsView,
    o: PodOptionsView,
    strategy: Seq<char>,
) -> PodOptionsView {
    if means_overwrite(strategy) {
        overwritten_pod_options(d, o)
    } else {
        united_pod_options(d, o)
    }
}

/// The name `overwrite` means `overwrite`, and `merge` does not.
pub proof fn lemma_overwrite_means_overwrite()
    ensures
        means_overwrite("overwrite"@),
        !means_overwrite("merge"@),
{
    reveal_strlit("overwrite");
    reveal_strlit("merge");
    assert("overwrite"@.len() != "merge"@.len());
}

/// Under `overwrite` the labels of the override are the result's labels as
/// they stand where the override has any: they are not united with the
/// defaults'. Where it has none, the result has exactly the defaults'
/// labels.
pub proof fn lemma_overwrite_takes_labels_whole(
    d: PodOptionsView,
    o: PodOptionsView,
    strategy: Seq<char>,
)
    requires
        means_overwrite(strategy),
    ensures
        !o.labels.is_empty() ==> merged_pod_options(d, o, strategy).labels == o.labels,
        o.labels.is_empty() ==> merged_pod_options(d, o, strategy).labels == d.labels,
{
}

/// Under `overwrite` nothing but the five settings with a fallback comes
/// from the defaults.
pub proof fn lemma_overwrite_keeps_the_rest(
    d: PodOptionsView,
    o: PodOptionsView,
    strategy: Seq<char>,
)
    requires
        means_overwrite(strategy),
    ensures
        merged_pod_options(d, o, strategy) == (PodOptionsView {
            annotations: merged_pod_options(d, o, strategy).annotations,
            labels: merged_pod_options(d, o, strategy).labels,
            node_selector: merged_pod_options(d, o, strategy).node_selector,
            tolerations: merged_pod_options(d, o, strategy).tolerations,
            topology_spread_constraints: merged_pod_options(
                d,
                o,
                strategy,
            ).topology_spread_constraints,
            ..o
        }),
{
}

/// Under `merge`, a flag that the defaults set stays set whatever the
/// override says: an override cannot switch it off.
pub proof fn lemma_merge_cannot_clear_a_flag(d: PodOptionsView, o: PodOptionsView)
    ensures
        d.automount_service_account_token ==> merged_pod_options(
            d,
            o,
            "merge"@,
        ).automount_service_account_token,
        d.enable_service_links ==> merged_pod_options(d, o, "merge"@).enable_service_links,
        d.host_ipc ==> merged_pod_options(d, o, "merge"@).host_ipc,
        d.host_network ==> merged_pod_options(d, o, "merge"@).host_network,
        d.host_pid ==> merged_pod_options(d, o, "merge"@).host_pid,
{
}

/// Under `merge`, labels and annotations are united, the override winning
/// where both have a key, and the lists stay as the defaults have them.
pub proof fn lemma_merge_unites_maps_only(d: PodOptionsView, o: PodOptionsView)
    ensures
        merged_pod_options(d, o, "merge"@).labels == d.labels.union_prefer_right(o.labels),
        merged_pod_options(d, o, "merge"@).annotations == d.annotations.union_prefer_right(
            o.annotations,
        ),
        merged_pod_options(d, o, "merge"@).node_selector == d.node_selector,
        merged_pod_options(d, o, "merge"@).tolerations == d.tolerations,
        merged_pod_options(d, o, "merge"@).topology_spread_constraints
            == d.topology_spread_constraints,
{
}

/// Every resource carries the two standard labels, and a label laid over
/// the generated ones wins over them.
pub proof fn lemma_labels_are_carried(
    values: Values,
    resource_name: Seq<char>,
    resource_type: Seq<char>,
    labels: Map<Seq<char>, Seq<char>>,
    annotations: Map<Seq<char>, Seq<char>>,
)
    ensures
        ({
            let all = overlaid_metadata_of(
                values,
                resource_name,
                resource_type,
                labels,
                annotations,
            ).labels->0;
            &&& all.contains_key("app.kubernetes.io/name"@)
            &&& all.contains_key("app.kubernetes.io/instance"@)
            &&& forall|k: Seq<char>| #[trigger] labels.contains_key(k) ==> all[k] == labels[k]
            &&& forall|k: Seq<char>|
                #[trigger] values.global.labels@.contains_key(k) && !labels.contains_key(k)
                    ==> all[k] == values.global.labels@[k]
        }),
{
}

/// The name of the resource that the entry `resource_name` gives rise to.
pub fn generate_name(_values: &Values, resource_name: &str) -> (r: String)
    ensures
        r@ == name_of(resource_name@),
{
    resource_name.to_string()
}

/// The labels of a resource of the given kind.
pub fn generate_labels(values: &Values, resource_name: &str, resource_type: &str) -> (r: StringMap)
    ensures
        r@ == labels_of(values.global.labels@, resource_name@, resource_type@),
{
    let mut labels = StringMap::new();
    labels.insert("app.kubernetes.io/name".to_string(), generate_name(values, resource_name));
    labels.insert("app.kubernetes.io/instance".to_string(), "release".to_string());
    if same_text(resource_type, "controller") {
        labels.insert("app.kubernetes.io/controller".to_string(), resource_name.to_string());
    } else if same_text(resource_type, "service") {
        labels.insert("app.kubernetes.io/service".to_string(), resource_name.to_string());
    }
    labels.extend(&values.global.labels);
    labels
}

/// The annotations that every resource carries: the global ones.
pub fn generate_annotations(values: &Values) -> (r: StringMap)
    ensures
        r@ == values.global.annotations@,
{
    values.global.annotations.clone()
}

/// The metadata of a resource that adds nothing of its own.
pub fn generate_metadata(values: &Values, resource_name: &str, resource_type: &str) -> (r:
    ObjectMeta)
    ensures
        r@ == metadata_of(*values, resource_name@, resource_type@),
{
    ObjectMeta {
        name: Some(generate_name(values, resource_name)),
        labels: Some(generate_labels(values, resource_name, resource_type)),
        annotations: if values.global.annotations.is_empty() {
            None
        } else {
            Some(generate_annotations(values))
        },
    }
}

/// The metadata of a resource whose entry brings the given labels and
/// annotations.
pub fn generate_overlaid_metadata(
    values: &Values,
    resource_name: &str,
    resource_type: &str,
    labels: &StringMap,
    annotations: &StringMap,
) -> (r: ObjectMeta)
    ensures
        r@ == overlaid_metadata_of(
            *values,
            resource_name@,
            resource_type@,
            labels@,
            annotations@,
        ),
{
    let mut all_labels = generate_labels(values, resource_name, resource_type);
    all_labels.extend(labels);
    let mut all_annotations = generate_annotations(values);
    all_annotations.extend(annotations);
    ObjectMeta {
        name: Some(generate_name(values, resource_name)),
        labels: Some(all_labels),
        annotations: if all_annotations.is_empty() {
            None
        } else {
            Some(all_annotations)
        },
    }
}

/// The labels by which the pods of the controller `resource_name` are selected.
pub fn generate_selector_labels(values: &Values, resource_name: &str) -> (r: StringMap)
    ensures
        r@ == selector_labels_of(resource_name@),
{
    let mut labels = StringMap::new();
    labels.insert("app.kubernetes.io/name".to_string(), generate_name(values, resource_name));
    labels.insert("app.kubernetes.io/instance".to_string(), "release".to_string());
    labels.insert("app.kubernetes.io/controller".to_string(), resource_name.to_string());
    labels
}

fn united(default: &StringMap, over: &StringMap) -> (r: StringMap)
    ensures
        r@ == default@.union_prefer_right(over@),
{
    let mut all = default.clone();
    all.extend(over);
    all
}

fn text_or(over: &Option<String>, default: &Option<String>) -> (r: Option<String>)
    ensures
        r.deep_view() == present_or(over.deep_view(), default.deep_view()),
{
    if over.is_some() {
        copy_text(over)
    } else {
        copy_text(default)
    }
}

fn map_or(over: &StringMap, default: &StringMap) -> (r: StringMap)
    ensures
        r@ == map_or_fallback(over@, default@),
{
    if over.is_empty() {
        default.clone()
    } else {
        over.clone()
    }
}

fn payloads_or(over: &Vec<Value>, default: &Vec<Value>) -> (r: Vec<Value>)
    ensures
        r@ == list_or_fallback(over@, default@),
{
    if over.len() == 0 {
        copy_payloads(default)
    } else {
        copy_payloads(over)
    }
}

fn unite_pod_options(d: &PodOptions, o: &PodOptions) -> (r: PodOptions)
    ensures
        r@ == united_pod_options(d@, o@),
{
    PodOptions {
        affinity: copy_payload(&d.affinity),
        annotations: united(&d.annotations, &o.annotations),
        automount_service_account_token: d.automount_service_account_token
            || o.automount_service_account_token,
        dns_config: copy_payload(&d.dns_config),
        dns_policy: text_or(&o.dns_policy, &d.dns_policy),
        enable_service_links: d.enable_service_links || o.enable_service_links,
        hostname: text_or(&o.hostname, &d.hostname),
        host_aliases: copy_payloads(&d.host_aliases),
        host_ipc: d.host_ipc || o.host_ipc,
        host_network: d.host_network || o.host_network,
        host_pid: d.host_pid || o.host_pid,
        host_users: if o.host_users.is_some() {
            o.host_users
        } else {
            d.host_users
        },
        image_pull_secrets: copy_text_list(&d.image_pull_secrets),
        labels: united(&d.labels, &o.labels),
        node_selector: d.node_selector.clone(),
        priority_class_name: text_or(&o.priority_class_name, &d.priority_class_name),
        restart_policy: text_or(&o.restart_policy, &d.restart_policy),
        runtime_class_name: text_or(&o.runtime_class_name, &d.runtime_class_name),
        scheduler_name: text_or(&o.scheduler_name, &d.scheduler_name),
        security_context: copy_payload(&d.security_context),
        share_process_namespace: if o.share_process_namespace.is_some() {
            o.share_process_namespace
        } else {
            d.share_process_namespace
        },
        termination_grace_period_seconds: if o.termination_grace_period_seconds.is_some() {
            o.termination_grace_period_seconds
        } else {
            d.termination_grace_period_seconds
        },
        tolerations: copy_payloads(&d.tolerations),
        topology_spread_constraints: copy_payloads(&d.topology_spread_constraints),
    }
}

fn overwrite_pod_options(d: &PodOptions, o: &PodOptions) -> (r: PodOptions)
    ensures
        r@ == overwritten_pod_options(d@, o@),
{
    PodOptions {
        affinity: copy_payload(&o.affinity),
        annotations: map_or(&o.annotations, &d.annotations),
        automount_service_account_token: o.automount_service_account_token,
        dns_config: copy_payload(&o.dns_config),
        dns_policy: copy_text(&o.dns_policy),
        enable_service_links: o.enable_service_links,
        hostname: copy_text(&o.hostname),
        host_aliases: copy_payloads(&o.host_aliases),
        host_ipc: o.host_ipc,
        host_network: o.host_network,
        host_pid: o.host_pid,
        host_users: o.host_users,
        image_pull_secrets: copy_text_list(&o.image_pull_secrets),
        labels: map_or(&o.labels, &d.labels),
        node_selector: map_or(&o.node_selector, &d.node_selector),
        priority_class_name: copy_text(&o.priority_class_name),
        restart_policy: copy_text(&o.restart_policy),
        runtime_class_name: copy_text(&o.runtime_class_name),
        scheduler_name: copy_text(&o.scheduler_name),
        security_context: copy_payload(&o.security_context),
        share_process_namespace: o.share_process_namespace,
        termination_grace_period_seconds: o.termination_grace_period_seconds,
        tolerations: payloads_or(&o.tolerations, &d.tolerations),
        topology_spread_constraints: payloads_or(
            &o.topology_spread_constraints,
            &d.topology_spread_constraints,
        ),
    }
}

/// Combines the default pod options with those of a controller by the
/// named strategy: `merge`, or else `overwrite`, which every other name
/// means too.
pub fn merge_pod_options(
    default_options: &PodOptions,
    controller_options: &PodOptions,
    strategy: &str,
) -> (r: PodOptions)
    ensures
        r@ == merged_pod_options(default_options@, controller_options@, strategy@),
{
    if same_text(strategy, "merge") {
        unite_pod_options(default_options, controller_options)
    } else {
        overwrite_pod_options(default_options, controller_options)
    }
}

} // verus!
