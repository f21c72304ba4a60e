use bunku::generators::common::generate_annotations;
use bunku::generators::common::generate_labels;
use bunku::generators::common::generate_metadata;
use bunku::generators::common::generate_name;
use bunku::generators::common::generate_overlaid_metadata;
use bunku::generators::common::generate_selector_labels;
use bunku::generators::common::merge_pod_options;
use bunku::string_map::StringMap;
use bunku::values::PodOptions;
use bunku::values::Values;

fn empty_values() -> Values {
    Values::default()
}

fn map(items: &[(&str, &str)]) -> StringMap {
    let mut m = StringMap::new();
    for (k, v) in items {
        m.insert(k.to_string(), v.to_string());
    }
    m
}

fn sorted(map: &StringMap) -> Vec<(String, String)> {
    let mut pairs = Vec::new();
    for i in 0..map.len() {
        let (k, v) = map.entry(i).unwrap();
        pairs.push((k.clone(), v.clone()));
    }
    pairs.sort();
    pairs
}

fn pairs(items: &[(&str, &str)]) -> Vec<(String, String)> {
    let mut out: Vec<(String, String)> =
        items.iter().map(|(k, v)| (k.to_string(), v.to_string())).collect();
    out.sort();
    out
}

fn text(s: &str) -> serde_json::Value {
    serde_json::Value::String(s.to_string())
}

#[test]
fn default_pod_options_set_nothing() {
    let options = PodOptions::default();
    assert!(options.annotations.is_empty());
    assert!(options.labels.is_empty());
    assert!(options.node_selector.is_empty());
    assert!(!options.automount_service_account_token);
    assert!(!options.enable_service_links);
    assert!(!options.host_ipc && !options.host_network && !options.host_pid);
    assert!(options.dns_policy.is_none() && options.hostname.is_none());
    assert!(options.tolerations.is_empty() && options.topology_spread_constraints.is_empty());
    assert!(options.affinity.is_none() && options.termination_grace_period_seconds.is_none());
}

#[test]
fn overwrite_uses_the_labels_of_the_override_as_they_stand() {
    let mut defaults = PodOptions::default();
    defaults.labels = map(&[("tier", "backend"), ("team", "platform")]);
    let mut over = PodOptions::default();
    over.labels = map(&[("tier", "frontend")]);
    let merged = merge_pod_options(&defaults, &over, "overwrite");
    assert_eq!(sorted(&merged.labels), pairs(&[("tier", "frontend")]));
}

#[test]
fn overwrite_substitutes_the_defaults_for_empty_labels() {
    let mut defaults = PodOptions::default();
    defaults.labels = map(&[("tier", "backend"), ("team", "platform")]);
    let over = PodOptions::default();
    let merged = merge_pod_options(&defaults, &over, "overwrite");
    assert_eq!(sorted(&merged.labels), pairs(&[("team", "platform"), ("tier", "backend")]));
}

#[test]
fn overwrite_falls_back_for_five_settings_only() {
    let mut defaults = PodOptions::default();
    defaults.annotations = map(&[("a", "1")]);
    defaults.labels = map(&[("l", "1")]);
    defaults.node_selector = map(&[("disk", "ssd")]);
    defaults.tolerations = vec![text("t")];
    defaults.topology_spread_constraints = vec![text("c")];
    defaults.automount_service_account_token = true;
    defaults.enable_service_links = true;
    defaults.host_network = true;
    defaults.dns_policy = Some("ClusterFirst".to_string());
    defaults.hostname = Some("box".to_string());
    defaults.priority_class_name = Some("high".to_string());
    defaults.termination_grace_period_seconds = Some(30);
    defaults.image_pull_secrets = vec!["registry".to_string()];
    defaults.host_aliases = vec![text("alias")];
    defaults.affinity = Some(text("near"));
    let over = PodOptions::default();
    let merged = merge_pod_options(&defaults, &over, "overwrite");
    assert_eq!(sorted(&merged.annotations), pairs(&[("a", "1")]));
    assert_eq!(sorted(&merged.labels), pairs(&[("l", "1")]));
    assert_eq!(sorted(&merged.node_selector), pairs(&[("disk", "ssd")]));
    assert_eq!(merged.tolerations, vec![text("t")]);
    assert_eq!(merged.topology_spread_constraints, vec![text("c")]);
    assert!(!merged.automount_service_account_token);
    assert!(!merged.enable_service_links);
    assert!(!merged.host_network);
    assert!(merged.dns_policy.is_none());
    assert!(merged.hostname.is_none());
    assert!(merged.priority_class_name.is_none());
    assert!(merged.termination_grace_period_seconds.is_none());
    assert!(merged.image_pull_secrets.is_empty());
    assert!(merged.host_aliases.is_empty());
    assert!(merged.affinity.is_none());
}

#[test]
fn overwrite_keeps_what_the_override_sets() {
    let mut defaults = PodOptions::default();
    defaults.node_selector = map(&[("disk", "ssd")]);
    defaults.tolerations = vec![text("t")];
    defaults.dns_policy = Some("ClusterFirst".to_string());
    let mut over = PodOptions::default();
    over.node_selector = map(&[("zone", "a")]);
    over.tolerations = vec![text("u"), text("v")];
    over.dns_policy = Some("None".to_string());
    over.host_pid = true;
    over.security_context = Some(text("ctx"));
    let merged = merge_pod_options(&defaults, &over, "overwrite");
    assert_eq!(sorted(&merged.node_selector), pairs(&[("zone", "a")]));
    assert_eq!(merged.tolerations, vec![text("u"), text("v")]);
    assert_eq!(merged.dns_policy.as_deref(), Some("None"));
    assert!(merged.host_pid);
    assert_eq!(merged.security_context, Some(text("ctx")));
}

#[test]
fn an_unknown_strategy_means_overwrite() {
    let mut defaults = PodOptions::default();
    defaults.labels = map(&[("tier", "backend")]);
    defaults.host_ipc = true;
    let mut over = PodOptions::default();
    over.labels = map(&[("app", "web")]);
    for strategy in ["", "replace", "Merge", "merge "] {
        let merged = merge_pod_options(&defaults, &over, strategy);
        assert_eq!(sorted(&merged.labels), pairs(&[("app", "web")]));
        assert!(!merged.host_ipc);
    }
}

#[test]
fn merge_unites_labels_and_annotations() {
    let mut defaults = PodOptions::default();
    defaults.labels = map(&[("tier", "backend"), ("team", "platform")]);
    defaults.annotations = map(&[("note", "default")]);
    let mut over = PodOptions::default();
    over.labels = map(&[("tier", "frontend"), ("app", "web")]);
    over.annotations = map(&[("owner", "me")]);
    let merged = merge_pod_options(&defaults, &over, "merge");
    assert_eq!(
        sorted(&merged.labels),
        pairs(&[("app", "web"), ("team", "platform"), ("tier", "frontend")])
    );
    assert_eq!(sorted(&merged.annotations), pairs(&[("note", "default"), ("owner", "me")]));
}

#[test]
fn merge_cannot_switch_a_flag_off() {
    let mut defaults = PodOptions::default();
    defaults.automount_service_account_token = true;
    defaults.enable_service_links = true;
    defaults.host_ipc = true;
    defaults.host_network = true;
    defaults.host_pid = true;
    let over = PodOptions::default();
    let merged = merge_pod_options(&defaults, &over, "merge");
    assert!(merged.automount_service_account_token);
    assert!(merged.enable_service_links);
    assert!(merged.host_ipc);
    assert!(merged.host_network);
    assert!(merged.host_pid);
}

#[test]
fn merge_switches_a_flag_on() {
    let defaults = PodOptions::default();
    let mut over = PodOptions::default();
    over.automount_service_account_token = true;
    over.host_network = true;
    let merged = merge_pod_options(&defaults, &over, "merge");
    assert!(merged.automount_service_account_token);
    assert!(merged.host_network);
    assert!(!merged.host_ipc);
    assert!(!merged.host_pid);
    assert!(!merged.enable_service_links);
}

#[test]
fn merge_takes_an_optional_setting_where_the_override_has_it() {
    let mut defaults = PodOptions::default();
    defaults.dns_policy = Some("ClusterFirst".to_string());
    defaults.hostname = Some("box".to_string());
    defaults.restart_policy = Some("Always".to_string());
    defaults.termination_grace_period_seconds = Some(30);
    let mut over = PodOptions::default();
    over.dns_policy = Some("None".to_string());
    over.scheduler_name = Some("mine".to_string());
    over.termination_grace_period_seconds = Some(5);
    let merged = merge_pod_options(&defaults, &over, "merge");
    assert_eq!(merged.dns_policy.as_deref(), Some("None"));
    assert_eq!(merged.hostname.as_deref(), Some("box"));
    assert_eq!(merged.restart_policy.as_deref(), Some("Always"));
    assert_eq!(merged.scheduler_name.as_deref(), Some("mine"));
    assert_eq!(merged.termination_grace_period_seconds, Some(5));
    assert!(merged.priority_class_name.is_none());
}

#[test]
fn merge_leaves_the_lists_at_the_defaults() {
    let mut defaults = PodOptions::default();
    defaults.node_selector = map(&[("disk", "ssd")]);
    defaults.tolerations = vec![text("t")];
    let mut over = PodOptions::default();
    over.node_selector = map(&[("zone", "a")]);
    over.tolerations = vec![text("u")];
    over.topology_spread_constraints = vec![text("c")];
    let merged = merge_pod_options(&defaults, &over, "merge");
    assert_eq!(sorted(&merged.node_selector), pairs(&[("disk", "ssd")]));
    assert_eq!(merged.tolerations, vec![text("t")]);
    assert!(merged.topology_spread_constraints.is_empty());
}

#[test]
fn name_is_the_name_of_the_entry() {
    let values = empty_values();
    assert_eq!(generate_name(&values, "main"), "main");
    assert_eq!(generate_name(&values, ""), "");
}

#[test]
fn labels_depend_on_the_kind() {
    let values = empty_values();
    assert_eq!(
        sorted(&generate_labels(&values, "main", "controller")),
        pairs(&[
            ("app.kubernetes.io/controller", "main"),
            ("app.kubernetes.io/instance", "release"),
            ("app.kubernetes.io/name", "main"),
        ])
    );
    assert_eq!(
        sorted(&generate_labels(&values, "web", "service")),
        pairs(&[
            ("app.kubernetes.io/instance", "release"),
            ("app.kubernetes.io/name", "web"),
            ("app.kubernetes.io/service", "web"),
        ])
    );
    for kind in ["configmap", "pvc", "serviceaccount", "httproute", ""] {
        assert_eq!(
            sorted(&generate_labels(&values, "x", kind)),
            pairs(&[("app.kubernetes.io/instance", "release"), ("app.kubernetes.io/name", "x")])
        );
    }
}

#[test]
fn global_labels_win_over_the_generated_ones() {
    let mut values = empty_values();
    values.global.labels = map(&[("team", "platform"), ("app.kubernetes.io/instance", "blue")]);
    assert_eq!(
        sorted(&generate_labels(&values, "main", "controller")),
        pairs(&[
            ("app.kubernetes.io/controller", "main"),
            ("app.kubernetes.io/instance", "blue"),
            ("app.kubernetes.io/name", "main"),
            ("team", "platform"),
        ])
    );
}

#[test]
fn selector_labels_are_name_instance_and_controller() {
    let mut values = empty_values();
    values.global.labels = map(&[("team", "platform")]);
    assert_eq!(
        sorted(&generate_selector_labels(&values, "main")),
        pairs(&[
            ("app.kubernetes.io/controller", "main"),
            ("app.kubernetes.io/instance", "release"),
            ("app.kubernetes.io/name", "main"),
        ])
    );
}

#[test]
fn annotations_are_the_global_ones() {
    let mut values = empty_values();
    assert!(generate_annotations(&values).is_empty());
    values.global.annotations = map(&[("example.com/version", "1.0.0")]);
    assert_eq!(
        sorted(&generate_annotations(&values)),
        pairs(&[("example.com/version", "1.0.0")])
    );
}

#[test]
fn metadata_leaves_out_empty_annotations() {
    let mut values = empty_values();
    let meta = generate_metadata(&values, "main", "service");
    assert_eq!(meta.name.as_deref(), Some("main"));
    assert!(meta.annotations.is_none());
    assert_eq!(meta.labels.unwrap().len(), 3);
    values.global.annotations = map(&[("a", "b")]);
    let meta = generate_metadata(&values, "main", "service");
    assert_eq!(sorted(&meta.annotations.unwrap()), pairs(&[("a", "b")]));
}

#[test]
fn labels_and_annotations_of_an_entry_win() {
    let mut values = empty_values();
    values.global.labels = map(&[("team", "platform"), ("environment", "production")]);
    values.global.annotations = map(&[("example.com/version", "1.0.0")]);
    let meta = generate_overlaid_metadata(
        &values,
        "config",
        "configmap",
        &map(&[("team", "mine"), ("app.kubernetes.io/name", "other")]),
        &map(&[("example.com/version", "2.0.0"), ("note", "x")]),
    );
    assert_eq!(meta.name.as_deref(), Some("config"));
    assert_eq!(
        sorted(&meta.labels.unwrap()),
        pairs(&[
            ("app.kubernetes.io/instance", "release"),
            ("app.kubernetes.io/name", "other"),
            ("environment", "production"),
            ("team", "mine"),
        ])
    );
    assert_eq!(
        sorted(&meta.annotations.unwrap()),
        pairs(&[("example.com/version", "2.0.0"), ("note", "x")])
    );
}
