use bunku::generate_all_resources;
use bunku::generators::configmap::ConfigMapGenerator;
use bunku::generators::deployment::DeploymentGenerator;
use bunku::generators::pvc::PvcGenerator;
use bunku::generators::service::ServiceGenerator;
use bunku::generators::service_account::ServiceAccountGenerator;
use bunku::generators::ResourceGenerator;
use bunku::manifest::IntOrString;
use bunku::manifest::Resource;
use bunku::named::Named;
use bunku::string_map::StringMap;
use bunku::values::ConfigMap;
use bunku::values::Container;
use bunku::values::ContainerPort;
use bunku::values::Controller;
use bunku::values::PersistenceItem;
use bunku::values::PodOptions;
use bunku::values::Service;
use bunku::values::ServiceAccount;
use bunku::values::ServicePort;
use bunku::values::Values;

fn empty_values() -> Values {
    Values::default()
}

fn container(image: &str) -> Container {
    Container {
        image: image.to_string(),
        command: None,
        args: None,
        env: Named::new(),
        ports: Named::new(),
        resources: None,
        security_context: None,
        volume_mounts: Vec::new(),
        liveness_probe: None,
        readiness_probe: None,
        startup_probe: None,
    }
}

fn controller() -> Controller {
    Controller {
        enabled: bunku::values::default_enabled(),
        type_: bunku::values::default_controller_type(),
        annotations: StringMap::new(),
        labels: StringMap::new(),
        replicas: None,
        strategy: None,
        rolling_update: None,
        revision_history_limit: bunku::values::default_revision_history_limit(),
        service_account: None,
        cronjob: None,
        job: None,
        statefulset: None,
        containers: Named::new(),
        init_containers: Named::new(),
        pod_options: PodOptions::default(),
    }
}

fn service() -> Service {
    Service {
        enabled: bunku::values::default_enabled(),
        annotations: StringMap::new(),
        labels: StringMap::new(),
        type_: bunku::values::default_service_type(),
        cluster_ip: None,
        load_balancer_ip: None,
        load_balancer_source_ranges: None,
        load_balancer_class: None,
        external_name: None,
        internal_traffic_policy: None,
        external_traffic_policy: None,
        allocate_load_balancer_node_ports: None,
        session_affinity: None,
        session_affinity_config: None,
        external_ips: None,
        publish_not_ready_addresses: None,
        ip_family_policy: None,
        ip_families: None,
        ports: Named::new(),
        controller: None,
        extra_selector_labels: StringMap::new(),
    }
}

fn config_map() -> ConfigMap {
    ConfigMap {
        enabled: bunku::values::default_enabled(),
        annotations: StringMap::new(),
        labels: StringMap::new(),
        data: StringMap::new(),
    }
}

fn service_account() -> ServiceAccount {
    ServiceAccount {
        enabled: bunku::values::default_enabled(),
        annotations: StringMap::new(),
        labels: StringMap::new(),
        automount_service_account_token: None,
        secrets: Vec::new(),
    }
}

fn persistence() -> PersistenceItem {
    PersistenceItem {
        enabled: bunku::values::default_enabled(),
        annotations: StringMap::new(),
        labels: StringMap::new(),
        type_: bunku::values::default_persistence_type(),
        storage_class: None,
        size: None,
        access_modes: Vec::new(),
        data_source: None,
        data_source_ref: None,
        global_mounts: Vec::new(),
    }
}

/// One controller `main` with one container `app` of image `nginx:latest`
/// and, where `with_port`, the port `http` 80/TCP.
fn values_with_main(replicas: Option<i32>, with_port: bool, protocol: Option<&str>) -> Values {
    let mut values = empty_values();
    let mut app = container("nginx:latest");
    if with_port {
        app.ports.insert(
            "http".to_string(),
            ContainerPort { container_port: 80, protocol: protocol.map(|p| p.to_string()) },
        );
    }
    let mut main = controller();
    main.enabled = true;
    main.type_ = "deployment".to_string();
    main.replicas = replicas;
    main.containers.insert("app".to_string(), app);
    values.controllers.insert("main".to_string(), main);
    values
}

fn add_main_service(values: &mut Values) {
    let mut svc = service();
    svc.enabled = true;
    svc.type_ = "ClusterIP".to_string();
    svc.controller = Some("main".to_string());
    svc.ports.insert(
        "http".to_string(),
        ServicePort {
            port: 80,
            target_port: Some(80),
            protocol: None,
            node_port: None,
            app_protocol: None,
        },
    );
    values.service.insert("main".to_string(), svc);
}

fn sorted(map: &StringMap) -> Vec<(String, String)> {
    let mut pairs = Vec::new();
    for i in 0..map.len() {
        let (k, v) = map.entry(i).unwrap();
        pairs.push((k.clone(), v.clone()));
    }
    pairs.sort();
    pairs
}

fn pairs(items: &[(&str, &str)]) -> Vec<(String, String)> {
    let mut out: Vec<(String, String)> =
        items.iter().map(|(k, v)| (k.to_string(), v.to_string())).collect();
    out.sort();
    out
}

#[test]
fn test_simple_deployment() {
    let values = values_with_main(Some(2), true, Some("TCP"));
    let resources = generate_all_resources(&values);

    assert!(!resources.is_empty());
    assert_eq!(resources.len(), 1);
}

#[test]
fn test_deployment_with_service() {
    let mut values = values_with_main(Some(1), true, None);
    add_main_service(&mut values);
    let resources = generate_all_resources(&values);

    assert_eq!(resources.len(), 2);
}

#[test]
fn test_configmap_generation() {
    let mut values = empty_values();
    let mut config = config_map();
    config.enabled = true;
    config.data.insert("key1".to_string(), "value1".to_string());
    config.data.insert("key2".to_string(), "value2".to_string());
    values.config_maps.insert("config".to_string(), config);
    let resources = generate_all_resources(&values);

    assert_eq!(resources.len(), 1);
}

#[test]
fn test_pvc_generation() {
    let mut values = empty_values();
    let mut data = persistence();
    data.enabled = true;
    data.type_ = "pvc".to_string();
    data.size = Some("10Gi".to_string());
    data.access_modes = vec!["ReadWriteOnce".to_string()];
    values.persistence.insert("data".to_string(), data);
    let resources = generate_all_resources(&values);

    assert_eq!(resources.len(), 1);
}

#[test]
fn test_list_output_format() {
    let mut values = values_with_main(Some(1), false, None);
    add_main_service(&mut values);
    let resources = generate_all_resources(&values);

    let mut items = Vec::new();
    for resource in &resources {
        let (kind, name) = match resource {
            Resource::Deployment(d) => ("Deployment", d.metadata.name.clone()),
            Resource::Service(s) => ("Service", s.metadata.name.clone()),
            _ => panic!("a resource of another kind"),
        };
        let mut metadata = serde_json::Map::new();
        metadata.insert("name".to_string(), serde_json::Value::String(name.unwrap()));
        let mut item = serde_json::Map::new();
        item.insert("kind".to_string(), serde_json::Value::String(kind.to_string()));
        item.insert("metadata".to_string(), serde_json::Value::Object(metadata));
        items.push(serde_json::Value::Object(item));
    }
    let mut object = serde_json::Map::new();
    object.insert("apiVersion".to_string(), serde_json::Value::String("v1".to_string()));
    object.insert("kind".to_string(), serde_json::Value::String("List".to_string()));
    object.insert("items".to_string(), serde_json::Value::Array(items));
    let list = serde_json::Value::Object(object);

    assert_eq!(list["apiVersion"], "v1");
    assert_eq!(list["kind"], "List");
    assert!(list["items"].is_array());
    assert_eq!(list["items"].as_array().unwrap().len(), 2);
}

#[test]
fn scenario_single_deployment() {
    let values = values_with_main(Some(2), true, Some("TCP"));
    let resources = generate_all_resources(&values);
    assert_eq!(resources.len(), 1);
    let deployment = match &resources[0] {
        Resource::Deployment(d) => d,
        other => panic!("not a deployment: {:?}", other),
    };
    assert_eq!(deployment.metadata.name.as_deref(), Some("main"));
    assert_eq!(
        sorted(deployment.metadata.labels.as_ref().unwrap()),
        pairs(&[
            ("app.kubernetes.io/controller", "main"),
            ("app.kubernetes.io/instance", "release"),
            ("app.kubernetes.io/name", "main"),
        ])
    );
    assert!(deployment.metadata.annotations.is_none());
    let spec = deployment.spec.as_ref().unwrap();
    assert_eq!(spec.replicas, Some(2));
    assert_eq!(spec.revision_history_limit, Some(3));
    assert!(spec.strategy.is_none());
    let selector = spec.selector.match_labels.as_ref().unwrap();
    let pod_meta = spec.template.metadata.as_ref().unwrap();
    assert!(pod_meta.name.is_none());
    assert!(pod_meta.annotations.is_none());
    assert_eq!(sorted(pod_meta.labels.as_ref().unwrap()), sorted(selector));
    assert_eq!(
        sorted(selector),
        pairs(&[
            ("app.kubernetes.io/controller", "main"),
            ("app.kubernetes.io/instance", "release"),
            ("app.kubernetes.io/name", "main"),
        ])
    );
    let pod = spec.template.spec.as_ref().unwrap();
    assert_eq!(pod.containers.len(), 1);
    assert!(pod.init_containers.is_none());
    let app = &pod.containers[0];
    assert_eq!(app.name, "app");
    assert_eq!(app.image.as_deref(), Some("nginx:latest"));
    assert!(app.command.is_none());
    assert!(app.env.is_none());
    let ports = app.ports.as_ref().unwrap();
    assert_eq!(ports.len(), 1);
    assert_eq!(ports[0].name.as_deref(), Some("http"));
    assert_eq!(ports[0].container_port, 80);
    assert_eq!(ports[0].protocol.as_deref(), Some("TCP"));
    assert_eq!(pod.automount_service_account_token, Some(false));
    assert_eq!(pod.enable_service_links, Some(false));
    assert_eq!(pod.host_ipc, Some(false));
    assert_eq!(pod.host_network, Some(false));
    assert_eq!(pod.host_pid, Some(false));
    assert!(pod.node_selector.is_none());
    assert!(pod.service_account_name.is_none());
}

#[test]
fn scenario_deployment_and_service() {
    let mut values = values_with_main(Some(2), true, Some("TCP"));
    add_main_service(&mut values);
    let resources = generate_all_resources(&values);
    assert_eq!(resources.len(), 2);
    let deployment = match &resources[0] {
        Resource::Deployment(d) => d,
        other => panic!("not a deployment: {:?}", other),
    };
    let service = match &resources[1] {
        Resource::Service(s) => s,
        other => panic!("not a service: {:?}", other),
    };
    let controller_selector =
        deployment.spec.as_ref().unwrap().selector.match_labels.as_ref().unwrap();
    let spec = service.spec.as_ref().unwrap();
    assert_eq!(sorted(spec.selector.as_ref().unwrap()), sorted(controller_selector));
    assert_eq!(spec.type_.as_deref(), Some("ClusterIP"));
    let ports = spec.ports.as_ref().unwrap();
    assert_eq!(ports.len(), 1);
    assert_eq!(ports[0].name.as_deref(), Some("http"));
    assert_eq!(ports[0].port, 80);
    assert!(matches!(ports[0].target_port, Some(IntOrString::Int(80))));
    assert_eq!(service.metadata.name.as_deref(), Some("main"));
    assert_eq!(
        sorted(service.metadata.labels.as_ref().unwrap()),
        pairs(&[
            ("app.kubernetes.io/instance", "release"),
            ("app.kubernetes.io/name", "main"),
            ("app.kubernetes.io/service", "main"),
        ])
    );
}

#[test]
fn scenario_config_map_with_two_keys() {
    let mut values = empty_values();
    let mut config = config_map();
    config.data.insert("key1".to_string(), "value1".to_string());
    config.data.insert("key2".to_string(), "value2".to_string());
    values.config_maps.insert("config".to_string(), config);
    let resources = generate_all_resources(&values);
    assert_eq!(resources.len(), 1);
    let made = match &resources[0] {
        Resource::ConfigMap(c) => c,
        other => panic!("not a config map: {:?}", other),
    };
    assert_eq!(made.metadata.name.as_deref(), Some("config"));
    assert_eq!(
        sorted(made.data.as_ref().unwrap()),
        pairs(&[("key1", "value1"), ("key2", "value2")])
    );
    assert_eq!(
        sorted(made.metadata.labels.as_ref().unwrap()),
        pairs(&[("app.kubernetes.io/instance", "release"), ("app.kubernetes.io/name", "config")])
    );
}

#[test]
fn scenario_claim_with_size_and_access_mode() {
    let mut values = empty_values();
    let mut data = persistence();
    data.type_ = "pvc".to_string();
    data.size = Some("10Gi".to_string());
    data.access_modes = vec!["ReadWriteMany".to_string()];
    values.persistence.insert("data".to_string(), data);
    let resources = generate_all_resources(&values);
    assert_eq!(resources.len(), 1);
    let claim = match &resources[0] {
        Resource::PersistentVolumeClaim(p) => p,
        other => panic!("not a claim: {:?}", other),
    };
    assert_eq!(claim.metadata.name.as_deref(), Some("data"));
    let spec = claim.spec.as_ref().unwrap();
    assert_eq!(spec.access_modes, Some(vec!["ReadWriteMany".to_string()]));
    let requests = spec.resources.as_ref().unwrap().requests.as_ref().unwrap();
    assert_eq!(sorted(requests), pairs(&[("storage", "10Gi")]));
    assert!(spec.storage_class_name.is_none());
    assert!(spec.data_source.is_none());
    assert!(spec.data_source_ref.is_none());
}

#[test]
fn claim_defaults_to_a_single_writer_and_no_request() {
    let mut values = empty_values();
    values.persistence.insert("scratch".to_string(), persistence());
    let claim = PvcGenerator.generate(&values, "scratch").unwrap();
    let spec = claim.spec.unwrap();
    assert_eq!(spec.access_modes, Some(vec!["ReadWriteOnce".to_string()]));
    assert!(spec.resources.unwrap().requests.is_none());
}

#[test]
fn disabled_entries_yield_nothing_and_enabled_ones_one_each() {
    let mut values = values_with_main(Some(1), true, None);
    add_main_service(&mut values);
    values.config_maps.insert("config".to_string(), config_map());
    values.service_account.insert("runner".to_string(), service_account());
    values.persistence.insert("data".to_string(), persistence());
    assert_eq!(generate_all_resources(&values).len(), 5);

    let mut off = values_with_main(Some(1), true, None);
    add_main_service(&mut off);
    let mut main = controller();
    main.enabled = false;
    main.containers.insert("app".to_string(), container("nginx:latest"));
    off.controllers.insert("main".to_string(), main);
    let mut svc = service();
    svc.enabled = false;
    svc.ports.insert(
        "http".to_string(),
        ServicePort { port: 80, target_port: None, protocol: None, node_port: None, app_protocol: None },
    );
    off.service.insert("main".to_string(), svc);
    let mut config = config_map();
    config.enabled = false;
    off.config_maps.insert("config".to_string(), config);
    let mut account = service_account();
    account.enabled = false;
    off.service_account.insert("runner".to_string(), account);
    let mut data = persistence();
    data.enabled = false;
    off.persistence.insert("data".to_string(), data);
    assert_eq!(generate_all_resources(&off).len(), 0);
    assert!(DeploymentGenerator.generate(&off, "main").is_none());
    assert!(ServiceGenerator.generate(&off, "main").is_none());
    assert!(ConfigMapGenerator.generate(&off, "config").is_none());
    assert!(ServiceAccountGenerator.generate(&off, "runner").is_none());
    assert!(PvcGenerator.generate(&off, "data").is_none());
}

#[test]
fn blank_configuration_yields_nothing() {
    let values = Values::default();
    assert!(!values.global.propagate_global_metadata_to_pods);
    assert!(values.global.labels.is_empty());
    assert_eq!(values.default_pod_options_strategy, "overwrite");
    assert!(values.controllers.is_empty() && values.service.is_empty());
    assert!(values.config_maps.is_empty() && values.persistence.is_empty());
    assert!(values.rbac.roles.is_empty() && values.rbac.bindings.is_empty());
    assert!(generate_all_resources(&values).is_empty());
}

#[test]
fn generators_yield_nothing_for_a_name_without_entry() {
    let values = values_with_main(Some(1), true, None);
    assert!(DeploymentGenerator.generate(&values, "other").is_none());
    assert!(ServiceGenerator.generate(&values, "main").is_none());
    assert!(ConfigMapGenerator.generate(&values, "main").is_none());
    assert!(ServiceAccountGenerator.generate(&values, "main").is_none());
    assert!(PvcGenerator.generate(&values, "main").is_none());
}

#[test]
fn controller_of_another_kind_or_without_containers_yields_nothing() {
    let mut values = empty_values();
    let mut job = controller();
    job.type_ = "cronjob".to_string();
    job.containers.insert("app".to_string(), container("busybox"));
    values.controllers.insert("job".to_string(), job);
    values.controllers.insert("bare".to_string(), controller());
    assert!(DeploymentGenerator.generate(&values, "job").is_none());
    assert!(DeploymentGenerator.generate(&values, "bare").is_none());
    assert_eq!(generate_all_resources(&values).len(), 0);
}

#[test]
fn service_without_ports_yields_nothing() {
    let mut values = empty_values();
    values.service.insert("main".to_string(), service());
    assert!(ServiceGenerator.generate(&values, "main").is_none());
    assert_eq!(generate_all_resources(&values).len(), 0);
}

#[test]
fn generating_twice_gives_the_same_resources() {
    let mut values = values_with_main(Some(2), true, Some("TCP"));
    add_main_service(&mut values);
    values.config_maps.insert("config".to_string(), config_map());
    values.global.labels.insert("team".to_string(), "platform".to_string());
    let first = generate_all_resources(&values);
    let second = generate_all_resources(&values);
    assert_eq!(first.len(), 3);
    assert_eq!(format!("{:?}", first), format!("{:?}", second));
}

#[test]
fn resources_come_in_the_order_of_groups_and_entries() {
    let mut values = empty_values();
    values.persistence.insert("data".to_string(), persistence());
    values.service_account.insert("runner".to_string(), service_account());
    values.config_maps.insert("b".to_string(), config_map());
    values.config_maps.insert("a".to_string(), config_map());
    let mut svc = service();
    svc.ports.insert(
        "http".to_string(),
        ServicePort { port: 80, target_port: None, protocol: None, node_port: None, app_protocol: None },
    );
    values.service.insert("web".to_string(), svc);
    let mut second = controller();
    second.containers.insert("app".to_string(), container("busybox"));
    let mut first = controller();
    first.containers.insert("app".to_string(), container("nginx"));
    values.controllers.insert("zeta".to_string(), first);
    values.controllers.insert("alpha".to_string(), second);
    let resources = generate_all_resources(&values);
    let seen: Vec<String> = resources
        .iter()
        .map(|r| match r {
            Resource::Deployment(d) => format!("Deployment/{}", d.metadata.name.clone().unwrap()),
            Resource::Service(s) => format!("Service/{}", s.metadata.name.clone().unwrap()),
            Resource::ConfigMap(c) => format!("ConfigMap/{}", c.metadata.name.clone().unwrap()),
            Resource::ServiceAccount(a) => {
                format!("ServiceAccount/{}", a.metadata.name.clone().unwrap())
            }
            Resource::PersistentVolumeClaim(p) => {
                format!("PersistentVolumeClaim/{}", p.metadata.name.clone().unwrap())
            }
            Resource::HttpRoute(h) => format!("HttpRoute/{}", h.metadata.name.clone().unwrap()),
        })
        .collect();
    assert_eq!(
        seen,
        vec![
            "Deployment/zeta",
            "Deployment/alpha",
            "Service/web",
            "ConfigMap/b",
            "ConfigMap/a",
            "ServiceAccount/runner",
            "PersistentVolumeClaim/data",
        ]
    );
}
