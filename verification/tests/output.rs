use bunku::generate_all_resources;
use bunku::manifest::ConfigMap;
use bunku::manifest::ObjectMeta;
use bunku::manifest::Resource;
use bunku::named::Named;
use bunku::output::kind_name;
use bunku::output::metadata;
use bunku::output::prefix_resource;
use bunku::output::prefixed_name;
use bunku::output::resource_filename;
use bunku::string_map::StringMap;
use bunku::values::Container;
use bunku::values::Controller;
use bunku::values::GlobalConfig;
use bunku::values::PersistenceItem;
use bunku::values::PodOptions;
use bunku::values::RbacConfig;
use bunku::values::Service;
use bunku::values::ServiceAccount;
use bunku::values::ServicePort;
use bunku::values::Values;

fn full_values() -> Values {
    let mut values = Values {
        global: GlobalConfig::default(),
        default_pod_options_strategy: "overwrite".to_string(),
        default_pod_options: PodOptions::default(),
        controllers: Named::new(),
        service_account: Named::new(),
        config_maps: Named::new(),
        secrets: Named::new(),
        ingress: Named::new(),
        route: Named::new(),
        service: Named::new(),
        service_monitor: Named::new(),
        networkpolicies: Named::new(),
        persistence: Named::new(),
        rbac: RbacConfig::default(),
        raw_resources: Named::new(),
    };
    values.global.labels.insert("environment".to_string(), "production".to_string());
    values.global.labels.insert("team".to_string(), "platform".to_string());
    values.global.annotations.insert("example.com/version".to_string(), "1.0.0".to_string());
    let mut containers = Named::new();
    containers.insert(
        "app".to_string(),
        Container {
            image: "docker.io/library/nginx:1.27.3".to_string(),
            command: None,
            args: None,
            env: Named::new(),
            ports: Named::new(),
            resources: None,
            security_context: None,
            volume_mounts: Vec::new(),
            liveness_probe: None,
            readiness_probe: None,
            startup_probe: None,
        },
    );
    values.controllers.insert(
        "main".to_string(),
        Controller {
            enabled: true,
            type_: "deployment".to_string(),
            annotations: StringMap::new(),
            labels: StringMap::new(),
            replicas: Some(1),
            strategy: None,
            rolling_update: None,
            revision_history_limit: 3,
            service_account: None,
            cronjob: None,
            job: None,
            statefulset: None,
            containers,
            init_containers: Named::new(),
            pod_options: PodOptions::default(),
        },
    );
    let mut ports = Named::new();
    ports.insert(
        "http".to_string(),
        ServicePort { port: 80, target_port: None, protocol: None, node_port: None, app_protocol: None },
    );
    values.service.insert(
        "main".to_string(),
        Service {
            enabled: true,
            annotations: StringMap::new(),
            labels: StringMap::new(),
            type_: "ClusterIP".to_string(),
            cluster_ip: None,
            load_balancer_ip: None,
            load_balancer_source_ranges: None,
            load_balancer_class: None,
            external_name: None,
            internal_traffic_policy: None,
            external_traffic_policy: None,
            allocate_load_balancer_node_ports: None,
            session_affinity: None,
            session_affinity_config: None,
            external_ips: None,
            publish_not_ready_addresses: None,
            ip_family_policy: None,
            ip_families: None,
            ports,
            controller: None,
            extra_selector_labels: StringMap::new(),
        },
    );
    values.config_maps.insert(
        "config".to_string(),
        bunku::values::ConfigMap {
            enabled: true,
            annotations: StringMap::new(),
            labels: StringMap::new(),
            data: StringMap::new(),
        },
    );
    values.service_account.insert(
        "main".to_string(),
        ServiceAccount {
            enabled: true,
            annotations: StringMap::new(),
            labels: StringMap::new(),
            automount_service_account_token: None,
            secrets: Vec::new(),
        },
    );
    values.persistence.insert(
        "data".to_string(),
        PersistenceItem {
            enabled: true,
            annotations: StringMap::new(),
            labels: StringMap::new(),
            type_: "pvc".to_string(),
            storage_class: None,
            size: Some("1Gi".to_string()),
            access_modes: Vec::new(),
            data_source: None,
            data_source_ref: None,
            global_mounts: Vec::new(),
        },
    );
    values
}

#[test]
fn prefixed_name_joins_with_a_hyphen() {
    assert_eq!(prefixed_name("myapp", "main"), "myapp-main");
    assert_eq!(prefixed_name("", "main"), "-main");
    assert_eq!(prefixed_name("hello-world", ""), "hello-world-");
}

#[test]
fn file_names_are_kind_name_and_ending() {
    let resources = generate_all_resources(&full_values());
    let names: Vec<String> = resources.iter().map(resource_filename).collect();
    assert_eq!(
        names,
        vec![
            "Deployment-main.json",
            "Service-main.json",
            "ConfigMap-config.json",
            "ServiceAccount-main.json",
            "PersistentVolumeClaim-data.json",
        ]
    );
    let kinds: Vec<&str> = resources.iter().map(kind_name).collect();
    assert_eq!(
        kinds,
        vec!["Deployment", "Service", "ConfigMap", "ServiceAccount", "PersistentVolumeClaim"]
    );
}

#[test]
fn file_name_of_a_resource_without_name() {
    let nameless = Resource::ConfigMap(ConfigMap {
        metadata: ObjectMeta { name: None, labels: None, annotations: None },
        data: None,
    });
    assert_eq!(resource_filename(&nameless), "ConfigMap-unnamed.json");
    let prefixed = prefix_resource(nameless, "myapp");
    assert!(metadata(&prefixed).name.is_none());
}

#[test]
fn prefix_changes_the_name_and_nothing_else() {
    let resources = generate_all_resources(&full_values());
    assert_eq!(resources.len(), 5);
    for resource in resources {
        let before = format!("{:?}", resource);
        let name = metadata(&resource).name.clone().unwrap();
        let prefixed = prefix_resource(resource, "myapp");
        let meta = metadata(&prefixed);
        let new_name = meta.name.clone().unwrap();
        assert_eq!(new_name, format!("myapp-{}", name));
        assert!(new_name.starts_with("myapp-"));
        let labels = meta.labels.as_ref().unwrap();
        assert_eq!(labels.get("app.kubernetes.io/name").map(|s| s.as_str()), Some(name.as_str()));
        assert_eq!(labels.get("environment").map(|s| s.as_str()), Some("production"));
        assert_eq!(labels.get("team").map(|s| s.as_str()), Some("platform"));
        assert_eq!(
            meta.annotations.as_ref().unwrap().get("example.com/version").map(|s| s.as_str()),
            Some("1.0.0")
        );
        let after = format!("{:?}", prefixed);
        assert_eq!(
            after,
            before.replacen(
                &format!("name: Some({:?})", name),
                &format!("name: Some({:?})", new_name),
                1
            )
        );
    }
}

#[test]
fn every_resource_is_named_after_its_entry() {
    let mut values = full_values();
    values.global.labels = StringMap::new();
    for resource in generate_all_resources(&values) {
        let meta = metadata(&resource);
        let name = meta.name.clone().unwrap();
        let labels = meta.labels.as_ref().unwrap();
        assert_eq!(labels.get("app.kubernetes.io/name"), Some(&name));
        assert_eq!(labels.get("app.kubernetes.io/instance").map(|s| s.as_str()), Some("release"));
    }
}
