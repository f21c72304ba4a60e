use bunku::named::Named;
use bunku::provisioner::dns::Dns;
use bunku::provisioner::dns::Params;
use bunku::string_map::StringMap;
use bunku::text::copy_text;
use bunku::text::copy_text_list;
use bunku::text::copy_texts;
use bunku::text::same_text;

#[test]
fn same_text_compares_content() {
    assert!(same_text("", ""));
    assert!(same_text("merge", "merge"));
    assert!(!same_text("merge", "Merge"));
    assert!(!same_text("merge", "merge "));
    assert!(!same_text("merge", "merg"));
    assert!(!same_text("", "a"));
    assert!(same_text("häuser-日本", "häuser-日本"));
    assert!(!same_text("häuser", "hauser"));
}

#[test]
fn copies_hold_what_was_copied() {
    assert_eq!(copy_text(&None), None);
    assert_eq!(copy_text(&Some("a".to_string())), Some("a".to_string()));
    let list = vec!["x".to_string(), "".to_string(), "y".to_string()];
    assert_eq!(copy_text_list(&list), list);
    assert_eq!(copy_texts(&Some(list.clone())), Some(list));
    assert_eq!(copy_texts(&None), None);
}

#[test]
fn string_map_inserts_and_finds() {
    let mut m = StringMap::new();
    assert!(m.is_empty());
    assert_eq!(m.len(), 0);
    assert!(m.get("a").is_none());
    assert!(m.entry(0).is_none());
    m.insert("a".to_string(), "1".to_string());
    m.insert("b".to_string(), "2".to_string());
    assert!(!m.is_empty());
    assert_eq!(m.len(), 2);
    assert_eq!(m.get("a").map(|s| s.as_str()), Some("1"));
    assert_eq!(m.get("b").map(|s| s.as_str()), Some("2"));
    assert!(m.get("c").is_none());
    assert!(m.get("").is_none());
}

#[test]
fn string_map_replaces_in_place() {
    let mut m = StringMap::new();
    m.insert("a".to_string(), "1".to_string());
    m.insert("b".to_string(), "2".to_string());
    m.insert("a".to_string(), "3".to_string());
    assert_eq!(m.len(), 2);
    assert_eq!(m.get("a").map(|s| s.as_str()), Some("3"));
    let (k0, v0) = m.entry(0).unwrap();
    assert_eq!((k0.as_str(), v0.as_str()), ("a", "3"));
    let (k1, v1) = m.entry(1).unwrap();
    assert_eq!((k1.as_str(), v1.as_str()), ("b", "2"));
    assert!(m.entry(2).is_none());
}

#[test]
fn string_map_extend_prefers_the_other_map() {
    let mut base = StringMap::new();
    base.insert("a".to_string(), "1".to_string());
    base.insert("b".to_string(), "2".to_string());
    let mut over = StringMap::new();
    over.insert("b".to_string(), "20".to_string());
    over.insert("c".to_string(), "30".to_string());
    base.extend(&over);
    assert_eq!(base.len(), 3);
    assert_eq!(base.get("a").map(|s| s.as_str()), Some("1"));
    assert_eq!(base.get("b").map(|s| s.as_str()), Some("20"));
    assert_eq!(base.get("c").map(|s| s.as_str()), Some("30"));
    assert_eq!(over.len(), 2);
    base.extend(&StringMap::new());
    assert_eq!(base.len(), 3);
}

#[test]
fn string_map_clone_is_independent() {
    let mut m = StringMap::new();
    m.insert("a".to_string(), "1".to_string());
    let mut copy = m.clone();
    copy.insert("a".to_string(), "2".to_string());
    copy.insert("b".to_string(), "3".to_string());
    assert_eq!(m.len(), 1);
    assert_eq!(m.get("a").map(|s| s.as_str()), Some("1"));
    assert_eq!(copy.len(), 2);
    assert_eq!(copy.get("a").map(|s| s.as_str()), Some("2"));
}

#[test]
fn named_keeps_the_order_of_first_insertion() {
    let mut items: Named<i32> = Named::new();
    assert!(items.is_empty());
    assert!(items.entry(0).is_none());
    assert!(items.get("zeta").is_none());
    items.insert("zeta".to_string(), 1);
    items.insert("alpha".to_string(), 2);
    items.insert("mid".to_string(), 3);
    assert_eq!(items.len(), 3);
    assert!(!items.is_empty());
    let seen: Vec<(String, i32)> =
        (0..items.len()).map(|i| items.entry(i).map(|(n, v)| (n.clone(), *v)).unwrap()).collect();
    assert_eq!(
        seen,
        vec![("zeta".to_string(), 1), ("alpha".to_string(), 2), ("mid".to_string(), 3)]
    );
    assert_eq!(items.get("alpha"), Some(&2));
    assert_eq!(items.get("mid"), Some(&3));
    assert!(items.get("omega").is_none());
    assert!(items.entry(3).is_none());
}

#[test]
fn named_replaces_an_item_where_its_name_stands() {
    let mut items: Named<i32> = Named::new();
    items.insert("a".to_string(), 1);
    items.insert("b".to_string(), 2);
    items.insert("a".to_string(), 10);
    assert_eq!(items.len(), 2);
    assert_eq!(items.get("a"), Some(&10));
    let (name, item) = items.entry(0).unwrap();
    assert_eq!((name.as_str(), *item), ("a", 10));
    let (name, item) = items.entry(1).unwrap();
    assert_eq!((name.as_str(), *item), ("b", 2));
}

#[test]
fn named_clone_has_the_same_entries() {
    let mut items: Named<String> = Named::new();
    items.insert("b".to_string(), "x".to_string());
    items.insert("a".to_string(), "y".to_string());
    let mut copy = items.clone();
    assert_eq!(copy.len(), 2);
    assert_eq!(copy.entry(0).map(|(n, v)| (n.as_str(), v.as_str())), Some(("b", "x")));
    assert_eq!(copy.entry(1).map(|(n, v)| (n.as_str(), v.as_str())), Some(("a", "y")));
    copy.insert("c".to_string(), "z".to_string());
    assert_eq!(items.len(), 2);
    assert!(items.get("c").is_none());
}

#[test]
fn defaults_of_the_configuration() {
    assert!(bunku::values::default_enabled());
    assert_eq!(bunku::values::default_controller_type(), "deployment");
    assert_eq!(bunku::values::default_revision_history_limit(), 3);
    assert_eq!(bunku::values::default_concurrency_policy(), "Forbid");
    assert_eq!(bunku::values::default_cron_schedule(), "*/20 * * * *");
    assert_eq!(bunku::values::default_successful_jobs_history(), 1);
    assert_eq!(bunku::values::default_failed_jobs_history(), 1);
    assert_eq!(bunku::values::default_backoff_limit(), 6);
    assert_eq!(bunku::values::default_secret_type(), "Opaque");
    assert_eq!(bunku::values::default_path_type(), "Prefix");
    assert_eq!(bunku::values::default_service_type(), "ClusterIP");
    assert_eq!(bunku::values::default_service_monitor_interval(), "30s");
    assert_eq!(bunku::values::default_persistence_type(), "pvc");
    assert_eq!(bunku::values::default_pod_options_strategy(), "overwrite");
    assert_eq!(bunku::values::default_path_match_type(), "PathPrefix");
    assert_eq!(bunku::values::default_header_match_type(), "Exact");
    assert_eq!(bunku::values::default_query_param_match_type(), "Exact");
}

#[test]
fn provisioned_dns_takes_its_host_from_the_subdomain() {
    let dns = Dns::new(Params { subdomain: Some("shop".to_string()) });
    assert_eq!(dns.outputs.host, "shop");
    assert_eq!(dns.params.subdomain.as_deref(), Some("shop"));
    assert!(dns.resources().is_none());
    let dns = Dns::new(Params { subdomain: None });
    assert_eq!(dns.outputs.host, "");
    assert!(dns.resources().is_none());
}

#[test]
fn dns_resource_puts_the_subdomain_under_localhost() {
    let dns = bunku::resource::dns::Dns { subdomain: Some("shop".to_string()) };
    assert_eq!(dns.outputs().host, "shop.localhost");
    let dns = bunku::resource::dns::Dns { subdomain: Some("".to_string()) };
    assert_eq!(dns.outputs().host, ".localhost");
    let dns = bunku::resource::dns::Dns { subdomain: None };
    assert_eq!(dns.outputs().host, "todogeneratedomainhere.localhost");
}
