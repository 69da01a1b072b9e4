use landingpage::collector::{
    RemoteOutcome, aggregate_cluster, collect_for_all_clusters, refresh_step, transform_to_info,
};
use landingpage::config::{Config, Global, KubeconfigSecret, LocalCluster, RemoteCluster,
    RemoteGroup};
use landingpage::errors::Error;
use landingpage::model::{HttpPath, HttpRuleValue, IngressObject, IngressRule, IngressRouting,
    IngressSpec};

fn record(name: &str, host: &str, path: Option<&str>, annotations: Vec<(&str, &str)>) -> IngressSpec {
    IngressSpec {
        name: name.to_owned(),
        namespace: "ns".to_owned(),
        host: host.to_owned(),
        tls_used: true,
        path: path.map(|p| p.to_owned()),
        annotations: annotations.into_iter().map(|(k, v)| (k.to_owned(), v.to_owned())).collect(),
        labels: Vec::new(),
    }
}

fn simple_object(name: &str, host: &str) -> IngressObject {
    IngressObject {
        name: name.to_owned(),
        namespace: Some("ns".to_owned()),
        annotations: None,
        labels: None,
        spec: Some(IngressRouting {
            rules: Some(vec![IngressRule {
                host: Some(host.to_owned()),
                http: Some(HttpRuleValue { paths: vec![HttpPath { path: Some("/".to_owned()) }] }),
            }]),
        }),
    }
}

fn remote(name: &str) -> RemoteCluster {
    RemoteCluster {
        name: name.to_owned(),
        description: None,
        kubeconfig_secret: KubeconfigSecret {
            name: "creds".to_owned(),
            namespace: "secrets".to_owned(),
        },
        namespaces: None,
    }
}

#[test]
fn url_construction() {
    let input = vec![
        record("with-path", "example.com", Some("/app"), vec![]),
        record("without-path", "example.com", None, vec![]),
    ];
    let cluster = transform_to_info("c".to_owned(), &None, input);
    assert_eq!(cluster.ingresses[0].url, "https://example.com/app");
    assert_eq!(cluster.ingresses[1].url, "https://example.com/");
}

#[test]
fn annotation_override() {
    let input = vec![record(
        "ignored-name",
        "example.com",
        Some("/"),
        vec![("landingpage.info/name", "A"), ("landingpage.info/description", "B")],
    )];
    let cluster = transform_to_info("c".to_owned(), &None, input);
    assert_eq!(cluster.ingresses[0].name, "A");
    assert_eq!(cluster.ingresses[0].description, "B");
}

#[test]
fn fallback_name_and_empty_description() {
    let input = vec![record("own-name", "example.com", Some("/"), vec![])];
    let cluster = transform_to_info("c".to_owned(), &None, input);
    assert_eq!(cluster.ingresses[0].name, "own-name");
    assert_eq!(cluster.ingresses[0].description, "");
}

#[test]
fn cluster_description_defaults_empty() {
    let with = transform_to_info("c".to_owned(), &Some("words".to_owned()), Vec::new());
    assert_eq!(with.name, "c");
    assert_eq!(with.description, "words");
    let without = transform_to_info("c".to_owned(), &None, Vec::new());
    assert_eq!(without.description, "");
}

#[test]
fn aggregate_concatenates_scans_in_order() {
    let scans = vec![
        Ok(vec![simple_object("a", "a.example")]),
        Ok(vec![simple_object("b", "b.example")]),
    ];
    let cluster = aggregate_cluster("c".to_owned(), &None, &scans, false).unwrap();
    let names: Vec<&str> = cluster.ingresses.iter().map(|i| i.name.as_str()).collect();
    assert_eq!(names, vec!["a", "b"]);
}

#[test]
fn aggregate_aborts_on_first_failing_scan() {
    let scans = vec![
        Ok(vec![simple_object("a", "a.example")]),
        Err(Error::ScanFailed("listing failed".to_owned())),
        Ok(vec![simple_object("b", "b.example")]),
    ];
    let err = aggregate_cluster("c".to_owned(), &None, &scans, false).unwrap_err();
    assert!(matches!(err, Error::ScanFailed(ref m) if m == "listing failed"));
}

#[test]
fn snapshot_empty_config() {
    let config = Config { global: None, local: None, remote: None };
    let snapshot = collect_for_all_clusters(&config, &None, &Vec::new()).unwrap();
    assert!(snapshot.is_empty());
}

#[test]
fn snapshot_local_group() {
    let config = Config {
        global: None,
        local: Some(LocalCluster {
            enabled: true,
            description: Some("home".to_owned()),
            namespaces: None,
        }),
        remote: None,
    };
    let local_scans = Some(vec![Ok(vec![simple_object("app", "app.example")])]);
    let snapshot = collect_for_all_clusters(&config, &local_scans, &Vec::new()).unwrap();
    assert_eq!(snapshot.len(), 1);
    assert_eq!(snapshot[0].name, "local");
    assert_eq!(snapshot[0].clusters.len(), 1);
    assert_eq!(snapshot[0].clusters[0].name, "local");
    assert_eq!(snapshot[0].clusters[0].description, "home");
    assert_eq!(snapshot[0].clusters[0].ingresses[0].url, "https://app.example/");
}

#[test]
fn snapshot_local_failure_aborts() {
    let config = Config {
        global: None,
        local: Some(LocalCluster { enabled: true, description: None, namespaces: None }),
        remote: None,
    };
    let local_scans = Some(vec![Err(Error::ScanFailed("down".to_owned()))]);
    let err = collect_for_all_clusters(&config, &local_scans, &Vec::new()).unwrap_err();
    assert!(matches!(err, Error::ScanFailed(_)));
}

#[test]
fn snapshot_failure_isolation() {
    let config = Config {
        global: None,
        local: None,
        remote: Some(vec![RemoteGroup {
            name: "edge".to_owned(),
            clusters: vec![remote("good"), remote("bad")],
        }]),
    };
    let outcomes = vec![vec![
        RemoteOutcome::Scanned(vec![Ok(vec![simple_object("app", "app.example")])]),
        RemoteOutcome::Unreachable(Error::CredentialMalformed("bad bundle".to_owned())),
    ]];
    let snapshot = collect_for_all_clusters(&config, &None, &outcomes).unwrap();
    assert_eq!(snapshot.len(), 1);
    assert_eq!(snapshot[0].name, "edge");
    assert_eq!(snapshot[0].clusters.len(), 1);
    assert_eq!(snapshot[0].clusters[0].name, "good");
}

#[test]
fn failing_scan_drops_remote_cluster_only() {
    let config = Config {
        global: None,
        local: None,
        remote: Some(vec![RemoteGroup {
            name: "edge".to_owned(),
            clusters: vec![remote("good"), remote("flaky")],
        }]),
    };
    let outcomes = vec![vec![
        RemoteOutcome::Scanned(vec![Ok(vec![simple_object("app", "app.example")])]),
        RemoteOutcome::Scanned(vec![Err(Error::ScanFailed("listing failed".to_owned()))]),
    ]];
    let snapshot = collect_for_all_clusters(&config, &None, &outcomes).unwrap();
    assert_eq!(snapshot[0].clusters.len(), 1);
    assert_eq!(snapshot[0].clusters[0].name, "good");
}

#[test]
fn group_stays_when_every_cluster_fails() {
    let config = Config {
        global: None,
        local: None,
        remote: Some(vec![RemoteGroup { name: "edge".to_owned(), clusters: vec![remote("bad")] }]),
    };
    let outcomes = vec![vec![RemoteOutcome::Unreachable(Error::ClusterUnreachable(
        "no route".to_owned(),
    ))]];
    let snapshot = collect_for_all_clusters(&config, &None, &outcomes).unwrap();
    assert_eq!(snapshot.len(), 1);
    assert_eq!(snapshot[0].name, "edge");
    assert!(snapshot[0].clusters.is_empty());
}

#[test]
fn groups_preserve_configuration_order() {
    let config = Config {
        global: None,
        local: None,
        remote: Some(vec![
            RemoteGroup { name: "first".to_owned(), clusters: vec![] },
            RemoteGroup { name: "second".to_owned(), clusters: vec![] },
        ]),
    };
    let outcomes = vec![vec![], vec![]];
    let snapshot = collect_for_all_clusters(&config, &None, &outcomes).unwrap();
    let names: Vec<&str> = snapshot.iter().map(|g| g.name.as_str()).collect();
    assert_eq!(names, vec!["first", "second"]);
}

#[test]
fn builder_idempotent() {
    let config = Config {
        global: Some(Global { only_with_annotation: false, refresh_interval_seconds: None }),
        local: Some(LocalCluster { enabled: true, description: None, namespaces: None }),
        remote: Some(vec![RemoteGroup {
            name: "edge".to_owned(),
            clusters: vec![remote("good")],
        }]),
    };
    let local_scans = Some(vec![Ok(vec![simple_object("app", "app.example")])]);
    let outcomes = vec![vec![RemoteOutcome::Scanned(vec![Ok(vec![simple_object(
        "edge-app",
        "edge.example",
    )])])]];
    let first = collect_for_all_clusters(&config, &local_scans, &outcomes).unwrap();
    let second = collect_for_all_clusters(&config, &local_scans, &outcomes).unwrap();
    assert_eq!(first, second);
}

#[test]
fn refresh_step_replaces_on_success_and_keeps_on_failure() {
    let current = vec![landingpage::model::GroupInfo { name: "old".to_owned(), clusters: vec![] }];
    let fresh = vec![landingpage::model::GroupInfo { name: "new".to_owned(), clusters: vec![] }];
    let replaced = refresh_step(current.clone(), Ok(fresh.clone()));
    assert_eq!(replaced, fresh);
    let kept = refresh_step(current.clone(), Err(Error::Generic("boom".to_owned())));
    assert_eq!(kept, current);
}

#[test]
fn config_defaults() {
    let empty = Config { global: None, local: None, remote: None };
    assert!(!empty.only_with_annotation());
    assert_eq!(empty.refresh_interval(), 30);
    assert!(!empty.local_active());
    let set = Config {
        global: Some(Global { only_with_annotation: true, refresh_interval_seconds: Some(7) }),
        local: Some(LocalCluster { enabled: false, description: None, namespaces: None }),
        remote: None,
    };
    assert!(set.only_with_annotation());
    assert_eq!(set.refresh_interval(), 7);
    assert!(!set.local_active());
}

#[test]
fn error_message_accessor() {
    let err = Error::CredentialNotFound("missing secret".to_owned());
    assert_eq!(err.message(), "missing secret");
    assert_eq!(err.dup().message(), "missing secret");
}

#[test]
fn filter_flag_reaches_scanner_through_builder() {
    let config = Config {
        global: Some(Global { only_with_annotation: true, refresh_interval_seconds: None }),
        local: Some(LocalCluster { enabled: true, description: None, namespaces: None }),
        remote: None,
    };
    let local_scans = Some(vec![Ok(vec![simple_object("plain", "app.example")])]);
    let snapshot = collect_for_all_clusters(&config, &local_scans, &Vec::new()).unwrap();
    assert!(snapshot[0].clusters[0].ingresses.is_empty());
}
