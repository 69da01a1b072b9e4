use landingpage::model::{HttpPath, HttpRuleValue, IngressObject, IngressRule, IngressRouting};
use landingpage::scan::collect_ingresses;

fn object(
    name: &str,
    namespace: Option<&str>,
    annotations: Option<Vec<(&str, &str)>>,
    rules: Option<Vec<IngressRule>>,
) -> IngressObject {
    IngressObject {
        name: name.to_owned(),
        namespace: namespace.map(|s| s.to_owned()),
        annotations: annotations.map(|pairs| {
            pairs.into_iter().map(|(k, v)| (k.to_owned(), v.to_owned())).collect()
        }),
        labels: None,
        spec: rules.map(|rs| IngressRouting { rules: Some(rs) }),
    }
}

fn rule(host: Option<&str>, paths: Vec<Option<&str>>) -> IngressRule {
    IngressRule {
        host: host.map(|h| h.to_owned()),
        http: Some(HttpRuleValue {
            paths: paths.into_iter().map(|p| HttpPath { path: p.map(|s| s.to_owned()) }).collect(),
        }),
    }
}

#[test]
fn no_spec_no_records() {
    let objects = vec![object("bare", Some("ns"), None, None)];
    let records = collect_ingresses(false, &objects);
    assert!(records.is_empty());
}

#[test]
fn rule_without_host_ignored() {
    let objects = vec![object(
        "hostless",
        Some("ns"),
        None,
        Some(vec![rule(None, vec![Some("/a"), Some("/b"), Some("/c")])]),
    )];
    let records = collect_ingresses(false, &objects);
    assert!(records.is_empty());
}

#[test]
fn rule_without_http_block_ignored() {
    let objects = vec![object(
        "no-http",
        Some("ns"),
        None,
        Some(vec![IngressRule { host: Some("example.com".to_owned()), http: None }]),
    )];
    let records = collect_ingresses(false, &objects);
    assert!(records.is_empty());
}

#[test]
fn fanout_matches_path_counts() {
    let objects = vec![object(
        "fan",
        Some("ns"),
        None,
        Some(vec![
            rule(Some("a.example.com"), vec![Some("/one"), Some("/two")]),
            rule(None, vec![Some("/x"), Some("/y"), Some("/z"), None, Some("/w")]),
            rule(Some("b.example.com"), vec![Some("/p"), None, Some("/q")]),
        ]),
    )];
    let records = collect_ingresses(false, &objects);
    assert_eq!(records.len(), 5);
    let hosts: Vec<&str> = records.iter().map(|r| r.host.as_str()).collect();
    assert_eq!(
        hosts,
        vec!["a.example.com", "a.example.com", "b.example.com", "b.example.com", "b.example.com"]
    );
    assert_eq!(records[0].path.as_deref(), Some("/one"));
    assert_eq!(records[1].path.as_deref(), Some("/two"));
    assert_eq!(records[3].path, None);
}

#[test]
fn unannotated_excluded_when_filter_on() {
    let rules = vec![rule(Some("example.com"), vec![Some("/app")])];
    let objects = vec![object("plain", Some("ns"), None, Some(rules.clone()))];
    assert!(collect_ingresses(true, &objects).is_empty());
    let same_without_filter = vec![object("plain", Some("ns"), None, Some(rules))];
    assert_eq!(collect_ingresses(false, &same_without_filter).len(), 1);
}

#[test]
fn unrecognized_annotations_excluded_when_filter_on() {
    let objects = vec![object(
        "other",
        Some("ns"),
        Some(vec![("unrelated.example/key", "v")]),
        Some(vec![rule(Some("example.com"), vec![Some("/app")])]),
    )];
    assert!(collect_ingresses(true, &objects).is_empty());
}

#[test]
fn name_annotation_passes_filter() {
    let objects = vec![object(
        "named",
        Some("ns"),
        Some(vec![("landingpage.info/name", "Pretty")]),
        Some(vec![rule(Some("example.com"), vec![Some("/app")])]),
    )];
    let records = collect_ingresses(true, &objects);
    assert_eq!(records.len(), 1);
    assert_eq!(records[0].name, "named");
}

#[test]
fn description_annotation_passes_filter() {
    let objects = vec![object(
        "described",
        Some("ns"),
        Some(vec![("landingpage.info/description", "words")]),
        Some(vec![rule(Some("example.com"), vec![Some("/app")])]),
    )];
    assert_eq!(collect_ingresses(true, &objects).len(), 1);
}

#[test]
fn namespace_defaults() {
    let objects = vec![object(
        "nameless-ns",
        None,
        None,
        Some(vec![rule(Some("example.com"), vec![Some("/")])]),
    )];
    let records = collect_ingresses(false, &objects);
    assert_eq!(records[0].namespace, "default");
}

#[test]
fn record_carries_object_fields() {
    let mut obj = object(
        "carrier",
        Some("web"),
        Some(vec![("landingpage.info/name", "Pretty")]),
        Some(vec![rule(Some("example.com"), vec![Some("/app")])]),
    );
    obj.labels = Some(vec![("team".to_owned(), "infra".to_owned())]);
    let records = collect_ingresses(false, &vec![obj]);
    assert_eq!(records.len(), 1);
    let r = &records[0];
    assert_eq!(r.name, "carrier");
    assert_eq!(r.namespace, "web");
    assert_eq!(r.host, "example.com");
    assert!(r.tls_used);
    assert_eq!(r.path.as_deref(), Some("/app"));
    assert_eq!(r.annotations, vec![("landingpage.info/name".to_owned(), "Pretty".to_owned())]);
    assert_eq!(r.labels, vec![("team".to_owned(), "infra".to_owned())]);
}

#[test]
fn object_order_preserved() {
    let objects = vec![
        object("first", Some("ns"), None, Some(vec![rule(Some("one.example"), vec![Some("/")])])),
        object("second", Some("ns"), None, Some(vec![rule(Some("two.example"), vec![Some("/")])])),
    ];
    let records = collect_ingresses(false, &objects);
    let names: Vec<&str> = records.iter().map(|r| r.name.as_str()).collect();
    assert_eq!(names, vec!["first", "second"]);
}
