use playground::engine::config_map_key_path;
use playground::engine::duration_annotation_patch_path;
use playground::engine::json_pointer_escape;
use playground::names::pod_name;
use playground::names::service_name;
use playground::names::subdomain;
use playground::routes::create_ingress_paths;
use playground::routes::rules_after_adding_rule;
use playground::routes::rules_after_adding_sessions;
use playground::routes::rules_after_removing_host;
use playground::routes::session_route_rule;
use playground::routes::IngressSpecView;
use playground::routes::IngressView;
use playground::types::IngressPath;
use playground::types::NameValue;
use playground::types::PortSpec;
use playground::types::RouteRule;
use playground::types::RuntimeContext;
use playground::types::Template;
use playground::Error;

fn workshop_template() -> Template {
    Template {
        image: "paritytech/workshop".to_string(),
        runtime: Some(RuntimeContext {
            env: Some(vec![NameValue {
                name: "RUST_LOG".to_string(),
                value: "debug".to_string(),
            }]),
            ports: Some(vec![PortSpec {
                name: "node".to_string(),
                protocol: Some("TCP".to_string()),
                path: "/wss".to_string(),
                port: 9944,
                target: Some(9944),
            }]),
        }),
    }
}

fn foreign_rule(host: &str) -> RouteRule {
    RouteRule {
        host: Some(host.to_string()),
        paths: Some(vec![IngressPath {
            path: "/".to_string(),
            service_name: "frontend".to_string(),
            service_port: 80,
        }]),
    }
}

fn ingress_with(rules: Vec<RouteRule>) -> IngressView {
    IngressView {
        spec: Some(IngressSpecView {
            tls_present: false,
            rules: Some(rules),
        }),
    }
}

#[test]
fn deterministic_names() {
    assert_eq!(pod_name("alice"), "session-alice");
    assert_eq!(service_name("alice"), "session-service-alice");
    assert_eq!(subdomain("example.com", "s1"), "s1.example.com");
}

#[test]
fn ingress_paths_start_with_primary_web_port() {
    let paths = create_ingress_paths("session-service-s1".to_string(), &workshop_template());
    assert_eq!(paths.len(), 2);
    assert_eq!(paths[0].path, "/");
    assert_eq!(paths[0].service_name, "session-service-s1");
    assert_eq!(paths[0].service_port, 3000);
    assert_eq!(paths[1].path, "/wss");
    assert_eq!(paths[1].service_port, 9944);
}

#[test]
fn session_rule_targets_the_subdomain() {
    let rule = session_route_rule("example.com", "s1", &workshop_template());
    assert_eq!(rule.host.as_deref(), Some("s1.example.com"));
    assert_eq!(rule.paths.as_ref().unwrap().len(), 2);
}

#[test]
fn add_then_remove_restores_the_table() {
    let original = vec![foreign_rule("app.example.com"), foreign_rule("docs.example.com")];
    let ingress = ingress_with(original.clone());
    let entries = vec![("s1".to_string(), workshop_template())];
    let with_session = rules_after_adding_sessions(&ingress, "example.com", &entries).unwrap();
    assert_eq!(with_session.len(), 3);
    assert_eq!(with_session[2].host.as_deref(), Some("s1.example.com"));

    let removed =
        rules_after_removing_host(&ingress_with(with_session), "s1.example.com").unwrap();
    assert_eq!(removed, original);
}

#[test]
fn removal_without_a_rule_list_is_fatal() {
    let bare = IngressView { spec: None };
    assert_eq!(
        rules_after_removing_host(&bare, "s1.example.com"),
        Err(Error::MissingData("spec".to_string()))
    );
    let no_rules = IngressView {
        spec: Some(IngressSpecView {
            tls_present: false,
            rules: None,
        }),
    };
    assert_eq!(
        rules_after_removing_host(&no_rules, "s1.example.com"),
        Err(Error::MissingData("spec#rules".to_string()))
    );
}

#[test]
fn removal_keeps_hostless_rules_unless_targeting_unknown() {
    let hostless = RouteRule {
        host: None,
        paths: None,
    };
    let kept =
        rules_after_removing_host(&ingress_with(vec![hostless.clone()]), "s1.example.com")
            .unwrap();
    assert_eq!(kept.len(), 1);
    // A rule without a host is matched by the sentinel "unknown".
    let dropped = rules_after_removing_host(&ingress_with(vec![hostless]), "unknown").unwrap();
    assert_eq!(dropped.len(), 0);
}

#[test]
fn adding_one_rule_appends_it_last() {
    let original = vec![foreign_rule("app.example.com")];
    let rule = session_route_rule("example.com", "s1", &workshop_template());
    let rules =
        rules_after_adding_rule(&ingress_with(original.clone()), rule.clone()).unwrap();
    assert_eq!(rules.len(), 2);
    assert_eq!(rules[0], original[0]);
    assert_eq!(rules[1], rule);
    assert_eq!(
        rules_after_adding_rule(&IngressView { spec: None }, rule),
        Err(Error::MissingData("ingress#spec".to_string()))
    );
}

#[test]
fn adding_without_a_rule_list_is_fatal() {
    let no_rules = IngressView {
        spec: Some(IngressSpecView {
            tls_present: true,
            rules: None,
        }),
    };
    let entries = vec![("s1".to_string(), workshop_template())];
    assert_eq!(
        rules_after_adding_sessions(&no_rules, "example.com", &entries),
        Err(Error::MissingData("ingress#spec#rules".to_string()))
    );
}

#[test]
fn field_paths_escape_slashes() {
    assert_eq!(json_pointer_escape("a/b/c"), "a~1b~1c");
    assert_eq!(json_pointer_escape("plain"), "plain");
    assert_eq!(
        duration_annotation_patch_path(),
        "/metadata/annotations/playground.substrate.io~1session_duration"
    );
    assert_eq!(config_map_key_path("alice"), "/data/alice");
}
