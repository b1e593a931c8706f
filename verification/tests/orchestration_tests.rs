use playground::engine::admission_allowed;
use playground::engine::environment_from_ingress;
use playground::engine::sessions_from_pods;
use playground::engine::session_of_fetched_pod;
use playground::engine::Configuration;
use playground::engine::CreateAction;
use playground::engine::CreateEvent;
use playground::engine::CreateState;
use playground::engine::DeleteAction;
use playground::engine::DeleteEvent;
use playground::engine::DeleteState;
use playground::engine::Engine;
use playground::engine::Environment;
use playground::engine::Secrets;
use playground::engine::TemplateEntry;
use playground::routes::IngressSpecView;
use playground::routes::IngressView;
use playground::types::LoggedUser;
use playground::types::NameValue;
use playground::types::NodeRecord;
use playground::types::PodSpecView;
use playground::types::PodStatusView;
use playground::types::PodView;
use playground::types::RouteRule;
use playground::types::SessionConfiguration;
use playground::types::SessionDefaults;
use playground::types::SessionUpdateConfiguration;
use playground::types::Session;
use playground::types::Template;
use playground::Error;

const TEMPLATE_YAML: &str = "image: paritytech/workshop\n";

fn nv(name: &str, value: &str) -> NameValue {
    NameValue {
        name: name.to_string(),
        value: value.to_string(),
    }
}

fn engine(max_per_node: usize) -> Engine {
    Engine {
        env: Environment {
            secured: false,
            host: "example.com".to_string(),
            namespace: "playground".to_string(),
        },
        configuration: Configuration {
            github_client_id: "client".to_string(),
            session: SessionDefaults {
                duration: 45 * 60,
                max_duration: 120 * 60,
                pool_affinity: "default".to_string(),
                max_sessions_per_pod: max_per_node,
            },
        },
        secrets: Secrets {
            github_client_secret: "not-a-real-secret".to_string(),
        },
    }
}

fn user(affinity: Option<&str>) -> LoggedUser {
    LoggedUser {
        id: "alice".to_string(),
        admin: false,
        pool_affinity: affinity.map(|s| s.to_string()),
        can_customize_duration: true,
        can_customize_pool_affinity: true,
    }
}

fn conf(template: &str) -> SessionConfiguration {
    SessionConfiguration {
        template: template.to_string(),
        duration: None,
        pool_affinity: None,
    }
}

fn pool_node(hostname: &str) -> NodeRecord {
    NodeRecord {
        labels: Some(vec![
            nv("kubernetes.io/hostname", hostname),
            nv("cloud.google.com/gke-nodepool", "default"),
        ]),
    }
}

fn workshop_entry() -> TemplateEntry {
    TemplateEntry {
        name: "workshop".to_string(),
        source: TEMPLATE_YAML.to_string(),
        template: Template {
            image: "paritytech/workshop".to_string(),
            runtime: None,
        },
    }
}

fn session_pod(owner: &str, duration: &str) -> PodView {
    PodView {
        labels: Some(vec![nv("app.kubernetes.io/owner", owner)]),
        annotations: Some(vec![
            nv("playground.substrate.io/template", TEMPLATE_YAML),
            nv("playground.substrate.io/session_duration", duration),
        ]),
        spec: Some(PodSpecView {
            node_name: Some("node-1".to_string()),
        }),
        status: Some(PodStatusView {
            phase: Some("Running".to_string()),
            reason: None,
            message: None,
            start_time: None,
            container_statuses: None,
        }),
    }
}

#[test]
fn admission_is_decided_at_the_ceiling() {
    assert!(admission_allowed(0, 1, 1));
    assert!(!admission_allowed(1, 1, 1));
    assert!(admission_allowed(5, 2, 3));
    assert!(!admission_allowed(6, 2, 3));
    assert!(!admission_allowed(0, 0, 5));
    assert!(!admission_allowed(0, 5, 0));
    // The ceiling is computed without overflowing the machine.
    assert!(admission_allowed(usize::MAX, usize::MAX, usize::MAX));
}

#[test]
fn pool_precedence_is_request_then_user_then_default() {
    let e = engine(1);
    let mut c = conf("workshop");
    c.pool_affinity = Some("requested".to_string());
    assert_eq!(e.resolve_pool_id(&user(Some("affine")), &c), "requested");
    assert_eq!(e.resolve_pool_id(&user(Some("affine")), &conf("workshop")), "affine");
    assert_eq!(e.resolve_pool_id(&user(None), &conf("workshop")), "default");
}

#[test]
fn update_plan_enforces_the_maximum_and_patches_only_changes() {
    let e = engine(1);
    let pod = session_pod("alice", "45");
    let session: Session =
        playground::codec::pod_to_session("example.com", &pod).unwrap();
    // Over the configured maximum: rejected.
    let over = SessionUpdateConfiguration {
        duration: Some(121 * 60),
    };
    assert_eq!(e.plan_session_update(&session, &over), Err(Error::Unauthorized));
    // Unchanged duration: nothing to patch.
    let same = SessionUpdateConfiguration {
        duration: Some(45 * 60),
    };
    assert_eq!(e.plan_session_update(&session, &same), Ok(None));
    // A changed duration patches exactly the new value.
    let changed = SessionUpdateConfiguration {
        duration: Some(60 * 60),
    };
    assert_eq!(e.plan_session_update(&session, &changed), Ok(Some(60 * 60)));
    // No override resolves to the default, which differs here.
    let defaulted = SessionUpdateConfiguration { duration: None };
    let mut hour = session.clone();
    hour.duration = 60 * 60;
    assert_eq!(e.plan_session_update(&hour, &defaulted), Ok(Some(45 * 60)));
}

#[test]
fn engine_assembly_parses_policy_texts() {
    let e = Engine::assemble(
        true,
        "example.com".to_string(),
        "playground".to_string(),
        "client".to_string(),
        "not-a-real-secret".to_string(),
        "45",
        "120",
        "default".to_string(),
        "2",
    )
    .unwrap();
    assert!(e.env.secured);
    assert_eq!(e.configuration.session.duration, 45 * 60);
    assert_eq!(e.configuration.session.max_duration, 120 * 60);
    assert_eq!(e.configuration.session.max_sessions_per_pod, 2);
    assert!(matches!(
        Engine::assemble(
            false,
            "h".to_string(),
            "ns".to_string(),
            "c".to_string(),
            "s".to_string(),
            "soon",
            "120",
            "default".to_string(),
            "2",
        ),
        Err(Error::Failure(_))
    ));
}

#[test]
fn environment_derivation_from_the_routing_object() {
    assert_eq!(
        environment_from_ingress(&None),
        Ok((false, "localhost".to_string()))
    );
    let full = IngressView {
        spec: Some(IngressSpecView {
            tls_present: true,
            rules: Some(vec![RouteRule {
                host: Some("example.com".to_string()),
                paths: None,
            }]),
        }),
    };
    assert_eq!(
        environment_from_ingress(&Some(full)),
        Ok((true, "example.com".to_string()))
    );
    let empty_rules = IngressView {
        spec: Some(IngressSpecView {
            tls_present: false,
            rules: Some(vec![]),
        }),
    };
    assert_eq!(
        environment_from_ingress(&Some(empty_rules)),
        Err(Error::MissingData("spec#rules[0]".to_string()))
    );
}

#[test]
fn listing_drops_units_that_fail_reconstruction() {
    let broken = PodView {
        labels: Some(vec![nv("app.kubernetes.io/owner", "mallory")]),
        annotations: None,
        spec: None,
        status: None,
    };
    let pods = vec![session_pod("alice", "45"), broken, session_pod("bob", "60")];
    let sessions = sessions_from_pods("example.com", &pods);
    assert_eq!(sessions.len(), 2);
    assert_eq!(sessions[0].user_id, "alice");
    assert_eq!(sessions[1].user_id, "bob");
}

#[test]
fn an_update_requires_the_session_to_exist() {
    assert_eq!(
        playground::engine::session_or_missing(None),
        Err(Error::MissingData("no matching session".to_string()))
    );
    let pod = session_pod("alice", "45");
    let session = playground::codec::pod_to_session("example.com", &pod).unwrap();
    assert_eq!(
        playground::engine::session_or_missing(Some(session.clone())),
        Ok(session)
    );
}

#[test]
fn absent_compute_unit_is_absent_session() {
    assert_eq!(session_of_fetched_pod("example.com", &None), Ok(None));
    let found = session_of_fetched_pod("example.com", &Some(session_pod("alice", "45")))
        .unwrap()
        .unwrap();
    assert_eq!(found.user_id, "alice");
}

#[test]
fn create_walks_route_then_pod_then_service() {
    let e = engine(1);
    let u = user(None);
    let c = conf("workshop");

    let (state, action) =
        e.create_session_step(&u, "s1", &c, CreateState::Start, CreateEvent::Begin);
    assert_eq!(
        action,
        CreateAction::ListPoolNodes {
            pool_id: "default".to_string()
        }
    );

    let (state, action) = e.create_session_step(
        &u,
        "s1",
        &c,
        state,
        CreateEvent::PoolNodesListed {
            nodes: vec![pool_node("a"), pool_node("b")],
        },
    );
    assert_eq!(action, CreateAction::CountSessions);

    let (state, action) =
        e.create_session_step(&u, "s1", &c, state, CreateEvent::SessionsListed { count: 1 });
    assert_eq!(action, CreateAction::ListTemplates);

    let (state, action) = e.create_session_step(
        &u,
        "s1",
        &c,
        state,
        CreateEvent::TemplatesListed {
            templates: vec![workshop_entry()],
        },
    );
    match &action {
        CreateAction::ApplyRoute { rule } => {
            assert_eq!(rule.host.as_deref(), Some("s1.example.com"));
        }
        other => panic!("route application expected, got {:?}", other),
    }

    let (state, action) = e.create_session_step(&u, "s1", &c, state, CreateEvent::RouteApplied);
    match &action {
        CreateAction::CreatePod { pod } => {
            assert_eq!(pod.name, "session-s1");
            assert_eq!(pod.pool_id, "default");
            assert_eq!(pod.image, "paritytech/workshop");
            assert_eq!(pod.annotations[0].value, TEMPLATE_YAML);
            assert_eq!(pod.annotations[1].value, "45");
            assert_eq!(pod.env[1].value, "s1");
        }
        other => panic!("compute unit creation expected, got {:?}", other),
    }

    let (state, action) = e.create_session_step(&u, "s1", &c, state, CreateEvent::PodCreated);
    match &action {
        CreateAction::CreateService { service } => {
            assert_eq!(service.name, "session-service-s1");
            assert_eq!(service.selector[0].value, "s1");
            assert_eq!(service.ports[0].port, 3000);
        }
        other => panic!("endpoint creation expected, got {:?}", other),
    }

    let (state, action) = e.create_session_step(&u, "s1", &c, state, CreateEvent::ServiceCreated);
    assert_eq!(action, CreateAction::Finish);
    assert_eq!(state, CreateState::Done);
}

#[test]
fn third_create_on_a_full_pool_is_rejected_without_any_resource() {
    // Pool "default" with two nodes and a ceiling of one session per node:
    // two sessions exist, so a third creation must stop with Unauthorized
    // before any route rule, compute unit or endpoint is asked for.
    let e = engine(1);
    let u = user(None);
    let c = conf("workshop");

    let (state, _) = e.create_session_step(&u, "s3", &c, CreateState::Start, CreateEvent::Begin);
    let (state, _) = e.create_session_step(
        &u,
        "s3",
        &c,
        state,
        CreateEvent::PoolNodesListed {
            nodes: vec![pool_node("a"), pool_node("b")],
        },
    );
    let (state, action) =
        e.create_session_step(&u, "s3", &c, state, CreateEvent::SessionsListed { count: 2 });
    assert_eq!(
        state,
        CreateState::Failed {
            error: Error::Unauthorized
        }
    );
    assert_eq!(
        action,
        CreateAction::Fail {
            error: Error::Unauthorized
        }
    );
    // The machine stays inert afterwards: no later event makes it create.
    let (state, action) = e.create_session_step(&u, "s3", &c, state, CreateEvent::RouteApplied);
    assert!(matches!(state, CreateState::Failed { .. }));
    assert!(matches!(action, CreateAction::Fail { .. }));
}

#[test]
fn create_fails_on_unknown_pool_or_template() {
    let e = engine(1);
    let u = user(None);
    let c = conf("workshop");
    let (state, _) = e.create_session_step(&u, "s1", &c, CreateState::Start, CreateEvent::Begin);
    let (_, action) = e.create_session_step(
        &u,
        "s1",
        &c,
        state,
        CreateEvent::PoolNodesListed { nodes: vec![] },
    );
    assert_eq!(
        action,
        CreateAction::Fail {
            error: Error::MissingData("no matching pool".to_string())
        }
    );

    let (_, action) = e.create_session_step(
        &u,
        "s1",
        &c,
        CreateState::AwaitTemplates {
            pool_id: "default".to_string(),
        },
        CreateEvent::TemplatesListed {
            templates: vec![],
        },
    );
    assert_eq!(
        action,
        CreateAction::Fail {
            error: Error::MissingData("no matching template".to_string())
        }
    );
}

#[test]
fn create_stops_on_platform_failure() {
    let e = engine(1);
    let (state, action) = e.create_session_step(
        &user(None),
        "s1",
        &conf("workshop"),
        CreateState::AwaitService,
        CreateEvent::PlatformFailed {
            error: Error::Failure("api unreachable".to_string()),
        },
    );
    assert!(matches!(state, CreateState::Failed { .. }));
    assert!(matches!(action, CreateAction::Fail { .. }));
}

#[test]
fn delete_walks_service_then_pod_then_route() {
    let e = engine(1);
    let (state, action) =
        e.delete_session_step("s1", DeleteState::Start, DeleteEvent::Begin);
    assert_eq!(
        action,
        DeleteAction::DeleteService {
            name: "session-service-s1".to_string()
        }
    );
    let (state, action) = e.delete_session_step("s1", state, DeleteEvent::ServiceDeleted);
    assert_eq!(
        action,
        DeleteAction::DeletePod {
            name: "session-s1".to_string()
        }
    );
    let (state, action) = e.delete_session_step("s1", state, DeleteEvent::PodDeleted);
    assert_eq!(action, DeleteAction::FetchIngress);

    let keep = RouteRule {
        host: Some("app.example.com".to_string()),
        paths: None,
    };
    let drop = RouteRule {
        host: Some("s1.example.com".to_string()),
        paths: None,
    };
    let ingress = IngressView {
        spec: Some(IngressSpecView {
            tls_present: false,
            rules: Some(vec![keep.clone(), drop]),
        }),
    };
    let (state, action) =
        e.delete_session_step("s1", state, DeleteEvent::IngressFetched { ingress });
    assert_eq!(
        action,
        DeleteAction::ReplaceRoutes {
            rules: vec![keep]
        }
    );
    let (state, action) = e.delete_session_step("s1", state, DeleteEvent::RouteReplaced);
    assert_eq!(action, DeleteAction::Finish);
    assert_eq!(state, DeleteState::Done);
}

#[test]
fn delete_surfaces_a_missing_rule_list() {
    let e = engine(1);
    let (state, action) = e.delete_session_step(
        "s1",
        DeleteState::AwaitIngress,
        DeleteEvent::IngressFetched {
            ingress: IngressView { spec: None },
        },
    );
    assert_eq!(
        state,
        DeleteState::Failed {
            error: Error::MissingData("spec".to_string())
        }
    );
    assert!(matches!(action, DeleteAction::Fail { .. }));
}
