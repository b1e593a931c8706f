use playground::codec::create_pod_annotations;
use playground::codec::container_status_to_container_status;
use playground::codec::phase_from_str;
use playground::codec::pod_to_session;
use playground::codec::pod_to_details;
use playground::codec::session_duration_annotation;
use playground::codec::str_to_session_duration_minutes;
use playground::text::parse_dec_u64;
use playground::text::u64_to_dec_string;
use playground::types::ContainerPhase;
use playground::types::ContainerStateView;
use playground::types::ContainerStatusView;
use playground::types::NameValue;
use playground::types::Phase;
use playground::types::PodSpecView;
use playground::types::PodStatusView;
use playground::types::PodView;
use playground::types::StateDetail;
use playground::Error;

fn nv(name: &str, value: &str) -> NameValue {
    NameValue {
        name: name.to_string(),
        value: value.to_string(),
    }
}

fn running_status() -> PodStatusView {
    PodStatusView {
        phase: Some("Running".to_string()),
        reason: None,
        message: None,
        start_time: None,
        container_statuses: None,
    }
}

fn full_pod(template_yaml: &str, duration: &str) -> PodView {
    PodView {
        labels: Some(vec![
            nv("app.kubernetes.io/part-of", "playground"),
            nv("app.kubernetes.io/component", "session"),
            nv("app.kubernetes.io/owner", "alice"),
        ]),
        annotations: Some(vec![
            nv("playground.substrate.io/template", template_yaml),
            nv("playground.substrate.io/session_duration", duration),
        ]),
        spec: Some(PodSpecView {
            node_name: Some("node-1".to_string()),
        }),
        status: Some(running_status()),
    }
}

const TEMPLATE_YAML: &str = "image: paritytech/workshop\n";

#[test]
fn decimal_rendering_is_exact() {
    assert_eq!(u64_to_dec_string(0), "0");
    assert_eq!(u64_to_dec_string(7), "7");
    assert_eq!(u64_to_dec_string(1234567890), "1234567890");
    assert_eq!(u64_to_dec_string(u64::MAX), "18446744073709551615");
}

#[test]
fn decimal_parsing_is_exact() {
    assert_eq!(parse_dec_u64("0"), Some(0));
    assert_eq!(parse_dec_u64("007"), Some(7));
    assert_eq!(parse_dec_u64("+45"), Some(45));
    assert_eq!(parse_dec_u64("18446744073709551615"), Some(u64::MAX));
    assert_eq!(parse_dec_u64("18446744073709551616"), None);
    assert_eq!(parse_dec_u64(""), None);
    assert_eq!(parse_dec_u64("+"), None);
    assert_eq!(parse_dec_u64("-1"), None);
    assert_eq!(parse_dec_u64("4 5"), None);
    assert_eq!(parse_dec_u64("12x"), None);
}

#[test]
fn duration_round_trip_whole_minutes() {
    let text = session_duration_annotation(45 * 60);
    assert_eq!(text, "45");
    assert_eq!(str_to_session_duration_minutes(&text).unwrap(), 45 * 60);
}

#[test]
fn duration_truncates_sub_minute_components() {
    // 90 seconds is written as one whole minute, deterministically.
    assert_eq!(session_duration_annotation(90), "1");
    assert_eq!(session_duration_annotation(59), "0");
    let text = session_duration_annotation(90);
    assert_eq!(str_to_session_duration_minutes(&text).unwrap(), 60);
}

#[test]
fn duration_parse_rejects_garbage() {
    assert!(matches!(
        str_to_session_duration_minutes("abc"),
        Err(Error::Failure(_))
    ));
    assert!(matches!(
        str_to_session_duration_minutes(""),
        Err(Error::Failure(_))
    ));
    // A minute count whose seconds overflow 64 bits is rejected too.
    assert!(matches!(
        str_to_session_duration_minutes("18446744073709551615"),
        Err(Error::Failure(_))
    ));
}

#[test]
fn annotations_carry_template_and_minutes() {
    let anns = create_pod_annotations(TEMPLATE_YAML, 45 * 60);
    assert_eq!(anns.len(), 2);
    assert_eq!(anns[0].name, "playground.substrate.io/template");
    assert_eq!(anns[0].value, TEMPLATE_YAML);
    assert_eq!(anns[1].name, "playground.substrate.io/session_duration");
    assert_eq!(anns[1].value, "45");
}

#[test]
fn session_reconstruction_succeeds() {
    let pod = full_pod(TEMPLATE_YAML, "45");
    let session = pod_to_session("example.com", &pod).unwrap();
    assert_eq!(session.user_id, "alice");
    assert_eq!(session.duration, 45 * 60);
    assert_eq!(session.template, TEMPLATE_YAML);
    assert_eq!(session.url, "alice.example.com");
    assert_eq!(session.node, "node-1");
    assert_eq!(session.pod.phase, Phase::Running);
}

#[test]
fn session_reconstruction_missing_template_is_missing_data() {
    let mut pod = full_pod(TEMPLATE_YAML, "45");
    pod.annotations = Some(vec![nv("playground.substrate.io/session_duration", "45")]);
    assert_eq!(
        pod_to_session("example.com", &pod),
        Err(Error::MissingData("template".to_string()))
    );
}

#[test]
fn session_reconstruction_corrupt_template_is_failure() {
    let pod = full_pod("{unclosed", "45");
    assert!(matches!(
        pod_to_session("example.com", &pod),
        Err(Error::Failure(_))
    ));
}

#[test]
fn session_reconstruction_corrupt_duration_is_failure() {
    let pod = full_pod(TEMPLATE_YAML, "soon");
    assert!(matches!(
        pod_to_session("example.com", &pod),
        Err(Error::Failure(_))
    ));
}

#[test]
fn session_reconstruction_without_labels_or_node() {
    let mut pod = full_pod(TEMPLATE_YAML, "45");
    pod.labels = None;
    assert_eq!(
        pod_to_session("example.com", &pod),
        Err(Error::MissingData("pod#metadata#labels".to_string()))
    );

    let mut unscheduled = full_pod(TEMPLATE_YAML, "45");
    unscheduled.spec = Some(PodSpecView { node_name: None });
    assert_eq!(
        pod_to_session("example.com", &unscheduled),
        Err(Error::MissingData("pod#spec#node_name".to_string()))
    );
}

#[test]
fn session_reconstruction_unknown_owner_sentinel() {
    let mut pod = full_pod(TEMPLATE_YAML, "45");
    pod.labels = Some(vec![nv("app.kubernetes.io/component", "session")]);
    let session = pod_to_session("example.com", &pod).unwrap();
    assert_eq!(session.user_id, "UNKNOWN OWNER");
}

#[test]
fn phase_parsing() {
    assert_eq!(phase_from_str("Pending"), Some(Phase::Pending));
    assert_eq!(phase_from_str("Running"), Some(Phase::Running));
    assert_eq!(phase_from_str("Succeeded"), Some(Phase::Succeeded));
    assert_eq!(phase_from_str("Failed"), Some(Phase::Failed));
    assert_eq!(phase_from_str("Unknown"), Some(Phase::Unknown));
    assert_eq!(phase_from_str("Bogus"), None);
}

#[test]
fn pod_details_errors() {
    assert_eq!(
        pod_to_details(&None),
        Err(Error::MissingData("status".to_string()))
    );
    let odd = PodStatusView {
        phase: Some("Weird".to_string()),
        reason: None,
        message: None,
        start_time: None,
        container_statuses: None,
    };
    assert!(matches!(pod_to_details(&Some(odd)), Err(Error::Failure(_))));
    // An absent phase is read as Unknown rather than failing.
    let missing = PodStatusView {
        phase: None,
        reason: None,
        message: None,
        start_time: None,
        container_statuses: None,
    };
    let details = pod_to_details(&Some(missing)).unwrap();
    assert_eq!(details.phase, Phase::Unknown);
    assert_eq!(details.reason, "");
    assert_eq!(details.message, "");
}

#[test]
fn container_status_selection() {
    let waiting = ContainerStatusView {
        state: Some(ContainerStateView {
            running: false,
            waiting: Some(StateDetail {
                reason: Some("ImagePullBackOff".to_string()),
                message: None,
            }),
            terminated: Some(StateDetail {
                reason: Some("Error".to_string()),
                message: Some("boom".to_string()),
            }),
        }),
    };
    let mapped = container_status_to_container_status(&waiting);
    assert_eq!(mapped.phase, ContainerPhase::Waiting);
    assert_eq!(mapped.reason.as_deref(), Some("ImagePullBackOff"));
    // The waiting state has no message, so the terminated one's surfaces.
    assert_eq!(mapped.message.as_deref(), Some("boom"));

    let stateless = ContainerStatusView { state: None };
    let mapped = container_status_to_container_status(&stateless);
    assert_eq!(mapped.phase, ContainerPhase::Unknown);
    assert_eq!(mapped.reason, None);
}
