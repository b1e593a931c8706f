//! Descriptors for the two platform resources a session owns: its compute
//! unit and its network endpoint.
//!
//! The engine builds these as plain values; the unverified shell turns them
//! into platform objects and adds the fixed parts that carry no decision: the
//! soft scheduling preference's weight, the one-second termination grace
//! period, and the endpoint's "NodePort" exposure.

use vstd::prelude::*;

verus! {

use crate::codec::create_pod_annotations;
use crate::codec::spec_pod_annotations;
use crate::names::APP_LABEL;
use crate::names::APP_VALUE;
use crate::names::COMPONENT_LABEL;
use crate::names::COMPONENT_VALUE;
use crate::names::OWNER_LABEL;
use crate::names::THEIA_WEB_PORT;
use crate::names::pod_name;
use crate::names::service_name;
use crate::names::spec_pod_name;
use crate::names::spec_service_name;
use crate::types::NameValue;
use crate::types::NameValueView;
use crate::types::PortSpecView;
use crate::types::Template;
use crate::types::TemplateView;
use crate::types::clone_opt_string;
use vstd::string::StringExecFns;

/// One port of a network endpoint.
#[derive(Debug, Clone, PartialEq, Eq)]
pub struct ServicePortSpec {
    pub name: String,
    pub protocol: Option<String>,
    pub port: i32,
    pub target_port: Option<i32>,
}

/// Spec view of [`ServicePortSpec`].
pub struct ServicePortSpecView {
    pub name: Seq<char>,
    pub protocol: Option<Seq<char>>,
    pub port: i32,
    pub target_port: Option<i32>,
}

impl DeepView for ServicePortSpec {
    type V = ServicePortSpecView;

    open spec fn deep_view(&self) -> ServicePortSpecView {
        ServicePortSpecView {
            name: self.name@,
            protocol: self.protocol.deep_view(),
            port: self.port,
            target_port: self.target_port,
        }
    }
}

/// The descriptor of a session's network endpoint: its deterministic name,
/// the session label set, the owner-label selector, and its ports.
#[derive(Debug, Clone, PartialEq, Eq)]
pub struct ServiceModel {
    pub name: String,
    pub labels: Vec<NameValue>,
    pub selector: Vec<NameValue>,
    pub ports: Vec<ServicePortSpec>,
}

/// Spec view of [`ServiceModel`].
pub struct ServiceModelView {
    pub name: Seq<char>,
    pub labels: Seq<NameValueView>,
    pub selector: Seq<NameValueView>,
    pub ports: Seq<ServicePortSpecView>,
}

impl DeepView for ServiceModel {
    type V = ServiceModelView;

    open spec fn deep_view(&self) -> ServiceModelView {
        ServiceModelView {
            name: self.name@,
            labels: self.labels.deep_view(),
            selector: self.selector.deep_view(),
            ports: self.ports.deep_view(),
        }
    }
}

/// The descriptor of a session's compute unit: its deterministic name, the
/// session label set, the codec's annotations, the pool its scheduling is
/// softly pinned to, and its one container.
#[derive(Debug, Clone, PartialEq, Eq)]
pub struct PodModel {
    pub name: String,
    pub labels: Vec<NameValue>,
    pub annotations: Vec<NameValue>,
    pub pool_id: String,
    pub container_name: String,
    pub image: String,
    pub env: Vec<NameValue>,
}

/// Spec view of [`PodModel`].
pub struct PodModelView {
    pub name: Seq<char>,
    pub labels: Seq<NameValueView>,
    pub annotations: Seq<NameValueView>,
    pub pool_id: Seq<char>,
    pub container_name: Seq<char>,
    pub image: Seq<char>,
    pub env: Seq<NameValueView>,
}

impl DeepView for PodModel {
    type V = PodModelView;

    open spec fn deep_view(&self) -> PodModelView {
        PodModelView {
            name: self.name@,
            labels: self.labels.deep_view(),
            annotations: self.annotations.deep_view(),
            pool_id: self.pool_id@,
            container_name: self.container_name@,
            image: self.image@,
            env: self.env.deep_view(),
        }
    }
}

/// The label set applied to every resource a session owns: the fixed
/// application tag, the fixed component tag, and the owner tag.
pub open spec fn spec_session_labels(session_id: Seq<char>) -> Seq<NameValueView> {
    seq![
        NameValueView { name: APP_LABEL@, value: APP_VALUE@ },
        NameValueView { name: COMPONENT_LABEL@, value: COMPONENT_VALUE@ },
        NameValueView { name: OWNER_LABEL@, value: session_id },
    ]
}

/// The selector a session's endpoint matches its compute unit by: the owner
/// tag alone.
pub open spec fn spec_owner_selector(session_id: Seq<char>) -> Seq<NameValueView> {
    seq![NameValueView { name: OWNER_LABEL@, value: session_id }]
}

/// Builds the session label set.
pub fn session_labels(session_id: &str) -> (r: Vec<NameValue>)
    ensures
        r.deep_view() == spec_session_labels(session_id@),
{
    let mut r: Vec<NameValue> = Vec::new();
    r.push(NameValue { name: String::from_str(APP_LABEL), value: String::from_str(APP_VALUE) });
    r.push(
        NameValue {
            name: String::from_str(COMPONENT_LABEL),
            value: String::from_str(COMPONENT_VALUE),
        },
    );
    r.push(NameValue { name: String::from_str(OWNER_LABEL), value: session_id.to_owned() });
    proof {
        assert(r.deep_view() =~= spec_session_labels(session_id@));
    }
    r
}

/// One environment variable.
pub fn create_env_var(name: &str, value: &str) -> (r: NameValue)
    ensures
        r.deep_view() == (NameValueView { name: name@, value: value@ }),
{
    NameValue { name: name.to_owned(), value: value.to_owned() }
}

/// The environment of a session's container: the fixed session identity
/// variables, then the template's declared variables in order.
pub open spec fn spec_pod_env(t: TemplateView, host: Seq<char>, session_id: Seq<char>) -> Seq<
    NameValueView,
> {
    let base = seq![
        NameValueView { name: "SUBSTRATE_PLAYGROUND"@, value: ""@ },
        NameValueView { name: "SUBSTRATE_PLAYGROUND_SESSION"@, value: session_id },
        NameValueView { name: "SUBSTRATE_PLAYGROUND_HOSTNAME"@, value: host },
    ];
    match t.runtime {
        Some(rt) => match rt.env {
            Some(envs) => base + envs,
            None => base,
        },
        None => base,
    }
}

/// Builds a session container's environment.
pub fn pod_env_variables(template: &Template, host: &str, session_id: &str) -> (r: Vec<NameValue>)
    ensures
        r.deep_view() == spec_pod_env(template.deep_view(), host@, session_id@),
{
    let mut r: Vec<NameValue> = Vec::new();
    r.push(create_env_var("SUBSTRATE_PLAYGROUND", ""));
    r.push(create_env_var("SUBSTRATE_PLAYGROUND_SESSION", session_id));
    r.push(create_env_var("SUBSTRATE_PLAYGROUND_HOSTNAME", host));
    let ghost base = seq![
        NameValueView { name: "SUBSTRATE_PLAYGROUND"@, value: ""@ },
        NameValueView { name: "SUBSTRATE_PLAYGROUND_SESSION"@, value: session_id@ },
        NameValueView { name: "SUBSTRATE_PLAYGROUND_HOSTNAME"@, value: host@ },
    ];
    proof {
        assert(r.deep_view() =~= base);
    }
    match &template.runtime {
        None => (),
        Some(rt) => match &rt.env {
            None => (),
            Some(envs) => {
                let n = envs.len();
                let mut i: usize = 0;
                while i < n
                    invariant
                        n == envs.len(),
                        0 <= i <= n,
                        r.deep_view() =~= base + envs.deep_view().take(i as int),
                    decreases n - i,
                {
                    let ghost prev = r.deep_view();
                    r.push(create_env_var(envs[i].name.as_str(), envs[i].value.as_str()));
                    proof {
                        assert(envs[i as int].deep_view() == envs.deep_view()[i as int]);
                        assert(r.deep_view() =~= prev.push(envs.deep_view()[i as int]));
                        assert(r.deep_view() =~= base + envs.deep_view().take(i + 1));
                    }
                    i = i + 1;
                }
                proof {
                    assert(envs.deep_view().take(n as int) =~= envs.deep_view());
                }
            },
        },
    }
    r
}

/// The ports of a template, as endpoint ports.
pub open spec fn spec_template_service_ports(ports: Seq<PortSpecView>) -> Seq<
    ServicePortSpecView,
> {
    ports.map_values(
        |p: PortSpecView| ServicePortSpecView {
            name: p.name,
            protocol: p.protocol,
            port: p.port,
            target_port: p.target,
        },
    )
}

/// The ports of a session's endpoint: the mandatory primary web port, then
/// the template's declared ports.
pub open spec fn spec_service_ports(t: TemplateView) -> Seq<ServicePortSpecView> {
    let head = ServicePortSpecView {
        name: "web"@,
        protocol: Some("TCP"@),
        port: THEIA_WEB_PORT,
        target_port: None,
    };
    match t.runtime {
        Some(rt) => match rt.ports {
            Some(ports) => seq![head] + spec_template_service_ports(ports),
            None => seq![head],
        },
        None => seq![head],
    }
}

/// The descriptor of a session's network endpoint.
pub open spec fn spec_service_model(session_id: Seq<char>, t: TemplateView) -> ServiceModelView {
    ServiceModelView {
        name: spec_service_name(session_id),
        labels: spec_session_labels(session_id),
        selector: spec_owner_selector(session_id),
        ports: spec_service_ports(t),
    }
}

/// Builds the descriptor of a session's network endpoint.
pub fn create_service(session_id: &str, template: &Template) -> (r: ServiceModel)
    ensures
        r.deep_view() == spec_service_model(session_id@, template.deep_view()),
{
    let mut selector: Vec<NameValue> = Vec::new();
    selector.push(NameValue { name: String::from_str(OWNER_LABEL), value: session_id.to_owned() });
    proof {
        assert(selector.deep_view() =~= spec_owner_selector(session_id@));
    }
    let mut ports: Vec<ServicePortSpec> = Vec::new();
    ports.push(
        ServicePortSpec {
            name: String::from_str("web"),
            protocol: Some(String::from_str("TCP")),
            port: THEIA_WEB_PORT,
            target_port: None,
        },
    );
    let ghost head = ServicePortSpecView {
        name: "web"@,
        protocol: Some("TCP"@),
        port: THEIA_WEB_PORT,
        target_port: None,
    };
    proof {
        assert(ports.deep_view() =~= seq![head]);
    }
    match &template.runtime {
        None => (),
        Some(rt) => match &rt.ports {
            None => (),
            Some(tports) => {
                let n = tports.len();
                let mut i: usize = 0;
                while i < n
                    invariant
                        n == tports.len(),
                        0 <= i <= n,
                        ports.deep_view() =~= seq![head] + spec_template_service_ports(
                            tports.deep_view().take(i as int),
                        ),
                    decreases n - i,
                {
                    let ghost prev = ports.deep_view();
                    ports.push(
                        ServicePortSpec {
                            name: tports[i].name.clone(),
                            protocol: clone_opt_string(&tports[i].protocol),
                            port: tports[i].port,
                            target_port: tports[i].target,
                        },
                    );
                    proof {
                        assert(tports[i as int].deep_view() == tports.deep_view()[i as int]);
                        assert(ports.deep_view() =~= prev.push(
                            ServicePortSpecView {
                                name: tports.deep_view()[i as int].name,
                                protocol: tports.deep_view()[i as int].protocol,
                                port: tports.deep_view()[i as int].port,
                                target_port: tports.deep_view()[i as int].target,
                            },
                        ));
                        assert(ports.deep_view() =~= seq![head] + spec_template_service_ports(
                            tports.deep_view().take(i + 1),
                        ));
                    }
                    i = i + 1;
                }
                proof {
                    assert(tports.deep_view().take(n as int) =~= tports.deep_view());
                }
            },
        },
    }
    let r = ServiceModel {
        name: service_name(session_id),
        labels: session_labels(session_id),
        selector,
        ports,
    };
    proof {
        assert(r.deep_view().ports =~= spec_service_ports(template.deep_view()));
    }
    r
}

/// The descriptor of a session's compute unit.
pub open spec fn spec_pod_model(
    host: Seq<char>,
    session_id: Seq<char>,
    t: TemplateView,
    template_source: Seq<char>,
    duration_secs: u64,
    pool_id: Seq<char>,
) -> PodModelView {
    PodModelView {
        name: spec_pod_name(session_id),
        labels: spec_session_labels(session_id),
        annotations: spec_pod_annotations(template_source, duration_secs),
        pool_id: pool_id,
        container_name: "session-container"@,
        image: t.image,
        env: spec_pod_env(t, host, session_id),
    }
}

/// Builds the descriptor of a session's compute unit, softly pinned to the
/// resolved pool and annotated by the codec.
pub fn create_pod(
    host: &str,
    session_id: &str,
    template: &Template,
    template_source: &str,
    duration_secs: u64,
    pool_id: &str,
) -> (r: PodModel)
    ensures
        r.deep_view() == spec_pod_model(
            host@,
            session_id@,
            template.deep_view(),
            template_source@,
            duration_secs,
            pool_id@,
        ),
{
    PodModel {
        name: pod_name(session_id),
        labels: session_labels(session_id),
        annotations: create_pod_annotations(template_source, duration_secs),
        pool_id: pool_id.to_owned(),
        container_name: String::from_str("session-container"),
        image: template.image.clone(),
        env: pod_env_variables(template, host, session_id),
    }
}

} // verus!
