//! The engine's data model, as plain values, with the spec-level views the
//! contracts are stated over.
//!
//! Platform resources (compute units, nodes, the routing object) reach the
//! verified core as views: structs of strings, integers and options holding
//! exactly the fields the logic reads. The unverified shell converts the
//! platform's own objects to and from these views; the logic below never sees
//! a platform object itself.

use vstd::prelude::*;

verus! {

use crate::text::str_eq;

/// One `name = value` entry of a label set, an annotation map, or an
/// environment.
#[derive(Debug, Clone, PartialEq, Eq)]
pub struct NameValue {
    pub name: String,
    pub value: String,
}

/// Spec view of [`NameValue`].
pub struct NameValueView {
    pub name: Seq<char>,
    pub value: Seq<char>,
}

impl DeepView for NameValue {
    type V = NameValueView;

    open spec fn deep_view(&self) -> NameValueView {
        NameValueView { name: self.name@, value: self.value@ }
    }
}

/// A port a template declares: where it is reached (path), how (protocol),
/// and what it forwards to.
#[derive(Debug, Clone, PartialEq, Eq)]
pub struct PortSpec {
    pub name: String,
    pub protocol: Option<String>,
    pub path: String,
    pub port: i32,
    pub target: Option<i32>,
}

/// Spec view of [`PortSpec`].
pub struct PortSpecView {
    pub name: Seq<char>,
    pub protocol: Option<Seq<char>>,
    pub path: Seq<char>,
    pub port: i32,
    pub target: Option<i32>,
}

impl DeepView for PortSpec {
    type V = PortSpecView;

    open spec fn deep_view(&self) -> PortSpecView {
        PortSpecView {
            name: self.name@,
            protocol: match self.protocol {
                Some(ref p) => Some(p@),
                None => None,
            },
            path: self.path@,
            port: self.port,
            target: self.target,
        }
    }
}

/// The runtime shape a template may declare: environment variables and
/// exposed ports.
#[derive(Debug, Clone, PartialEq, Eq)]
pub struct RuntimeContext {
    pub env: Option<Vec<NameValue>>,
    pub ports: Option<Vec<PortSpec>>,
}

/// Spec view of [`RuntimeContext`].
pub struct RuntimeContextView {
    pub env: Option<Seq<NameValueView>>,
    pub ports: Option<Seq<PortSpecView>>,
}

impl DeepView for RuntimeContext {
    type V = RuntimeContextView;

    open spec fn deep_view(&self) -> RuntimeContextView {
        RuntimeContextView { env: self.env.deep_view(), ports: self.ports.deep_view() }
    }
}

/// The image and runtime shape a session is instantiated from.
#[derive(Debug, Clone, PartialEq, Eq)]
pub struct Template {
    pub image: String,
    pub runtime: Option<RuntimeContext>,
}

/// Spec view of [`Template`].
pub struct TemplateView {
    pub image: Seq<char>,
    pub runtime: Option<RuntimeContextView>,
}

impl DeepView for Template {
    type V = TemplateView;

    open spec fn deep_view(&self) -> TemplateView {
        TemplateView { image: self.image@, runtime: self.runtime.deep_view() }
    }
}

/// Lifecycle phase of a compute unit.
#[derive(Debug, Clone, Copy, PartialEq, Eq, Structural)]
pub enum Phase {
    Pending,
    Running,
    Succeeded,
    Failed,
    Unknown,
}

/// Lifecycle phase of the container inside a compute unit.
#[derive(Debug, Clone, Copy, PartialEq, Eq, Structural)]
pub enum ContainerPhase {
    Running,
    Waiting,
    Terminated,
    Unknown,
}

/// Reason and message a container state may carry.
#[derive(Debug, Clone, PartialEq, Eq)]
pub struct StateDetail {
    pub reason: Option<String>,
    pub message: Option<String>,
}

/// Spec view of [`StateDetail`].
pub struct StateDetailView {
    pub reason: Option<Seq<char>>,
    pub message: Option<Seq<char>>,
}

impl DeepView for StateDetail {
    type V = StateDetailView;

    open spec fn deep_view(&self) -> StateDetailView {
        StateDetailView { reason: self.reason.deep_view(), message: self.message.deep_view() }
    }
}

/// The state a fetched container reports: at most one of running, waiting or
/// terminated is set; a waiting or terminated state may carry detail.
#[derive(Debug, Clone, PartialEq, Eq)]
pub struct ContainerStateView {
    pub running: bool,
    pub waiting: Option<StateDetail>,
    pub terminated: Option<StateDetail>,
}

/// Spec view of [`ContainerStateView`].
pub struct ContainerStateVView {
    pub running: bool,
    pub waiting: Option<StateDetailView>,
    pub terminated: Option<StateDetailView>,
}

impl DeepView for ContainerStateView {
    type V = ContainerStateVView;

    open spec fn deep_view(&self) -> ContainerStateVView {
        ContainerStateVView {
            running: self.running,
            waiting: self.waiting.deep_view(),
            terminated: self.terminated.deep_view(),
        }
    }
}

/// The status a fetched container reports.
#[derive(Debug, Clone, PartialEq, Eq)]
pub struct ContainerStatusView {
    pub state: Option<ContainerStateView>,
}

/// Spec view of [`ContainerStatusView`].
pub struct ContainerStatusVView {
    pub state: Option<ContainerStateVView>,
}

impl DeepView for ContainerStatusView {
    type V = ContainerStatusVView;

    open spec fn deep_view(&self) -> ContainerStatusVView {
        ContainerStatusVView { state: self.state.deep_view() }
    }
}

/// The container status the engine reports: a phase, and the reason and
/// message of a waiting or terminated container.
#[derive(Debug, Clone, PartialEq, Eq)]
pub struct ContainerStatus {
    pub phase: ContainerPhase,
    pub reason: Option<String>,
    pub message: Option<String>,
}

/// Spec view of [`ContainerStatus`].
pub struct ContainerStatusOut {
    pub phase: ContainerPhase,
    pub reason: Option<Seq<char>>,
    pub message: Option<Seq<char>>,
}

impl DeepView for ContainerStatus {
    type V = ContainerStatusOut;

    open spec fn deep_view(&self) -> ContainerStatusOut {
        ContainerStatusOut {
            phase: self.phase,
            reason: self.reason.deep_view(),
            message: self.message.deep_view(),
        }
    }
}

/// The status block of a fetched compute unit.
#[derive(Debug, Clone, PartialEq, Eq)]
pub struct PodStatusView {
    pub phase: Option<String>,
    pub reason: Option<String>,
    pub message: Option<String>,
    pub start_time: Option<String>,
    pub container_statuses: Option<Vec<ContainerStatusView>>,
}

/// Spec view of [`PodStatusView`].
pub struct PodStatusVView {
    pub phase: Option<Seq<char>>,
    pub reason: Option<Seq<char>>,
    pub message: Option<Seq<char>>,
    pub start_time: Option<Seq<char>>,
    pub container_statuses: Option<Seq<ContainerStatusVView>>,
}

impl DeepView for PodStatusView {
    type V = PodStatusVView;

    open spec fn deep_view(&self) -> PodStatusVView {
        PodStatusVView {
            phase: self.phase.deep_view(),
            reason: self.reason.deep_view(),
            message: self.message.deep_view(),
            start_time: self.start_time.deep_view(),
            container_statuses: self.container_statuses.deep_view(),
        }
    }
}

/// The scheduling block of a fetched compute unit: the node it was placed on,
/// if any.
#[derive(Debug, Clone, PartialEq, Eq)]
pub struct PodSpecView {
    pub node_name: Option<String>,
}

/// Spec view of [`PodSpecView`].
pub struct PodSpecVView {
    pub node_name: Option<Seq<char>>,
}

impl DeepView for PodSpecView {
    type V = PodSpecVView;

    open spec fn deep_view(&self) -> PodSpecVView {
        PodSpecVView { node_name: self.node_name.deep_view() }
    }
}

/// A fetched compute unit, reduced to the fields the engine reads.
#[derive(Debug, Clone, PartialEq, Eq)]
pub struct PodView {
    pub labels: Option<Vec<NameValue>>,
    pub annotations: Option<Vec<NameValue>>,
    pub spec: Option<PodSpecView>,
    pub status: Option<PodStatusView>,
}

/// Spec view of [`PodView`].
pub struct PodVView {
    pub labels: Option<Seq<NameValueView>>,
    pub annotations: Option<Seq<NameValueView>>,
    pub spec: Option<PodSpecVView>,
    pub status: Option<PodStatusVView>,
}

impl DeepView for PodView {
    type V = PodVView;

    open spec fn deep_view(&self) -> PodVView {
        PodVView {
            labels: self.labels.deep_view(),
            annotations: self.annotations.deep_view(),
            spec: self.spec.deep_view(),
            status: self.status.deep_view(),
        }
    }
}

/// What the engine reports of a compute unit: phase, reason, message, start
/// time, and the first container's status.
#[derive(Debug, Clone, PartialEq, Eq)]
pub struct PodDetails {
    pub phase: Phase,
    pub reason: String,
    pub message: String,
    pub start_time: Option<String>,
    pub container: Option<ContainerStatus>,
}

/// Spec view of [`PodDetails`].
pub struct PodDetailsView {
    pub phase: Phase,
    pub reason: Seq<char>,
    pub message: Seq<char>,
    pub start_time: Option<Seq<char>>,
    pub container: Option<ContainerStatusOut>,
}

impl DeepView for PodDetails {
    type V = PodDetailsView;

    open spec fn deep_view(&self) -> PodDetailsView {
        PodDetailsView {
            phase: self.phase,
            reason: self.reason@,
            message: self.message@,
            start_time: self.start_time.deep_view(),
            container: self.container.deep_view(),
        }
    }
}

/// A session, reconstructed on demand from its compute unit: never stored by
/// the engine itself. The template is carried in its serialized form, exactly
/// as the annotation holds it.
#[derive(Debug, Clone, PartialEq, Eq)]
pub struct Session {
    pub user_id: String,
    pub template: String,
    pub url: String,
    pub pod: PodDetails,
    pub duration: u64,
    pub node: String,
}

/// Spec view of [`Session`]; the duration is in seconds.
pub struct SessionView {
    pub user_id: Seq<char>,
    pub template: Seq<char>,
    pub url: Seq<char>,
    pub pod: PodDetailsView,
    pub duration: u64,
    pub node: Seq<char>,
}

impl DeepView for Session {
    type V = SessionView;

    open spec fn deep_view(&self) -> SessionView {
        SessionView {
            user_id: self.user_id@,
            template: self.template@,
            url: self.url@,
            pod: self.pod.deep_view(),
            duration: self.duration,
            node: self.node@,
        }
    }
}

/// What a caller asks for when creating a session: a template name, and
/// optional overrides for duration (seconds) and pool affinity.
#[derive(Debug, Clone, PartialEq, Eq)]
pub struct SessionConfiguration {
    pub template: String,
    pub duration: Option<u64>,
    pub pool_affinity: Option<String>,
}

/// What a caller asks for when updating a session: an optional new duration
/// in seconds.
#[derive(Debug, Clone, PartialEq, Eq)]
pub struct SessionUpdateConfiguration {
    pub duration: Option<u64>,
}

/// Configured session policy: default and maximum duration in seconds, the
/// default pool, and the per-node session ceiling.
#[derive(Debug, Clone, PartialEq, Eq)]
pub struct SessionDefaults {
    pub duration: u64,
    pub max_duration: u64,
    pub pool_affinity: String,
    pub max_sessions_per_pod: usize,
}

/// A user as the registry stores it.
#[derive(Debug, Clone, PartialEq, Eq)]
pub struct User {
    pub admin: bool,
    pub pool_affinity: Option<String>,
    pub can_customize_duration: bool,
    pub can_customize_pool_affinity: bool,
}

/// The registry value a user is created or updated from.
#[derive(Debug, Clone, PartialEq, Eq)]
pub struct UserConfiguration {
    pub admin: bool,
    pub pool_affinity: Option<String>,
    pub can_customize_duration: bool,
    pub can_customize_pool_affinity: bool,
}

/// The authenticated caller of a session operation.
#[derive(Debug, Clone, PartialEq, Eq)]
pub struct LoggedUser {
    pub id: String,
    pub admin: bool,
    pub pool_affinity: Option<String>,
    pub can_customize_duration: bool,
    pub can_customize_pool_affinity: bool,
}

/// A cluster node as the engine reports it.
#[derive(Debug, Clone, PartialEq, Eq)]
pub struct Node {
    pub hostname: String,
}

/// Spec view of [`Node`].
pub struct NodeView {
    pub hostname: Seq<char>,
}

impl DeepView for Node {
    type V = NodeView;

    open spec fn deep_view(&self) -> NodeView {
        NodeView { hostname: self.hostname@ }
    }
}

/// A fetched cluster node, reduced to its label set (absent on a node whose
/// metadata carries none).
#[derive(Debug, Clone, PartialEq, Eq)]
pub struct NodeRecord {
    pub labels: Option<Vec<NameValue>>,
}

/// Spec view of [`NodeRecord`].
pub struct NodeRecordView {
    pub labels: Option<Seq<NameValueView>>,
}

impl DeepView for NodeRecord {
    type V = NodeRecordView;

    open spec fn deep_view(&self) -> NodeRecordView {
        NodeRecordView { labels: self.labels.deep_view() }
    }
}

/// A named group of nodes sharing scheduling and capacity characteristics.
#[derive(Debug, Clone, PartialEq, Eq)]
pub struct Pool {
    pub name: String,
    pub instance_type: Option<String>,
    pub nodes: Vec<Node>,
}

/// Spec view of [`Pool`].
pub struct PoolView {
    pub name: Seq<char>,
    pub instance_type: Option<Seq<char>>,
    pub nodes: Seq<NodeView>,
}

impl DeepView for Pool {
    type V = PoolView;

    open spec fn deep_view(&self) -> PoolView {
        PoolView {
            name: self.name@,
            instance_type: self.instance_type.deep_view(),
            nodes: self.nodes.deep_view(),
        }
    }
}

/// One backend path of a route rule: a path, and the endpoint name and port
/// it forwards to.
#[derive(Debug, Clone, PartialEq, Eq)]
pub struct IngressPath {
    pub path: String,
    pub service_name: String,
    pub service_port: i32,
}

/// Spec view of [`IngressPath`].
pub struct IngressPathView {
    pub path: Seq<char>,
    pub service_name: Seq<char>,
    pub service_port: i32,
}

impl DeepView for IngressPath {
    type V = IngressPathView;

    open spec fn deep_view(&self) -> IngressPathView {
        IngressPathView {
            path: self.path@,
            service_name: self.service_name@,
            service_port: self.service_port,
        }
    }
}

/// One rule of the shared route table: a host and its backend paths. Foreign
/// rules may lack either field; the engine preserves them as they stand.
#[derive(Debug, Clone, PartialEq, Eq)]
pub struct RouteRule {
    pub host: Option<String>,
    pub paths: Option<Vec<IngressPath>>,
}

/// Spec view of [`RouteRule`].
pub struct RouteRuleView {
    pub host: Option<Seq<char>>,
    pub paths: Option<Seq<IngressPathView>>,
}

impl DeepView for RouteRule {
    type V = RouteRuleView;

    open spec fn deep_view(&self) -> RouteRuleView {
        RouteRuleView { host: self.host.deep_view(), paths: self.paths.deep_view() }
    }
}

/// Spec-level shape of an [`crate::Error`]: the variant, and for missing data
/// the name of the field that was absent. The text a `Failure` wraps is the
/// underlying cause's and is not specified.
pub enum ErrorView {
    MissingData(Seq<char>),
    Failure,
    Unauthorized,
}

/// The spec-level shape of `e`.
pub open spec fn error_view(e: crate::Error) -> ErrorView {
    match e {
        crate::Error::MissingData(f) => ErrorView::MissingData(f@),
        crate::Error::Failure(_) => ErrorView::Failure,
        crate::Error::Unauthorized => ErrorView::Unauthorized,
    }
}

/// The spec-level shape of a whole `Result`.
pub open spec fn result_view<T: DeepView>(r: Result<T, crate::Error>) -> Result<
    T::V,
    ErrorView,
> {
    match r {
        Ok(v) => Ok(v.deep_view()),
        Err(e) => Err(error_view(e)),
    }
}

/// The value under `key`, by first match, in an association list.
pub open spec fn spec_lookup(entries: Seq<NameValueView>, key: Seq<char>) -> Option<Seq<char>>
    decreases entries.len(),
{
    if entries.len() == 0 {
        None
    } else if entries[0].name == key {
        Some(entries[0].value)
    } else {
        spec_lookup(entries.drop_first(), key)
    }
}

/// Looks `key` up in an association list of labels, annotations or registry
/// entries; first match wins.
pub fn lookup_value(entries: &Vec<NameValue>, key: &str) -> (r: Option<String>)
    ensures
        match r {
            Some(v) => spec_lookup(entries.deep_view(), key@) == Some(v@),
            None => spec_lookup(entries.deep_view(), key@) is None,
        },
{
    let n = entries.len();
    let mut i: usize = 0;
    proof {
        assert(entries.deep_view().skip(0) =~= entries.deep_view());
    }
    while i < n
        invariant
            n == entries.len(),
            0 <= i <= n,
            spec_lookup(entries.deep_view(), key@) == spec_lookup(
                entries.deep_view().skip(i as int),
                key@,
            ),
        decreases n - i,
    {
        proof {
            assert(entries.deep_view().skip(i as int)[0] == entries.deep_view()[i as int]);
            assert(entries.deep_view()[i as int] == entries[i as int].deep_view());
        }
        if str_eq(entries[i].name.as_str(), key) {
            return Some(entries[i].value.clone());
        }
        proof {
            assert(entries.deep_view().skip(i as int).drop_first() =~= entries.deep_view().skip(
                i + 1,
            ));
        }
        i = i + 1;
    }
    proof {
        assert(entries.deep_view().skip(i as int).len() == 0);
    }
    None
}

/// Clones an error, preserving its spec-level shape.
pub fn clone_error(e: &crate::Error) -> (r: crate::Error)
    ensures
        error_view(r) == error_view(*e),
{
    match e {
        crate::Error::MissingData(s) => crate::Error::MissingData(s.clone()),
        crate::Error::Failure(s) => crate::Error::Failure(s.clone()),
        crate::Error::Unauthorized => crate::Error::Unauthorized,
    }
}

/// Clones an optional string.
pub fn clone_opt_string(s: &Option<String>) -> (r: Option<String>)
    ensures
        r.deep_view() == s.deep_view(),
{
    match s {
        Some(x) => Some(x.clone()),
        None => None,
    }
}

/// Clones an association list of labels, annotations or registry entries.
pub fn clone_name_values(entries: &Vec<NameValue>) -> (r: Vec<NameValue>)
    ensures
        r.deep_view() == entries.deep_view(),
{
    let n = entries.len();
    let mut out: Vec<NameValue> = Vec::new();
    let mut i: usize = 0;
    while i < n
        invariant
            n == entries.len(),
            0 <= i <= n,
            out.deep_view() =~= entries.deep_view().take(i as int),
        decreases n - i,
    {
        let ghost prev = out.deep_view();
        out.push(NameValue { name: entries[i].name.clone(), value: entries[i].value.clone() });
        proof {
            assert(out.deep_view() =~= prev.push(entries[i as int].deep_view()));
            assert(entries[i as int].deep_view() == entries.deep_view()[i as int]);
            assert(out.deep_view() =~= entries.deep_view().take(i + 1));
        }
        i = i + 1;
    }
    proof {
        assert(entries.deep_view().take(n as int) =~= entries.deep_view());
    }
    out
}

/// Clones a node record.
pub fn clone_node_record(n: &NodeRecord) -> (r: NodeRecord)
    ensures
        r.deep_view() == n.deep_view(),
{
    match &n.labels {
        None => NodeRecord { labels: None },
        Some(l) => NodeRecord { labels: Some(clone_name_values(l)) },
    }
}

/// The user a registry value describes: field for field its configuration.
pub fn user_from_configuration(conf: UserConfiguration) -> (r: User)
    ensures
        r.admin == conf.admin,
        r.pool_affinity == conf.pool_affinity,
        r.can_customize_duration == conf.can_customize_duration,
        r.can_customize_pool_affinity == conf.can_customize_pool_affinity,
{
    User {
        admin: conf.admin,
        pool_affinity: conf.pool_affinity,
        can_customize_duration: conf.can_customize_duration,
        can_customize_pool_affinity: conf.can_customize_pool_affinity,
    }
}

} // verus!
