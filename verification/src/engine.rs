//! The session orchestrator: configuration, admission control, the policy
//! decisions of each operation, and the state machines that sequence the
//! platform calls of session creation and deletion.
//!
//! The engine never performs a platform call itself. Each multi-step
//! operation is a state machine: the unverified shell performs the action the
//! engine hands out, feeds the outcome back as an event, and repeats. Every
//! decision between two platform calls is taken here and verified. The
//! admission check and the later creation are not atomic: two concurrent
//! creations can both pass the check and jointly overshoot the ceiling, and
//! the route table's read-modify-write can lose one of two concurrent
//! writers' changes. Neither window is guarded: the protocol samples cluster
//! state per request, and that is documented here rather than hidden.

use vstd::prelude::*;

verus! {

use crate::Error;
use crate::codec::spec_pod_to_session;
use crate::names::SESSION_DURATION_ANNOTATION;
use crate::routes::IngressVView;
use crate::routes::IngressView;
use crate::text::spec_parse_u64;
use crate::text::parse_dec_u64;
use crate::types::ErrorView;
use crate::types::LoggedUser;
use crate::types::PodVView;
use crate::types::PodView;
use crate::types::Session;
use crate::types::SessionConfiguration;
use crate::types::SessionDefaults;
use crate::types::SessionUpdateConfiguration;
use crate::resources::PodModel;
use crate::resources::PodModelView;
use crate::resources::ServiceModel;
use crate::resources::ServiceModelView;
use crate::types::NodeRecord;
use crate::types::NodeRecordView;
use crate::types::RouteRule;
use crate::types::RouteRuleView;
use crate::types::SessionView;
use crate::types::Template;
use crate::types::TemplateView;
use crate::types::error_view;
use crate::types::result_view;
use vstd::string::StrSliceExecFns;
use vstd::string::StringExecFns;

/// What the engine knows of the platform it runs against: whether transport
/// security is on, the cluster host sessions are exposed under, and the
/// namespace session resources live in.
#[derive(Debug, Clone, PartialEq, Eq)]
pub struct Environment {
    pub secured: bool,
    pub host: String,
    pub namespace: String,
}

/// The engine's static configuration: the OAuth client id it surfaces, and
/// the session policy defaults.
#[derive(Debug, Clone, PartialEq, Eq)]
pub struct Configuration {
    pub github_client_id: String,
    pub session: SessionDefaults,
}

/// Credentials the engine carries for the surrounding service; never read by
/// the session logic itself.
#[derive(Clone)]
pub struct Secrets {
    pub github_client_secret: String,
}

/// The session orchestration engine.
#[derive(Clone)]
pub struct Engine {
    pub env: Environment,
    pub configuration: Configuration,
    pub secrets: Secrets,
}

/// What deriving the environment from the fetched routing object yields: a
/// cluster where the object cannot be fetched at all falls back to an
/// insecure "localhost"; a fetched object must carry a spec, a rule list, a
/// first rule, and a host on it.
pub open spec fn spec_environment_from_ingress(fetched: Option<IngressVView>) -> Result<
    (bool, Seq<char>),
    ErrorView,
> {
    match fetched {
        None => Ok((false, "localhost"@)),
        Some(ing) => match ing.spec {
            None => Err(ErrorView::MissingData("spec"@)),
            Some(sp) => match sp.rules {
                None => Err(ErrorView::MissingData("spec#rules"@)),
                Some(rules) => if rules.len() == 0 {
                    Err(ErrorView::MissingData("spec#rules[0]"@))
                } else {
                    match rules[0].host {
                        None => Err(ErrorView::MissingData("spec#rules[0]#host"@)),
                        Some(h) => Ok((sp.tls_present, h)),
                    }
                },
            },
        },
    }
}

/// Derives whether the cluster is secured and which host it serves from the
/// fetched routing object.
pub fn environment_from_ingress(fetched: &Option<IngressView>) -> (r: Result<
    (bool, String),
    Error,
>)
    ensures
        result_view(r) == spec_environment_from_ingress(fetched.deep_view()),
{
    let ing = match fetched {
        None => {
            return Ok((false, String::from_str("localhost")));
        },
        Some(i) => i,
    };
    let sp = match &ing.spec {
        None => {
            return Err(Error::MissingData(String::from_str("spec")));
        },
        Some(sp) => sp,
    };
    let rules = match &sp.rules {
        None => {
            return Err(Error::MissingData(String::from_str("spec#rules")));
        },
        Some(rules) => rules,
    };
    if rules.len() == 0 {
        return Err(Error::MissingData(String::from_str("spec#rules[0]")));
    }
    match &rules[0].host {
        None => Err(Error::MissingData(String::from_str("spec#rules[0]#host"))),
        Some(h) => {
            proof {
                assert(rules[0].deep_view() == rules.deep_view()[0]);
            }
            Ok((sp.tls_present, h.clone()))
        },
    }
}

impl Engine {
    /// Assembles an engine from the values the shell read at startup: the
    /// environment derived from the routing object, the credentials, and the
    /// policy texts. Succeeds exactly when both duration texts denote
    /// whole-minute durations and the per-node ceiling text is an unsigned
    /// number that fits the machine.
    pub fn assemble(
        secured: bool,
        host: String,
        namespace: String,
        github_client_id: String,
        github_client_secret: String,
        default_duration_text: &str,
        max_duration_text: &str,
        pool_affinity: String,
        max_per_node_text: &str,
    ) -> (r: Result<Engine, Error>)
        ensures
            match r {
                Ok(e) => {
                    &&& e.env.secured == secured
                    &&& e.env.host@ == host@
                    &&& e.env.namespace@ == namespace@
                    &&& e.configuration.github_client_id@ == github_client_id@
                    &&& Some(e.configuration.session.duration)
                        == crate::codec::spec_duration_from_annotation(default_duration_text@)
                    &&& Some(e.configuration.session.max_duration)
                        == crate::codec::spec_duration_from_annotation(max_duration_text@)
                    &&& e.configuration.session.pool_affinity@ == pool_affinity@
                    &&& Some(e.configuration.session.max_sessions_per_pod as u64)
                        == spec_parse_u64(max_per_node_text@)
                    &&& e.secrets.github_client_secret@ == github_client_secret@
                },
                Err(e) => {
                    &&& error_view(e) == ErrorView::Failure
                    &&& {
                        ||| crate::codec::spec_duration_from_annotation(default_duration_text@)
                            is None
                        ||| crate::codec::spec_duration_from_annotation(max_duration_text@) is None
                        ||| spec_parse_u64(max_per_node_text@) is None
                        ||| (spec_parse_u64(max_per_node_text@) matches Some(m) && m > usize::MAX
                            as u64)
                    }
                },
            },
    {
        let duration = match crate::codec::str_to_session_duration_minutes(default_duration_text) {
            Ok(d) => d,
            Err(e) => {
                return Err(e);
            },
        };
        let max_duration = match crate::codec::str_to_session_duration_minutes(max_duration_text) {
            Ok(d) => d,
            Err(e) => {
                return Err(e);
            },
        };
        let max_sessions_per_pod: usize = match parse_dec_u64(max_per_node_text) {
            None => {
                return Err(Error::Failure(String::from_str("invalid per-node session ceiling")));
            },
            Some(m) => {
                if m > usize::MAX as u64 {
                    return Err(
                        Error::Failure(String::from_str("per-node session ceiling too large")),
                    );
                }
                m as usize
            },
        };
        Ok(
            Engine {
                env: Environment { secured, host, namespace },
                configuration: Configuration {
                    github_client_id,
                    session: SessionDefaults {
                        duration,
                        max_duration,
                        pool_affinity,
                        max_sessions_per_pod,
                    },
                },
                secrets: Secrets { github_client_secret },
            },
        )
    }
}

/// The pool a new session targets, by the fixed precedence: the request's
/// explicit override, then the user's fixed affinity, then the configured
/// default. Total: it always resolves.
pub open spec fn spec_resolve_pool_id(
    requested: Option<Seq<char>>,
    user_affinity: Option<Seq<char>>,
    default_affinity: Seq<char>,
) -> Seq<char> {
    match requested {
        Some(p) => p,
        None => match user_affinity {
            Some(p) => p,
            None => default_affinity,
        },
    }
}

/// The duration a request resolves to: its override, or the configured
/// default.
pub open spec fn spec_resolve_duration(requested: Option<u64>, default_secs: u64) -> u64 {
    match requested {
        Some(d) => d,
        None => default_secs,
    }
}

/// Whether one more session is admitted: the current census must be strictly
/// below the pool's capacity ceiling, node count times the per-node ceiling.
pub open spec fn spec_admission_allowed(current: int, node_count: int, per_node: int) -> bool {
    current < node_count * per_node
}

/// Decides admission of one more session against the capacity ceiling; exact
/// for every census, node count and per-node ceiling the machine can hold.
pub fn admission_allowed(current_sessions: usize, node_count: usize, max_per_node: usize) -> (r:
    bool)
    ensures
        r == spec_admission_allowed(
            current_sessions as int,
            node_count as int,
            max_per_node as int,
        ),
{
    proof {
        assert((node_count as u128) * (max_per_node as u128) == (node_count as int) * (
        max_per_node as int) && (node_count as int) * (max_per_node as int) <= u128::MAX)
            by (nonlinear_arith)
            requires
                node_count <= u64::MAX,
                max_per_node <= u64::MAX,
        ;
    }
    (current_sessions as u128) < (node_count as u128) * (max_per_node as u128)
}

impl Engine {
    /// Resolves the target pool of a new session by the fixed precedence:
    /// request override, then user affinity, then the configured default.
    pub fn resolve_pool_id(&self, user: &LoggedUser, conf: &SessionConfiguration) -> (r: String)
        ensures
            r@ == spec_resolve_pool_id(
                match conf.pool_affinity {
                    Some(ref p) => Some(p@),
                    None => None,
                },
                match user.pool_affinity {
                    Some(ref p) => Some(p@),
                    None => None,
                },
                self.configuration.session.pool_affinity@,
            ),
    {
        match &conf.pool_affinity {
            Some(p) => p.clone(),
            None => match &user.pool_affinity {
                Some(p) => p.clone(),
                None => self.configuration.session.pool_affinity.clone(),
            },
        }
    }

    /// Resolves a requested duration against the configured default.
    pub fn resolve_duration(&self, requested: &Option<u64>) -> (r: u64)
        ensures
            r == spec_resolve_duration(*requested, self.configuration.session.duration),
    {
        match requested {
            Some(d) => *d,
            None => self.configuration.session.duration,
        }
    }
}

/// What updating a session's duration decides: the resolved duration must
/// not exceed the configured maximum; an unchanged duration patches nothing;
/// a changed one patches exactly the duration annotation.
pub open spec fn spec_plan_update(
    current: u64,
    requested: Option<u64>,
    default_secs: u64,
    max_secs: u64,
) -> Result<Option<u64>, ErrorView> {
    let d = spec_resolve_duration(requested, default_secs);
    if d > max_secs {
        Err(ErrorView::Unauthorized)
    } else if d != current {
        Ok(Some(d))
    } else {
        Ok(None)
    }
}

impl Engine {
    /// Decides a session update: rejects a duration over the configured
    /// maximum, patches the duration annotation when the resolved duration
    /// differs from the session's, touches nothing otherwise.
    pub fn plan_session_update(
        &self,
        session: &Session,
        conf: &SessionUpdateConfiguration,
    ) -> (r: Result<Option<u64>, Error>)
        ensures
            result_view(r) == spec_plan_update(
                session.duration,
                conf.duration,
                self.configuration.session.duration,
                self.configuration.session.max_duration,
            ),
    {
        let d = self.resolve_duration(&conf.duration);
        if d > self.configuration.session.max_duration {
            Err(Error::Unauthorized)
        } else if d != session.duration {
            Ok(Some(d))
        } else {
            Ok(None)
        }
    }
}

/// A session that an update or read requires to exist: an absent one is
/// missing data.
pub fn session_or_missing(found: Option<Session>) -> (r: Result<Session, Error>)
    ensures
        match r {
            Ok(s) => found == Some(s),
            Err(e) => found is None && error_view(e) == (ErrorView::MissingData(
                "no matching session"@,
            )),
        },
{
    match found {
        Some(s) => Ok(s),
        None => Err(Error::MissingData(String::from_str("no matching session"))),
    }
}

/// The text of `s` with every `/` written `~1`, as a single field path step
/// requires.
pub open spec fn spec_pointer_escaped(s: Seq<char>) -> Seq<char>
    decreases s.len(),
{
    if s.len() == 0 {
        Seq::empty()
    } else {
        spec_pointer_escaped(s.drop_last()) + (if s.last() == '/' {
            "~1"@
        } else {
            seq![s.last()]
        })
    }
}

/// Escapes `/` in a field name for use inside a field path.
pub fn json_pointer_escape(s: &str) -> (r: String)
    ensures
        r@ == spec_pointer_escaped(s@),
{
    let n = s.unicode_len();
    let mut r = String::new();
    let mut i: usize = 0;
    proof {
        assert(s@.take(0) =~= Seq::<char>::empty());
    }
    while i < n
        invariant
            n == s@.len(),
            0 <= i <= n,
            r@ == spec_pointer_escaped(s@.take(i as int)),
        decreases n - i,
    {
        let c = s.get_char(i);
        proof {
            assert(s@.take(i + 1).drop_last() =~= s@.take(i as int));
            assert(s@.take(i + 1).last() == s@[i as int]);
        }
        if c == '/' {
            r.append("~1");
        } else {
            let piece = s.substring_char(i, i + 1);
            proof {
                assert(piece@ =~= seq![s@[i as int]]);
            }
            r.append(piece);
        }
        i = i + 1;
    }
    proof {
        assert(s@.take(n as int) =~= s@);
    }
    r
}

/// The field path of the duration annotation, for the single-field patch a
/// session update applies.
pub open spec fn spec_duration_patch_path() -> Seq<char> {
    "/metadata/annotations/"@ + spec_pointer_escaped(SESSION_DURATION_ANNOTATION@)
}

/// Builds the field path of the duration annotation.
pub fn duration_annotation_patch_path() -> (r: String)
    ensures
        r@ == spec_duration_patch_path(),
{
    let mut s = String::from_str("/metadata/annotations/");
    let escaped = json_pointer_escape(SESSION_DURATION_ANNOTATION);
    s.append(escaped.as_str());
    s
}

/// The field path of the registry value stored under `key`.
pub open spec fn spec_config_map_key_path(key: Seq<char>) -> Seq<char> {
    "/data/"@ + key
}

/// Builds the field path of a registry value, for the add and remove patches
/// of user and template entries.
pub fn config_map_key_path(key: &str) -> (r: String)
    ensures
        r@ == spec_config_map_key_path(key@),
{
    let mut s = String::from_str("/data/");
    s.append(key);
    s
}

/// The sessions reconstructed from a list of fetched compute units, in
/// order, silently dropping any unit that fails reconstruction: enumeration
/// is best effort, by design, so foreign or half-built units do not poison a
/// listing.
pub open spec fn spec_sessions_from_pods(host: Seq<char>, pods: Seq<PodVView>) -> Seq<SessionView>
    decreases pods.len(),
{
    if pods.len() == 0 {
        Seq::empty()
    } else {
        let prefix = spec_sessions_from_pods(host, pods.drop_last());
        match spec_pod_to_session(host, pods.last()) {
            Ok(s) => prefix.push(s),
            Err(_) => prefix,
        }
    }
}

/// Reconstructs every session in a list of fetched compute units, dropping
/// units that fail reconstruction.
pub fn sessions_from_pods(host: &str, pods: &Vec<PodView>) -> (r: Vec<Session>)
    ensures
        r.deep_view() == spec_sessions_from_pods(host@, pods.deep_view()),
{
    let n = pods.len();
    let mut out: Vec<Session> = Vec::new();
    let mut i: usize = 0;
    proof {
        assert(pods.deep_view().take(0) =~= Seq::<PodVView>::empty());
    }
    while i < n
        invariant
            n == pods.len(),
            0 <= i <= n,
            out.deep_view() == spec_sessions_from_pods(host@, pods.deep_view().take(i as int)),
        decreases n - i,
    {
        proof {
            assert(pods.deep_view().take(i + 1).drop_last() =~= pods.deep_view().take(i as int));
            assert(pods.deep_view().take(i + 1).last() == pods.deep_view()[i as int]);
            assert(pods[i as int].deep_view() == pods.deep_view()[i as int]);
        }
        match crate::codec::pod_to_session(host, &pods[i]) {
            Ok(s) => {
                let ghost prev = out.deep_view();
                let ghost sv = s.deep_view();
                out.push(s);
                proof {
                    assert(out.deep_view() =~= prev.push(sv));
                    assert(out.deep_view() =~= spec_sessions_from_pods(
                        host@,
                        pods.deep_view().take(i + 1),
                    ));
                }
            },
            Err(_) => {
                proof {
                    assert(out.deep_view() =~= spec_sessions_from_pods(
                        host@,
                        pods.deep_view().take(i + 1),
                    ));
                }
            },
        }
        i = i + 1;
    }
    proof {
        assert(pods.deep_view().take(n as int) =~= pods.deep_view());
    }
    out
}

/// What fetching a single session yields: an absent compute unit is an
/// absent session, not an error; a present one is reconstructed.
pub open spec fn spec_session_of_fetched_pod(host: Seq<char>, pod: Option<PodVView>) -> Result<
    Option<SessionView>,
    ErrorView,
> {
    match pod {
        None => Ok(None),
        Some(p) => match spec_pod_to_session(host, p) {
            Ok(s) => Ok(Some(s)),
            Err(e) => Err(e),
        },
    }
}

/// Reconstructs the session of a compute unit fetched by deterministic name,
/// where absence of the unit means absence of the session.
pub fn session_of_fetched_pod(host: &str, pod: &Option<PodView>) -> (r: Result<
    Option<Session>,
    Error,
>)
    ensures
        result_view(r) == spec_session_of_fetched_pod(host@, pod.deep_view()),
{
    match pod {
        None => Ok(None),
        Some(p) => match crate::codec::pod_to_session(host, p) {
            Ok(s) => Ok(Some(s)),
            Err(e) => Err(e),
        },
    }
}


/// One template as fetched from the registry: its name, the serialized form
/// the registry stores, and its parsed shape.
#[derive(Debug, Clone, PartialEq, Eq)]
pub struct TemplateEntry {
    pub name: String,
    pub source: String,
    pub template: Template,
}

/// Spec view of [`TemplateEntry`].
pub struct TemplateEntryView {
    pub name: Seq<char>,
    pub source: Seq<char>,
    pub template: TemplateView,
}

impl DeepView for TemplateEntry {
    type V = TemplateEntryView;

    open spec fn deep_view(&self) -> TemplateEntryView {
        TemplateEntryView {
            name: self.name@,
            source: self.source@,
            template: self.template.deep_view(),
        }
    }
}

/// The first registry entry named `name`, if any.
pub open spec fn spec_find_template(
    entries: Seq<TemplateEntryView>,
    name: Seq<char>,
) -> Option<TemplateEntryView>
    decreases entries.len(),
{
    if entries.len() == 0 {
        None
    } else if entries[0].name == name {
        Some(entries[0])
    } else {
        spec_find_template(entries.drop_first(), name)
    }
}

/// The position of the first registry entry named `name`, if any.
fn find_template_index(entries: &Vec<TemplateEntry>, name: &str) -> (r: Option<usize>)
    ensures
        match r {
            Some(i) => i < entries.len() && spec_find_template(entries.deep_view(), name@) == Some(
                entries.deep_view()[i as int],
            ),
            None => spec_find_template(entries.deep_view(), name@) is None,
        },
{
    let ghost all = entries.deep_view();
    let n = entries.len();
    let mut i: usize = 0;
    proof {
        assert(all.skip(0) =~= all);
    }
    while i < n
        invariant
            n == entries.len(),
            all == entries.deep_view(),
            0 <= i <= n,
            spec_find_template(all, name@) == spec_find_template(all.skip(i as int), name@),
        decreases n - i,
    {
        proof {
            assert(all.skip(i as int)[0] == all[i as int]);
            assert(entries[i as int].deep_view() == all[i as int]);
        }
        if crate::text::str_eq(entries[i].name.as_str(), name) {
            return Some(i);
        }
        proof {
            assert(all.skip(i as int).drop_first() =~= all.skip(i + 1));
        }
        i = i + 1;
    }
    proof {
        assert(all.skip(n as int).len() == 0);
    }
    None
}

/// Looks a template up by name among the fetched registry entries.
fn find_template(entries: Vec<TemplateEntry>, name: &str) -> (r: Option<TemplateEntry>)
    ensures
        match r {
            Some(e) => spec_find_template(entries.deep_view(), name@) == Some(e.deep_view()),
            None => spec_find_template(entries.deep_view(), name@) is None,
        },
{
    match find_template_index(&entries, name) {
        None => None,
        Some(i) => {
            let mut owned = entries;
            let e = owned.remove(i);
            Some(e)
        },
    }
}

/// The states a session creation passes through, one per outstanding
/// platform call.
#[derive(Debug, Clone, PartialEq, Eq)]
pub enum CreateState {
    Start,
    AwaitPoolNodes { pool_id: String },
    AwaitCensus { pool_id: String, node_count: usize },
    AwaitTemplates { pool_id: String },
    AwaitRoute { pool_id: String, entry: TemplateEntry },
    AwaitPod { service: ServiceModel },
    AwaitService,
    Done,
    Failed { error: Error },
}

/// Spec view of [`CreateState`].
pub enum CreateStateView {
    Start,
    AwaitPoolNodes { pool_id: Seq<char> },
    AwaitCensus { pool_id: Seq<char>, node_count: int },
    AwaitTemplates { pool_id: Seq<char> },
    AwaitRoute { pool_id: Seq<char>, entry: TemplateEntryView },
    AwaitPod { service: ServiceModelView },
    AwaitService,
    Done,
    Failed { error: ErrorView },
}

impl DeepView for CreateState {
    type V = CreateStateView;

    open spec fn deep_view(&self) -> CreateStateView {
        match self {
            CreateState::Start => CreateStateView::Start,
            CreateState::AwaitPoolNodes { pool_id } => CreateStateView::AwaitPoolNodes {
                pool_id: pool_id@,
            },
            CreateState::AwaitCensus { pool_id, node_count } => CreateStateView::AwaitCensus {
                pool_id: pool_id@,
                node_count: *node_count as int,
            },
            CreateState::AwaitTemplates { pool_id } => CreateStateView::AwaitTemplates {
                pool_id: pool_id@,
            },
            CreateState::AwaitRoute { pool_id, entry } => CreateStateView::AwaitRoute {
                pool_id: pool_id@,
                entry: entry.deep_view(),
            },
            CreateState::AwaitPod { service } => CreateStateView::AwaitPod {
                service: service.deep_view(),
            },
            CreateState::AwaitService => CreateStateView::AwaitService,
            CreateState::Done => CreateStateView::Done,
            CreateState::Failed { error } => CreateStateView::Failed {
                error: error_view(*error),
            },
        }
    }
}

/// The outcomes the shell reports back during a session creation.
#[derive(Debug, Clone, PartialEq, Eq)]
pub enum CreateEvent {
    Begin,
    PoolNodesListed { nodes: Vec<NodeRecord> },
    SessionsListed { count: usize },
    TemplatesListed { templates: Vec<TemplateEntry> },
    RouteApplied,
    PodCreated,
    ServiceCreated,
    PlatformFailed { error: Error },
}

/// Spec view of [`CreateEvent`].
pub enum CreateEventView {
    Begin,
    PoolNodesListed { nodes: Seq<NodeRecordView> },
    SessionsListed { count: int },
    TemplatesListed { templates: Seq<TemplateEntryView> },
    RouteApplied,
    PodCreated,
    ServiceCreated,
    PlatformFailed { error: ErrorView },
}

impl DeepView for CreateEvent {
    type V = CreateEventView;

    open spec fn deep_view(&self) -> CreateEventView {
        match self {
            CreateEvent::Begin => CreateEventView::Begin,
            CreateEvent::PoolNodesListed { nodes } => CreateEventView::PoolNodesListed {
                nodes: nodes.deep_view(),
            },
            CreateEvent::SessionsListed { count } => CreateEventView::SessionsListed {
                count: *count as int,
            },
            CreateEvent::TemplatesListed { templates } => CreateEventView::TemplatesListed {
                templates: templates.deep_view(),
            },
            CreateEvent::RouteApplied => CreateEventView::RouteApplied,
            CreateEvent::PodCreated => CreateEventView::PodCreated,
            CreateEvent::ServiceCreated => CreateEventView::ServiceCreated,
            CreateEvent::PlatformFailed { error } => CreateEventView::PlatformFailed {
                error: error_view(*error),
            },
        }
    }
}

/// The platform calls a session creation asks the shell to perform.
#[derive(Debug, Clone, PartialEq, Eq)]
pub enum CreateAction {
    ListPoolNodes { pool_id: String },
    CountSessions,
    ListTemplates,
    ApplyRoute { rule: RouteRule },
    CreatePod { pod: PodModel },
    CreateService { service: ServiceModel },
    Finish,
    Fail { error: Error },
}

/// Spec view of [`CreateAction`].
pub enum CreateActionView {
    ListPoolNodes { pool_id: Seq<char> },
    CountSessions,
    ListTemplates,
    ApplyRoute { rule: RouteRuleView },
    CreatePod { pod: PodModelView },
    CreateService { service: ServiceModelView },
    Finish,
    Fail { error: ErrorView },
}

impl DeepView for CreateAction {
    type V = CreateActionView;

    open spec fn deep_view(&self) -> CreateActionView {
        match self {
            CreateAction::ListPoolNodes { pool_id } => CreateActionView::ListPoolNodes {
                pool_id: pool_id@,
            },
            CreateAction::CountSessions => CreateActionView::CountSessions,
            CreateAction::ListTemplates => CreateActionView::ListTemplates,
            CreateAction::ApplyRoute { rule } => CreateActionView::ApplyRoute {
                rule: rule.deep_view(),
            },
            CreateAction::CreatePod { pod } => CreateActionView::CreatePod {
                pod: pod.deep_view(),
            },
            CreateAction::CreateService { service } => CreateActionView::CreateService {
                service: service.deep_view(),
            },
            CreateAction::Finish => CreateActionView::Finish,
            CreateAction::Fail { error } => CreateActionView::Fail { error: error_view(*error) },
        }
    }
}

/// A failed creation: the machine stops with the error.
pub open spec fn spec_create_fail(e: ErrorView) -> (CreateStateView, CreateActionView) {
    (CreateStateView::Failed { error: e }, CreateActionView::Fail { error: e })
}

/// One step of the session creation protocol, in its fixed order: resolve the target pool by precedence, derive the
/// pool from its nodes, count every running session against the capacity
/// ceiling, resolve the template, append the route rule, create the compute
/// unit, create the endpoint. A platform failure at any point stops the
/// machine with that error and rolls nothing back; an event that does not
/// belong to the state stops it with a failure.
pub open spec fn spec_create_step(
    engine: Engine,
    user: LoggedUser,
    session_id: Seq<char>,
    conf: SessionConfiguration,
    state: CreateStateView,
    event: CreateEventView,
) -> (CreateStateView, CreateActionView) {
    match event {
        CreateEventView::PlatformFailed { error } => spec_create_fail(error),
        _ => match (state, event) {
            (CreateStateView::Start, CreateEventView::Begin) => {
                let pool_id = spec_resolve_pool_id(
                    conf.pool_affinity.deep_view(),
                    user.pool_affinity.deep_view(),
                    engine.configuration.session.pool_affinity@,
                );
                (
                    CreateStateView::AwaitPoolNodes { pool_id },
                    CreateActionView::ListPoolNodes { pool_id },
                )
            },
            (
                CreateStateView::AwaitPoolNodes { pool_id },
                CreateEventView::PoolNodesListed { nodes },
            ) => match crate::pools::spec_nodes_to_pool(pool_id, nodes) {
                Ok(p) => (
                    CreateStateView::AwaitCensus { pool_id, node_count: p.nodes.len() as int },
                    CreateActionView::CountSessions,
                ),
                Err(_) => spec_create_fail(ErrorView::MissingData("no matching pool"@)),
            },
            (
                CreateStateView::AwaitCensus { pool_id, node_count },
                CreateEventView::SessionsListed { count },
            ) => if spec_admission_allowed(
                count,
                node_count,
                engine.configuration.session.max_sessions_per_pod as int,
            ) {
                (CreateStateView::AwaitTemplates { pool_id }, CreateActionView::ListTemplates)
            } else {
                spec_create_fail(ErrorView::Unauthorized)
            },
            (
                CreateStateView::AwaitTemplates { pool_id },
                CreateEventView::TemplatesListed { templates },
            ) => match spec_find_template(templates, conf.template@) {
                None => spec_create_fail(ErrorView::MissingData("no matching template"@)),
                Some(entry) => (
                    CreateStateView::AwaitRoute { pool_id, entry },
                    CreateActionView::ApplyRoute {
                        rule: crate::routes::spec_session_rule(
                            engine.env.host@,
                            session_id,
                            entry.template,
                        ),
                    },
                ),
            },
            (CreateStateView::AwaitRoute { pool_id, entry }, CreateEventView::RouteApplied) => {
                let duration = spec_resolve_duration(
                    conf.duration,
                    engine.configuration.session.duration,
                );
                (
                    CreateStateView::AwaitPod {
                        service: crate::resources::spec_service_model(session_id, entry.template),
                    },
                    CreateActionView::CreatePod {
                        pod: crate::resources::spec_pod_model(
                            engine.env.host@,
                            session_id,
                            entry.template,
                            entry.source,
                            duration,
                            pool_id,
                        ),
                    },
                )
            },
            (CreateStateView::AwaitPod { service }, CreateEventView::PodCreated) => (
                CreateStateView::AwaitService,
                CreateActionView::CreateService { service },
            ),
            (CreateStateView::AwaitService, CreateEventView::ServiceCreated) => (
                CreateStateView::Done,
                CreateActionView::Finish,
            ),
            _ => spec_create_fail(ErrorView::Failure),
        },
    }
}

/// Builds the stopped pair of a failed step.
fn create_failure(error: Error) -> (r: (CreateState, CreateAction))
    ensures
        r.0.deep_view() == (CreateStateView::Failed { error: error_view(error) }),
        r.1.deep_view() == (CreateActionView::Fail { error: error_view(error) }),
{
    let second = crate::types::clone_error(&error);
    (CreateState::Failed { error }, CreateAction::Fail { error: second })
}

impl Engine {
    /// One step of session creation: takes the machine's state and the
    /// outcome of the last platform call, returns the next state and the
    /// next call to perform. All decisions — pool precedence, admission,
    /// template resolution, what each resource holds — are fixed here;
    /// the shell only executes.
    pub fn create_session_step(
        &self,
        user: &LoggedUser,
        session_id: &str,
        conf: &SessionConfiguration,
        state: CreateState,
        event: CreateEvent,
    ) -> (r: (CreateState, CreateAction))
        ensures
            (r.0.deep_view(), r.1.deep_view()) == spec_create_step(
                *self,
                *user,
                session_id@,
                *conf,
                state.deep_view(),
                event.deep_view(),
            ),
    {
        match event {
            CreateEvent::PlatformFailed { error } => create_failure(error),
            event => match (state, event) {
                (CreateState::Start, CreateEvent::Begin) => {
                    let pool_id = self.resolve_pool_id(user, conf);
                    let second = pool_id.clone();
                    (
                        CreateState::AwaitPoolNodes { pool_id },
                        CreateAction::ListPoolNodes { pool_id: second },
                    )
                },
                (
                    CreateState::AwaitPoolNodes { pool_id },
                    CreateEvent::PoolNodesListed { nodes },
                ) => match crate::pools::pool_of_listed_nodes(pool_id.clone(), &nodes) {
                    Some(pool) => (
                        CreateState::AwaitCensus { pool_id, node_count: pool.nodes.len() },
                        CreateAction::CountSessions,
                    ),
                    None => create_failure(
                        Error::MissingData(String::from_str("no matching pool")),
                    ),
                },
                (
                    CreateState::AwaitCensus { pool_id, node_count },
                    CreateEvent::SessionsListed { count },
                ) => {
                    if admission_allowed(
                        count,
                        node_count,
                        self.configuration.session.max_sessions_per_pod,
                    ) {
                        (CreateState::AwaitTemplates { pool_id }, CreateAction::ListTemplates)
                    } else {
                        create_failure(Error::Unauthorized)
                    }
                },
                (
                    CreateState::AwaitTemplates { pool_id },
                    CreateEvent::TemplatesListed { templates },
                ) => match find_template(templates, conf.template.as_str()) {
                    None => create_failure(
                        Error::MissingData(String::from_str("no matching template")),
                    ),
                    Some(entry) => {
                        let rule = crate::routes::session_route_rule(
                            self.env.host.as_str(),
                            session_id,
                            &entry.template,
                        );
                        (
                            CreateState::AwaitRoute { pool_id, entry },
                            CreateAction::ApplyRoute { rule },
                        )
                    },
                },
                (CreateState::AwaitRoute { pool_id, entry }, CreateEvent::RouteApplied) => {
                    let duration = self.resolve_duration(&conf.duration);
                    let service = crate::resources::create_service(session_id, &entry.template);
                    let pod = crate::resources::create_pod(
                        self.env.host.as_str(),
                        session_id,
                        &entry.template,
                        entry.source.as_str(),
                        duration,
                        pool_id.as_str(),
                    );
                    (CreateState::AwaitPod { service }, CreateAction::CreatePod { pod })
                },
                (CreateState::AwaitPod { service }, CreateEvent::PodCreated) => (
                    CreateState::AwaitService,
                    CreateAction::CreateService { service },
                ),
                (CreateState::AwaitService, CreateEvent::ServiceCreated) => (
                    CreateState::Done,
                    CreateAction::Finish,
                ),
                (_, _) => create_failure(Error::Failure(String::from_str("unexpected event"))),
            },
        }
    }
}

/// Admission is decided exactly at the capacity boundary: with N nodes, a
/// per-node ceiling M and a census of C sessions, creation goes on if and
/// only if C < N·M, and stops with Unauthorized if and only if C >= N·M —
/// before any resource is touched.
pub proof fn lemma_admission_boundary(
    engine: Engine,
    user: LoggedUser,
    session_id: Seq<char>,
    conf: SessionConfiguration,
    pool_id: Seq<char>,
    node_count: int,
    count: int,
)
    ensures
        ({
            let (next, action) = spec_create_step(
                engine,
                user,
                session_id,
                conf,
                CreateStateView::AwaitCensus { pool_id, node_count },
                CreateEventView::SessionsListed { count },
            );
            let ceiling = node_count * (engine.configuration.session.max_sessions_per_pod as int);
            &&& (count < ceiling <==> (next == (CreateStateView::AwaitTemplates { pool_id })
                && action == CreateActionView::ListTemplates))
            &&& (count >= ceiling <==> (next == (CreateStateView::Failed {
                error: ErrorView::Unauthorized,
            }) && action == (CreateActionView::Fail { error: ErrorView::Unauthorized })))
        }),
{
}

/// A failed creation is inert: from a failed state, whatever event arrives,
/// the machine stays failed and asks the shell only to stop — never to
/// create a compute unit, an endpoint or a route rule. Together with the
/// admission clause above: a creation rejected for capacity touches no
/// resource.
pub proof fn lemma_failed_create_is_inert(
    engine: Engine,
    user: LoggedUser,
    session_id: Seq<char>,
    conf: SessionConfiguration,
    error: ErrorView,
    event: CreateEventView,
)
    ensures
        ({
            let (next, action) = spec_create_step(
                engine,
                user,
                session_id,
                conf,
                CreateStateView::Failed { error },
                event,
            );
            &&& next is Failed
            &&& action is Fail
        }),
{
}

/// The states a session deletion passes through: the endpoint goes first,
/// then the compute unit, then the route rule.
#[derive(Debug, Clone, PartialEq, Eq)]
pub enum DeleteState {
    Start,
    AwaitServiceDelete,
    AwaitPodDelete,
    AwaitIngress,
    AwaitReplace,
    Done,
    Failed { error: Error },
}

/// Spec view of [`DeleteState`].
pub enum DeleteStateView {
    Start,
    AwaitServiceDelete,
    AwaitPodDelete,
    AwaitIngress,
    AwaitReplace,
    Done,
    Failed { error: ErrorView },
}

impl DeepView for DeleteState {
    type V = DeleteStateView;

    open spec fn deep_view(&self) -> DeleteStateView {
        match self {
            DeleteState::Start => DeleteStateView::Start,
            DeleteState::AwaitServiceDelete => DeleteStateView::AwaitServiceDelete,
            DeleteState::AwaitPodDelete => DeleteStateView::AwaitPodDelete,
            DeleteState::AwaitIngress => DeleteStateView::AwaitIngress,
            DeleteState::AwaitReplace => DeleteStateView::AwaitReplace,
            DeleteState::Done => DeleteStateView::Done,
            DeleteState::Failed { error } => DeleteStateView::Failed {
                error: error_view(*error),
            },
        }
    }
}

/// The outcomes the shell reports back during a session deletion.
#[derive(Debug, Clone, PartialEq, Eq)]
pub enum DeleteEvent {
    Begin,
    ServiceDeleted,
    PodDeleted,
    IngressFetched { ingress: IngressView },
    RouteReplaced,
    PlatformFailed { error: Error },
}

/// Spec view of [`DeleteEvent`].
pub enum DeleteEventView {
    Begin,
    ServiceDeleted,
    PodDeleted,
    IngressFetched { ingress: IngressVView },
    RouteReplaced,
    PlatformFailed { error: ErrorView },
}

impl DeepView for DeleteEvent {
    type V = DeleteEventView;

    open spec fn deep_view(&self) -> DeleteEventView {
        match self {
            DeleteEvent::Begin => DeleteEventView::Begin,
            DeleteEvent::ServiceDeleted => DeleteEventView::ServiceDeleted,
            DeleteEvent::PodDeleted => DeleteEventView::PodDeleted,
            DeleteEvent::IngressFetched { ingress } => DeleteEventView::IngressFetched {
                ingress: ingress.deep_view(),
            },
            DeleteEvent::RouteReplaced => DeleteEventView::RouteReplaced,
            DeleteEvent::PlatformFailed { error } => DeleteEventView::PlatformFailed {
                error: error_view(*error),
            },
        }
    }
}

/// The platform calls a session deletion asks the shell to perform.
#[derive(Debug, Clone, PartialEq, Eq)]
pub enum DeleteAction {
    DeleteService { name: String },
    DeletePod { name: String },
    FetchIngress,
    ReplaceRoutes { rules: Vec<RouteRule> },
    Finish,
    Fail { error: Error },
}

/// Spec view of [`DeleteAction`].
pub enum DeleteActionView {
    DeleteService { name: Seq<char> },
    DeletePod { name: Seq<char> },
    FetchIngress,
    ReplaceRoutes { rules: Seq<RouteRuleView> },
    Finish,
    Fail { error: ErrorView },
}

impl DeepView for DeleteAction {
    type V = DeleteActionView;

    open spec fn deep_view(&self) -> DeleteActionView {
        match self {
            DeleteAction::DeleteService { name } => DeleteActionView::DeleteService {
                name: name@,
            },
            DeleteAction::DeletePod { name } => DeleteActionView::DeletePod { name: name@ },
            DeleteAction::FetchIngress => DeleteActionView::FetchIngress,
            DeleteAction::ReplaceRoutes { rules } => DeleteActionView::ReplaceRoutes {
                rules: rules.deep_view(),
            },
            DeleteAction::Finish => DeleteActionView::Finish,
            DeleteAction::Fail { error } => DeleteActionView::Fail { error: error_view(*error) },
        }
    }
}

/// A failed deletion: the machine stops with the error.
pub open spec fn spec_delete_fail(e: ErrorView) -> (DeleteStateView, DeleteActionView) {
    (DeleteStateView::Failed { error: e }, DeleteActionView::Fail { error: e })
}

/// One step of the session deletion protocol, in its fixed order: delete
/// the endpoint by its deterministic name, delete the compute unit by its,
/// fetch the routing object, write back its rules with the session's
/// subdomain excised. A platform failure stops the machine with that error;
/// the remaining steps are then never asked for, which can leave the route
/// table and the compute resources inconsistent — the protocol has no
/// compensation, and this spec states that openly.
pub open spec fn spec_delete_step(
    engine: Engine,
    session_id: Seq<char>,
    state: DeleteStateView,
    event: DeleteEventView,
) -> (DeleteStateView, DeleteActionView) {
    match event {
        DeleteEventView::PlatformFailed { error } => spec_delete_fail(error),
        _ => match (state, event) {
            (DeleteStateView::Start, DeleteEventView::Begin) => (
                DeleteStateView::AwaitServiceDelete,
                DeleteActionView::DeleteService {
                    name: crate::names::spec_service_name(session_id),
                },
            ),
            (DeleteStateView::AwaitServiceDelete, DeleteEventView::ServiceDeleted) => (
                DeleteStateView::AwaitPodDelete,
                DeleteActionView::DeletePod { name: crate::names::spec_pod_name(session_id) },
            ),
            (DeleteStateView::AwaitPodDelete, DeleteEventView::PodDeleted) => (
                DeleteStateView::AwaitIngress,
                DeleteActionView::FetchIngress,
            ),
            (DeleteStateView::AwaitIngress, DeleteEventView::IngressFetched { ingress }) => {
                let target = crate::names::spec_subdomain(engine.env.host@, session_id);
                match crate::routes::spec_rules_after_removing_host(ingress, target) {
                    Ok(rules) => (
                        DeleteStateView::AwaitReplace,
                        DeleteActionView::ReplaceRoutes { rules },
                    ),
                    Err(e) => spec_delete_fail(e),
                }
            },
            (DeleteStateView::AwaitReplace, DeleteEventView::RouteReplaced) => (
                DeleteStateView::Done,
                DeleteActionView::Finish,
            ),
            _ => spec_delete_fail(ErrorView::Failure),
        },
    }
}

/// Builds the stopped pair of a failed deletion step.
fn delete_failure(error: Error) -> (r: (DeleteState, DeleteAction))
    ensures
        r.0.deep_view() == (DeleteStateView::Failed { error: error_view(error) }),
        r.1.deep_view() == (DeleteActionView::Fail { error: error_view(error) }),
{
    let second = crate::types::clone_error(&error);
    (DeleteState::Failed { error }, DeleteAction::Fail { error: second })
}

impl Engine {
    /// One step of session deletion: endpoint, then compute unit, then the
    /// route rule, each by the session's deterministic names.
    pub fn delete_session_step(
        &self,
        session_id: &str,
        state: DeleteState,
        event: DeleteEvent,
    ) -> (r: (DeleteState, DeleteAction))
        ensures
            (r.0.deep_view(), r.1.deep_view()) == spec_delete_step(
                *self,
                session_id@,
                state.deep_view(),
                event.deep_view(),
            ),
    {
        match event {
            DeleteEvent::PlatformFailed { error } => delete_failure(error),
            event => match (state, event) {
                (DeleteState::Start, DeleteEvent::Begin) => (
                    DeleteState::AwaitServiceDelete,
                    DeleteAction::DeleteService { name: crate::names::service_name(session_id) },
                ),
                (DeleteState::AwaitServiceDelete, DeleteEvent::ServiceDeleted) => (
                    DeleteState::AwaitPodDelete,
                    DeleteAction::DeletePod { name: crate::names::pod_name(session_id) },
                ),
                (DeleteState::AwaitPodDelete, DeleteEvent::PodDeleted) => (
                    DeleteState::AwaitIngress,
                    DeleteAction::FetchIngress,
                ),
                (DeleteState::AwaitIngress, DeleteEvent::IngressFetched { ingress }) => {
                    let target = crate::names::subdomain(self.env.host.as_str(), session_id);
                    match crate::routes::rules_after_removing_host(&ingress, target.as_str()) {
                        Ok(rules) => (
                            DeleteState::AwaitReplace,
                            DeleteAction::ReplaceRoutes { rules },
                        ),
                        Err(e) => delete_failure(e),
                    }
                },
                (DeleteState::AwaitReplace, DeleteEvent::RouteReplaced) => (
                    DeleteState::Done,
                    DeleteAction::Finish,
                ),
                (_, _) => delete_failure(Error::Failure(String::from_str("unexpected event"))),
            },
        }
    }
}

} // verus!
