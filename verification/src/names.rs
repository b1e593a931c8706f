//! Deterministic names, labels and annotation keys for session-owned
//! resources.
//!
//! Every resource a session owns (compute unit, network endpoint, route rule)
//! is named by a pure function of the session id, and carries a fixed
//! application tag, a fixed component tag, and an owner tag equal to the
//! session id. The owner tag is the join key used by every list and lookup
//! across the engine.

use vstd::prelude::*;

verus! {

use vstd::string::StringExecFns;

/// Label key that groups cluster nodes into pools.
pub const NODE_POOL_LABEL: &'static str = "cloud.google.com/gke-nodepool";

/// Label key naming a node's instance type.
pub const INSTANCE_TYPE_LABEL: &'static str = "node.kubernetes.io/instance-type";

/// Label key naming a node's hostname.
pub const HOSTNAME_LABEL: &'static str = "kubernetes.io/hostname";

/// Label key of the fixed application tag.
pub const APP_LABEL: &'static str = "app.kubernetes.io/part-of";

/// Value of the fixed application tag.
pub const APP_VALUE: &'static str = "playground";

/// Label key of the fixed component tag.
pub const COMPONENT_LABEL: &'static str = "app.kubernetes.io/component";

/// Value of the fixed component tag.
pub const COMPONENT_VALUE: &'static str = "session";

/// Label key of the owner tag; its value is the session id.
pub const OWNER_LABEL: &'static str = "app.kubernetes.io/owner";

/// Name of the shared routing object.
pub const INGRESS_NAME: &'static str = "ingress";

/// Annotation key under which a session's template is stored.
pub const TEMPLATE_ANNOTATION: &'static str = "playground.substrate.io/template";

/// Annotation key under which a session's duration is stored.
pub const SESSION_DURATION_ANNOTATION: &'static str = "playground.substrate.io/session_duration";

/// Name of the shared registry object holding users.
pub const USERS_CONFIG_MAP: &'static str = "playground-users";

/// Name of the shared registry object holding templates.
pub const TEMPLATES_CONFIG_MAP: &'static str = "playground-templates";

/// Port every session's primary web endpoint listens on.
pub const THEIA_WEB_PORT: i32 = 3000;

/// The name of the compute unit owned by the session of `user`.
pub open spec fn spec_pod_name(user: Seq<char>) -> Seq<char> {
    "session-"@ + user
}

/// The name of the network endpoint owned by the session `session_id`.
pub open spec fn spec_service_name(session_id: Seq<char>) -> Seq<char> {
    "session-service-"@ + session_id
}

/// The subdomain under which the session `session_id` is reachable.
pub open spec fn spec_subdomain(host: Seq<char>, session_id: Seq<char>) -> Seq<char> {
    session_id + "."@ + host
}

/// Deterministic name of the compute unit owned by a session.
pub fn pod_name(user: &str) -> (r: String)
    ensures
        r@ == spec_pod_name(user@),
{
    let mut s = String::from_str("session-");
    s.append(user);
    s
}

/// Deterministic name of the network endpoint owned by a session.
pub fn service_name(session_id: &str) -> (r: String)
    ensures
        r@ == spec_service_name(session_id@),
{
    let mut s = String::from_str("session-service-");
    s.append(session_id);
    s
}

/// The subdomain of a session: the session id, a dot, and the cluster host.
pub fn subdomain(host: &str, session_id: &str) -> (r: String)
    ensures
        r@ == spec_subdomain(host@, session_id@),
{
    let mut s = String::from_str(session_id);
    s.append(".");
    s.append(host);
    s
}

/// Compute-unit names are collision-free: distinct session ids name distinct
/// compute units.
pub proof fn lemma_pod_name_collision_free(a: Seq<char>, b: Seq<char>)
    requires
        a != b,
    ensures
        spec_pod_name(a) != spec_pod_name(b),
{
    if spec_pod_name(a) == spec_pod_name(b) {
        assert(("session-"@ + a).skip("session-"@.len() as int) =~= a);
        assert(("session-"@ + b).skip("session-"@.len() as int) =~= b);
    }
}

/// Endpoint names are collision-free: distinct session ids name distinct
/// network endpoints.
pub proof fn lemma_service_name_collision_free(a: Seq<char>, b: Seq<char>)
    requires
        a != b,
    ensures
        spec_service_name(a) != spec_service_name(b),
{
    if spec_service_name(a) == spec_service_name(b) {
        assert(("session-service-"@ + a).skip("session-service-"@.len() as int) =~= a);
        assert(("session-service-"@ + b).skip("session-service-"@.len() as int) =~= b);
    }
}

/// Subdomains are collision-free for a fixed host: distinct session ids are
/// reachable under distinct subdomains.
pub proof fn lemma_subdomain_collision_free(host: Seq<char>, a: Seq<char>, b: Seq<char>)
    requires
        a != b,
    ensures
        spec_subdomain(host, a) != spec_subdomain(host, b),
{
    if spec_subdomain(host, a) == spec_subdomain(host, b) {
        assert((a + "."@ + host).len() == (b + "."@ + host).len());
        assert(a.len() == b.len());
        assert((a + "."@ + host).take(a.len() as int) =~= a);
        assert((b + "."@ + host).take(b.len() as int) =~= b);
    }
}

} // verus!
