//! The ingress route table: the ordered rule list of the single shared
//! routing object, mapping per-session subdomains to network endpoints.
//!
//! The engine only ever computes a whole new rule list from a fetched one —
//! appending one rule per new session, or excising the one rule whose host is
//! a deleted session's subdomain — and hands it back to be written. The
//! read-modify-write itself has no concurrency guard: two concurrent writers
//! race, and the last write wins. Rules this engine did not add are preserved
//! exactly as fetched.

use vstd::prelude::*;

verus! {

use crate::Error;
use crate::names::THEIA_WEB_PORT;
use crate::names::service_name;
use crate::names::spec_service_name;
use crate::names::spec_subdomain;
use crate::names::subdomain;
use crate::text::str_eq;
use crate::types::ErrorView;
use crate::types::IngressPath;
use crate::types::IngressPathView;
use crate::types::PortSpecView;
use crate::types::RouteRule;
use crate::types::RouteRuleView;
use crate::types::Template;
use crate::types::TemplateView;
use crate::types::clone_opt_string;
use vstd::string::StringExecFns;

/// The spec block of the fetched routing object: its rule list, which may be
/// absent on a misconfigured object.
#[derive(Debug, Clone, PartialEq, Eq)]
pub struct IngressSpecView {
    pub tls_present: bool,
    pub rules: Option<Vec<RouteRule>>,
}

/// Spec view of [`IngressSpecView`].
pub struct IngressSpecVView {
    pub tls_present: bool,
    pub rules: Option<Seq<RouteRuleView>>,
}

impl DeepView for IngressSpecView {
    type V = IngressSpecVView;

    open spec fn deep_view(&self) -> IngressSpecVView {
        IngressSpecVView { tls_present: self.tls_present, rules: self.rules.deep_view() }
    }
}

/// The fetched routing object, reduced to what the engine reads.
#[derive(Debug, Clone, PartialEq, Eq)]
pub struct IngressView {
    pub spec: Option<IngressSpecView>,
}

/// Spec view of [`IngressView`].
pub struct IngressVView {
    pub spec: Option<IngressSpecVView>,
}

impl DeepView for IngressView {
    type V = IngressVView;

    open spec fn deep_view(&self) -> IngressVView {
        IngressVView { spec: self.spec.deep_view() }
    }
}

/// The backend paths a template's ports add to a session's route rule.
pub open spec fn spec_template_paths(service: Seq<char>, ports: Seq<PortSpecView>) -> Seq<
    IngressPathView,
> {
    ports.map_values(
        |p: PortSpecView| IngressPathView {
            path: p.path,
            service_name: service,
            service_port: p.port,
        },
    )
}

/// The backend paths of a session's route rule: the primary web port at "/",
/// then one path per template-declared port.
pub open spec fn spec_ingress_paths(service: Seq<char>, t: TemplateView) -> Seq<IngressPathView> {
    let head = IngressPathView {
        path: "/"@,
        service_name: service,
        service_port: THEIA_WEB_PORT,
    };
    match t.runtime {
        Some(rt) => match rt.ports {
            Some(ports) => seq![head] + spec_template_paths(service, ports),
            None => seq![head],
        },
        None => seq![head],
    }
}

/// One backend path.
pub fn create_ingress_path(path: &str, service: &str, service_port: i32) -> (r: IngressPath)
    ensures
        r.deep_view() == (IngressPathView {
            path: path@,
            service_name: service@,
            service_port: service_port,
        }),
{
    IngressPath { path: path.to_owned(), service_name: service.to_owned(), service_port }
}

/// The backend paths of a session's route rule.
pub fn create_ingress_paths(service: String, template: &Template) -> (r: Vec<IngressPath>)
    ensures
        r.deep_view() == spec_ingress_paths(service@, template.deep_view()),
{
    let mut out: Vec<IngressPath> = Vec::new();
    out.push(create_ingress_path("/", service.as_str(), THEIA_WEB_PORT));
    let ghost head = IngressPathView {
        path: "/"@,
        service_name: service@,
        service_port: THEIA_WEB_PORT,
    };
    proof {
        assert(out.deep_view() =~= seq![head]);
    }
    match &template.runtime {
        None => (),
        Some(rt) => match &rt.ports {
            None => (),
            Some(ports) => {
                let n = ports.len();
                let mut i: usize = 0;
                while i < n
                    invariant
                        n == ports.len(),
                        0 <= i <= n,
                        out.deep_view() =~= seq![head] + spec_template_paths(
                            service@,
                            ports.deep_view().take(i as int),
                        ),
                    decreases n - i,
                {
                    let ghost prev = out.deep_view();
                    out.push(
                        create_ingress_path(ports[i].path.as_str(), service.as_str(), ports[i].port),
                    );
                    proof {
                        assert(ports[i as int].deep_view() == ports.deep_view()[i as int]);
                        assert(out.deep_view() =~= prev.push(
                            IngressPathView {
                                path: ports.deep_view()[i as int].path,
                                service_name: service@,
                                service_port: ports.deep_view()[i as int].port,
                            },
                        ));
                        assert(out.deep_view() =~= seq![head] + spec_template_paths(
                            service@,
                            ports.deep_view().take(i + 1),
                        ));
                    }
                    i = i + 1;
                }
                proof {
                    assert(ports.deep_view().take(n as int) =~= ports.deep_view());
                }
            },
        },
    }
    out
}

/// The route rule of a session: its subdomain as host, its endpoint's paths.
pub open spec fn spec_session_rule(
    host: Seq<char>,
    session_id: Seq<char>,
    t: TemplateView,
) -> RouteRuleView {
    RouteRuleView {
        host: Some(spec_subdomain(host, session_id)),
        paths: Some(spec_ingress_paths(spec_service_name(session_id), t)),
    }
}

/// Builds the route rule a session adds to the shared table.
pub fn session_route_rule(host: &str, session_id: &str, template: &Template) -> (r: RouteRule)
    ensures
        r.deep_view() == spec_session_rule(host@, session_id@, template.deep_view()),
{
    let sub = subdomain(host, session_id);
    let paths = create_ingress_paths(service_name(session_id), template);
    RouteRule { host: Some(sub), paths: Some(paths) }
}

/// The host a rule is matched by on removal: its host field, or "unknown"
/// where a foreign rule carries none.
pub open spec fn spec_rule_host_or_unknown(r: RouteRuleView) -> Seq<char> {
    match r.host {
        Some(h) => h,
        None => "unknown"@,
    }
}

/// The rule list with every rule matched by `target` excised, all others in
/// place and unchanged.
pub open spec fn spec_remove_rules(rules: Seq<RouteRuleView>, target: Seq<char>) -> Seq<
    RouteRuleView,
>
    decreases rules.len(),
{
    if rules.len() == 0 {
        Seq::empty()
    } else {
        let prefix = spec_remove_rules(rules.drop_last(), target);
        if spec_rule_host_or_unknown(rules.last()) == target {
            prefix
        } else {
            prefix.push(rules.last())
        }
    }
}

/// Removing a host that no rule carries changes nothing.
pub proof fn lemma_remove_absent_host(rules: Seq<RouteRuleView>, target: Seq<char>)
    requires
        forall|i: int| 0 <= i < rules.len() ==> spec_rule_host_or_unknown(rules[i]) != target,
    ensures
        spec_remove_rules(rules, target) == rules,
    decreases rules.len(),
{
    if rules.len() > 0 {
        lemma_remove_absent_host(rules.drop_last(), target);
        assert(spec_remove_rules(rules, target) =~= rules);
    } else {
        assert(spec_remove_rules(rules, target) =~= rules);
    }
}

/// Appending a session's rule and then removing its subdomain restores the
/// table exactly: the rule count and every other rule, byte for byte. It only
/// asks that no existing rule already carries that subdomain as its host.
pub proof fn lemma_route_add_then_remove(
    rules: Seq<RouteRuleView>,
    host: Seq<char>,
    session_id: Seq<char>,
    t: TemplateView,
)
    requires
        forall|i: int| 0 <= i < rules.len() ==> spec_rule_host_or_unknown(rules[i])
            != spec_subdomain(host, session_id),
    ensures
        spec_remove_rules(
            rules.push(spec_session_rule(host, session_id, t)),
            spec_subdomain(host, session_id),
        ) == rules,
{
    let appended = rules.push(spec_session_rule(host, session_id, t));
    assert(appended.drop_last() =~= rules);
    lemma_remove_absent_host(rules, spec_subdomain(host, session_id));
}

/// Clones one route rule.
fn clone_rule(r: &RouteRule) -> (out: RouteRule)
    ensures
        out.deep_view() == r.deep_view(),
{
    let host = clone_opt_string(&r.host);
    let paths: Option<Vec<IngressPath>> = match &r.paths {
        None => None,
        Some(ps) => {
            let n = ps.len();
            let mut v: Vec<IngressPath> = Vec::new();
            let mut i: usize = 0;
            while i < n
                invariant
                    n == ps.len(),
                    0 <= i <= n,
                    v.deep_view() =~= ps.deep_view().take(i as int),
                decreases n - i,
            {
                let ghost prev = v.deep_view();
                v.push(
                    IngressPath {
                        path: ps[i].path.clone(),
                        service_name: ps[i].service_name.clone(),
                        service_port: ps[i].service_port,
                    },
                );
                proof {
                    assert(ps[i as int].deep_view() == ps.deep_view()[i as int]);
                    assert(v.deep_view() =~= prev.push(ps.deep_view()[i as int]));
                    assert(v.deep_view() =~= ps.deep_view().take(i + 1));
                }
                i = i + 1;
            }
            proof {
                assert(ps.deep_view().take(n as int) =~= ps.deep_view());
            }
            Some(v)
        },
    };
    RouteRule { host, paths }
}

/// The rule list of a fetched routing object after excising every rule whose
/// host is `target`: a routing object without a spec, or without a rule list
/// at all, is surfaced as missing data rather than treated as a no-op.
pub open spec fn spec_rules_after_removing_host(ing: IngressVView, target: Seq<char>) -> Result<
    Seq<RouteRuleView>,
    ErrorView,
> {
    match ing.spec {
        None => Err(ErrorView::MissingData("spec"@)),
        Some(sp) => match sp.rules {
            None => Err(ErrorView::MissingData("spec#rules"@)),
            Some(rules) => Ok(spec_remove_rules(rules, target)),
        },
    }
}

/// Computes the rule list to write back when deleting the session reachable
/// at `target`.
pub fn rules_after_removing_host(ing: &IngressView, target: &str) -> (r: Result<
    Vec<RouteRule>,
    Error,
>)
    ensures
        crate::types::result_view(r) == spec_rules_after_removing_host(ing.deep_view(), target@),
{
    let sp = match &ing.spec {
        None => {
            return Err(Error::MissingData(String::from_str("spec")));
        },
        Some(sp) => sp,
    };
    let rules = match &sp.rules {
        None => {
            return Err(Error::MissingData(String::from_str("spec#rules")));
        },
        Some(rules) => rules,
    };
    let n = rules.len();
    let mut out: Vec<RouteRule> = Vec::new();
    let mut i: usize = 0;
    proof {
        assert(rules.deep_view().take(0) =~= Seq::<RouteRuleView>::empty());
    }
    while i < n
        invariant
            n == rules.len(),
            0 <= i <= n,
            out.deep_view() == spec_remove_rules(rules.deep_view().take(i as int), target@),
        decreases n - i,
    {
        proof {
            assert(rules.deep_view().take(i + 1).drop_last() =~= rules.deep_view().take(i as int));
            assert(rules.deep_view().take(i + 1).last() == rules.deep_view()[i as int]);
            assert(rules[i as int].deep_view() == rules.deep_view()[i as int]);
        }
        let keep = match &rules[i].host {
            Some(h) => !str_eq(h.as_str(), target),
            None => !str_eq("unknown", target),
        };
        if keep {
            let ghost prev = out.deep_view();
            out.push(clone_rule(&rules[i]));
            proof {
                assert(out.deep_view() =~= prev.push(rules.deep_view()[i as int]));
            }
        }
        proof {
            assert(out.deep_view() =~= spec_remove_rules(rules.deep_view().take(i + 1), target@));
        }
        i = i + 1;
    }
    proof {
        assert(rules.deep_view().take(n as int) =~= rules.deep_view());
    }
    Ok(out)
}

/// The rule list of a fetched routing object after appending one new rule:
/// absent spec or rule list is surfaced as missing data, fetched rules keep
/// their places, the new rule comes last.
pub open spec fn spec_rules_after_adding_rule(ing: IngressVView, rule: RouteRuleView) -> Result<
    Seq<RouteRuleView>,
    ErrorView,
> {
    match ing.spec {
        None => Err(ErrorView::MissingData("ingress#spec"@)),
        Some(sp) => match sp.rules {
            None => Err(ErrorView::MissingData("ingress#spec#rules"@)),
            Some(rules) => Ok(rules.push(rule)),
        },
    }
}

/// Computes the rule list to write back when one session's rule joins the
/// shared table, as the creation protocol asks.
pub fn rules_after_adding_rule(ing: &IngressView, rule: RouteRule) -> (r: Result<
    Vec<RouteRule>,
    Error,
>)
    ensures
        crate::types::result_view(r) == spec_rules_after_adding_rule(
            ing.deep_view(),
            rule.deep_view(),
        ),
{
    let sp = match &ing.spec {
        None => {
            return Err(Error::MissingData(String::from_str("ingress#spec")));
        },
        Some(sp) => sp,
    };
    let rules = match &sp.rules {
        None => {
            return Err(Error::MissingData(String::from_str("ingress#spec#rules")));
        },
        Some(rules) => rules,
    };
    let n = rules.len();
    let mut out: Vec<RouteRule> = Vec::new();
    let mut i: usize = 0;
    while i < n
        invariant
            n == rules.len(),
            0 <= i <= n,
            out.deep_view() =~= rules.deep_view().take(i as int),
        decreases n - i,
    {
        let ghost prev = out.deep_view();
        out.push(clone_rule(&rules[i]));
        proof {
            assert(rules[i as int].deep_view() == rules.deep_view()[i as int]);
            assert(out.deep_view() =~= prev.push(rules.deep_view()[i as int]));
            assert(out.deep_view() =~= rules.deep_view().take(i + 1));
        }
        i = i + 1;
    }
    proof {
        assert(rules.deep_view().take(n as int) =~= rules.deep_view());
    }
    let ghost prev = out.deep_view();
    let ghost rv = rule.deep_view();
    out.push(rule);
    proof {
        assert(out.deep_view() =~= prev.push(rv));
    }
    Ok(out)
}

/// The rule list of a fetched routing object after appending the rules of the
/// given sessions, in order: each session contributes one rule for its
/// subdomain and template.
pub open spec fn spec_session_rules(
    host: Seq<char>,
    entries: Seq<(Seq<char>, TemplateView)>,
) -> Seq<RouteRuleView>
    decreases entries.len(),
{
    if entries.len() == 0 {
        Seq::empty()
    } else {
        spec_session_rules(host, entries.drop_last()).push(
            spec_session_rule(host, entries.last().0, entries.last().1),
        )
    }
}

/// The rule list to write back when adding sessions: absent spec or rule list
/// is surfaced as missing data.
pub open spec fn spec_rules_after_adding_sessions(
    ing: IngressVView,
    host: Seq<char>,
    entries: Seq<(Seq<char>, TemplateView)>,
) -> Result<Seq<RouteRuleView>, ErrorView> {
    match ing.spec {
        None => Err(ErrorView::MissingData("ingress#spec"@)),
        Some(sp) => match sp.rules {
            None => Err(ErrorView::MissingData("ingress#spec#rules"@)),
            Some(rules) => Ok(rules + spec_session_rules(host, entries)),
        },
    }
}

/// Computes the rule list to write back when adding the given sessions to the
/// shared table; fetched rules keep their places, the new rules follow them.
pub fn rules_after_adding_sessions(
    ing: &IngressView,
    host: &str,
    entries: &Vec<(String, Template)>,
) -> (r: Result<Vec<RouteRule>, Error>)
    ensures
        crate::types::result_view(r) == spec_rules_after_adding_sessions(
            ing.deep_view(),
            host@,
            entries.deep_view(),
        ),
{
    let sp = match &ing.spec {
        None => {
            return Err(Error::MissingData(String::from_str("ingress#spec")));
        },
        Some(sp) => sp,
    };
    let rules = match &sp.rules {
        None => {
            return Err(Error::MissingData(String::from_str("ingress#spec#rules")));
        },
        Some(rules) => rules,
    };
    let n = rules.len();
    let mut out: Vec<RouteRule> = Vec::new();
    let mut i: usize = 0;
    while i < n
        invariant
            n == rules.len(),
            0 <= i <= n,
            out.deep_view() =~= rules.deep_view().take(i as int),
        decreases n - i,
    {
        let ghost prev = out.deep_view();
        out.push(clone_rule(&rules[i]));
        proof {
            assert(rules[i as int].deep_view() == rules.deep_view()[i as int]);
            assert(out.deep_view() =~= prev.push(rules.deep_view()[i as int]));
            assert(out.deep_view() =~= rules.deep_view().take(i + 1));
        }
        i = i + 1;
    }
    proof {
        assert(rules.deep_view().take(n as int) =~= rules.deep_view());
    }
    let m = entries.len();
    let mut j: usize = 0;
    while j < m
        invariant
            m == entries.len(),
            0 <= j <= m,
            out.deep_view() =~= rules.deep_view() + spec_session_rules(
                host@,
                entries.deep_view().take(j as int),
            ),
        decreases m - j,
    {
        let ghost prev = out.deep_view();
        let rule = session_route_rule(host, entries[j].0.as_str(), &entries[j].1);
        let ghost rv = rule.deep_view();
        out.push(rule);
        proof {
            assert(entries[j as int].deep_view() == entries.deep_view()[j as int]);
            assert(entries.deep_view().take(j + 1).drop_last() =~= entries.deep_view().take(
                j as int,
            ));
            assert(entries.deep_view().take(j + 1).last() == entries.deep_view()[j as int]);
            assert(out.deep_view() =~= prev.push(rv));
            assert(out.deep_view() =~= rules.deep_view() + spec_session_rules(
                host@,
                entries.deep_view().take(j + 1),
            ));
        }
        j = j + 1;
    }
    proof {
        assert(entries.deep_view().take(m as int) =~= entries.deep_view());
    }
    Ok(out)
}

} // verus!
