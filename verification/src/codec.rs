//! The session state codec: session metadata lives in the compute unit's own
//! labels and annotations, not in a datastore of this engine.
//!
//! Encoding writes the session's template (in its serialized form) and its
//! duration (whole minutes, decimal text) into an annotation map. Decoding
//! reconstructs a whole [`Session`] from a fetched compute unit; sub-minute
//! precision is truncated by design, and the truncation is deterministic
//! (see [`lemma_duration_round_trip`]).

use vstd::prelude::*;

verus! {

use vstd::arithmetic::div_mod::lemma_div_is_ordered;
use vstd::arithmetic::div_mod::lemma_fundamental_div_mod;
use vstd::string::StringExecFns;

use crate::Error;
use crate::names::OWNER_LABEL;
use crate::names::SESSION_DURATION_ANNOTATION;
use crate::names::TEMPLATE_ANNOTATION;
use crate::names::spec_subdomain;
use crate::names::subdomain;
use crate::text::dec_chars;
use crate::text::lemma_parse_of_dec_chars;
use crate::text::parse_dec_u64;
use crate::text::spec_parse_u64;
use crate::text::str_eq;
use crate::text::u64_to_dec_string;
use crate::types::ContainerPhase;
use crate::types::ContainerStatus;
use crate::types::ContainerStatusOut;
use crate::types::ContainerStatusVView;
use crate::types::ContainerStatusView;
use crate::types::ErrorView;
use crate::types::NameValue;
use crate::types::NameValueView;
use crate::types::Phase;
use crate::types::PodDetails;
use crate::types::PodDetailsView;
use crate::types::PodStatusVView;
use crate::types::PodStatusView;
use crate::types::PodVView;
use crate::types::PodView;
use crate::types::Session;
use crate::types::SessionView;
use crate::types::clone_opt_string;
use crate::types::error_view;
use crate::types::result_view;
use crate::types::spec_lookup;

/// Whether `s` is a well-formed serialized template document: a function of
/// its characters alone.
pub uninterp spec fn yaml_parses(s: Seq<char>) -> bool;

/// Relies on `serde_yaml::from_str::<serde_yaml::Value>`: it accepts a string
/// if and only if the string is a well-formed document, and its outcome
/// depends on the string's characters alone.
#[verifier::external_body]
fn yaml_well_formed(s: &str) -> (r: bool)
    ensures
        r == yaml_parses(s@),
{
    serde_yaml::from_str::<serde_yaml::Value>(s).is_ok()
}

/// The annotation text of a duration of `secs` seconds: its whole minutes in
/// decimal.
pub open spec fn spec_duration_annotation(secs: u64) -> Seq<char> {
    dec_chars((secs / 60) as nat)
}

/// Renders a duration, given in seconds, as the whole-minute decimal text the
/// duration annotation stores. Sub-minute precision is truncated.
pub fn session_duration_annotation(duration_secs: u64) -> (r: String)
    ensures
        r@ == spec_duration_annotation(duration_secs),
{
    u64_to_dec_string(duration_secs / 60)
}

/// The duration, in seconds, that an annotation text denotes: its value read
/// as decimal minutes, if that value and its conversion to seconds fit in 64
/// bits.
pub open spec fn spec_duration_from_annotation(s: Seq<char>) -> Option<u64> {
    match spec_parse_u64(s) {
        Some(m) => if m <= u64::MAX / 60 {
            Some((m * 60) as u64)
        } else {
            None
        },
        None => None,
    }
}

/// Parses a duration annotation back into seconds; fails on text that is not
/// a whole number of minutes fitting in 64 bits of seconds.
pub fn str_to_session_duration_minutes(text: &str) -> (r: Result<u64, Error>)
    ensures
        match r {
            Ok(secs) => spec_duration_from_annotation(text@) == Some(secs),
            Err(e) => spec_duration_from_annotation(text@) is None && error_view(e)
                == ErrorView::Failure,
        },
{
    match parse_dec_u64(text) {
        None => Err(Error::Failure(String::from_str("invalid session duration"))),
        Some(m) => {
            if m <= u64::MAX / 60 {
                proof {
                    lemma_fundamental_div_mod(u64::MAX as int, 60);
                    assert(m * 60 <= u64::MAX) by (nonlinear_arith)
                        requires
                            m <= u64::MAX / 60,
                            u64::MAX == (u64::MAX / 60) * 60 + u64::MAX % 60,
                            u64::MAX % 60 >= 0,
                    ;
                }
                Ok(m * 60)
            } else {
                Err(Error::Failure(String::from_str("session duration out of range")))
            }
        },
    }
}

/// Encoding a duration and decoding it back yields the duration rounded down
/// to a whole minute: sub-minute seconds are truncated, deterministically,
/// and a whole-minute duration survives the round trip unchanged.
pub proof fn lemma_duration_round_trip(secs: u64)
    ensures
        spec_duration_from_annotation(spec_duration_annotation(secs)) == Some(
            ((secs / 60) * 60) as u64,
        ),
        secs % 60 == 0 ==> spec_duration_from_annotation(spec_duration_annotation(secs)) == Some(
            secs,
        ),
{
    lemma_parse_of_dec_chars(secs / 60);
    lemma_div_is_ordered(secs as int, u64::MAX as int, 60);
    lemma_fundamental_div_mod(secs as int, 60);
}

/// The annotation map of a session: the serialized template under its key,
/// and the duration as whole-minute decimal text under its key.
pub open spec fn spec_pod_annotations(template_source: Seq<char>, duration_secs: u64) -> Seq<
    NameValueView,
> {
    seq![
        NameValueView { name: TEMPLATE_ANNOTATION@, value: template_source },
        NameValueView {
            name: SESSION_DURATION_ANNOTATION@,
            value: spec_duration_annotation(duration_secs),
        },
    ]
}

/// Builds the annotation map carried by a session's compute unit.
pub fn create_pod_annotations(template_source: &str, duration_secs: u64) -> (r: Vec<NameValue>)
    ensures
        r.deep_view() == spec_pod_annotations(template_source@, duration_secs),
{
    let mut r: Vec<NameValue> = Vec::new();
    r.push(
        NameValue {
            name: String::from_str(TEMPLATE_ANNOTATION),
            value: template_source.to_owned(),
        },
    );
    r.push(
        NameValue {
            name: String::from_str(SESSION_DURATION_ANNOTATION),
            value: session_duration_annotation(duration_secs),
        },
    );
    proof {
        assert(r.deep_view() =~= spec_pod_annotations(template_source@, duration_secs));
    }
    r
}

/// The reason a container state reports: the waiting reason if there is one,
/// else the terminated reason if there is one.
pub open spec fn spec_state_reason(
    waiting: Option<crate::types::StateDetailView>,
    terminated: Option<crate::types::StateDetailView>,
) -> Option<Seq<char>> {
    if waiting is Some && waiting->0.reason is Some {
        waiting->0.reason
    } else if terminated is Some {
        terminated->0.reason
    } else {
        None
    }
}

/// The message a container state reports, selected like the reason.
pub open spec fn spec_state_message(
    waiting: Option<crate::types::StateDetailView>,
    terminated: Option<crate::types::StateDetailView>,
) -> Option<Seq<char>> {
    if waiting is Some && waiting->0.message is Some {
        waiting->0.message
    } else if terminated is Some {
        terminated->0.message
    } else {
        None
    }
}

/// What the engine reports of a fetched container status: running wins over
/// waiting, waiting over terminated; a container without a state is unknown.
pub open spec fn spec_container_status(s: ContainerStatusVView) -> ContainerStatusOut {
    match s.state {
        Some(st) => ContainerStatusOut {
            phase: if st.running {
                ContainerPhase::Running
            } else if st.waiting is Some {
                ContainerPhase::Waiting
            } else {
                ContainerPhase::Terminated
            },
            reason: spec_state_reason(st.waiting, st.terminated),
            message: spec_state_message(st.waiting, st.terminated),
        },
        None => ContainerStatusOut { phase: ContainerPhase::Unknown, reason: None, message: None },
    }
}

/// Maps a fetched container status to what the engine reports of it.
pub fn container_status_to_container_status(status: &ContainerStatusView) -> (r: ContainerStatus)
    ensures
        r.deep_view() == spec_container_status(status.deep_view()),
{
    match &status.state {
        Some(st) => {
            let phase = if st.running {
                ContainerPhase::Running
            } else if st.waiting.is_some() {
                ContainerPhase::Waiting
            } else {
                ContainerPhase::Terminated
            };
            let reason = match &st.waiting {
                Some(w) if w.reason.is_some() => clone_opt_string(&w.reason),
                _ => match &st.terminated {
                    Some(t) => clone_opt_string(&t.reason),
                    None => None,
                },
            };
            let message = match &st.waiting {
                Some(w) if w.message.is_some() => clone_opt_string(&w.message),
                _ => match &st.terminated {
                    Some(t) => clone_opt_string(&t.message),
                    None => None,
                },
            };
            ContainerStatus { phase, reason, message }
        },
        None => ContainerStatus { phase: ContainerPhase::Unknown, reason: None, message: None },
    }
}

/// The phase a status text names, if it names one.
pub open spec fn spec_phase_from_str(s: Seq<char>) -> Option<Phase> {
    if s == "Pending"@ {
        Some(Phase::Pending)
    } else if s == "Running"@ {
        Some(Phase::Running)
    } else if s == "Succeeded"@ {
        Some(Phase::Succeeded)
    } else if s == "Failed"@ {
        Some(Phase::Failed)
    } else if s == "Unknown"@ {
        Some(Phase::Unknown)
    } else {
        None
    }
}

/// Parses the phase text a compute unit's status reports.
pub fn phase_from_str(s: &str) -> (r: Option<Phase>)
    ensures
        r == spec_phase_from_str(s@),
{
    if str_eq(s, "Pending") {
        Some(Phase::Pending)
    } else if str_eq(s, "Running") {
        Some(Phase::Running)
    } else if str_eq(s, "Succeeded") {
        Some(Phase::Succeeded)
    } else if str_eq(s, "Failed") {
        Some(Phase::Failed)
    } else if str_eq(s, "Unknown") {
        Some(Phase::Unknown)
    } else {
        None
    }
}

/// What the engine reports of a compute unit's status block: a missing block
/// is missing data; a phase text it does not know is a failure; reason and
/// message default to empty; the first container's status is reported if
/// there is one.
pub open spec fn spec_pod_details(status: Option<PodStatusVView>) -> Result<
    PodDetailsView,
    ErrorView,
> {
    match status {
        None => Err(ErrorView::MissingData("status"@)),
        Some(st) => {
            let phase_text = match st.phase {
                Some(p) => p,
                None => "Unknown"@,
            };
            match spec_phase_from_str(phase_text) {
                None => Err(ErrorView::Failure),
                Some(ph) => Ok(
                    PodDetailsView {
                        phase: ph,
                        reason: match st.reason {
                            Some(r) => r,
                            None => ""@,
                        },
                        message: match st.message {
                            Some(m) => m,
                            None => ""@,
                        },
                        start_time: st.start_time,
                        container: match st.container_statuses {
                            Some(cs) => if cs.len() > 0 {
                                Some(spec_container_status(cs[0]))
                            } else {
                                None
                            },
                            None => None,
                        },
                    },
                ),
            }
        },
    }
}

/// Maps a fetched status block to what the engine reports of a compute unit.
pub fn pod_to_details(status: &Option<PodStatusView>) -> (r: Result<PodDetails, Error>)
    ensures
        result_view(r) == spec_pod_details(status.deep_view()),
{
    match status {
        None => Err(Error::MissingData(String::from_str("status"))),
        Some(st) => {
            let parsed = match &st.phase {
                Some(p) => phase_from_str(p.as_str()),
                None => phase_from_str("Unknown"),
            };
            match parsed {
                None => Err(Error::Failure(String::from_str("unknown phase"))),
                Some(ph) => {
                    let reason = match &st.reason {
                        Some(r) => r.clone(),
                        None => String::from_str(""),
                    };
                    let message = match &st.message {
                        Some(m) => m.clone(),
                        None => String::from_str(""),
                    };
                    let container = match &st.container_statuses {
                        Some(cs) => if cs.len() > 0 {
                            Some(container_status_to_container_status(&cs[0]))
                        } else {
                            None
                        },
                        None => None,
                    };
                    Ok(
                        PodDetails {
                            phase: ph,
                            reason,
                            message,
                            start_time: clone_opt_string(&st.start_time),
                            container,
                        },
                    )
                },
            }
        },
    }
}

/// What reconstructing a session from a fetched compute unit yields, step by
/// step in the order the engine checks: labels, then annotations, then the
/// template annotation and its well-formedness, then the duration annotation
/// and its value, then the status block, then the scheduling result. The
/// owner label falls back to a sentinel rather than failing, since it feeds a
/// display path.
pub open spec fn spec_pod_to_session(host: Seq<char>, pod: PodVView) -> Result<
    SessionView,
    ErrorView,
> {
    match pod.labels {
        None => Err(ErrorView::MissingData("pod#metadata#labels"@)),
        Some(labels) => {
            let user = match spec_lookup(labels, OWNER_LABEL@) {
                Some(u) => u,
                None => "UNKNOWN OWNER"@,
            };
            match pod.annotations {
                None => Err(ErrorView::MissingData("pod#metadata#annotations"@)),
                Some(anns) => match spec_lookup(anns, TEMPLATE_ANNOTATION@) {
                    None => Err(ErrorView::MissingData("template"@)),
                    Some(tpl) => if !yaml_parses(tpl) {
                        Err(ErrorView::Failure)
                    } else {
                        match spec_lookup(anns, SESSION_DURATION_ANNOTATION@) {
                            None => Err(ErrorView::MissingData("template#session_duration"@)),
                            Some(dtext) => match spec_duration_from_annotation(dtext) {
                                None => Err(ErrorView::Failure),
                                Some(secs) => match spec_pod_details(pod.status) {
                                    Err(e) => Err(e),
                                    Ok(details) => match pod.spec {
                                        None => Err(ErrorView::MissingData("pod#spec"@)),
                                        Some(ps) => match ps.node_name {
                                            None => Err(
                                                ErrorView::MissingData("pod#spec#node_name"@),
                                            ),
                                            Some(node) => Ok(
                                                SessionView {
                                                    user_id: user,
                                                    template: tpl,
                                                    url: spec_subdomain(host, user),
                                                    pod: details,
                                                    duration: secs,
                                                    node: node,
                                                },
                                            ),
                                        },
                                    },
                                },
                            },
                        }
                    },
                },
            }
        },
    }
}

/// Reconstructs a session from a fetched compute unit; the session's URL is
/// its owner's subdomain under `host`.
///
/// The template annotation is checked for well-formedness of its serialized
/// form only — the shape check against the template type happens where the
/// text is deserialized, outside this crate. A well-formed document of the
/// wrong shape therefore reconstructs here and fails only at that later
/// parse; the session carries the annotation text verbatim either way.
pub fn pod_to_session(host: &str, pod: &PodView) -> (r: Result<Session, Error>)
    ensures
        result_view(r) == spec_pod_to_session(host@, pod.deep_view()),
{
    let labels = match &pod.labels {
        None => {
            return Err(Error::MissingData(String::from_str("pod#metadata#labels")));
        },
        Some(l) => l,
    };
    let user = match crate::types::lookup_value(labels, OWNER_LABEL) {
        Some(u) => u,
        None => String::from_str("UNKNOWN OWNER"),
    };
    let anns = match &pod.annotations {
        None => {
            return Err(Error::MissingData(String::from_str("pod#metadata#annotations")));
        },
        Some(a) => a,
    };
    let tpl = match crate::types::lookup_value(anns, TEMPLATE_ANNOTATION) {
        None => {
            return Err(Error::MissingData(String::from_str("template")));
        },
        Some(t) => t,
    };
    if !yaml_well_formed(tpl.as_str()) {
        return Err(Error::Failure(String::from_str("malformed template annotation")));
    }
    let dtext = match crate::types::lookup_value(anns, SESSION_DURATION_ANNOTATION) {
        None => {
            return Err(Error::MissingData(String::from_str("template#session_duration")));
        },
        Some(d) => d,
    };
    let secs = match str_to_session_duration_minutes(dtext.as_str()) {
        Err(e) => {
            return Err(e);
        },
        Ok(s) => s,
    };
    let details = match pod_to_details(&pod.status) {
        Err(e) => {
            return Err(e);
        },
        Ok(d) => d,
    };
    let node = match &pod.spec {
        None => {
            return Err(Error::MissingData(String::from_str("pod#spec")));
        },
        Some(ps) => match &ps.node_name {
            None => {
                return Err(Error::MissingData(String::from_str("pod#spec#node_name")));
            },
            Some(n) => n.clone(),
        },
    };
    let url = subdomain(host, user.as_str());
    Ok(Session { user_id: user, template: tpl, url, pod: details, duration: secs, node })
}

} // verus!
