//! Pool and node aggregation: grouping cluster nodes by their pool label and
//! deriving pool-level facts.
//!
//! A pool's instance type is read from its first node (all nodes of a pool
//! are assumed to share one); nodes lacking a label fall back to sentinels.
//! When grouping a whole cluster, nodes without a pool label — including
//! nodes carrying no label set at all — fall into the "default" pool.

use vstd::prelude::*;

verus! {

use crate::Error;
use crate::names::HOSTNAME_LABEL;
use crate::names::INSTANCE_TYPE_LABEL;
use crate::names::NODE_POOL_LABEL;
use crate::text::str_eq;
use crate::types::ErrorView;
use crate::types::Node;
use crate::types::NodeRecord;
use crate::types::NodeRecordView;
use crate::types::NodeView;
use crate::types::Pool;
use crate::types::PoolView;
use crate::types::lookup_value;
use crate::types::result_view;
use crate::types::spec_lookup;
use vstd::string::StringExecFns;

/// The hostname a node record surfaces: its hostname label, or "unknown".
pub open spec fn spec_record_hostname(n: NodeRecordView) -> Seq<char> {
    match n.labels {
        Some(l) => match spec_lookup(l, HOSTNAME_LABEL@) {
            Some(h) => h,
            None => "unknown"@,
        },
        None => "unknown"@,
    }
}

/// The instance type a node record surfaces: its instance-type label, or
/// "local".
pub open spec fn spec_record_instance_type(n: NodeRecordView) -> Seq<char> {
    match n.labels {
        Some(l) => match spec_lookup(l, INSTANCE_TYPE_LABEL@) {
            Some(t) => t,
            None => "local"@,
        },
        None => "local"@,
    }
}

/// The node, as reported, that a node record surfaces.
pub open spec fn spec_pool_nodes(nodes: Seq<NodeRecordView>) -> Seq<NodeView> {
    nodes.map_values(|n: NodeRecordView| NodeView { hostname: spec_record_hostname(n) })
}

/// What deriving a pool named `id` from `nodes` yields: it cannot be derived
/// from no nodes — the one failure — and otherwise the instance type is the
/// first node's, defaulting to "local" when the label or the whole label set
/// is absent, and every node surfaces its hostname.
pub open spec fn spec_nodes_to_pool(id: Seq<char>, nodes: Seq<NodeRecordView>) -> Result<
    PoolView,
    ErrorView,
> {
    if nodes.len() == 0 {
        Err(ErrorView::MissingData("empty vec of nodes"@))
    } else {
        Ok(
            PoolView {
                name: id,
                instance_type: Some(spec_record_instance_type(nodes[0])),
                nodes: spec_pool_nodes(nodes),
            },
        )
    }
}

/// The instance type a node record surfaces.
fn record_instance_type(n: &NodeRecord) -> (r: String)
    ensures
        r@ == spec_record_instance_type(n.deep_view()),
{
    match &n.labels {
        Some(l) => match lookup_value(l, INSTANCE_TYPE_LABEL) {
            Some(t) => t,
            None => String::from_str("local"),
        },
        None => String::from_str("local"),
    }
}

/// The hostname a node record surfaces.
fn record_hostname(n: &NodeRecord) -> (r: String)
    ensures
        r@ == spec_record_hostname(n.deep_view()),
{
    match &n.labels {
        Some(l) => match lookup_value(l, HOSTNAME_LABEL) {
            Some(h) => h,
            None => String::from_str("unknown"),
        },
        None => String::from_str("unknown"),
    }
}

/// Derives the pool named `id` from the nodes carrying its label.
pub fn nodes_to_pool(id: String, nodes: &Vec<NodeRecord>) -> (r: Result<Pool, Error>)
    ensures
        result_view(r) == spec_nodes_to_pool(id@, nodes.deep_view()),
{
    if nodes.len() == 0 {
        return Err(Error::MissingData(String::from_str("empty vec of nodes")));
    }
    let instance_type = record_instance_type(&nodes[0]);
    proof {
        assert(nodes[0].deep_view() == nodes.deep_view()[0]);
    }
    let n = nodes.len();
    let mut out: Vec<Node> = Vec::new();
    let mut i: usize = 0;
    while i < n
        invariant
            n == nodes.len(),
            0 <= i <= n,
            out.deep_view() =~= spec_pool_nodes(nodes.deep_view().take(i as int)),
        decreases n - i,
    {
        let ghost prev = out.deep_view();
        let hostname = record_hostname(&nodes[i]);
        let ghost hv: Seq<char> = hostname@;
        out.push(Node { hostname });
        proof {
            assert(out.deep_view() =~= prev.push(NodeView { hostname: hv }));
            assert(nodes[i as int].deep_view() == nodes.deep_view()[i as int]);
            assert(nodes.deep_view().take(i + 1).drop_last() =~= nodes.deep_view().take(i as int));
            assert(out.deep_view() =~= spec_pool_nodes(nodes.deep_view().take(i + 1)));
        }
        i = i + 1;
    }
    proof {
        assert(nodes.deep_view().take(n as int) =~= nodes.deep_view());
    }
    Ok(Pool { name: id, instance_type: Some(instance_type), nodes: out })
}

/// Resolves a pool by id from the nodes its label selector matched: a pool
/// that cannot be derived is absent, not an error.
pub fn pool_of_listed_nodes(id: String, nodes: &Vec<NodeRecord>) -> (r: Option<Pool>)
    ensures
        match r {
            Some(p) => spec_nodes_to_pool(id@, nodes.deep_view()) == Ok::<PoolView, ErrorView>(
                p.deep_view(),
            ),
            None => spec_nodes_to_pool(id@, nodes.deep_view()) is Err,
        },
{
    match nodes_to_pool(id, nodes) {
        Ok(p) => Some(p),
        Err(_) => None,
    }
}

/// The pool a node record falls into: its pool label if it carries one, the
/// "default" pool otherwise — also when the node carries no label set at
/// all. Every node falls into exactly one pool.
pub open spec fn spec_group_key(n: NodeRecordView) -> Seq<char> {
    match n.labels {
        None => "default"@,
        Some(l) => match spec_lookup(l, NODE_POOL_LABEL@) {
            Some(k) => k,
            None => "default"@,
        },
    }
}

/// The distinct pool ids of `nodes`, in order of first appearance.
pub open spec fn spec_first_keys(nodes: Seq<NodeRecordView>) -> Seq<Seq<char>>
    decreases nodes.len(),
{
    if nodes.len() == 0 {
        Seq::empty()
    } else {
        let prefix = spec_first_keys(nodes.drop_last());
        let k = spec_group_key(nodes.last());
        if prefix.contains(k) {
            prefix
        } else {
            prefix.push(k)
        }
    }
}

/// The nodes of `nodes` that fall into the pool `k`, in order.
pub open spec fn spec_nodes_with_key(nodes: Seq<NodeRecordView>, k: Seq<char>) -> Seq<
    NodeRecordView,
>
    decreases nodes.len(),
{
    if nodes.len() == 0 {
        Seq::empty()
    } else {
        let prefix = spec_nodes_with_key(nodes.drop_last(), k);
        if spec_group_key(nodes.last()) == k {
            prefix.push(nodes.last())
        } else {
            prefix
        }
    }
}

/// The pools derived for each id of `keys` in turn, from the nodes falling
/// under that id; an id whose pool cannot be derived is dropped.
pub open spec fn spec_pools_of_keys(nodes: Seq<NodeRecordView>, keys: Seq<Seq<char>>) -> Seq<
    (Seq<char>, PoolView),
>
    decreases keys.len(),
{
    if keys.len() == 0 {
        Seq::empty()
    } else {
        let prefix = spec_pools_of_keys(nodes, keys.drop_last());
        let k = keys.last();
        match spec_nodes_to_pool(k, spec_nodes_with_key(nodes, k)) {
            Ok(p) => prefix.push((k, p)),
            Err(_) => prefix,
        }
    }
}

/// The pools a cluster aggregates into: one per distinct pool id, in order of
/// first appearance, each derived from its nodes.
pub open spec fn spec_pools_from_nodes(nodes: Seq<NodeRecordView>) -> Seq<(Seq<char>, PoolView)> {
    spec_pools_of_keys(nodes, spec_first_keys(nodes))
}

/// The pool id a node record falls under.
fn group_key(n: &NodeRecord) -> (r: String)
    ensures
        r@ == spec_group_key(n.deep_view()),
{
    match &n.labels {
        None => String::from_str("default"),
        Some(l) => match lookup_value(l, NODE_POOL_LABEL) {
            Some(k) => k,
            None => String::from_str("default"),
        },
    }
}

/// Whether `k` is among `keys`.
fn contains_key(keys: &Vec<String>, k: &str) -> (r: bool)
    ensures
        r == keys.deep_view().contains(k@),
{
    let n = keys.len();
    let mut i: usize = 0;
    while i < n
        invariant
            n == keys.len(),
            0 <= i <= n,
            forall|j: int| 0 <= j < i ==> keys.deep_view()[j] != k@,
        decreases n - i,
    {
        if str_eq(keys[i].as_str(), k) {
            proof {
                assert(keys.deep_view()[i as int] == k@);
            }
            return true;
        }
        i = i + 1;
    }
    proof {
        assert(!keys.deep_view().contains(k@));
    }
    false
}

/// The distinct pool ids of `nodes`, in order of first appearance.
fn first_keys(nodes: &Vec<NodeRecord>) -> (r: Vec<String>)
    ensures
        r.deep_view() == spec_first_keys(nodes.deep_view()),
{
    let n = nodes.len();
    let mut keys: Vec<String> = Vec::new();
    let mut i: usize = 0;
    proof {
        assert(nodes.deep_view().take(0) =~= Seq::<NodeRecordView>::empty());
    }
    while i < n
        invariant
            n == nodes.len(),
            0 <= i <= n,
            keys.deep_view() == spec_first_keys(nodes.deep_view().take(i as int)),
        decreases n - i,
    {
        proof {
            assert(nodes.deep_view().take(i + 1).drop_last() =~= nodes.deep_view().take(i as int));
            assert(nodes.deep_view().take(i + 1).last() == nodes.deep_view()[i as int]);
        }
        let k = group_key(&nodes[i]);
        if !contains_key(&keys, k.as_str()) {
            keys.push(k);
        }
        i = i + 1;
    }
    proof {
        assert(nodes.deep_view().take(n as int) =~= nodes.deep_view());
    }
    keys
}

/// The nodes of `nodes` that fall into the pool `k`, in order.
fn nodes_with_key(nodes: &Vec<NodeRecord>, k: &str) -> (r: Vec<NodeRecord>)
    ensures
        r.deep_view() == spec_nodes_with_key(nodes.deep_view(), k@),
{
    let n = nodes.len();
    let mut out: Vec<NodeRecord> = Vec::new();
    let mut i: usize = 0;
    proof {
        assert(nodes.deep_view().take(0) =~= Seq::<NodeRecordView>::empty());
    }
    while i < n
        invariant
            n == nodes.len(),
            0 <= i <= n,
            out.deep_view() == spec_nodes_with_key(nodes.deep_view().take(i as int), k@),
        decreases n - i,
    {
        proof {
            assert(nodes.deep_view().take(i + 1).drop_last() =~= nodes.deep_view().take(i as int));
            assert(nodes.deep_view().take(i + 1).last() == nodes.deep_view()[i as int]);
        }
        let g = group_key(&nodes[i]);
        let take_it = str_eq(g.as_str(), k);
        if take_it {
            let ghost prev = out.deep_view();
            out.push(crate::types::clone_node_record(&nodes[i]));
            proof {
                assert(nodes[i as int].deep_view() == nodes.deep_view()[i as int]);
                assert(out.deep_view() =~= prev.push(nodes.deep_view()[i as int]));
            }
        }
        i = i + 1;
    }
    proof {
        assert(nodes.deep_view().take(n as int) =~= nodes.deep_view());
    }
    out
}

/// Groups a whole cluster's nodes into pools: one pool per distinct pool id,
/// in order of first appearance, each holding its nodes in cluster order.
pub fn pools_from_nodes(nodes: &Vec<NodeRecord>) -> (r: Vec<(String, Pool)>)
    ensures
        r.deep_view() == spec_pools_from_nodes(nodes.deep_view()),
{
    let keys = first_keys(nodes);
    let n = keys.len();
    let mut out: Vec<(String, Pool)> = Vec::new();
    let mut i: usize = 0;
    proof {
        assert(keys.deep_view().take(0) =~= Seq::<Seq<char>>::empty());
    }
    while i < n
        invariant
            n == keys.len(),
            0 <= i <= n,
            keys.deep_view() == spec_first_keys(nodes.deep_view()),
            out.deep_view() == spec_pools_of_keys(
                nodes.deep_view(),
                keys.deep_view().take(i as int),
            ),
        decreases n - i,
    {
        let k = keys[i].clone();
        let ghost kv: Seq<char> = k@;
        let bucket = nodes_with_key(nodes, k.as_str());
        proof {
            assert(kv == keys.deep_view()[i as int]);
            assert(bucket.deep_view() == spec_nodes_with_key(nodes.deep_view(), kv));
            assert(keys.deep_view().take(i + 1).drop_last() =~= keys.deep_view().take(i as int));
            assert(keys.deep_view().take(i + 1).last() == keys.deep_view()[i as int]);
        }
        match nodes_to_pool(k.clone(), &bucket) {
            Ok(p) => {
                let ghost pv = p.deep_view();
                out.push((k, p));
                proof {
                    assert(spec_nodes_to_pool(kv, spec_nodes_with_key(nodes.deep_view(), kv))
                        == Ok::<PoolView, ErrorView>(pv));
                    assert(out.deep_view() =~= spec_pools_of_keys(
                        nodes.deep_view(),
                        keys.deep_view().take(i + 1),
                    ));
                }
            },
            Err(_) => {
                proof {
                    assert(spec_nodes_to_pool(kv, spec_nodes_with_key(nodes.deep_view(), kv))
                        is Err);
                    assert(out.deep_view() =~= spec_pools_of_keys(
                        nodes.deep_view(),
                        keys.deep_view().take(i + 1),
                    ));
                }
            },
        }
        i = i + 1;
    }
    proof {
        assert(keys.deep_view().take(n as int) =~= keys.deep_view());
    }
    out
}

} // verus!
