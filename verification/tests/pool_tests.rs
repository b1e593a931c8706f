use playground::pools::nodes_to_pool;
use playground::pools::pool_of_listed_nodes;
use playground::pools::pools_from_nodes;
use playground::types::NameValue;
use playground::types::NodeRecord;
use playground::Error;

fn nv(name: &str, value: &str) -> NameValue {
    NameValue {
        name: name.to_string(),
        value: value.to_string(),
    }
}

fn node(pool: Option<&str>, hostname: &str) -> NodeRecord {
    let mut labels = vec![nv("kubernetes.io/hostname", hostname)];
    if let Some(p) = pool {
        labels.push(nv("cloud.google.com/gke-nodepool", p));
    }
    NodeRecord {
        labels: Some(labels),
    }
}

#[test]
fn pool_aggregation_groups_by_label_with_default_bucket() {
    let nodes = vec![
        node(Some("x"), "a"),
        node(Some("x"), "b"),
        node(None, "c"),
    ];
    let pools = pools_from_nodes(&nodes);
    assert_eq!(pools.len(), 2);
    assert_eq!(pools[0].0, "x");
    let hostnames: Vec<&str> = pools[0].1.nodes.iter().map(|n| n.hostname.as_str()).collect();
    assert_eq!(hostnames, vec!["a", "b"]);
    assert_eq!(pools[1].0, "default");
    let hostnames: Vec<&str> = pools[1].1.nodes.iter().map(|n| n.hostname.as_str()).collect();
    assert_eq!(hostnames, vec!["c"]);
}

#[test]
fn nodes_without_any_labels_fall_into_the_default_pool() {
    let nodes = vec![NodeRecord { labels: None }, node(Some("x"), "a")];
    let pools = pools_from_nodes(&nodes);
    assert_eq!(pools.len(), 2);
    assert_eq!(pools[0].0, "default");
    assert_eq!(pools[0].1.instance_type.as_deref(), Some("local"));
    assert_eq!(pools[0].1.nodes[0].hostname, "unknown");
    assert_eq!(pools[1].0, "x");
    assert_eq!(pools[1].1.nodes.len(), 1);
}

#[test]
fn pool_derivation_reads_first_node() {
    let mut first = node(Some("x"), "a");
    first
        .labels
        .as_mut()
        .unwrap()
        .push(nv("node.kubernetes.io/instance-type", "n2-standard-8"));
    let pool = nodes_to_pool("x".to_string(), &vec![first, node(Some("x"), "b")]).unwrap();
    assert_eq!(pool.name, "x");
    assert_eq!(pool.instance_type.as_deref(), Some("n2-standard-8"));
    assert_eq!(pool.nodes.len(), 2);
    assert_eq!(pool.nodes[0].hostname, "a");
}

#[test]
fn pool_derivation_falls_back_to_sentinels() {
    let bare = NodeRecord {
        labels: Some(vec![]),
    };
    let pool = nodes_to_pool("x".to_string(), &vec![bare]).unwrap();
    assert_eq!(pool.instance_type.as_deref(), Some("local"));
    assert_eq!(pool.nodes[0].hostname, "unknown");
}

#[test]
fn pool_derivation_fails_only_on_no_nodes() {
    assert_eq!(
        nodes_to_pool("x".to_string(), &vec![]),
        Err(Error::MissingData("empty vec of nodes".to_string()))
    );
    // A first node with no label set at all still derives a pool.
    let pool = nodes_to_pool("x".to_string(), &vec![NodeRecord { labels: None }]).unwrap();
    assert_eq!(pool.instance_type.as_deref(), Some("local"));
    assert_eq!(pool.nodes[0].hostname, "unknown");
    // Absence of nodes resolves to an absent pool, not an error.
    assert_eq!(pool_of_listed_nodes("x".to_string(), &vec![]), None);
}
