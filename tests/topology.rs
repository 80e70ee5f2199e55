use ndn_operator::addr_set::AddrSet;
use ndn_operator::network::{Network, NetworkSpec, Pair};
use ndn_operator::reconcile::{next_step, settle, FinalizerStep};
use ndn_operator::router::{
    create_owned_router, Direction, Router, RouterFaces, RouterSpec, RouterStatus, StatusPatch,
};

fn faces(udp4: Option<&str>, tcp4: Option<&str>, udp6: Option<&str>, tcp6: Option<&str>) -> RouterFaces {
    RouterFaces {
        udp4: udp4.map(|s| s.to_string()),
        tcp4: tcp4.map(|s| s.to_string()),
        udp6: udp6.map(|s| s.to_string()),
        tcp6: tcp6.map(|s| s.to_string()),
    }
}

fn router(name: &str, f: RouterFaces) -> Router {
    Router {
        name: name.to_string(),
        namespace: Some("default".to_string()),
        owner: None,
        labels: vec![Pair { key: "network.named-data.net/name".to_string(), value: "n1".to_string() }],
        annotations: Vec::new(),
        spec: RouterSpec { prefix: "/ndn".to_string(), node: format!("node-{name}"), faces: f },
        status: Some(RouterStatus { online: false, neighbors: AddrSet::new() }),
    }
}

fn sorted(s: &AddrSet) -> Vec<String> {
    let mut v = s.to_vec();
    v.sort();
    v
}

fn neighbors(r: &Router) -> Vec<String> {
    match &r.status {
        Some(st) => sorted(&st.neighbors),
        None => Vec::new(),
    }
}

fn apply(cluster: &mut Vec<Router>, plan: Vec<StatusPatch>) {
    for p in plan {
        let r = cluster.iter_mut().find(|r| r.name == p.router).expect("patched router exists");
        r.status = Some(p.status);
    }
}

fn network(name: &str) -> Network {
    Network {
        name: name.to_string(),
        namespace: Some("default".to_string()),
        uid: Some("uid-1".to_string()),
        labels: vec![Pair { key: "team".to_string(), value: "ndn".to_string() }],
        annotations: vec![Pair { key: "note".to_string(), value: "x".to_string() }],
        spec: NetworkSpec { prefix: "/ndn".to_string(), udp_unicast_port: 6363, node_selector: None },
        status: None,
    }
}

#[test]
fn face_set_of_empty_slots_is_empty() {
    let f = faces(None, None, None, None);
    assert_eq!(f.to_btree_set().len(), 0);
}

#[test]
fn face_set_takes_udp4_and_udp6() {
    let f = faces(Some("X"), None, Some("Y"), None);
    let s = f.to_btree_set();
    assert_eq!(sorted(&s), vec!["X".to_string(), "Y".to_string()]);
    let g = faces(Some("X"), Some(""), Some("Y"), Some(""));
    assert_eq!(sorted(&g.to_btree_set()), vec!["X".to_string(), "Y".to_string()]);
}

#[test]
fn face_set_merges_equal_addresses() {
    let f = faces(Some("a"), Some("a"), Some("b"), Some("c"));
    assert_eq!(f.to_btree_set().len(), 3);
}

#[test]
fn addr_set_insert_and_remove() {
    let mut s = AddrSet::new();
    s.insert("a".to_string());
    s.insert("b".to_string());
    s.insert("a".to_string());
    assert_eq!(s.len(), 2);
    assert!(s.contains(&"a".to_string()));
    s.remove(&"a".to_string());
    s.remove(&"z".to_string());
    assert_eq!(sorted(&s), vec!["b".to_string()]);
}

#[test]
fn two_routers_see_each_other_and_cleanup_removes() {
    let mut cluster = vec![
        router("r1", faces(Some("udp://10.0.0.1:6363"), None, None, None)),
        router("r2", faces(Some("udp://10.0.0.2:6363"), None, None, None)),
    ];
    let (plan, ev) = cluster[0].reconcile(&cluster);
    assert_eq!(plan.len(), 1);
    assert_eq!(ev.reason, "RouterUpdated");
    assert_eq!(ev.note, "Updated `r1` Router");
    apply(&mut cluster, plan);
    let (plan, _) = cluster[1].reconcile(&cluster);
    apply(&mut cluster, plan);
    assert!(cluster.iter().all(|r| r.status.as_ref().unwrap().online));
    assert_eq!(neighbors(&cluster[0]), vec!["udp://10.0.0.2:6363".to_string()]);
    assert_eq!(neighbors(&cluster[1]), vec!["udp://10.0.0.1:6363".to_string()]);

    let (plan, ev) = cluster[0].cleanup(&cluster);
    assert_eq!(ev.reason, "RouterDeleted");
    assert_eq!(ev.note, "Deleted `r1` Router");
    apply(&mut cluster, plan);
    assert!(neighbors(&cluster[1]).is_empty());
    assert!(!cluster[1].status.as_ref().unwrap().online);
}

#[test]
fn reverse_order_gives_same_neighbors() {
    let mut cluster = vec![
        router("r1", faces(Some("udp://10.0.0.1:6363"), None, None, None)),
        router("r2", faces(Some("udp://10.0.0.2:6363"), None, None, None)),
    ];
    let (plan, _) = cluster[1].reconcile(&cluster);
    apply(&mut cluster, plan);
    let (plan, _) = cluster[0].reconcile(&cluster);
    apply(&mut cluster, plan);
    assert_eq!(neighbors(&cluster[0]), vec!["udp://10.0.0.2:6363".to_string()]);
    assert_eq!(neighbors(&cluster[1]), vec!["udp://10.0.0.1:6363".to_string()]);
}

#[test]
fn online_then_offline_restores_neighbors() {
    let mut cluster = vec![
        router("a", faces(Some("fa"), Some("fb"), None, None)),
        router("b", faces(None, None, None, None)),
    ];
    let mut st = AddrSet::new();
    st.insert("other".to_string());
    cluster[1].status = Some(RouterStatus { online: false, neighbors: st });
    let before = neighbors(&cluster[1]);
    let plan = cluster[0].propagate(&cluster, Direction::Online);
    apply(&mut cluster, plan);
    assert_eq!(neighbors(&cluster[1]), vec!["fa".to_string(), "fb".to_string(), "other".to_string()]);
    let plan = cluster[0].propagate(&cluster, Direction::Offline);
    apply(&mut cluster, plan);
    assert_eq!(neighbors(&cluster[1]), before);
}

#[test]
fn sibling_without_status_starts_empty() {
    let mut cluster = vec![
        router("a", faces(Some("fa"), None, None, None)),
        router("b", faces(None, None, None, None)),
    ];
    cluster[1].status = None;
    let plan = cluster[0].propagate(&cluster, Direction::Offline);
    assert_eq!(plan.len(), 1);
    assert_eq!(plan[0].router, "b");
    assert!(!plan[0].status.online);
    assert_eq!(plan[0].status.neighbors.len(), 0);
}

#[test]
fn router_without_faces_changes_no_neighbor_set() {
    let mut cluster = vec![
        router("a", faces(None, None, None, None)),
        router("b", faces(Some("fb"), None, None, None)),
    ];
    let mut st = AddrSet::new();
    st.insert("x".to_string());
    cluster[1].status = Some(RouterStatus { online: false, neighbors: st });
    let plan = cluster[0].propagate(&cluster, Direction::Online);
    apply(&mut cluster, plan);
    assert_eq!(neighbors(&cluster[1]), vec!["x".to_string()]);
}

#[test]
fn failed_patch_does_not_stop_others() {
    let cluster = vec![
        router("a", faces(Some("fa"), None, None, None)),
        router("b", faces(None, None, None, None)),
        router("c", faces(None, None, None, None)),
    ];
    let plan = cluster[0].propagate(&cluster, Direction::Online);
    assert_eq!(plan.len(), 2);
    let report = settle(&plan, &vec![true, false]);
    assert_eq!(report.updated, vec!["c".to_string()]);
    assert!(!report.failed);
    let report = settle(&plan, &vec![true, true]);
    assert!(report.updated.is_empty());
    assert!(report.failed);
    let report = settle(&Vec::new(), &Vec::new());
    assert!(!report.failed);
}

#[test]
fn finalizer_steps() {
    assert_eq!(next_step(false, false), FinalizerStep::AddFinalizer);
    assert_eq!(next_step(false, true), FinalizerStep::Reconcile);
    assert_eq!(next_step(true, true), FinalizerStep::Cleanup);
    assert_eq!(next_step(true, false), FinalizerStep::Nothing);
    assert!(ndn_operator::reconcile::may_remove_finalizer(FinalizerStep::Cleanup, true));
    assert!(!ndn_operator::reconcile::may_remove_finalizer(FinalizerStep::Cleanup, false));
    assert!(!ndn_operator::reconcile::may_remove_finalizer(FinalizerStep::Reconcile, true));
}

#[test]
fn owned_router_of_network() {
    let n = network("n1");
    let r = create_owned_router(
        &n,
        "r1".to_string(),
        "node-a".to_string(),
        Some("10.0.0.1".to_string()),
        Some("fe80::1".to_string()),
        6363,
    );
    assert_eq!(r.name, "r1");
    assert_eq!(r.namespace.as_deref(), Some("default"));
    assert_eq!(r.spec.faces.udp4.as_deref(), Some("udp://10.0.0.1:6363"));
    assert_eq!(r.spec.faces.udp6.as_deref(), Some("udp://[fe80::1]:6363"));
    assert!(r.spec.faces.tcp4.is_none() && r.spec.faces.tcp6.is_none());
    assert_eq!(r.spec.prefix, "/ndn");
    assert_eq!(r.spec.node, "node-a");
    let owner = r.owner.as_ref().unwrap();
    assert_eq!(owner.kind, "Network");
    assert_eq!(owner.name, "n1");
    assert_eq!(owner.uid, "uid-1");
    assert!(owner.controller);
    let labels: Vec<(String, String)> = r.labels.iter().map(|p| (p.key.clone(), p.value.clone())).collect();
    assert_eq!(
        labels,
        vec![
            ("team".to_string(), "ndn".to_string()),
            ("network.named-data.net/name".to_string(), "n1".to_string()),
        ]
    );
    assert_eq!(r.annotations.len(), 1);
    let st = r.status.as_ref().unwrap();
    assert!(!st.online);
    assert_eq!(st.neighbors.len(), 0);
}

#[test]
fn owned_router_overrides_network_label() {
    let mut n = network("n2");
    n.labels.push(Pair { key: "network.named-data.net/name".to_string(), value: "stale".to_string() });
    let r = create_owned_router(&n, "r".to_string(), "node".to_string(), None, None, 1);
    assert!(r.spec.faces.udp4.is_none() && r.spec.faces.udp6.is_none());
    let values: Vec<&str> = r
        .labels
        .iter()
        .filter(|p| p.key == "network.named-data.net/name")
        .map(|p| p.value.as_str())
        .collect();
    assert_eq!(values, vec!["n2"]);
}

#[test]
fn mixed_events_converge_to_online_faces() {
    let mut cluster = vec![
        router("r1", faces(Some("a1"), None, Some("a6"), None)),
        router("r2", faces(Some("b1"), None, None, None)),
        router("r3", faces(None, Some("c1"), None, None)),
    ];
    let events: Vec<(usize, bool)> = vec![(2, true), (0, true), (1, true), (2, false), (0, true), (1, false), (1, true)];
    for (who, online) in events {
        let plan = cluster[who].propagate(&cluster, if online { Direction::Online } else { Direction::Offline });
        apply(&mut cluster, plan);
    }
    // r1 and r2 are online, r3 went offline
    assert_eq!(neighbors(&cluster[0]), vec!["b1".to_string()]);
    assert_eq!(neighbors(&cluster[1]), vec!["a1".to_string(), "a6".to_string()]);
    assert_eq!(neighbors(&cluster[2]), vec!["a1".to_string(), "a6".to_string(), "b1".to_string()]);
}
