use vstd::prelude::*;

use crate::network::{Network, NETWORK_KIND};
use crate::reconcile::kept;
use crate::router::{
    effective_faces, eligible, next_neighbors, observed_neighbors, patch_for, plan_of, slot_set, Direction, Router,
    RouterFaces, StatusPatch,
};
use crate::workload::{controller_ref_of, opt_pairs_view, opt_text, workload_of, OwnerRefView};

verus! {

/// Two networks that agree on name, uid, port and node selector get the same
/// workload from the same image and service account: generating twice
/// changes nothing.
pub proof fn lemma_workload_deterministic(
    n1: Network,
    n2: Network,
    image: Option<Seq<char>>,
    service_account: Option<Seq<char>>,
)
    requires
        n1.uid.is_some(),
        n2.uid.is_some(),
        n1.name@ == n2.name@,
        n1.uid.unwrap()@ == n2.uid.unwrap()@,
        n1.spec.udp_unicast_port == n2.spec.udp_unicast_port,
        opt_pairs_view(n1.spec.node_selector) == opt_pairs_view(n2.spec.node_selector),
    ensures
        workload_of(n1, image, service_account) == workload_of(n2, image, service_account),
{
}

/// Whether the store's garbage collector may reclaim an object with owner
/// reference `owner`, given the uids of the networks that still exist.
pub open spec fn collectable(owner: OwnerRefView, live_networks: Set<Seq<char>>) -> bool {
    owner.kind == NETWORK_KIND@ && owner.controller && !live_networks.contains(owner.uid)
}

/// The workload of a network names that network as its controlling owner, so
/// once the network is gone the workload can be collected, with no delete
/// issued by the controller.
pub proof fn lemma_workload_owned(
    n: Network,
    image: Option<Seq<char>>,
    service_account: Option<Seq<char>>,
    live_networks: Set<Seq<char>>,
)
    requires
        n.uid.is_some(),
    ensures
        workload_of(n, image, service_account).owner == controller_ref_of(n.name@, n.uid.unwrap()@),
        workload_of(n, image, service_account).owner.name == n.name@,
        collectable(workload_of(n, image, service_account).owner, live_networks.remove(n.uid.unwrap()@)),
{
}

/// Going online and then offline again leaves a sibling's neighbor set as it
/// was, provided it held none of the router's faces before.
pub proof fn lemma_propagate_round_trip(me: Router, s: Router, up: StatusPatch, after: Router, down: StatusPatch)
    requires
        patch_for(s, effective_faces(me.spec.faces), Direction::Online, up),
        after.status == Some(up.status),
        patch_for(after, effective_faces(me.spec.faces), Direction::Offline, down),
        observed_neighbors(s).disjoint(effective_faces(me.spec.faces)),
    ensures
        down.status.neighbors@ == observed_neighbors(s),
{
    assert(down.status.neighbors@ =~= observed_neighbors(s));
}

/// A patch that did not fail is reported as applied, whatever became of the
/// other patches of the same propagation.
pub proof fn lemma_isolation(plan: Seq<StatusPatch>, failed: Seq<bool>, c: int)
    requires
        plan.len() == failed.len(),
        0 <= c < plan.len(),
        !failed[c],
    ensures
        kept(plan, failed, plan.len() as int).contains(plan[c].router@),
{
    lemma_kept_contains(plan, failed, c, plan.len() as int);
}

proof fn lemma_kept_contains(plan: Seq<StatusPatch>, failed: Seq<bool>, c: int, i: int)
    requires
        plan.len() == failed.len(),
        0 <= c < i <= plan.len(),
        !failed[c],
    ensures
        kept(plan, failed, i).contains(plan[c].router@),
    decreases i,
{
    if c == i - 1 {
        assert(kept(plan, failed, i).last() == plan[c].router@);
    } else {
        lemma_kept_contains(plan, failed, c, i - 1);
        let k = kept(plan, failed, i - 1);
        let w = choose|w: int| 0 <= w < k.len() && k[w] == plan[c].router@;
        if !failed[i - 1] {
            assert(kept(plan, failed, i)[w] == plan[c].router@);
        }
    }
}

/// A router whose four face slots are all empty has no effective face; one
/// with udp4 `x` and udp6 `y` and no TCP face has exactly `{x, y}`.
pub proof fn lemma_face_set_derivation(f: RouterFaces, x: Seq<char>, y: Seq<char>)
    ensures
        slot_set(f.udp4).is_empty() && slot_set(f.tcp4).is_empty() && slot_set(f.udp6).is_empty()
            && slot_set(f.tcp6).is_empty() ==> effective_faces(f).len() == 0,
        x.len() > 0 && y.len() > 0 && opt_text(f.udp4) == Some(x) && opt_text(f.udp6) == Some(y)
            && slot_set(f.tcp4).is_empty() && slot_set(f.tcp6).is_empty() ==> effective_faces(f) == set![x, y],
{
    if slot_set(f.udp4).is_empty() && slot_set(f.tcp4).is_empty() && slot_set(f.udp6).is_empty()
        && slot_set(f.tcp6).is_empty() {
        assert(effective_faces(f) =~= Set::<Seq<char>>::empty());
    }
    if x.len() > 0 && y.len() > 0 && opt_text(f.udp4) == Some(x) && opt_text(f.udp6) == Some(y)
        && slot_set(f.tcp4).is_empty() && slot_set(f.tcp6).is_empty() {
        assert(effective_faces(f) =~= set![x, y]);
    }
}

/// Neighbor sets of routers `0..n` after router `j` goes `going`: every other
/// router's set changes as a propagation from `j` patches it.
pub open spec fn step(
    faces: Seq<Set<Seq<char>>>,
    nbs: Seq<Set<Seq<char>>>,
    j: int,
    going: Direction,
) -> Seq<Set<Seq<char>>> {
    Seq::new(nbs.len(), |i: int| if i == j { nbs[i] } else { next_neighbors(nbs[i], faces[j], going) })
}

/// Neighbor sets after the events are reconciled in the order given.
pub open spec fn run(
    faces: Seq<Set<Seq<char>>>,
    nbs: Seq<Set<Seq<char>>>,
    events: Seq<(int, Direction)>,
) -> Seq<Set<Seq<char>>>
    decreases events.len(),
{
    if events.len() == 0 {
        nbs
    } else {
        step(faces, run(faces, nbs, events.drop_last()), events.last().0, events.last().1)
    }
}

/// `n` empty neighbor sets.
pub open spec fn empty_sets(n: nat) -> Seq<Set<Seq<char>>> {
    Seq::new(n, |i: int| Set::<Seq<char>>::empty())
}

/// Router `j` is online after `events`: its last event brought it online.
pub open spec fn is_online(events: Seq<(int, Direction)>, j: int) -> bool
    decreases events.len(),
{
    if events.len() == 0 {
        false
    } else if events.last().0 == j {
        events.last().1 == Direction::Online
    } else {
        is_online(events.drop_last(), j)
    }
}

/// Union of the faces of every online router other than `i`.
pub open spec fn others_faces(faces: Seq<Set<Seq<char>>>, events: Seq<(int, Direction)>, i: int) -> Set<Seq<char>> {
    Set::new(|a: Seq<char>| exists|j: int| 0 <= j < faces.len() && j != i && is_online(events, j) && #[trigger] faces[j].contains(a))
}

/// Convergence: starting from empty neighbor sets, after any sequence of
/// online and offline events of the routers of one network (any order,
/// repeats allowed), each router's neighbor set is the union of the
/// effective faces of all other routers that are online, provided no two
/// routers share an address.
pub proof fn lemma_convergence(faces: Seq<Set<Seq<char>>>, events: Seq<(int, Direction)>)
    requires
        forall|j: int, k: int| 0 <= j < faces.len() && 0 <= k < faces.len() && j != k ==> #[trigger] faces[j].disjoint(#[trigger] faces[k]),
        forall|e: int| 0 <= e < events.len() ==> 0 <= #[trigger] events[e].0 < faces.len(),
    ensures
        run(faces, empty_sets(faces.len()), events).len() == faces.len(),
        forall|i: int| 0 <= i < faces.len() ==> #[trigger] run(faces, empty_sets(faces.len()), events)[i] == others_faces(faces, events, i),
    decreases events.len(),
{
    let start = empty_sets(faces.len());
    if events.len() == 0 {
        assert forall|i: int| 0 <= i < faces.len() implies #[trigger] run(faces, start, events)[i] == others_faces(faces, events, i) by {
            assert(others_faces(faces, events, i) =~= Set::empty());
        }
    } else {
        let prev = events.drop_last();
        assert forall|e: int| 0 <= e < prev.len() implies 0 <= #[trigger] prev[e].0 < faces.len() by {
            assert(prev[e] == events[e]);
        }
        lemma_convergence(faces, prev);
        let before = run(faces, start, prev);
        let (j, going) = events.last();
        assert(0 <= j < faces.len()) by { assert(events[events.len() - 1] == events.last()); }
        assert forall|k: int| 0 <= k < faces.len() implies is_online(events, k) == (if k == j { going == Direction::Online } else { is_online(prev, k) }) by {}
        assert forall|i: int| 0 <= i < faces.len() implies #[trigger] run(faces, start, events)[i] == others_faces(faces, events, i) by {
            let now = run(faces, start, events);
            assert(before[i] == others_faces(faces, prev, i));
            if i == j {
                assert(now[i] =~= others_faces(faces, events, i)) by {
                    assert forall|a: Seq<char>| now[i].contains(a) implies others_faces(faces, events, i).contains(a) by {
                        let w = choose|w: int| 0 <= w < faces.len() && w != i && is_online(prev, w) && #[trigger] faces[w].contains(a);
                    }
                    assert forall|a: Seq<char>| others_faces(faces, events, i).contains(a) implies now[i].contains(a) by {
                        let w = choose|w: int| 0 <= w < faces.len() && w != i && is_online(events, w) && #[trigger] faces[w].contains(a);
                    }
                }
            } else {
                assert(now[i] =~= others_faces(faces, events, i)) by {
                    assert forall|a: Seq<char>| now[i].contains(a) implies others_faces(faces, events, i).contains(a) by {
                        if before[i].contains(a) && !(going == Direction::Online && faces[j].contains(a)) {
                            let w = choose|w: int| 0 <= w < faces.len() && w != i && is_online(prev, w) && #[trigger] faces[w].contains(a);
                            if w == j {
                                assert(going == Direction::Online);
                            }
                        }
                    }
                    assert forall|a: Seq<char>| others_faces(faces, events, i).contains(a) implies now[i].contains(a) by {
                        let w = choose|w: int| 0 <= w < faces.len() && w != i && is_online(events, w) && #[trigger] faces[w].contains(a);
                        if w != j {
                            assert(before[i].contains(a));
                            if going == Direction::Offline {
                                assert(faces[w].disjoint(faces[j]));
                            }
                        }
                    }
                }
            }
        }
    }
}

/// No two routers of the list share a name.
pub open spec fn distinct_names(cluster: Seq<Router>) -> bool {
    forall|j: int, k: int| 0 <= j < cluster.len() && 0 <= k < cluster.len() && j != k ==> #[trigger] cluster[j].name@ != #[trigger] cluster[k].name@
}

pub open spec fn faces_of(cluster: Seq<Router>) -> Seq<Set<Seq<char>>> {
    cluster.map_values(|r: Router| effective_faces(r.spec.faces))
}

pub open spec fn neighbors_of(cluster: Seq<Router>) -> Seq<Set<Seq<char>>> {
    cluster.map_values(|r: Router| observed_neighbors(r))
}

proof fn lemma_filter_keeps_all(cluster: Seq<Router>, me: Seq<char>)
    requires
        forall|k: int| 0 <= k < cluster.len() ==> #[trigger] cluster[k].name@ != me,
    ensures
        eligible(me, cluster) == cluster,
    decreases cluster.len(),
{
    reveal(Seq::filter);
    if cluster.len() > 0 {
        let d = cluster.drop_last();
        assert forall|k: int| 0 <= k < d.len() implies #[trigger] d[k].name@ != me by {
            assert(d[k] == cluster[k]);
        }
        lemma_filter_keeps_all(d, me);
        assert(cluster[cluster.len() - 1].name@ != me);
        assert(d.push(cluster.last()) =~= cluster);
    }
}

proof fn lemma_filter_drops_one(cluster: Seq<Router>, m: int)
    requires
        distinct_names(cluster),
        0 <= m < cluster.len(),
    ensures
        eligible(cluster[m].name@, cluster) == cluster.remove(m),
    decreases cluster.len(),
{
    reveal(Seq::filter);
    let me = cluster[m].name@;
    let d = cluster.drop_last();
    let n = cluster.len() - 1;
    if m == n {
        assert forall|k: int| 0 <= k < d.len() implies #[trigger] d[k].name@ != me by {
            assert(d[k] == cluster[k]);
        }
        lemma_filter_keeps_all(d, me);
        assert(cluster.remove(m) =~= d);
    } else {
        assert(distinct_names(d)) by {
            assert forall|j: int, k: int| 0 <= j < d.len() && 0 <= k < d.len() && j != k implies #[trigger] d[j].name@ != #[trigger] d[k].name@ by {
                assert(d[j] == cluster[j] && d[k] == cluster[k]);
            }
        }
        assert(d[m] == cluster[m]);
        lemma_filter_drops_one(d, m);
        assert(cluster[n].name@ != me);
        assert(d.remove(m).push(cluster.last()) =~= cluster.remove(m));
    }
}

/// The plan that a propagation from router `m` returns, applied to a cluster
/// of routers with distinct names, is one `step` of the convergence model:
/// router `i` (other than `m`) gets patch `i` or `i - 1`, and the neighbor set
/// it carries is the one `step` gives router `i`.
pub proof fn lemma_plan_is_step(cluster: Seq<Router>, m: int, going: Direction, plan: Seq<StatusPatch>)
    requires
        distinct_names(cluster),
        0 <= m < cluster.len(),
        plan_of(cluster[m], cluster, going, plan),
    ensures
        plan.len() == cluster.len() - 1,
        forall|k: int| 0 <= k < plan.len() ==> {
            let i = if k < m { k } else { k + 1 };
            &&& (#[trigger] plan[k]).router@ == cluster[i].name@
            &&& plan[k].status.neighbors@ == step(faces_of(cluster), neighbors_of(cluster), m, going)[i]
        },
{
    lemma_filter_drops_one(cluster, m);
    let el = eligible(cluster[m].name@, cluster);
    assert forall|k: int| 0 <= k < plan.len() implies {
        let i = if k < m { k } else { k + 1 };
        &&& (#[trigger] plan[k]).router@ == cluster[i].name@
        &&& plan[k].status.neighbors@ == step(faces_of(cluster), neighbors_of(cluster), m, going)[i]
    } by {
        let i = if k < m { k } else { k + 1 };
        assert(patch_for(el[k], effective_faces(cluster[m].spec.faces), going, plan[k]));
        assert(el[k] == cluster[i]);
    }
}

} // verus!
