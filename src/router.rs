use vstd::prelude::*;

use crate::addr_set::AddrSet;
use crate::network::{join, Network, Pair};
use crate::workload::{controller_ref_of, copy_opt, copy_pairs, decimal_of, decimal_text, opt_text, pairs_view, text, OwnerRef};

verus! {

/// Label that binds a router to the network it belongs to.
pub const NETWORK_LABEL_KEY: &'static str = "network.named-data.net/name";
pub const ROUTER_FINALIZER: &'static str = "routers.named-data.net/finalizer";
pub const ROUTER_MANAGER_NAME: &'static str = "router-controller";
pub const UDP_UNICAST_PORT: i32 = 6363;

/// The four transport addresses at which a router may be reached.
#[derive(Debug)]
pub struct RouterFaces {
    pub udp4: Option<String>,
    pub tcp4: Option<String>,
    pub udp6: Option<String>,
    pub tcp6: Option<String>,
}

/// The address held by one face slot, if the slot holds a non-empty one.
pub open spec fn slot_set(slot: Option<String>) -> Set<Seq<char>> {
    match slot {
        Some(s) => if s@.len() > 0 { set![s@] } else { Set::empty() },
        None => Set::empty(),
    }
}

/// The effective face set: every non-empty address among the four slots.
pub open spec fn effective_faces(f: RouterFaces) -> Set<Seq<char>> {
    slot_set(f.udp4).union(slot_set(f.tcp4)).union(slot_set(f.udp6)).union(slot_set(f.tcp6))
}

fn add_slot(faces: &mut AddrSet, slot: &Option<String>)
    requires
        old(faces).wf(),
    ensures
        final(faces).wf(),
        final(faces)@ == old(faces)@.union(slot_set(*slot)),
{
    if let Some(s) = slot {
        if !s.as_str().is_empty() {
            faces.insert(s.clone());
            assert(final(faces)@ =~= old(faces)@.union(slot_set(*slot)));
        } else {
            assert(final(faces)@ =~= old(faces)@.union(slot_set(*slot)));
        }
    } else {
        assert(final(faces)@ =~= old(faces)@.union(slot_set(*slot)));
    }
}

impl RouterFaces {
    /// The effective face set of this record.
    pub fn to_btree_set(&self) -> (r: AddrSet)
        ensures
            r.wf(),
            r@ == effective_faces(*self),
    {
        let mut faces = AddrSet::new();
        add_slot(&mut faces, &self.udp4);
        add_slot(&mut faces, &self.tcp4);
        add_slot(&mut faces, &self.udp6);
        add_slot(&mut faces, &self.tcp6);
        assert(faces@ =~= effective_faces(*self));
        faces
    }
}

#[derive(Debug)]
pub struct RouterSpec {
    pub prefix: String,
    pub node: String,
    pub faces: RouterFaces,
}

#[derive(Debug)]
pub struct RouterStatus {
    pub online: bool,
    pub neighbors: AddrSet,
}

/// A router as the controller observes it.
#[derive(Debug)]
pub struct Router {
    pub name: String,
    pub namespace: Option<String>,
    pub owner: Option<OwnerRef>,
    pub labels: Vec<Pair>,
    pub annotations: Vec<Pair>,
    pub spec: RouterSpec,
    pub status: Option<RouterStatus>,
}

/// Which way a router is going when its faces are propagated.
#[derive(Clone, Copy, Debug, PartialEq, Eq, Structural)]
pub enum Direction {
    Online,
    Offline,
}

/// A status patch for one router, addressed by name.
#[derive(Debug)]
pub struct StatusPatch {
    pub router: String,
    pub status: RouterStatus,
}

/// A router's neighbor set as observed: empty while it has no status.
pub open spec fn observed_neighbors(r: Router) -> Set<Seq<char>> {
    match r.status {
        Some(st) => st.neighbors@,
        None => Set::empty(),
    }
}

pub open spec fn status_wf(r: Router) -> bool {
    match r.status {
        Some(st) => st.neighbors.wf(),
        None => true,
    }
}

/// The neighbor set of a sibling after a router with `faces` goes `going`.
pub open spec fn next_neighbors(current: Set<Seq<char>>, faces: Set<Seq<char>>, going: Direction) -> Set<Seq<char>> {
    match going {
        Direction::Online => current.union(faces),
        Direction::Offline => current.difference(faces),
    }
}

/// The siblings that a propagation from `me` touches: all but `me` itself.
pub open spec fn eligible(me: Seq<char>, siblings: Seq<Router>) -> Seq<Router> {
    siblings.filter(|r: Router| r.name@ != me)
}

/// The patch owed to sibling `s` when a router with `faces` goes `going`.
pub open spec fn patch_for(s: Router, faces: Set<Seq<char>>, going: Direction, p: StatusPatch) -> bool {
    &&& p.router@ == s.name@
    &&& p.status.online == (going == Direction::Online)
    &&& p.status.neighbors.wf()
    &&& p.status.neighbors@ == next_neighbors(observed_neighbors(s), faces, going)
}

/// The full plan of a propagation: one patch per eligible sibling, in order.
pub open spec fn plan_of(me: Router, siblings: Seq<Router>, going: Direction, plan: Seq<StatusPatch>) -> bool {
    let el = eligible(me.name@, siblings);
    &&& plan.len() == el.len()
    &&& forall|i: int| 0 <= i < plan.len() ==> #[trigger] patch_for(el[i], effective_faces(me.spec.faces), going, plan[i])
}

/// Computes the new neighbor set of one sibling.
pub fn sibling_neighbors(current: &Option<RouterStatus>, faces: &AddrSet, going: Direction) -> (r: AddrSet)
    requires
        faces.wf(),
        match current { Some(st) => st.neighbors.wf(), None => true },
    ensures
        r.wf(),
        r@ == next_neighbors(
            match current { Some(st) => st.neighbors@, None => Set::empty() },
            faces@,
            going,
        ),
{
    let mut next = match current {
        Some(st) => st.neighbors.clone_set(),
        None => AddrSet::new(),
    };
    let ghost start = next@;
    let list = faces.to_vec();
    let mut i: usize = 0;
    while i < list.len()
        invariant
            next.wf(),
            i <= list@.len(),
            next@ == next_neighbors(start, crate::addr_set::text_seq(list@.subrange(0, i as int)).to_set(), going),
        decreases list@.len() - i,
    {
        let ghost pre = next@;
        proof {
            let t = crate::addr_set::text_seq(list@.subrange(0, i as int));
            assert(crate::addr_set::text_seq(list@.subrange(0, i as int + 1)) =~= t.push(list@[i as int]@));
            t.lemma_push_to_set_commute(list@[i as int]@);
        }
        match going {
            Direction::Online => next.insert(list[i].clone()),
            Direction::Offline => next.remove(&list[i]),
        }
        i = i + 1;
        proof {
            let t = crate::addr_set::text_seq(list@.subrange(0, i as int));
            assert(next@ =~= next_neighbors(start, t.to_set(), going));
        }
    }
    proof {
        assert(list@.subrange(0, list@.len() as int) =~= list@);
    }
    next
}

impl Router {
    /// Plans the status patches that follow from this router going `going`:
    /// every sibling but this router itself gets its neighbor set widened by
    /// (online) or narrowed by (offline) this router's effective faces, and its
    /// online flag set to the direction of the call.
    pub fn propagate(&self, siblings: &Vec<Router>, going: Direction) -> (r: Vec<StatusPatch>)
        requires
            forall|i: int| 0 <= i < siblings@.len() ==> status_wf(#[trigger] siblings@[i]),
        ensures
            plan_of(*self, siblings@, going, r@),
    {
        let faces = self.spec.faces.to_btree_set();
        let mut plan: Vec<StatusPatch> = Vec::new();
        let mut i: usize = 0;
        while i < siblings.len()
            invariant
                faces.wf(),
                faces@ == effective_faces(self.spec.faces),
                i <= siblings@.len(),
                forall|k: int| 0 <= k < siblings@.len() ==> status_wf(#[trigger] siblings@[k]),
                plan_of(*self, siblings@.subrange(0, i as int), going, plan@),
            decreases siblings@.len() - i,
        {
            let s = &siblings[i];
            let ghost pre = plan@;
            proof {
                let sub = siblings@.subrange(0, i as int + 1);
                assert(sub.drop_last() =~= siblings@.subrange(0, i as int));
                reveal(Seq::filter);
            }
            if !(s.name == self.name) {
                let n = sibling_neighbors(&s.status, &faces, going);
                plan.push(StatusPatch {
                    router: s.name.clone(),
                    status: RouterStatus { online: going == Direction::Online, neighbors: n },
                });
                proof {
                    let el = eligible(self.name@, siblings@.subrange(0, i as int + 1));
                    assert(el =~= eligible(self.name@, siblings@.subrange(0, i as int)).push(*s));
                    assert forall|k: int| 0 <= k < plan@.len() implies #[trigger] patch_for(el[k], effective_faces(self.spec.faces), going, plan@[k]) by {
                        if k < pre.len() {
                            assert(plan@[k] == pre[k]);
                        }
                    }
                }
            } else {
                proof {
                    let el = eligible(self.name@, siblings@.subrange(0, i as int + 1));
                    assert(el =~= eligible(self.name@, siblings@.subrange(0, i as int)));
                }
            }
            i = i + 1;
        }
        proof {
            assert(siblings@.subrange(0, siblings@.len() as int) =~= siblings@);
        }
        plan
    }
}

/// The UDP face of an IPv4 address.
pub open spec fn udp4_face(ip: Seq<char>, port: int) -> Seq<char> {
    "udp://"@ + ip + ":"@ + decimal_of(port)
}

/// The UDP face of an IPv6 address.
pub open spec fn udp6_face(ip: Seq<char>, port: int) -> Seq<char> {
    "udp://["@ + ip + "]:"@ + decimal_of(port)
}

pub open spec fn face_from(ip: Option<String>, port: int, v6: bool) -> Option<Seq<char>> {
    match ip {
        Some(a) => Some(if v6 { udp6_face(a@, port) } else { udp4_face(a@, port) }),
        None => None,
    }
}

/// The pairs of `v` whose key is not `k`.
pub open spec fn without_key(v: Seq<Pair>, k: Seq<char>) -> Seq<Pair> {
    v.filter(|p: Pair| p.key@ != k)
}

/// Labels `v` with key `k` set to `val`, any earlier value of `k` dropped.
pub open spec fn labels_with(v: Seq<Pair>, k: Seq<char>, val: Seq<char>) -> Seq<(Seq<char>, Seq<char>)> {
    pairs_view(without_key(v, k)).push((k, val))
}

fn set_label(v: &Vec<Pair>, k: &str, val: String) -> (r: Vec<Pair>)
    ensures
        pairs_view(r@) == labels_with(v@, k@, val@),
{
    let key = text(k);
    let mut r: Vec<Pair> = Vec::new();
    let mut i: usize = 0;
    while i < v.len()
        invariant
            key@ == k@,
            i <= v@.len(),
            pairs_view(r@) =~= pairs_view(without_key(v@.subrange(0, i as int), k@)),
        decreases v@.len() - i,
    {
        let ghost pre = r@;
        proof {
            assert(v@.subrange(0, i as int + 1).drop_last() =~= v@.subrange(0, i as int));
            reveal(Seq::filter);
        }
        if !(v[i].key == key) {
            r.push(Pair { key: text(v[i].key.as_str()), value: text(v[i].value.as_str()) });
            proof {
                assert(without_key(v@.subrange(0, i as int + 1), k@) =~= without_key(v@.subrange(0, i as int), k@).push(v@[i as int]));
                assert(pairs_view(r@) =~= pairs_view(pre).push((v@[i as int].key@, v@[i as int].value@)));
            }
        } else {
            proof {
                assert(without_key(v@.subrange(0, i as int + 1), k@) =~= without_key(v@.subrange(0, i as int), k@));
            }
        }
        i = i + 1;
    }
    proof {
        assert(v@.subrange(0, v@.len() as int) =~= v@);
    }
    let ghost pre = r@;
    r.push(Pair { key, value: val });
    proof {
        assert(pairs_view(r@) =~= pairs_view(pre).push((k@, val@)));
    }
    r
}

/// Creates the router of node `node_name` in network `source`: it carries the
/// network's labels, with the network label set to the network's name, and its
/// annotations; its UDP faces come from the given addresses and port; it
/// starts offline with no neighbors.
pub fn create_owned_router(
    source: &Network,
    name: String,
    node_name: String,
    ip4: Option<String>,
    ip6: Option<String>,
    udp_unicast_port: i32,
) -> (r: Router)
    requires
        source.uid.is_some(),
    ensures
        r.name@ == name@,
        opt_text(r.namespace) == opt_text(source.namespace),
        r.owner matches Some(o) && o@ == controller_ref_of(source.name@, source.uid.unwrap()@),
        pairs_view(r.labels@) == labels_with(source.labels@, NETWORK_LABEL_KEY@, source.name@),
        pairs_view(r.annotations@) == pairs_view(source.annotations@),
        r.spec.prefix@ == source.spec.prefix@,
        r.spec.node@ == node_name@,
        opt_text(r.spec.faces.udp4) == face_from(ip4, udp_unicast_port as int, false),
        r.spec.faces.tcp4 is None,
        opt_text(r.spec.faces.udp6) == face_from(ip6, udp_unicast_port as int, true),
        r.spec.faces.tcp6 is None,
        r.status matches Some(st) && !st.online && st.neighbors.wf() && st.neighbors@ == Set::<Seq<char>>::empty(),
{
    let ghost (g4, g6) = (ip4, ip6);
    let udp4 = match ip4 {
        Some(ip) => {
            let head = join(join("udp://", ip.as_str()).as_str(), ":");
            Some(join(head.as_str(), decimal_text(udp_unicast_port).as_str()))
        },
        None => None,
    };
    let udp6 = match ip6 {
        Some(ip) => {
            let head = join(join("udp://[", ip.as_str()).as_str(), "]:");
            Some(join(head.as_str(), decimal_text(udp_unicast_port).as_str()))
        },
        None => None,
    };
    Router {
        name,
        namespace: copy_opt(&source.namespace),
        owner: Some(source.controller_owner_ref()),
        labels: set_label(&source.labels, NETWORK_LABEL_KEY, text(source.name.as_str())),
        annotations: copy_pairs(&source.annotations),
        spec: RouterSpec {
            prefix: text(source.spec.prefix.as_str()),
            node: node_name,
            faces: RouterFaces { udp4, tcp4: None, udp6, tcp6: None },
        },
        status: Some(RouterStatus { online: false, neighbors: AddrSet::new() }),
    }
}

} // verus!
