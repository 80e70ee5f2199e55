use vstd::prelude::*;

use crate::network::{join, Network, NetworkStatus};
use crate::router::{plan_of, status_wf, Direction, Router, StatusPatch};
use crate::workload::{opt_text, text, workload_of, WorkloadDescriptor};

verus! {

/// What the finalizer lifecycle does next with an object.
#[derive(Clone, Copy, Debug, PartialEq, Eq, Structural)]
pub enum FinalizerStep {
    /// Not being deleted and not yet guarded: attach the finalizer marker.
    AddFinalizer,
    /// Not being deleted and guarded: run `reconcile`.
    Reconcile,
    /// Deletion requested while guarded: run `cleanup`, then drop the marker.
    Cleanup,
    /// Deletion requested and the marker gone: the store erases the object.
    Nothing,
}

/// Chooses the lifecycle step from whether deletion was requested and whether
/// the finalizer marker is present.
pub fn next_step(deletion_requested: bool, has_finalizer: bool) -> (r: FinalizerStep)
    ensures
        !deletion_requested && !has_finalizer <==> r == FinalizerStep::AddFinalizer,
        !deletion_requested && has_finalizer <==> r == FinalizerStep::Reconcile,
        deletion_requested && has_finalizer <==> r == FinalizerStep::Cleanup,
        deletion_requested && !has_finalizer <==> r == FinalizerStep::Nothing,
{
    if deletion_requested {
        if has_finalizer { FinalizerStep::Cleanup } else { FinalizerStep::Nothing }
    } else {
        if has_finalizer { FinalizerStep::Reconcile } else { FinalizerStep::AddFinalizer }
    }
}

/// Whether the finalizer marker may be removed: only once cleanup succeeded.
pub fn may_remove_finalizer(step: FinalizerStep, cleanup_succeeded: bool) -> (r: bool)
    ensures
        r <==> step == FinalizerStep::Cleanup && cleanup_succeeded,
{
    step == FinalizerStep::Cleanup && cleanup_succeeded
}

/// An event to publish about the object being reconciled.
#[derive(Debug)]
pub struct EventNote {
    pub reason: String,
    pub note: String,
    pub action: String,
}

pub open spec fn event_is(e: EventNote, reason: Seq<char>, note: Seq<char>, action: Seq<char>) -> bool {
    e.reason@ == reason && e.note@ == note && e.action@ == action
}

/// `prefix` + `` `name` `` + `suffix`.
pub open spec fn quoted(prefix: Seq<char>, name: Seq<char>, suffix: Seq<char>) -> Seq<char> {
    prefix + "`"@ + name + "`"@ + suffix
}

fn quote(prefix: &str, name: &str, suffix: &str) -> (r: String)
    ensures
        r@ == quoted(prefix@, name@, suffix@),
{
    let a = join(prefix, "`");
    let b = join(a.as_str(), name);
    let c = join(b.as_str(), "`");
    join(c.as_str(), suffix)
}

/// What a network's reconcile applies: its workload and its new status.
#[derive(Debug)]
pub struct NetworkReconcile {
    pub workload: WorkloadDescriptor,
    pub status: NetworkStatus,
}

/// Outcome of the patches of one propagation.
#[derive(Debug)]
pub struct PropagationReport {
    /// Names of the routers whose patch went through, in plan order.
    pub updated: Vec<String>,
    /// Whether the reconcile fails: every patch of a non-empty plan failed.
    pub failed: bool,
}

/// Names of the routers among the first `i` of `plan` whose patch did not fail.
pub open spec fn kept(plan: Seq<StatusPatch>, failed: Seq<bool>, i: int) -> Seq<Seq<char>>
    decreases i,
{
    if i <= 0 {
        Seq::empty()
    } else if !failed[i - 1] {
        kept(plan, failed, i - 1).push(plan[i - 1].router@)
    } else {
        kept(plan, failed, i - 1)
    }
}

pub open spec fn all_failed(failed: Seq<bool>) -> bool {
    failed.len() > 0 && forall|i: int| 0 <= i < failed.len() ==> failed[i]
}

/// Gathers the outcome of the patches of `plan`, `failed[i]` telling whether
/// the patch of `plan[i]` failed. Every patch counts on its own: one that
/// failed does not keep any other from being reported as applied.
pub fn settle(plan: &Vec<StatusPatch>, failed: &Vec<bool>) -> (r: PropagationReport)
    requires
        plan@.len() == failed@.len(),
    ensures
        text_list(r.updated@) == kept(plan@, failed@, plan@.len() as int),
        r.failed == all_failed(failed@),
{
    let mut updated: Vec<String> = Vec::new();
    let mut every: bool = true;
    let mut i: usize = 0;
    while i < plan.len()
        invariant
            plan@.len() == failed@.len(),
            i <= plan@.len(),
            text_list(updated@) == kept(plan@, failed@, i as int),
            every == forall|k: int| 0 <= k < i ==> failed@[k],
        decreases plan@.len() - i,
    {
        let ghost pre = updated@;
        if !failed[i] {
            updated.push(text(plan[i].router.as_str()));
            assert(text_list(updated@) =~= text_list(pre).push(plan@[i as int].router@));
            every = false;
        }
        i = i + 1;
    }
    PropagationReport { updated, failed: every && plan.len() > 0 }
}

pub open spec fn text_list(v: Seq<String>) -> Seq<Seq<char>> {
    v.map_values(|s: String| s@)
}

impl Network {
    /// Decides a network's reconcile: its workload, built from the
    /// controller's own image and service account, and the status that
    /// records the workload as created.
    pub fn reconcile(&self, image: Option<String>, service_account: Option<String>) -> (r: NetworkReconcile)
        requires
            self.uid.is_some(),
        ensures
            r.workload@ == workload_of(*self, opt_text(image), opt_text(service_account)),
            r.status.ds_created == Some(true),
    {
        NetworkReconcile {
            workload: self.create_owned_daemonset(image, service_account),
            status: NetworkStatus { ds_created: Some(true) },
        }
    }

    /// The event published once the workload `workload_name` was applied.
    pub fn created_event(&self, workload_name: &String) -> (r: EventNote)
        ensures
            event_is(r, "DaemonSetCreated"@, quoted("Created "@, workload_name@, " DaemonSet for "@) + quoted(""@, self.name@, " Network"@), "Created"@),
    {
        let a = quote("Created ", workload_name.as_str(), " DaemonSet for ");
        let b = quote("", self.name.as_str(), " Network");
        EventNote { reason: text("DaemonSetCreated"), note: join(a.as_str(), b.as_str()), action: text("Created") }
    }

    /// Decides a network's cleanup: publish that deletion was requested.
    /// Nothing else is torn down: the workload goes with its owner.
    pub fn cleanup(&self) -> (r: EventNote)
        ensures
            event_is(r, "DeleteRequested"@, quoted("Delete "@, self.name@, ""@), "Deleting"@),
    {
        EventNote { reason: text("DeleteRequested"), note: quote("Delete ", self.name.as_str(), ""), action: text("Deleting") }
    }
}

impl Router {
    /// Decides a router's reconcile: add its faces to every sibling's
    /// neighbor set and mark the siblings online.
    pub fn reconcile(&self, siblings: &Vec<Router>) -> (r: (Vec<StatusPatch>, EventNote))
        requires
            forall|i: int| 0 <= i < siblings@.len() ==> status_wf(#[trigger] siblings@[i]),
        ensures
            plan_of(*self, siblings@, Direction::Online, r.0@),
            event_is(r.1, "RouterUpdated"@, quoted("Updated "@, self.name@, " Router"@), "Updated"@),
    {
        let plan = self.propagate(siblings, Direction::Online);
        let e = EventNote {
            reason: text("RouterUpdated"),
            note: quote("Updated ", self.name.as_str(), " Router"),
            action: text("Updated"),
        };
        (plan, e)
    }

    /// Decides a router's cleanup: take its faces out of every sibling's
    /// neighbor set and mark the siblings offline.
    pub fn cleanup(&self, siblings: &Vec<Router>) -> (r: (Vec<StatusPatch>, EventNote))
        requires
            forall|i: int| 0 <= i < siblings@.len() ==> status_wf(#[trigger] siblings@[i]),
        ensures
            plan_of(*self, siblings@, Direction::Offline, r.0@),
            event_is(r.1, "RouterDeleted"@, quoted("Deleted "@, self.name@, " Router"@), "Deleted"@),
    {
        let plan = self.propagate(siblings, Direction::Offline);
        let e = EventNote {
            reason: text("RouterDeleted"),
            note: quote("Deleted ", self.name.as_str(), " Router"),
            action: text("Deleted"),
        };
        (plan, e)
    }
}

} // verus!
