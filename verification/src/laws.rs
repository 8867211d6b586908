//! The convergence laws of the reconciler.
//!
//! The reconcile model of [`crate::model`] speaks about one request at a
//! time.  To state what whole reconciliations do, this module adds a
//! model of the external collaborators the controller consumes: a
//! cluster state ([`ClusterView`]) and the API server's handling of each
//! request on the path where the call succeeds ([`api_handle`]).  Over
//! those, [`reconcile_run`] drives one reconciliation to completion, and
//! the public proof functions state the laws: idempotent convergence, at
//! most one child per manager, status monotonicity, and spec
//! immutability.

use vstd::prelude::*;

use crate::builder::{api_version, desired_pod, manager_kind, owned_by_key};
use crate::model;
use crate::model::{RequestView, ResponseView, StateView};
use crate::policy::Action;
use crate::resource::{LabelView, ObjectMetaView, PodManagerView, PodView, StatusView};

verus! {

/// Whether `pod` carries the discovery label naming it a child of the
/// manager named `name`.
pub open spec fn is_child_of(pod: PodView, name: Seq<char>) -> bool {
    exists|i: int|
        0 <= i < pod.metadata.labels.len() && #[trigger] pod.metadata.labels[i] == (LabelView {
            key: owned_by_key(),
            value: name,
        })
}

/// The cluster state one reconciliation interacts with: the manager
/// object, the pods of its namespace in the cluster's list order, and
/// the timestamp the API server stamps onto objects created now.
#[verifier::ext_equal]
pub struct ClusterView {
    pub manager: PodManagerView,
    pub pods: Seq<PodView>,
    pub now: Seq<char>,
}

/// The pods carrying the discovery label of the manager named `name`, in
/// list order.
pub open spec fn children_named(pods: Seq<PodView>, name: Seq<char>) -> Seq<PodView> {
    pods.filter(|p: PodView| is_child_of(p, name))
}

/// The children of the manager in `c`.
pub open spec fn children_of(c: ClusterView) -> Seq<PodView> {
    children_named(c.pods, c.manager.metadata.name.unwrap())
}

/// The object the API server stores for a creation request: the request,
/// stamped with the current creation timestamp.
pub open spec fn live_pod(pod: PodView, now: Seq<char>) -> PodView {
    PodView {
        metadata: ObjectMetaView { creation_timestamp: Some(now), ..pod.metadata },
        spec: pod.spec,
    }
}

/// The model of the API server's handling of one request, on the path
/// where the call succeeds.  This is the contract the controller assumes
/// of its external collaborator: a read returns the current state; a
/// list returns exactly the pods matching the label, in list order; a
/// create stores the request stamped with a creation timestamp and
/// returns the stored object; a status merge-patch replaces exactly the
/// status fields the patch carries.
pub open spec fn api_handle(c: ClusterView, request: RequestView) -> (ClusterView, ResponseView) {
    match request {
        RequestView::GetManager { .. } => (
            c,
            ResponseView::ManagerFetched { manager: c.manager },
        ),
        RequestView::ListChildren { owned_by, .. } => (
            c,
            ResponseView::ChildrenListed { children: children_named(c.pods, owned_by) },
        ),
        RequestView::CreateChild { pod, .. } => {
            let stored = live_pod(pod, c.now);
            (
                ClusterView { pods: c.pods.push(stored), ..c },
                ResponseView::ChildCreated { child: stored },
            )
        },
        RequestView::PatchManagerStatus { patch, .. } => {
            let manager = PodManagerView {
                status: Some(StatusView { create_time: patch.create_time }),
                ..c.manager
            };
            (ClusterView { manager, ..c }, ResponseView::StatusPatched)
        },
    }
}

/// What one reconciliation left behind: the cluster it produced, the
/// terminal reconciler state, and how many create and status-patch
/// writes it issued.
#[verifier::ext_equal]
pub struct RunOutcome {
    pub cluster: ClusterView,
    pub state: StateView,
    pub creates: nat,
    pub patches: nat,
}

/// Drives the reconciler from `state` with pending `request` until it
/// issues no further request, handling each request with [`api_handle`].
pub open spec fn run_from(
    c: ClusterView,
    state: StateView,
    request: Option<RequestView>,
    fuel: nat,
) -> RunOutcome
    decreases fuel,
{
    match request {
        None => RunOutcome { cluster: c, state, creates: 0, patches: 0 },
        Some(req) => {
            if fuel == 0 {
                RunOutcome { cluster: c, state, creates: 0, patches: 0 }
            } else {
                let handled = api_handle(c, req);
                let next = model::step(state, handled.1);
                let rest = run_from(handled.0, next.0, next.1, (fuel - 1) as nat);
                RunOutcome {
                    cluster: rest.cluster,
                    state: rest.state,
                    creates: rest.creates + if req is CreateChild {
                        1nat
                    } else {
                        0nat
                    },
                    patches: rest.patches + if req is PatchManagerStatus {
                        1nat
                    } else {
                        0nat
                    },
                }
            }
        },
    }
}

/// One whole reconciliation of the manager in `c`, driven to completion
/// against the cluster model.  A reconciliation issues at most four
/// requests (get, list, create, patch), so four steps always reach the
/// terminal state.
pub open spec fn reconcile_run(c: ClusterView) -> RunOutcome {
    match model::init(c.manager) {
        Ok(sr) => run_from(c, sr.0, Some(sr.1), 4),
        Err(e) => RunOutcome {
            cluster: c,
            state: StateView::Failed { error: e },
            creates: 0,
            patches: 0,
        },
    }
}

/// The cluster `c` after `n` reconciliations of its manager, one after
/// the other, with no intervening change from anyone else.
pub open spec fn run_times(c: ClusterView, n: nat) -> ClusterView
    decreases n,
{
    if n == 0 {
        c
    } else {
        reconcile_run(run_times(c, (n - 1) as nat)).cluster
    }
}

/// Whether every pod the cluster holds carries the creation timestamp
/// the API server stamps onto stored objects.
pub open spec fn every_pod_stamped(pods: Seq<PodView>) -> bool {
    forall|i: int|
        0 <= i < pods.len() ==> (#[trigger] pods[i]).metadata.creation_timestamp is Some
}

/// The conditions under which the convergence laws are stated: the
/// manager carries its identity fields, every stored pod carries a
/// creation timestamp, and the relationship invariant holds (at most one
/// child names this manager).
pub open spec fn cluster_ok(c: ClusterView) -> bool {
    &&& c.manager.addressable()
    &&& c.manager.owner_identity_present()
    &&& every_pod_stamped(c.pods)
    &&& children_of(c).len() <= 1
}

proof fn lemma_children_push(pods: Seq<PodView>, p: PodView, name: Seq<char>)
    ensures
        children_named(pods.push(p), name) == if is_child_of(p, name) {
            children_named(pods, name).push(p)
        } else {
            children_named(pods, name)
        },
{
    reveal(Seq::filter);
    assert(pods.push(p).drop_last() =~= pods);
    assert(pods.push(p).last() == p);
}

proof fn lemma_children_are_pods(pods: Seq<PodView>, name: Seq<char>, i: int)
    requires
        0 <= i < children_named(pods, name).len(),
    ensures
        pods.contains(children_named(pods, name)[i]),
    decreases pods.len(),
{
    reveal(Seq::filter);
    if pods.len() == 0 {
    } else {
        let sub = pods.drop_last();
        let filtered_sub = children_named(sub, name);
        if is_child_of(pods.last(), name) {
            assert(children_named(pods, name) == filtered_sub.push(pods.last()));
            if i == filtered_sub.len() {
                assert(pods[pods.len() - 1] == children_named(pods, name)[i]);
            } else {
                lemma_children_are_pods(sub, name, i);
                let j = choose|j: int| 0 <= j < sub.len() && sub[j] == filtered_sub[i];
                assert(pods[j] == children_named(pods, name)[i]);
            }
        } else {
            assert(children_named(pods, name) == filtered_sub);
            lemma_children_are_pods(sub, name, i);
            let j = choose|j: int| 0 <= j < sub.len() && sub[j] == filtered_sub[i];
            assert(pods[j] == children_named(pods, name)[i]);
        }
    }
}

proof fn lemma_run_characterized(c: ClusterView)
    requires
        cluster_ok(c),
    ensures
        ({
            let r = reconcile_run(c);
            &&& r.state == (StateView::Done { action: Action::AwaitChange })
            &&& r.cluster.now == c.now
            &&& r.cluster.manager.metadata == c.manager.metadata
            &&& r.cluster.manager.spec == c.manager.spec
            &&& r.cluster.manager.has_create_time()
            &&& r.creates == if children_of(c).len() == 0 {
                1nat
            } else {
                0nat
            }
            &&& r.patches == if c.manager.has_create_time() {
                0nat
            } else {
                1nat
            }
            &&& children_of(c).len() == 0 ==> r.cluster.pods == c.pods.push(
                live_pod(desired_pod(c.manager), c.now),
            )
            &&& children_of(c).len() > 0 ==> r.cluster.pods == c.pods
            &&& c.manager.has_create_time() ==> r.cluster.manager == c.manager
            &&& children_of(r.cluster).len() == 1
            &&& cluster_ok(r.cluster)
        }),
{
    reveal_with_fuel(run_from, 6);
    let name = c.manager.metadata.name.unwrap();
    if children_of(c).len() == 0 {
        let stored = live_pod(desired_pod(c.manager), c.now);
        assert(stored.metadata.labels[0] == (LabelView { key: owned_by_key(), value: name }));
        assert(is_child_of(stored, name));
        lemma_children_push(c.pods, stored, name);
        assert(children_named(c.pods.push(stored), name) == children_named(c.pods, name).push(
            stored,
        ));
        assert(every_pod_stamped(c.pods.push(stored)));
    } else {
        lemma_children_are_pods(c.pods, name, 0);
        let adopted = children_named(c.pods, name)[0];
        let j = choose|j: int| 0 <= j < c.pods.len() && c.pods[j] == adopted;
        assert(c.pods[j].metadata.creation_timestamp is Some);
    }
}

/// Idempotent convergence: reconciling, and then reconciling again with
/// no intervening cluster change, leaves exactly one child and writes
/// nothing the second time.  The second invocation only reads: it issues
/// no create and no status patch, and the cluster it leaves is the
/// cluster it found.
pub proof fn lemma_reconcile_idempotent(c: ClusterView)
    requires
        cluster_ok(c),
    ensures
        ({
            let once = reconcile_run(c);
            let twice = reconcile_run(once.cluster);
            &&& children_of(once.cluster).len() == 1
            &&& once.creates <= 1
            &&& once.patches <= 1
            &&& twice.creates == 0
            &&& twice.patches == 0
            &&& twice.cluster == once.cluster
        }),
{
    lemma_run_characterized(c);
    lemma_run_characterized(reconcile_run(c).cluster);
}

/// At most one child per manager: after any number `n >= 1` of
/// serialized reconciliations of the same manager, exactly one child
/// names it, regardless of `n`.
pub proof fn lemma_at_most_one_child(c: ClusterView, n: nat)
    requires
        cluster_ok(c),
        n >= 1,
    ensures
        children_of(run_times(c, n)).len() == 1,
        cluster_ok(run_times(c, n)),
    decreases n,
{
    if n == 1 {
        lemma_run_characterized(c);
    } else {
        lemma_at_most_one_child(c, (n - 1) as nat);
        lemma_run_characterized(run_times(c, (n - 1) as nat));
    }
}

/// Status monotonicity: once the manager's status records a creation
/// time, a reconciliation issues no status write at all and leaves the
/// manager object exactly as it found it, even if the child it observes
/// was recreated with a different timestamp.  No well-formedness of the
/// cluster is needed: the failing paths write nothing either.
pub proof fn lemma_status_monotonic(c: ClusterView)
    requires
        c.manager.has_create_time(),
    ensures
        reconcile_run(c).cluster.manager == c.manager,
        reconcile_run(c).patches == 0,
{
    reveal_with_fuel(run_from, 6);
}

/// Ownership correctness: the created child — both as the creation
/// request the builder produces and as the cluster stores it — carries
/// exactly one owner reference, and it resolves to the manager's kind,
/// name and UID as the controlling owner; its discovery label equals the
/// manager's name.
pub proof fn lemma_ownership_correct(m: PodManagerView, now: Seq<char>)
    requires
        m.owner_identity_present(),
    ensures
        ({
            let requested = desired_pod(m);
            let stored = live_pod(requested, now);
            &&& stored.metadata.owner_references == requested.metadata.owner_references
            &&& stored.metadata.labels == requested.metadata.labels
            &&& stored.metadata.owner_references.len() == 1
            &&& stored.metadata.owner_references[0].api_version == api_version()
            &&& stored.metadata.owner_references[0].kind == manager_kind()
            &&& stored.metadata.owner_references[0].name == m.metadata.name.unwrap()
            &&& stored.metadata.owner_references[0].uid == m.metadata.uid.unwrap()
            &&& stored.metadata.owner_references[0].controller
            &&& is_child_of(requested, m.metadata.name.unwrap())
            &&& is_child_of(stored, m.metadata.name.unwrap())
        }),
{
    let requested = desired_pod(m);
    assert(requested.metadata.labels[0] == (LabelView {
        key: owned_by_key(),
        value: m.metadata.name.unwrap(),
    }));
    assert(live_pod(requested, now).metadata.labels[0] == (LabelView {
        key: owned_by_key(),
        value: m.metadata.name.unwrap(),
    }));
}

/// Spec immutability: a reconciliation never rewrites any existing pod
/// (it can only append the one child it creates), the child it creates
/// carries the manager's template verbatim, and the manager's spec is
/// never touched.
pub proof fn lemma_spec_immutable(c: ClusterView)
    requires
        cluster_ok(c),
    ensures
        ({
            let r = reconcile_run(c);
            &&& children_of(c).len() > 0 ==> r.cluster.pods == c.pods
            &&& children_of(c).len() == 0 ==> r.cluster.pods == c.pods.push(
                live_pod(desired_pod(c.manager), c.now),
            )
            &&& live_pod(desired_pod(c.manager), c.now).spec == Some(c.manager.spec.template)
            &&& r.cluster.manager.spec == c.manager.spec
        }),
{
    lemma_run_characterized(c);
}

} // verus!
