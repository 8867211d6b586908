//! The executable reconcile function, as a request/response state
//! machine.
//!
//! Every cluster operation is a blocking remote call performed by the
//! host runtime, not by this library: [`reconcile_init`] opens a
//! reconciliation attempt with the first request, and [`reconcile_step`]
//! consumes the outcome of the last request and decides the next one.
//! The runtime loops until it reaches [`ReconcileState::Done`] (hand the
//! action to the queue) or [`ReconcileState::Failed`] (consult the error
//! policy).  Each function is proved to follow the model in
//! [`crate::model`] exactly.

use vstd::prelude::*;

use crate::builder::create_owned_pod;
use crate::model;
use crate::model::{RequestView, ResponseView, StateView};
use crate::policy::{Action, Error, ErrorView};
use crate::resource::{Pod, PodManager, Status};

verus! {

/// A cluster operation the host runtime is asked to perform.  All
/// operations are namespace-scoped.
#[derive(Debug)]
pub enum Request {
    /// Read the manager with the given name, at the current cluster
    /// state.
    GetManager { namespace: String, name: String },
    /// List the children whose discovery label maps to the given manager
    /// name.
    ListChildren { namespace: String, owned_by: String },
    /// Create the given child object.
    CreateChild { namespace: String, pod: Pod },
    /// Merge-patch the status of the manager with the given name through
    /// the status sub-resource.
    PatchManagerStatus { namespace: String, name: String, patch: Status },
}

impl View for Request {
    type V = RequestView;

    open spec fn view(&self) -> RequestView {
        match self {
            Request::GetManager { namespace, name } => RequestView::GetManager {
                namespace: namespace@,
                name: name@,
            },
            Request::ListChildren { namespace, owned_by } => RequestView::ListChildren {
                namespace: namespace@,
                owned_by: owned_by@,
            },
            Request::CreateChild { namespace, pod } => RequestView::CreateChild {
                namespace: namespace@,
                pod: pod@,
            },
            Request::PatchManagerStatus { namespace, name, patch } => (
                RequestView::PatchManagerStatus {
                    namespace: namespace@,
                    name: name@,
                    patch: patch@,
                }
            ),
        }
    }
}

impl DeepView for Request {
    type V = RequestView;

    open spec fn deep_view(&self) -> RequestView {
        self@
    }
}

/// The outcome of a cluster operation, fed back by the host runtime.
#[derive(Debug)]
pub enum Response {
    /// The manager, as the cluster stores it now.
    ManagerFetched { manager: PodManager },
    /// The children matching the requested label, in the cluster's list
    /// order.
    ChildrenListed { children: Vec<Pod> },
    /// The created child, as the cluster stored it.
    ChildCreated { child: Pod },
    /// The status patch was applied.
    StatusPatched,
    /// The operation failed in transport or was rejected by the cluster.
    ApiFailure { message: String },
}

impl View for Response {
    type V = ResponseView;

    open spec fn view(&self) -> ResponseView {
        match self {
            Response::ManagerFetched { manager } => ResponseView::ManagerFetched {
                manager: manager@,
            },
            Response::ChildrenListed { children } => ResponseView::ChildrenListed {
                children: children.deep_view(),
            },
            Response::ChildCreated { child } => ResponseView::ChildCreated { child: child@ },
            Response::StatusPatched => ResponseView::StatusPatched,
            Response::ApiFailure { message } => ResponseView::ApiFailure { message: message@ },
        }
    }
}

/// The reconciler's state between two cluster operations.
#[derive(Debug)]
pub enum ReconcileState {
    /// The manager has been requested.
    AwaitingManager,
    /// The freshly fetched manager is in hand; its children have been
    /// requested.
    AwaitingChildren { manager: PodManager },
    /// No child existed; the desired child has been sent for creation.
    AwaitingCreate { manager: PodManager },
    /// The status patch has been sent.
    AwaitingPatch,
    /// The reconciliation converged: hand `action` to the queue.
    Done { action: Action },
    /// The reconciliation failed: consult the error policy.
    Failed { error: Error },
}

impl View for ReconcileState {
    type V = StateView;

    open spec fn view(&self) -> StateView {
        match self {
            ReconcileState::AwaitingManager => StateView::AwaitingManager,
            ReconcileState::AwaitingChildren { manager } => StateView::AwaitingChildren {
                manager: manager@,
            },
            ReconcileState::AwaitingCreate { manager } => StateView::AwaitingCreate {
                manager: manager@,
            },
            ReconcileState::AwaitingPatch => StateView::AwaitingPatch,
            ReconcileState::Done { action } => StateView::Done { action: *action },
            ReconcileState::Failed { error } => StateView::Failed { error: error@ },
        }
    }
}

fn namespace_of(manager: &PodManager) -> (s: String)
    requires
        manager@.metadata.namespace is Some,
    ensures
        s@ == manager@.metadata.namespace.unwrap(),
{
    match &manager.metadata.namespace {
        Some(n) => n.clone(),
        None => {
            proof {
                assert(false);
            }
            String::new()
        },
    }
}

fn name_of(manager: &PodManager) -> (s: String)
    requires
        manager@.metadata.name is Some,
    ensures
        s@ == manager@.metadata.name.unwrap(),
{
    match &manager.metadata.name {
        Some(n) => n.clone(),
        None => {
            proof {
                assert(false);
            }
            String::new()
        },
    }
}

/// Opens a reconciliation attempt for `manager`: the state awaiting the
/// re-fetched manager, and the request that fetches it.  Fails with an
/// identity error when the manager cannot even be addressed by namespace
/// and name.
pub fn reconcile_init(manager: &PodManager) -> (res: Result<(ReconcileState, Request), Error>)
    ensures
        res is Ok <==> manager@.addressable(),
        res matches Ok(sr) ==> model::init(manager@) == Ok::<_, ErrorView>((sr.0@, sr.1@)),
        res matches Ok(sr) ==> model::state_well_formed(sr.0@),
        res matches Err(e) ==> model::init(manager@) == Err::<(StateView, RequestView), _>(e@),
{
    if manager.metadata.namespace.is_some() && manager.metadata.name.is_some() {
        let namespace = namespace_of(manager);
        let name = name_of(manager);
        Ok((ReconcileState::AwaitingManager, Request::GetManager { namespace, name }))
    } else {
        Err(Error::MissingIdentity)
    }
}

fn after_child(manager: PodManager, created_at: Option<String>) -> (res: (
    ReconcileState,
    Option<Request>,
))
    requires
        manager@.addressable(),
    ensures
        (res.0@, res.1.deep_view()) == model::after_child(manager@, created_at.deep_view()),
        model::state_well_formed(res.0@),
{
    let converged = match &manager.status {
        Some(status) => status.create_time.is_some(),
        None => false,
    };
    if converged {
        (ReconcileState::Done { action: Action::AwaitChange }, None)
    } else {
        let namespace = namespace_of(&manager);
        let name = name_of(&manager);
        let patch = Status { create_time: created_at };
        (
            ReconcileState::AwaitingPatch,
            Some(Request::PatchManagerStatus { namespace, name, patch }),
        )
    }
}

/// One step of the reconciliation: consumes the outcome of the last
/// request and decides the next state and request.
///
/// Every decision is made against the freshly fetched manager, never the
/// object the watch notification carried.  A failure response ends the
/// attempt in a failed state from any waiting state.
pub fn reconcile_step(state: ReconcileState, response: Response) -> (res: (
    ReconcileState,
    Option<Request>,
))
    requires
        model::response_matches(state@, response@),
        model::state_well_formed(state@),
    ensures
        (res.0@, res.1.deep_view()) == model::step(state@, response@),
        model::state_well_formed(res.0@),
{
    match (state, response) {
        (_, Response::ApiFailure { message }) => {
            (ReconcileState::Failed { error: Error::ApiError { message } }, None)
        },
        (ReconcileState::AwaitingManager, Response::ManagerFetched { manager }) => {
            if manager.metadata.namespace.is_some() && manager.metadata.name.is_some() {
                let namespace = namespace_of(&manager);
                let owned_by = name_of(&manager);
                (
                    ReconcileState::AwaitingChildren { manager },
                    Some(Request::ListChildren { namespace, owned_by }),
                )
            } else {
                (ReconcileState::Failed { error: Error::MissingIdentity }, None)
            }
        },
        (ReconcileState::AwaitingChildren { manager }, Response::ChildrenListed { children }) => {
            let mut children = children;
            if children.len() > 0 {
                let child = children.remove(0);
                after_child(manager, child.metadata.creation_timestamp)
            } else {
                match create_owned_pod(&manager) {
                    Ok(pod) => {
                        let namespace = namespace_of(&manager);
                        (
                            ReconcileState::AwaitingCreate { manager },
                            Some(Request::CreateChild { namespace, pod }),
                        )
                    },
                    Err(error) => (ReconcileState::Failed { error }, None),
                }
            }
        },
        (ReconcileState::AwaitingCreate { manager }, Response::ChildCreated { child }) => {
            after_child(manager, child.metadata.creation_timestamp)
        },
        (ReconcileState::AwaitingPatch, Response::StatusPatched) => {
            (ReconcileState::Done { action: Action::AwaitChange }, None)
        },
        (other, _) => (other, None),
    }
}

} // verus!
