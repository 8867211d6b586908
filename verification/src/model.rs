//! The mathematical model of the reconcile function.
//!
//! A reconciliation is a short conversation with the cluster API: fetch
//! the manager, list its children, create the missing child, patch the
//! manager's status.  The model describes it as a state machine: from a
//! state and the response to the last request, [`step`] gives the next
//! state and the next request, if any.  The executable state machine in
//! [`crate::reconcile`] is proved to follow this model exactly, and the
//! convergence laws in [`crate::laws`] are proved about this model.

use vstd::prelude::*;

use crate::builder::desired_pod;
use crate::policy::{Action, ErrorView};
use crate::resource::{PodManagerView, PodView, StatusView};

verus! {

/// The model of a cluster operation the reconciler asks the host runtime
/// to perform.  All operations are namespace-scoped.
#[verifier::ext_equal]
pub enum RequestView {
    /// Read the manager with the given name, at the current cluster
    /// state.
    GetManager { namespace: Seq<char>, name: Seq<char> },
    /// List the children whose discovery label maps to the given manager
    /// name.
    ListChildren { namespace: Seq<char>, owned_by: Seq<char> },
    /// Create the given child object.
    CreateChild { namespace: Seq<char>, pod: PodView },
    /// Merge-patch the status of the manager with the given name through
    /// the status sub-resource.
    PatchManagerStatus { namespace: Seq<char>, name: Seq<char>, patch: StatusView },
}

/// The model of the outcome the host runtime feeds back for a request.
#[verifier::ext_equal]
pub enum ResponseView {
    /// The manager, as the cluster stores it now.
    ManagerFetched { manager: PodManagerView },
    /// The children matching the requested label, in the cluster's list
    /// order.
    ChildrenListed { children: Seq<PodView> },
    /// The created child, as the cluster stored it.
    ChildCreated { child: PodView },
    /// The status patch was applied.
    StatusPatched,
    /// The operation failed in transport or was rejected by the cluster.
    ApiFailure { message: Seq<char> },
}

/// The model of the reconciler's state between two cluster operations.
#[verifier::ext_equal]
pub enum StateView {
    /// The manager has been requested.
    AwaitingManager,
    /// The freshly fetched manager is in hand; its children have been
    /// requested.
    AwaitingChildren { manager: PodManagerView },
    /// No child existed; the desired child has been sent for creation.
    AwaitingCreate { manager: PodManagerView },
    /// The status patch has been sent.
    AwaitingPatch,
    /// The reconciliation converged and returns its action.
    Done { action: Action },
    /// The reconciliation failed and is handed to the error policy.
    Failed { error: ErrorView },
}

/// The first state and request of a reconciliation of `m`: re-fetch the
/// manager by name at the current cluster state.  Fails when the manager
/// cannot even be addressed.
pub open spec fn init(m: PodManagerView) -> Result<(StateView, RequestView), ErrorView> {
    if m.addressable() {
        Ok(
            (
                StateView::AwaitingManager,
                RequestView::GetManager {
                    namespace: m.metadata.namespace.unwrap(),
                    name: m.metadata.name.unwrap(),
                },
            ),
        )
    } else {
        Err(ErrorView::MissingIdentity)
    }
}

/// Whether `response` is an outcome the host runtime can hand to a
/// reconciler standing in `state`: terminal states take no response, and
/// every other state takes the outcome of the request it issued.
pub open spec fn response_matches(state: StateView, response: ResponseView) -> bool {
    match state {
        StateView::AwaitingManager => response matches ResponseView::ManagerFetched { .. }
            || response matches ResponseView::ApiFailure { .. },
        StateView::AwaitingChildren { .. } => response matches ResponseView::ChildrenListed { .. }
            || response matches ResponseView::ApiFailure { .. },
        StateView::AwaitingCreate { .. } => response matches ResponseView::ChildCreated { .. }
            || response matches ResponseView::ApiFailure { .. },
        StateView::AwaitingPatch => response matches ResponseView::StatusPatched
            || response matches ResponseView::ApiFailure { .. },
        StateView::Done { .. } => false,
        StateView::Failed { .. } => false,
    }
}

/// States that hold a fetched manager only ever hold one that passed the
/// addressability check of the step that fetched it.
pub open spec fn state_well_formed(state: StateView) -> bool {
    match state {
        StateView::AwaitingChildren { manager } => manager.addressable(),
        StateView::AwaitingCreate { manager } => manager.addressable(),
        _ => true,
    }
}

/// The tail of a reconciliation once the child (freshly created or
/// adopted from the list) is known: patch the manager's status with the
/// child's creation timestamp unless the status already records one, in
/// which case the reconciliation is already converged and no write is
/// issued.
pub open spec fn after_child(m: PodManagerView, created_at: Option<Seq<char>>) -> (
    StateView,
    Option<RequestView>,
) {
    if m.has_create_time() {
        (StateView::Done { action: Action::AwaitChange }, None)
    } else {
        (
            StateView::AwaitingPatch,
            Some(
                RequestView::PatchManagerStatus {
                    namespace: m.metadata.namespace.unwrap(),
                    name: m.metadata.name.unwrap(),
                    patch: StatusView { create_time: created_at },
                },
            ),
        )
    }
}

/// One step of the reconciliation: from the current state and the
/// response to the last request, the next state and the next request.
///
/// Every decision is made against the freshly fetched manager, never the
/// object the watch notification carried.  A failure response ends the
/// attempt in the same failed state from any waiting state.
pub open spec fn step(state: StateView, response: ResponseView) -> (StateView, Option<
    RequestView,
>) {
    if response is ApiFailure {
        (
            StateView::Failed {
                error: ErrorView::ApiError { message: response->ApiFailure_message },
            },
            None,
        )
    } else {
        match state {
            StateView::AwaitingManager => match response {
                ResponseView::ManagerFetched { manager } => {
                    if manager.addressable() {
                        (
                            StateView::AwaitingChildren { manager },
                            Some(
                                RequestView::ListChildren {
                                    namespace: manager.metadata.namespace.unwrap(),
                                    owned_by: manager.metadata.name.unwrap(),
                                },
                            ),
                        )
                    } else {
                        (StateView::Failed { error: ErrorView::MissingIdentity }, None)
                    }
                },
                _ => (state, None),
            },
            StateView::AwaitingChildren { manager } => match response {
                ResponseView::ChildrenListed { children } => {
                    if children.len() > 0 {
                        after_child(manager, children[0].metadata.creation_timestamp)
                    } else {
                        if manager.owner_identity_present() {
                            (
                                StateView::AwaitingCreate { manager },
                                Some(
                                    RequestView::CreateChild {
                                        namespace: manager.metadata.namespace.unwrap(),
                                        pod: desired_pod(manager),
                                    },
                                ),
                            )
                        } else {
                            (StateView::Failed { error: ErrorView::MissingIdentity }, None)
                        }
                    }
                },
                _ => (state, None),
            },
            StateView::AwaitingCreate { manager } => match response {
                ResponseView::ChildCreated { child } => after_child(
                    manager,
                    child.metadata.creation_timestamp,
                ),
                _ => (state, None),
            },
            StateView::AwaitingPatch => match response {
                ResponseView::StatusPatched => (
                    StateView::Done { action: Action::AwaitChange },
                    None,
                ),
                _ => (state, None),
            },
            _ => (state, None),
        }
    }
}

} // verus!
