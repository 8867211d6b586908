//! A level-triggered reconciliation controller for a custom "manager"
//! workload resource.
//!
//! The manager resource declares, through a pod template in its spec, a
//! single child workload unit that should exist on its behalf.  The library
//! holds the convergence logic of the controller: deciding which cluster
//! operations to issue (fetch the manager, list its children by label,
//! create the missing child, patch the manager's status), building the
//! desired child object, and mapping failures to retry actions.  The
//! cluster itself, and the watch/queue runtime that drives reconciliations,
//! are external collaborators: a host runtime performs each requested
//! operation and feeds the outcome back into the step function here.

pub mod builder;
pub mod cronjob;
pub mod laws;
pub mod model;
pub mod policy;
pub mod reconcile;
pub mod resource;

pub use policy::{error_policy, Action, Error};
