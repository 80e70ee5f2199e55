//! Reconciliation logic of a controller that deploys a forwarding daemon per
//! network and keeps each router's neighbor set in step with its siblings.

pub mod addr_set;
pub mod router;
pub mod network;
pub mod workload;
pub mod reconcile;
pub mod laws;
