//! The fleet reconciler: what exists in the cloud is made to match what the
//! configuration declares.

/// Failures of cloud operations.
pub mod errors;

/// The resources of a swarm and the requests on them.
pub mod ec2;

/// Runs of the reconciler on the network.
pub mod network;

/// Runs of the reconciler on the swarm.
pub mod swarm;

/// A model of the cloud.
pub mod model;

/// Whole runs of the reconciler in the model.
pub mod reconcile;

/// The entry points of the reconciler.
pub mod scenarios;
