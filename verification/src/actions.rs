//! What the controller is asked to do: plans of actions, and how a plan is
//! carried out on a pool of sessions.

/// Plan files and how they are read.
pub mod plans;

/// What each command asks for, and in which order.
pub mod commands;
