//! A swarm controller: it brings a fleet of short-lived cloud machines to a
//! declared size, opens a shell session to each of them, and runs commands and
//! file transfers against the whole fleet at once.
//!
//! The library holds every decision of that work as plain data and functions
//! with contracts. It never touches the network or the disk itself: it tells a
//! driver which request to make next, and takes the answer back.

/// Text as sequences of characters.
pub mod text;

/// The declared fleet.
pub mod config;

/// The fleet reconciler.
pub mod aws;

/// Plans and commands.
pub mod actions;

/// Shell sessions and the pool of them.
pub mod ssh;
