//! Core of a desktop client that supervises the `ech-workers` tunnel binary.
//!
//! The crate holds the decisions of the client and nothing that touches the
//! operating system: the catalog of server profiles, the derivation of the
//! worker's command line, the search order for the worker binary, the
//! supervisor's two-state machine, and the plans that switch the system-wide
//! SOCKS proxy on and off. A host program performs the actions that these
//! functions hand out and reports back what happened.
pub mod commands;
pub mod config;
pub mod platform;
pub mod process;
pub mod proxy;
pub mod text;
