//! Startup, shutdown and sign-in bootstrap for a desktop application that runs
//! either as a self-hosted server or as a client of a remote instance.
//!
//! The library holds the decisions: what to do next while services start or
//! stop, how a sign-in callback is handed over exactly once, which address the
//! API lives at. The surrounding program performs the actions the library asks
//! for (binding ports, running processes, serving HTTP) and reports back what
//! happened.
//!
//! - [`protocol`]: the actions and events that the service sequences speak in.
//! - [`port_guard`]: frees a TCP port by killing its owners.
//! - [`database`] and [`backend`]: the two start sequences.
//! - [`server`]: the orchestrator that runs them in order, and the status probes.
//! - [`oauth`]: the sign-in flow and its single-use rendezvous slot.
//! - [`config`] and [`commands`]: the settings and the operations on them.
//! - [`error`]: what can go wrong, and how it is told.
//! - [`text`]: numbers in and out of text.

pub mod backend;
pub mod commands;
pub mod config;
pub mod database;
pub mod error;
pub mod oauth;
pub mod port_guard;
pub mod protocol;
pub mod server;
pub mod text;
