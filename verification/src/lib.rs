//! Bootstrap logic for acquiring and launching the terraform-ls language
//! server from inside an editor: configuration resolution with layered
//! overrides, platform-to-artifact-name mapping, safe archive extraction
//! planning, and the decision flow that chooses between reusing a local
//! binary, downloading a fresh one, or launching an explicitly configured
//! server path.
//!
//! The crate is organised around a single event-driven flow
//! ([`flow::step`]): the host performs the environment reads, HTTP fetch,
//! file writes and the final launch, and hands each outcome back as a
//! [`flow::Event`]; every decision in between is made here and verified.

pub mod artifact;
pub mod config;
pub mod extract;
pub mod flow;
pub mod laws;
pub mod paths;
pub mod platform;
pub mod strings;
