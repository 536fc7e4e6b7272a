//! Provisioning of a project's source-code repository on a hosted
//! version-control provider, and of a local working copy of it.
//!
//! The library computes every decision of the flow — which API endpoint a
//! creation request targets, what the request body holds, what the
//! "repository created" lifecycle event contains, and where a local clone
//! ends up — and proves those computations against their contracts. The
//! surrounding process (the HTTP call, the clone subprocess, reading the
//! credential from the environment) is driven by the embedding program,
//! which feeds the outcomes back into these functions as plain values.

pub mod event;
pub mod model;
pub mod service;
