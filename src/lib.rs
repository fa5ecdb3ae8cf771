//! A client-side pipeline for watching OPC UA variables: it plans the
//! subscription requests, accounts for the per-item outcome of a batch,
//! drives the session through its setup phases and renders each value
//! change as a line of text.

pub mod batch;
pub mod dispatch;
pub mod node;
pub mod presentation;
pub mod status;
pub mod workflow;
