//! Hook handlers for a resource-provider extensibility model.
//!
//! A host invokes one entry point per lifecycle stage of a managed-resource
//! operation. Each activation decodes one JSON request envelope, performs the
//! stage's action, and produces one JSON response envelope that carries
//! success or failure in explicit fields. A begin stage that triggers a
//! remote long-running create drives it to a terminal state through a
//! bounded polling reconciler.
//!
//! The exit convention chosen here is status-in-envelope: an activation
//! always completes normally and the outcome is read from the response
//! envelope's fields, never from the process exit status.

pub mod codec;
pub mod hooks;
pub mod identifier;
pub mod json;
pub mod reconcile;
pub mod trace;
pub mod wire;
