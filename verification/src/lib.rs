//! An authorization mediation library: an in-memory resource catalog, a
//! per-request identity resolver, and a policy gateway that decides whether
//! an actor may perform an action on a resource, composed by request
//! handlers that map each outcome to an HTTP-style status.

pub mod catalog;
pub mod identity;
pub mod models;
pub mod policy;
pub mod server;
pub mod text;
