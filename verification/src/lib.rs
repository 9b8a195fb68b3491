//! A resource reconciliation dispatcher for a deployable online-experience
//! platform. Given a resource type tag, a structured inputs document and,
//! for update/delete, the previously recorded outputs document, it decides
//! which platform calls to make and what the durable outputs are.
//!
//! The reconciler itself performs no I/O: each operation returns either a
//! platform action to perform together with a continuation, or a completed
//! result. The embedder performs the action against the real platform and
//! feeds the response back in through `resume`.

pub mod doc;
pub mod laws;
pub mod manager;
pub mod model;
pub mod platform;
pub mod records;
pub mod resource_types;
