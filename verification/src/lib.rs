//! A blob store adapter for many tenants, backed by a remote object-storage
//! service.
//!
//! Each tenant is linked with its own configuration, from which its own
//! backend client is built. A call names an operation and carries the
//! caller's identity; the caller's client is looked up, the operation says
//! what to ask the backend for, and the backend's answer is turned into the
//! operation's result. The library decides and never waits: sending a
//! request and awaiting its answer is left to the process that embeds it.
//!
//! - [`config`]: link configuration and the client plan decided from it
//! - [`factory`]: building a client as planned
//! - [`sdk`]: the storage SDK and HTTP stack, taken on trust
//! - [`registry`]: the tenant client registry
//! - [`provider`]: lifecycle events and the start of every operation
//! - [`operations`]: backend requests and what their answers mean
//! - [`dispatch`]: routing method names to operations
//! - [`model`]: containers, blobs, results
//! - [`text`]: string comparison, search and decimal parsing
//! - [`laws`]: what holds of all of the above

pub mod config;
pub mod dispatch;
pub mod factory;
pub mod laws;
pub mod model;
pub mod operations;
pub mod provider;
pub mod registry;
pub mod sdk;
pub mod text;
