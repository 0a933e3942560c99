//! The authorization-aware gateway of a knowledge and assistant backend, as
//! decisions without I/O.
//!
//! Every operation of the gateway is a plan of checks and a service call
//! (`query`, `mutation`, `subscription`). A `run::Run` takes a plan through
//! its checks: it decides what can be decided from the request, says what has
//! to be asked of the services and of the access policy, judges each answer,
//! and tells its driver to proceed only when every check has passed. Lists
//! are paged by opaque cursors (`relay`), and failures go out as structured
//! errors (`error`).

pub mod chat;
pub mod check;
pub mod context;
pub mod error;
pub mod guard;
pub mod mutation;
pub mod operation;
pub mod outside;
pub mod query;
pub mod relay;
pub mod run;
pub mod subscription;
