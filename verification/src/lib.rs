//! A verified core for a deployment client: it turns a local application
//! project into a running remote deployment and lets the operator observe it.
//!
//! The two load-bearing pieces are the deployment pipeline (a sequenced,
//! partially idempotent state machine over the stages introspect, build,
//! package, upload, register) and the log tail synchronizer (a diff
//! algorithm that turns a stateless "fetch last N lines" endpoint into an
//! incremental, duplicate-free live tail). Both are verified here, together
//! with the manifest reader, the packaging rules, and the plain data models
//! exchanged with the control plane. All network, filesystem and subprocess
//! work is performed by callers, which feed results back as plain values.

pub mod api;
pub mod builder;
pub mod commands;
pub mod config;
pub mod error;
pub mod logs;
pub mod pipeline;
pub mod pokemon_theme;
pub mod pokemon_widgets;
pub mod upload;
pub mod utils;
