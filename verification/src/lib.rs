//! Autoscaling controller for self-hosted continuous-integration runners.
//!
//! A forge (a source-code-hosting service) emits webhook events when a CI job
//! is queued or completed.  This library holds the verified core of the
//! controller that reacts to those events: webhook authentication and
//! dispatch, configuration lookups, deterministic runner naming, the
//! provisioning state machine that bootstraps a fresh container into a
//! registered forge runner, and the cross-provider teardown scan.

pub mod config;
pub mod lxc;
pub mod manager;
pub mod memory;
pub mod provider;
pub mod strutil;
pub mod webhook;
