//! Bootstraps a disposable development database: builds a container image,
//! launches a container from it, waits for the database to settle, and
//! applies the init and seed batches, killing a freshly launched container
//! when a later database step fails.
//!
//! The decisions are a verified state machine: the host performs each
//! `Command` it hands out and reports back an `Event`.
pub mod failure;
pub mod plan;
pub mod orchestrator;
pub mod laws;
pub mod error;
pub mod repo;

pub use error::Error;
pub use failure::{build_step, check_not_found, success_check, Failure, IoFailure, ProcessOutcome};
pub use orchestrator::{Command, Event, Orchestrator, Phase};
pub use plan::{resolve, Action, ContainerDescriptor, ImageDescriptor, Step, SETTLE_SECONDS};
pub use repo::{DbData, IRepository};
