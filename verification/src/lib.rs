//! Research mode for analyzing gas price impact on transaction execution.
//!
//! This crate implements the analysis side of a dual-execution system that
//! conceptually runs each transaction twice: once with normal gas costs and
//! once with modified (multiplied) gas costs. The goal is to detect
//! behavioral changes in smart contracts when gas prices increase
//! significantly.
//!
//! # Architecture
//!
//! - [`ResearchExecutor`]: Orchestrates analysis and divergence detection
//! - [`GasResearchInspector`]: Tracks execution details and simulates high gas costs
//! - [`TrackingInspector`]: Tracks execution details without any simulation
//! - [`DivergenceDatabase`]: Stores detected divergences for later analysis
//! - [`ResearchConfig`]: Configuration for research mode
//!
//! The execution engine itself is an external collaborator: it reports each
//! interpreter event to the inspectors as plain values and hands the
//! per-transaction outcomes to the orchestrator.

pub mod classifier;
pub mod config;
pub mod database;
pub mod divergence;
pub mod executor;
pub mod inspector;
pub mod metrics;
pub mod tracking_inspector;

pub use config::{ResearchConfig, TraceDetail};
pub use database::DivergenceDatabase;
pub use divergence::{Divergence, DivergenceType, OperationCounts};
pub use executor::ResearchExecutor;
pub use inspector::GasResearchInspector;
pub use tracking_inspector::TrackingInspector;

pub use database::DatabaseError;
pub use executor::ResearchError;
