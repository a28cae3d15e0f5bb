//! The world-state builder and the orchestrator that drives the detectors.

pub mod builder;
pub mod cheat_analyser_base;
pub mod identity;
pub mod props;
pub mod records;
pub mod report;
pub mod run;
pub mod state;
pub mod userinfo;
