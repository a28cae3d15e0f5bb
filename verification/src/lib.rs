//! Replay analysis for recorded matches: a world-state builder that folds
//! decoded entity updates into a per-tick snapshot, a set of detectors that
//! watch player orientation over that snapshot, and the analyser that drives
//! them through a run.
//!
//! The library works on plain records. Its caller decodes the recording and
//! hands over what the decoder yields, piece by piece; the analyser applies
//! each piece to the world state and calls the detectors.
//!
//! Measured quantities are held in fixed point: angles count millionths of a
//! degree and positions count millionths of a map unit. The library does all
//! its arithmetic on these. What it cannot compute in fixed point, the
//! great-circle distance between two orientations, it asks of its caller:
//! detectors that judge such distances hand out requests at a tick boundary
//! and take the measured distances back.

pub mod algorithm;
pub mod algorithms;
pub mod base;
pub mod parameters;
pub mod selection;
pub mod util;
