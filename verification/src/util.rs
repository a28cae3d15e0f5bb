//! Small pieces shared by the state builder and the detectors.

pub mod csv;
pub mod helpers;
pub mod jankguard;
pub mod steamid;
pub mod text;
