//! Telling the system how the process deals with display scaling.

pub mod native;
