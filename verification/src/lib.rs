//! Decision logic of a Windows clean-up tool: where temporary files and
//! browser caches live, how removal results add up, and how the listing of
//! the Windows credential manager is read.

pub mod credentials;
pub mod locations;
pub mod stats;
pub mod text;
