//! Decides where a Stacks chainstate can be squashed into a Genesis State
//! Snapshot, and under which network parameters.
//!
//! The library reads no database and no file. It names the reads that it needs,
//! takes their answers as plain values, and decides:
//!
//! - [`resolution`] resolves the Stacks and sortition boundaries of a tenure,
//!   one read after the other, with the checks in [`targets`] and the walk back
//!   to the first block of the tenure in [`walk`];
//! - [`error`] says why a boundary was refused, with the hint in [`nearby`];
//! - [`laws`] states what a resolution comes to as a whole;
//! - [`config`] holds the rules on node configs and the lowest squash height;
//! - [`db`] holds the rules on rows of the source and output databases.

pub mod chain;
pub mod config;
pub mod db;
pub mod error;
pub mod ids;
pub mod laws;
pub mod nearby;
pub mod resolution;
pub mod targets;
pub mod text;
pub mod walk;
