//! Branch lineage kept in commit messages, and an update engine that merges the missing
//! revisions of a target one by one and stops before the first real conflict.
use vstd::prelude::*;

pub mod classify;
pub mod commands;
pub mod conflict_check;
pub mod engine;
pub mod hash;
pub mod lineage;
pub mod policy;
pub mod report;
pub mod runs;
pub mod squash;
pub mod text;

verus! {

} // verus!
