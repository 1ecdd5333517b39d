//! A system-health snapshot and a small file explorer: the arithmetic,
//! selection, rendering and navigation rules, independent of how metrics
//! and directory contents are obtained.
use vstd::prelude::*;

pub mod disk;
pub mod explorer;
pub mod line;
pub mod menu;
pub mod process;
pub mod render;
pub mod snapshot;
pub mod text;

verus! {

} // verus!
