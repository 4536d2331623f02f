//! A multi-channel audio controller: a fixed set of named channels, a library of sound
//! assets by name, an interpreter that turns sound actions into player commands, and the
//! per-channel table that scripts read.

use vstd::prelude::*;

pub mod action;
pub mod audio;
pub mod laws;
pub mod mode;
pub mod snapshot;

verus! {

} // verus!
