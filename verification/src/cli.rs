//! The command surface: which of the three subcommands a run serves.

use vstd::prelude::*;

verus! {

/// What the operator asked for: the full pipeline, one post-install
/// helper script, or the list of available scripts.
#[derive(Debug, Clone, Copy, PartialEq, Eq, Structural)]
pub enum SailState {
    Start,
    Exec,
    List,
}

} // verus!
