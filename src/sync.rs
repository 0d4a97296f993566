//! Labels shared by the folder and envelope synchronization engines.

use vstd::prelude::*;

verus! {

/// One of the two peers being synchronized.
#[derive(Clone, Copy, Debug, PartialEq, Eq, Structural, Hash, PartialOrd, Ord)]
pub enum SyncDestination {
    Left,
    Right,
}

} // verus!
