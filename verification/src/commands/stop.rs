//! The arguments of `linkup stop`.
use vstd::prelude::*;

verus! {

/// `linkup stop` takes no arguments of its own.
pub struct Args {}

} // verus!
