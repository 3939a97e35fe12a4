//! USB connector status.

use vstd::prelude::*;

verus! {

/// The connector view; it holds no state.
#[derive(Clone, Copy, Debug, Default, PartialEq, Eq)]
pub struct Ucsi {}

} // verus!
