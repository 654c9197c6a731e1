//! The geometry that a frame is drawn from.

use vstd::prelude::*;

pub mod buffer;

verus! {

/// An index into the vertices.
pub type Index = u16;

} // verus!
