//! Marker types for the coordinate spaces a projection can map between,
//! e.g. from world space to camera space.

use vstd::prelude::*;

verus! {

/// Object space.
pub struct Object {}

/// World space.
pub struct World {}

/// Camera space.
pub struct Camera {}

/// Screen space.
pub struct Screen {}

} // verus!
