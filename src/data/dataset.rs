//! The capability every visualization dataset offers.
use vstd::prelude::*;

use crate::math::bounds::Bounds3D;

verus! {

/// A dataset that can be framed, counted and named.
pub trait Dataset {
    /// Number of elements, as a mathematical value.
    spec fn spec_len(&self) -> nat;

    /// Box enclosing all of the data.
    spec fn spec_bounds(&self) -> Bounds3D;

    /// Human-readable name.
    spec fn spec_name(&self) -> Seq<char>;

    /// The bounding box enclosing all data.
    fn bounds(&self) -> (r: Bounds3D)
        ensures
            r == self.spec_bounds(),
    ;

    /// Number of elements in the dataset.
    fn len(&self) -> (r: usize)
        ensures
            r == self.spec_len(),
    ;

    /// Whether the dataset has no elements.
    fn is_empty(&self) -> (r: bool)
        ensures
            r == (self.spec_len() == 0),
    {
        self.len() == 0
    }

    /// A human-readable name for the dataset.
    fn name(&self) -> (r: &str)
        ensures
            r@ == self.spec_name(),
    ;
}

} // verus!
