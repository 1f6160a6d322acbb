//! Joining two vectors by value.

use vstd::prelude::*;

verus! {

/// Vectors that can take another of their kind at their end.
pub trait VecExt: Sized {
    /// What the vector holds.
    type Item;

    /// The items of the vector, in order.
    spec fn items(&self) -> Seq<Self::Item>;

    /// `self` followed by `other`.
    fn extended(self, other: Self) -> (joined: Self)
        ensures
            joined.items() == self.items() + other.items(),
    ;
}

impl<T> VecExt for Vec<T> {
    type Item = T;

    open spec fn items(&self) -> Seq<T> {
        self@
    }

    fn extended(self, other: Self) -> (joined: Self) {
        let mut joined = self;
        let mut rest = other;
        joined.append(&mut rest);
        joined
    }
}

} // verus!
