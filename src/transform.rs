//! The transform of a plotter together with its inverse. The two are only
//! ever set together: a transform whose inverse could not be computed is
//! refused, and the pair is then left as it was.

use vstd::prelude::*;

verus! {

/// A transform of kind `M` from model space to surface space, and the
/// inverse that takes surface space back to model space.
pub struct TransformPair<M> {
    transform: M,
    inverse: M,
}

impl<M> TransformPair<M> {
    /// The transform from model space to surface space.
    pub closed spec fn transform(&self) -> M {
        self.transform
    }

    /// The transform from surface space back to model space.
    pub closed spec fn inverse(&self) -> M {
        self.inverse
    }

    /// The pair of `transform` and its inverse `inverse`.
    pub fn new(transform: M, inverse: M) -> (pair: Self)
        ensures
            pair.transform() == transform,
            pair.inverse() == inverse,
    {
        TransformPair { transform, inverse }
    }

    /// Sets `transform`, given the outcome of inverting it: with an inverse
    /// both are stored and `true` comes back; without one (the transform is
    /// singular) nothing changes and `false` comes back.
    pub fn set_transform(&mut self, transform: M, inverse: Option<M>) -> (accepted: bool)
        ensures
            accepted == inverse is Some,
            inverse matches Some(inv) ==> final(self).transform() == transform && final(self).inverse() == inv,
            inverse is None ==> *final(self) == *old(self),
    {
        match inverse {
            Some(inv) => {
                self.transform = transform;
                self.inverse = inv;
                true
            },
            None => false,
        }
    }

    /// The transform from model space to surface space.
    pub fn get_transform(&self) -> (transform: &M)
        ensures
            *transform == self.transform(),
    {
        &self.transform
    }

    /// The transform from surface space back to model space.
    pub fn get_inverse(&self) -> (inverse: &M)
        ensures
            *inverse == self.inverse(),
    {
        &self.inverse
    }
}

} // verus!
