//! Lenses: composable projections from a whole piece of state into one
//! of its parts, with a read and an in-place write.

use vstd::prelude::*;

verus! {

/// A projection from `Self::Source` into a part of type `T`.
pub trait Lens<T>: Sized {
    type Source;

    /// The part this lens focuses on.
    spec fn view_part(&self, s: Self::Source) -> T;

    /// The whole with the focused part replaced.
    spec fn put_part(&self, s: Self::Source, t: T) -> Self::Source;

    /// Reads the focused part.
    fn with(&self, value: &Self::Source) -> (r: T)
        ensures
            r == self.view_part(*value),
    ;

    /// Replaces the focused part in place.
    fn with_mut(&self, value: &mut Self::Source, new: T)
        ensures
            *final(value) == self.put_part(*old(value), new),
    ;
}

/// The identity lens: the part is the whole.
#[derive(Clone, Copy, PartialEq, Eq, Structural, Debug)]
pub struct Id;

impl<T: Copy> Lens<T> for Id {
    type Source = T;

    open spec fn view_part(&self, s: T) -> T {
        s
    }

    open spec fn put_part(&self, s: T, t: T) -> T {
        t
    }

    fn with(&self, value: &T) -> (r: T) {
        *value
    }

    fn with_mut(&self, value: &mut T, new: T) {
        *value = new;
    }
}

/// Composition of two lenses: first through `A`, then through `B`.
#[derive(Clone, Copy, PartialEq, Eq, Structural, Debug)]
pub struct Then<A, B>(pub A, pub B);

impl<A, B, T> Lens<T> for Then<A, B> where A: Lens<B::Source>, B: Lens<T> {
    type Source = A::Source;

    open spec fn view_part(&self, s: A::Source) -> T {
        self.1.view_part(self.0.view_part(s))
    }

    open spec fn put_part(&self, s: A::Source, t: T) -> A::Source {
        self.0.put_part(s, self.1.put_part(self.0.view_part(s), t))
    }

    fn with(&self, value: &A::Source) -> (r: T) {
        let mid = self.0.with(value);
        self.1.with(&mid)
    }

    fn with_mut(&self, value: &mut A::Source, new: T) {
        let mut mid = self.0.with(value);
        self.1.with_mut(&mut mid, new);
        self.0.with_mut(value, mid);
    }
}

} // verus!
