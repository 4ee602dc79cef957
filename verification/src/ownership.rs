//! Pinned closures: a support function at a stable address, owned by the
//! query that uses it.
//!
//! A closure is moved to the heap when it is pinned and stays where it is
//! until it is released, so its address can serve as the context of a
//! trampoline. Pinning and releasing go through the [`Query`] whose closure
//! it is, which keeps the account: a closure is pinned only when the query
//! asks for it, and released only when the query asks for that.

use crate::query::{Action, Event, Query, Shape};
use vstd::prelude::*;

verus! {

/// An owned closure on the heap, and the shape it describes.
pub struct PinnedClosure<F> {
    closure: Box<F>,
    shape: Shape,
}

impl<F> PinnedClosure<F> {
    /// The closure that is pinned.
    pub closed spec fn closure(&self) -> F {
        *self.closure
    }

    /// The shape that the closure describes.
    pub closed spec fn spec_shape(&self) -> Shape {
        self.shape
    }

    /// The shape that the closure describes.
    #[verifier::when_used_as_spec(spec_shape)]
    pub fn shape(&self) -> (shape: Shape)
        ensures
            shape == self.spec_shape(),
    {
        self.shape
    }

    /// The pinned closure, where it lies. The reference is to the heap: it
    /// points to the same place for as long as the closure is pinned.
    pub fn get(&self) -> (held: &F)
        ensures
            *held == self.closure(),
    {
        &*self.closure
    }
}

impl Query {
    /// Pins `closure` for the shape whose turn it is, and records that.
    /// Where the query is not asking for a closure, nothing is pinned and
    /// the closure comes back.
    pub fn pin<F>(&mut self, closure: F) -> (r: Result<PinnedClosure<F>, F>)
        ensures
            match old(self).pending() {
                Action::Pin(shape) => {
                    &&& Some(*final(self)) == old(self).next(Event::Pinned(shape))
                    &&& final(self).holds(shape)
                    &&& final(self).outstanding() == old(self).outstanding() + 1
                    &&& r matches Ok(handle) && handle.closure() == closure && handle.shape()
                        == shape
                },
                _ => *final(self) == *old(self) && r == Err::<PinnedClosure<F>, F>(closure),
            },
    {
        match self.action() {
            Action::Pin(shape) => {
                let _ = self.step(Event::Pinned(shape));
                Ok(PinnedClosure { closure: Box::new(closure), shape })
            },
            _ => Err(closure),
        }
    }

    /// Destroys a pinned closure and records that. Where the query is not
    /// asking for the release of this closure's shape, nothing is destroyed
    /// and the handle comes back.
    pub fn release<F>(&mut self, handle: PinnedClosure<F>) -> (r: Result<(), PinnedClosure<F>>)
        ensures
            match old(self).next(Event::Released(handle.shape())) {
                Some(q) => {
                    &&& *final(self) == q
                    &&& old(self).holds(handle.shape())
                    &&& !q.holds(handle.shape())
                    &&& q.outstanding() + 1 == old(self).outstanding()
                    &&& r is Ok
                },
                None => *final(self) == *old(self) && r == Err::<(), PinnedClosure<F>>(handle),
            },
    {
        match self.step(Event::Released(handle.shape())) {
            Ok(_) => Ok(()),
            Err(_) => Err(handle),
        }
    }
}

} // verus!
