//! What a trampoline does between the foreign routine and a support
//! function: decode the query direction, call the closure, encode the point
//! it returns.

use crate::vector::{ccd_vec3_t, from_foreign, lossless, to_foreign};
use vstd::prelude::*;
use vstd::std_specs::convert::{FromSpec, IntoSpec};

verus! {

/// `out` is a possible answer to the direction `dir`: some decoding of `dir`,
/// handed to `support`, gives a point whose encoding is `out`.
pub open spec fn marshalled<F, T, S>(support: &F, dir: [S; 3], out: [S; 3]) -> bool where
    F: Fn(T) -> T,
    T: Into<[S; 3]> + From<[S; 3]>,
 {
    exists|d: T, p: T|
        call_ensures(T::from, (dir,), d) && #[trigger] support.ensures((d,), p) && call_ensures(
            <T as Into<[S; 3]>>::into,
            (p,),
            out,
        )
}

/// One invocation of a support function on behalf of the foreign routine.
///
/// The direction arrives in the foreign layout and the farthest point leaves
/// in it; in between the closure sees and returns its own vector type. The
/// closure is called exactly once.
pub fn support_callback<F, T, S>(support: &F, dir: ccd_vec3_t<S>) -> (vec: ccd_vec3_t<S>) where
    F: Fn(T) -> T,
    T: Into<[S; 3]> + From<[S; 3]>,

    requires
        forall|d: T| call_ensures(T::from, (dir.v,), d) ==> support.requires((d,)),
    ensures
        marshalled(support, dir.v, vec.v),
{
    let direction: T = from_foreign(dir);
    let point: T = support(direction);
    to_foreign(point)
}

/// For a vector type that converts without loss and a support function that
/// computes `farthest`, the answer to a direction is the encoding of
/// `farthest` at the decoded direction, and nothing else.
pub proof fn lemma_marshalled_exact<F, T, S>(
    support: &F,
    farthest: spec_fn(T) -> T,
    dir: [S; 3],
    out: [S; 3],
) where F: Fn(T) -> T, T: Into<[S; 3]> + From<[S; 3]>
    requires
        lossless::<T, S>(),
        forall|d: T, p: T| support.ensures((d,), p) ==> p == farthest(d),
        marshalled(support, dir, out),
    ensures
        out == farthest(T::from_spec(dir)).into_spec(),
{
}

} // verus!
