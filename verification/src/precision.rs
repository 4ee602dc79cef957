//! The scalar width that the bridge and the foreign library agree on.
//!
//! The foreign library is compiled for single- or for double-precision
//! scalars, and every vector and tolerance that crosses the boundary must
//! have that width. The choice is made once per build; the sizes below let a
//! build check its own layout against it.

use vstd::prelude::*;

verus! {

/// The scalar type of a build of the foreign library.
#[derive(Clone, Copy, Debug, PartialEq, Eq, Structural)]
pub enum Precision {
    Single,
    Double,
}

impl Precision {
    /// Size of one scalar, in bytes.
    pub open spec fn spec_scalar_bytes(self) -> usize {
        match self {
            Precision::Single => 4,
            Precision::Double => 8,
        }
    }

    /// Size of one scalar, in bytes: 4 in single and 8 in double precision.
    #[verifier::when_used_as_spec(spec_scalar_bytes)]
    pub fn scalar_bytes(self) -> (bytes: usize)
        ensures
            bytes == self.spec_scalar_bytes(),
    {
        match self {
            Precision::Single => 4,
            Precision::Double => 8,
        }
    }

    /// Size of a foreign vector, in bytes: three scalars and no padding.
    pub fn vector_bytes(self) -> (bytes: usize)
        ensures
            bytes == 3 * self.scalar_bytes(),
    {
        3 * self.scalar_bytes()
    }

    /// The precision whose scalars are `bytes` wide, if there is one.
    pub fn of_scalar_bytes(bytes: usize) -> (precision: Option<Precision>)
        ensures
            precision matches Some(p) ==> p.scalar_bytes() == bytes,
            precision is None <==> bytes != 4 && bytes != 8,
    {
        if bytes == 4 {
            Some(Precision::Single)
        } else if bytes == 8 {
            Some(Precision::Double)
        } else {
            None
        }
    }
}

} // verus!
