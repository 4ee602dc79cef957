//! The foreign vector layout, and the conversions a caller's vector type owes
//! the bridge.
//!
//! The foreign routine reads and writes directions and points as three
//! scalars in a row, `x`, `y`, `z`, with nothing between them. The scalar
//! type is a parameter: the bridge only moves components, so the same code
//! serves a single- and a double-precision build.

use vstd::prelude::*;
use vstd::std_specs::convert::{FromSpec, IntoSpec};

verus! {

/// Three scalars in the order and layout that the foreign routine expects.
#[allow(non_camel_case_types)]
#[derive(Debug, PartialEq)]
pub struct ccd_vec3_t<S> {
    pub v: [S; 3],
}

impl<S: Copy> Copy for ccd_vec3_t<S> {

}

impl<S: Copy> Clone for ccd_vec3_t<S> {
    fn clone(&self) -> (r: Self)
        ensures
            r == *self,
    {
        *self
    }
}

/// A three-component vector value: a direction or a point.
#[derive(Debug, PartialEq)]
pub struct Vector3<S> {
    pub x: S,
    pub y: S,
    pub z: S,
}

impl<S: Copy> Copy for Vector3<S> {

}

impl<S: Copy> Clone for Vector3<S> {
    fn clone(&self) -> (r: Self)
        ensures
            r == *self,
    {
        *self
    }
}

impl<S: Copy> Vector3<S> {
    /// The array that holds the components of `self` in foreign order.
    pub open spec fn components(self) -> [S; 3] {
        [self.x, self.y, self.z]
    }

    /// The vector whose components are the entries of `v`, in order.
    pub open spec fn of_components(v: [S; 3]) -> Self {
        Vector3 { x: v[0], y: v[1], z: v[2] }
    }
}

impl<S: Copy> From<[S; 3]> for Vector3<S> {
    fn from(v: [S; 3]) -> (r: Self)
        ensures
            r == Vector3::of_components(v),
    {
        Vector3 { x: v[0], y: v[1], z: v[2] }
    }
}

impl<S: Copy> vstd::std_specs::convert::FromSpecImpl<[S; 3]> for Vector3<S> {
    open spec fn obeys_from_spec() -> bool {
        true
    }

    open spec fn from_spec(v: [S; 3]) -> Self {
        Vector3::of_components(v)
    }
}

impl<S: Copy> From<Vector3<S>> for [S; 3] {
    fn from(p: Vector3<S>) -> (r: Self)
        ensures
            r == p.components(),
    {
        [p.x, p.y, p.z]
    }
}

impl<S: Copy> vstd::std_specs::convert::FromSpecImpl<Vector3<S>> for [S; 3] {
    open spec fn obeys_from_spec() -> bool {
        true
    }

    open spec fn from_spec(p: Vector3<S>) -> Self {
        p.components()
    }
}

/// Whether `T` converts to and from the foreign layout without loss: both
/// conversions are specified, and each undoes the other.
pub open spec fn lossless<T, S>() -> bool where T: From<[S; 3]> + Into<[S; 3]> {
    &&& T::obeys_from_spec()
    &&& T::obeys_into_spec()
    &&& forall|t: T| T::from_spec(#[trigger] t.into_spec()) == t
    &&& forall|v: [S; 3]| (#[trigger] T::from_spec(v)).into_spec() == v
}

/// Decodes a foreign vector into the caller's vector type.
pub fn from_foreign<T, S>(raw: ccd_vec3_t<S>) -> (value: T) where T: From<[S; 3]>
    ensures
        call_ensures(T::from, (raw.v,), value),
        T::obeys_from_spec() ==> value == T::from_spec(raw.v),
{
    T::from(raw.v)
}

/// Encodes a value of the caller's vector type in the foreign layout.
pub fn to_foreign<T, S>(value: T) -> (raw: ccd_vec3_t<S>) where T: Into<[S; 3]>
    ensures
        call_ensures(<T as Into<[S; 3]>>::into, (value,), raw.v),
        T::obeys_into_spec() ==> raw.v == value.into_spec(),
{
    ccd_vec3_t { v: value.into() }
}

/// `Vector3` meets the conversion contract for every scalar type.
pub proof fn lemma_vector3_lossless<S: Copy>()
    ensures
        lossless::<Vector3<S>, S>(),
{
    assert forall|v: [S; 3]|
        IntoSpec::<[S; 3]>::into_spec(#[trigger] Vector3::<S>::from_spec(v)) == v by {
        assert(Vector3::of_components(v).components() =~= v);
    }
}

/// Round trip: encoding a `Vector3` and decoding the result gives the vector
/// back, component for component; so does decoding a foreign vector and
/// encoding the result.
pub proof fn lemma_round_trip<S: Copy>(p: Vector3<S>, v: [S; 3])
    ensures
        Vector3::of_components(p.components()) == p,
        Vector3::of_components(v).components() == v,
{
    assert(Vector3::of_components(v).components() =~= v);
}

} // verus!
