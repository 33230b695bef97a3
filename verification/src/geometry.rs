//! Plain coordinate tuples.
//!
//! The scene node stores and hands back coordinates; it never computes with
//! them. The scalar type is therefore a parameter, and every operation here is
//! a construction or a projection.

use vstd::prelude::*;

verus! {

/// A point of the plane, used for texture coordinates.
#[derive(Debug, PartialEq)]
pub struct Point2<T> {
    /// The first coordinate.
    pub x: T,
    /// The second coordinate.
    pub y: T,
}

/// A point of space. With an integer scalar it also serves as the index
/// triple of a triangular face, and with a colour channel as an RGB triple.
#[derive(Debug, PartialEq)]
pub struct Point3<T> {
    /// The first coordinate.
    pub x: T,
    /// The second coordinate.
    pub y: T,
    /// The third coordinate.
    pub z: T,
}

/// A direction of space, used for normals and for scale factors.
#[derive(Debug, PartialEq)]
pub struct Vector3<T> {
    /// The first coordinate.
    pub x: T,
    /// The second coordinate.
    pub y: T,
    /// The third coordinate.
    pub z: T,
}

impl<T: Copy> Clone for Point2<T> {
    fn clone(&self) -> (p: Self)
        ensures
            p == *self,
    {
        *self
    }
}

impl<T: Copy> Copy for Point2<T> {

}

impl<T: Copy> Clone for Point3<T> {
    fn clone(&self) -> (p: Self)
        ensures
            p == *self,
    {
        *self
    }
}

impl<T: Copy> Copy for Point3<T> {

}

impl<T: Copy> Clone for Vector3<T> {
    fn clone(&self) -> (v: Self)
        ensures
            v == *self,
    {
        *self
    }
}

impl<T: Copy> Copy for Vector3<T> {

}

impl<T> Point2<T> {
    /// Builds the point `(x, y)`.
    pub fn new(x: T, y: T) -> (p: Self)
        ensures
            p.x == x,
            p.y == y,
    {
        Point2 { x, y }
    }
}

impl<T> Point3<T> {
    /// Builds the point `(x, y, z)`.
    pub fn new(x: T, y: T, z: T) -> (p: Self)
        ensures
            p.x == x,
            p.y == y,
            p.z == z,
    {
        Point3 { x, y, z }
    }
}

impl<T> Vector3<T> {
    /// Builds the vector `(x, y, z)`.
    pub fn new(x: T, y: T, z: T) -> (v: Self)
        ensures
            v.x == x,
            v.y == y,
            v.z == z,
    {
        Vector3 { x, y, z }
    }
}

} // verus!
