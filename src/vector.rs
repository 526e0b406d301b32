//! Three- and four-component vectors that matrices are applied to.
use vstd::prelude::*;

verus! {

/// A homogeneous four-component vector `(x, y, z, w)`.
#[derive(Clone, Copy, Debug, PartialEq)]
pub struct AffineVector<T> {
    x: T,
    y: T,
    z: T,
    w: T,
}

/// A three-component vector `(x, y, z)`.
#[derive(Clone, Copy, Debug, PartialEq)]
pub struct Vector<T> {
    x: T,
    y: T,
    z: T,
}

impl<T> View for AffineVector<T> {
    type V = Seq<T>;

    /// The components in the order x, y, z, w.
    closed spec fn view(&self) -> Seq<T> {
        seq![self.x, self.y, self.z, self.w]
    }
}

impl<T> View for Vector<T> {
    type V = Seq<T>;

    /// The components in the order x, y, z.
    closed spec fn view(&self) -> Seq<T> {
        seq![self.x, self.y, self.z]
    }
}

impl<T: Copy> AffineVector<T> {
    pub fn new(x: T, y: T, z: T, w: T) -> (r: AffineVector<T>)
        ensures
            r@ == seq![x, y, z, w],
    {
        AffineVector { x, y, z, w }
    }

    pub fn x(&self) -> (r: T)
        ensures
            r == self@[0],
    {
        self.x
    }

    pub fn y(&self) -> (r: T)
        ensures
            r == self@[1],
    {
        self.y
    }

    pub fn z(&self) -> (r: T)
        ensures
            r == self@[2],
    {
        self.z
    }

    pub fn w(&self) -> (r: T)
        ensures
            r == self@[3],
    {
        self.w
    }

    /// The first three components; the fourth is dropped, not divided through.
    pub fn xyz(&self) -> (r: Vector<T>)
        ensures
            r@ == self@.subrange(0, 3),
    {
        Vector::new(self.x, self.y, self.z)
    }
}

impl<T: Copy> Vector<T> {
    pub fn new(x: T, y: T, z: T) -> (r: Vector<T>)
        ensures
            r@ == seq![x, y, z],
    {
        Vector { x, y, z }
    }

    pub fn x(&self) -> (r: T)
        ensures
            r == self@[0],
    {
        self.x
    }

    pub fn y(&self) -> (r: T)
        ensures
            r == self@[1],
    {
        self.y
    }

    pub fn z(&self) -> (r: T)
        ensures
            r == self@[2],
    {
        self.z
    }

    /// The homogeneous vector `(x, y, z, w)`: `w` is 1 for a point, 0 for a direction.
    pub fn homogeneous(&self, w: T) -> (r: AffineVector<T>)
        ensures
            r@ == self@.push(w),
    {
        AffineVector::new(self.x, self.y, self.z, w)
    }
}

} // verus!
