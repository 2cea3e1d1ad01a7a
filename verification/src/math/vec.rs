use vstd::prelude::*;
use vstd::std_specs::cmp::OrdSpec;
use vstd::std_specs::convert::{FromSpecImpl, IntoSpec};
use vstd::std_specs::ops::AddSpec;
use std::cmp::Ordering;
use std::ops::Add;

verus! {

/// A pair of components of one type.
#[derive(Debug, Clone, Copy)]
pub struct Vec2<T> {
    pub x: T,
    pub y: T,
}

/// A triple of components of one type.
#[derive(Debug, Clone, Copy)]
pub struct Vec3<T> {
    pub x: T,
    pub y: T,
    pub z: T,
}

impl<T> Vec2<T> {
    /// The vector with the components `x` and `y`.
    pub fn new(x: T, y: T) -> (v: Self)
        ensures
            v.x == x,
            v.y == y,
    {
        Vec2::<T> { x, y }
    }

    /// Applies `f` to each component.
    pub fn map<U, F>(self, f: F) -> (v: Vec2<U>) where F: Fn(T) -> U
        requires
            f.requires((self.x,)),
            f.requires((self.y,)),
        ensures
            f.ensures((self.x,), v.x),
            f.ensures((self.y,), v.y),
    {
        Vec2 { x: f(self.x), y: f(self.y) }
    }
}

impl<T: Copy> Vec2<T> {
    /// The vector whose components all equal `val`.
    pub fn splat(val: T) -> (v: Self)
        ensures
            v.x == val,
            v.y == val,
    {
        Vec2::<T> { x: val, y: val }
    }
}

impl<T> Vec3<T> {
    /// The vector with the components `x`, `y` and `z`.
    pub fn new(x: T, y: T, z: T) -> (v: Self)
        ensures
            v.x == x,
            v.y == y,
            v.z == z,
    {
        Vec3::<T> { x, y, z }
    }

    /// Applies `f` to each component.
    pub fn map<U, F>(self, f: F) -> (v: Vec3<U>) where F: Fn(T) -> U
        requires
            f.requires((self.x,)),
            f.requires((self.y,)),
            f.requires((self.z,)),
        ensures
            f.ensures((self.x,), v.x),
            f.ensures((self.y,), v.y),
            f.ensures((self.z,), v.z),
    {
        Vec3 { x: f(self.x), y: f(self.y), z: f(self.z) }
    }
}

impl<T: Copy> Vec3<T> {
    /// The vector whose components all equal `val`.
    pub fn splat(val: T) -> (v: Self)
        ensures
            v.x == val,
            v.y == val,
            v.z == val,
    {
        Vec3::<T> { x: val, y: val, z: val }
    }
}

/// The greater of two values in the order of their type; of two equal
/// values, the second.
pub open spec fn spec_max<T: Ord>(a: T, b: T) -> T {
    match b.cmp_spec(&a) {
        Ordering::Less => a,
        Ordering::Equal => b,
        Ordering::Greater => b,
    }
}

/// The lesser of two values in the order of their type; of two equal
/// values, the first.
pub open spec fn spec_min<T: Ord>(a: T, b: T) -> T {
    match b.cmp_spec(&a) {
        Ordering::Less => b,
        Ordering::Equal => a,
        Ordering::Greater => a,
    }
}

impl<T> From<(T, T)> for Vec2<T> {
    fn from(pair: (T, T)) -> (v: Self) {
        Vec2::<T> { x: pair.0, y: pair.1 }
    }
}

impl<T> FromSpecImpl<(T, T)> for Vec2<T> {
    open spec fn obeys_from_spec() -> bool {
        true
    }

    open spec fn from_spec(pair: (T, T)) -> Self {
        Vec2 { x: pair.0, y: pair.1 }
    }
}

impl<T: Copy> From<T> for Vec2<T> {
    fn from(val: T) -> (v: Self) {
        Vec2::<T> { x: val, y: val }
    }
}

impl<T: Copy> FromSpecImpl<T> for Vec2<T> {
    open spec fn obeys_from_spec() -> bool {
        true
    }

    open spec fn from_spec(val: T) -> Self {
        Vec2 { x: val, y: val }
    }
}

impl<T: Copy> From<T> for Vec3<T> {
    fn from(val: T) -> (v: Self) {
        Vec3::<T> { x: val, y: val, z: val }
    }
}

impl<T: Copy> FromSpecImpl<T> for Vec3<T> {
    open spec fn obeys_from_spec() -> bool {
        true
    }

    open spec fn from_spec(val: T) -> Self {
        Vec3 { x: val, y: val, z: val }
    }
}

impl<T> From<(T, T, T)> for Vec3<T> {
    fn from(triple: (T, T, T)) -> (v: Self) {
        Vec3::<T> { x: triple.0, y: triple.1, z: triple.2 }
    }
}

impl<T> FromSpecImpl<(T, T, T)> for Vec3<T> {
    open spec fn obeys_from_spec() -> bool {
        true
    }

    open spec fn from_spec(triple: (T, T, T)) -> Self {
        Vec3 { x: triple.0, y: triple.1, z: triple.2 }
    }
}

impl<T> Vec2<T> {
    /// Converts each component.
    pub fn cast<U>(self) -> (v: Vec2<U>) where T: Into<U>
        ensures
            T::obeys_into_spec() ==> v.x == self.x.into_spec() && v.y == self.y.into_spec(),
    {
        Vec2 { x: self.x.into(), y: self.y.into() }
    }
}

impl<T> Vec3<T> {
    /// Converts each component.
    pub fn cast<U>(self) -> (v: Vec3<U>) where T: Into<U>
        ensures
            T::obeys_into_spec() ==> v.x == self.x.into_spec() && v.y == self.y.into_spec() && v.z
                == self.z.into_spec(),
    {
        Vec3 { x: self.x.into(), y: self.y.into(), z: self.z.into() }
    }
}

impl<T: Ord> Vec2<T> {
    /// The greater component of the two vectors, axis by axis.
    pub fn max(self, other: Vec2<T>) -> (v: Vec2<T>)
        ensures
            T::obeys_cmp_spec() ==> v.x == spec_max(self.x, other.x) && v.y == spec_max(
                self.y,
                other.y,
            ),
    {
        Vec2 { x: self.x.max(other.x), y: self.y.max(other.y) }
    }

    /// The lesser component of the two vectors, axis by axis.
    pub fn min(self, other: Vec2<T>) -> (v: Vec2<T>)
        ensures
            T::obeys_cmp_spec() ==> v.x == spec_min(self.x, other.x) && v.y == spec_min(
                self.y,
                other.y,
            ),
    {
        Vec2 { x: self.x.min(other.x), y: self.y.min(other.y) }
    }
}

impl<T: Ord> Vec3<T> {
    /// The greater component of the two vectors, axis by axis.
    pub fn max(self, other: Vec3<T>) -> (v: Vec3<T>)
        ensures
            T::obeys_cmp_spec() ==> v.x == spec_max(self.x, other.x) && v.y == spec_max(
                self.y,
                other.y,
            ) && v.z == spec_max(self.z, other.z),
    {
        Vec3 { x: self.x.max(other.x), y: self.y.max(other.y), z: self.z.max(other.z) }
    }

    /// The lesser component of the two vectors, axis by axis.
    pub fn min(self, other: Vec3<T>) -> (v: Vec3<T>)
        ensures
            T::obeys_cmp_spec() ==> v.x == spec_min(self.x, other.x) && v.y == spec_min(
                self.y,
                other.y,
            ) && v.z == spec_min(self.z, other.z),
    {
        Vec3 { x: self.x.min(other.x), y: self.y.min(other.y), z: self.z.min(other.z) }
    }
}

impl<T: Add<Output = T>> Vec2<T> {
    /// The sum of the components.
    pub fn sum(self) -> (total: T)
        requires
            self.x.add_req(self.y),
        ensures
            T::obeys_add_spec() ==> total == self.x.add_spec(self.y),
    {
        self.x + self.y
    }
}

impl<T: Add<Output = T>> Vec3<T> {
    /// The sum of the components, taken from the left.
    pub fn sum(self) -> (total: T)
        requires
            self.x.add_req(self.y),
            forall|partial: T|
                call_ensures(T::add, (self.x, self.y), partial) ==> partial.add_req(self.z),
        ensures
            T::obeys_add_spec() ==> total == self.x.add_spec(self.y).add_spec(self.z),
    {
        self.x + self.y + self.z
    }
}

} // verus!
