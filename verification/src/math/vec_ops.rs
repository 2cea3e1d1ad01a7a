use vstd::prelude::*;
use vstd::std_specs::ops::{
    AddSpec, AddSpecImpl, DivSpec, DivSpecImpl, MulSpec, MulSpecImpl, RemSpec, RemSpecImpl, SubSpec,
    SubSpecImpl,
};
use std::ops::{
    Add, AddAssign, Div, DivAssign, Mul, MulAssign, Rem, RemAssign, Sub, SubAssign,
};
use crate::math::vec::{Vec2, Vec3};

verus! {

/// The sum of two vectors, component by component.
impl<T: Add<Output = T>> Add for Vec2<T> {
    type Output = Vec2<T>;

    fn add(self, other: Vec2<T>) -> (v: Vec2<T>) {
        Vec2 { x: self.x + other.x, y: self.y + other.y }
    }
}

impl<T: Add<Output = T>> AddSpecImpl for Vec2<T> {
    open spec fn obeys_add_spec() -> bool {
        T::obeys_add_spec()
    }

    open spec fn add_req(self, other: Vec2<T>) -> bool {
        self.x.add_req(other.x) && self.y.add_req(other.y)
    }

    open spec fn add_spec(self, other: Vec2<T>) -> Vec2<T> {
        Vec2 { x: self.x.add_spec(other.x), y: self.y.add_spec(other.y) }
    }
}

/// The sum of each component and a scalar.
impl<T: Add<Output = T> + Copy> Add<T> for Vec2<T> {
    type Output = Vec2<T>;

    fn add(self, scalar: T) -> (v: Vec2<T>) {
        Vec2 { x: self.x + scalar, y: self.y + scalar }
    }
}

impl<T: Add<Output = T> + Copy> AddSpecImpl<T> for Vec2<T> {
    open spec fn obeys_add_spec() -> bool {
        T::obeys_add_spec()
    }

    open spec fn add_req(self, scalar: T) -> bool {
        self.x.add_req(scalar) && self.y.add_req(scalar)
    }

    open spec fn add_spec(self, scalar: T) -> Vec2<T> {
        Vec2 { x: self.x.add_spec(scalar), y: self.y.add_spec(scalar) }
    }
}

/// Replaces the vector by its sum with another vector.
impl<T: Add<Output = T> + Copy> AddAssign for Vec2<T> {
    fn add_assign(&mut self, other: Vec2<T>)
        requires
            old(self).x.add_req(other.x),
            old(self).y.add_req(other.y),
        ensures
            T::obeys_add_spec() ==> final(self).x == old(self).x.add_spec(other.x),
            T::obeys_add_spec() ==> final(self).y == old(self).y.add_spec(other.y),
    {
        self.x = self.x + other.x;
        self.y = self.y + other.y;
    }
}

/// Replaces each component by its sum with a scalar.
impl<T: Add<Output = T> + Copy> AddAssign<T> for Vec2<T> {
    fn add_assign(&mut self, scalar: T)
        requires
            old(self).x.add_req(scalar),
            old(self).y.add_req(scalar),
        ensures
            T::obeys_add_spec() ==> final(self).x == old(self).x.add_spec(scalar),
            T::obeys_add_spec() ==> final(self).y == old(self).y.add_spec(scalar),
    {
        self.x = self.x + scalar;
        self.y = self.y + scalar;
    }
}

/// The difference of two vectors, component by component.
impl<T: Sub<Output = T>> Sub for Vec2<T> {
    type Output = Vec2<T>;

    fn sub(self, other: Vec2<T>) -> (v: Vec2<T>) {
        Vec2 { x: self.x - other.x, y: self.y - other.y }
    }
}

impl<T: Sub<Output = T>> SubSpecImpl for Vec2<T> {
    open spec fn obeys_sub_spec() -> bool {
        T::obeys_sub_spec()
    }

    open spec fn sub_req(self, other: Vec2<T>) -> bool {
        self.x.sub_req(other.x) && self.y.sub_req(other.y)
    }

    open spec fn sub_spec(self, other: Vec2<T>) -> Vec2<T> {
        Vec2 { x: self.x.sub_spec(other.x), y: self.y.sub_spec(other.y) }
    }
}

/// The difference of each component and a scalar.
impl<T: Sub<Output = T> + Copy> Sub<T> for Vec2<T> {
    type Output = Vec2<T>;

    fn sub(self, scalar: T) -> (v: Vec2<T>) {
        Vec2 { x: self.x - scalar, y: self.y - scalar }
    }
}

impl<T: Sub<Output = T> + Copy> SubSpecImpl<T> for Vec2<T> {
    open spec fn obeys_sub_spec() -> bool {
        T::obeys_sub_spec()
    }

    open spec fn sub_req(self, scalar: T) -> bool {
        self.x.sub_req(scalar) && self.y.sub_req(scalar)
    }

    open spec fn sub_spec(self, scalar: T) -> Vec2<T> {
        Vec2 { x: self.x.sub_spec(scalar), y: self.y.sub_spec(scalar) }
    }
}

/// Replaces the vector by its difference with another vector.
impl<T: Sub<Output = T> + Copy> SubAssign for Vec2<T> {
    fn sub_assign(&mut self, other: Vec2<T>)
        requires
            old(self).x.sub_req(other.x),
            old(self).y.sub_req(other.y),
        ensures
            T::obeys_sub_spec() ==> final(self).x == old(self).x.sub_spec(other.x),
            T::obeys_sub_spec() ==> final(self).y == old(self).y.sub_spec(other.y),
    {
        self.x = self.x - other.x;
        self.y = self.y - other.y;
    }
}

/// Replaces each component by its difference with a scalar.
impl<T: Sub<Output = T> + Copy> SubAssign<T> for Vec2<T> {
    fn sub_assign(&mut self, scalar: T)
        requires
            old(self).x.sub_req(scalar),
            old(self).y.sub_req(scalar),
        ensures
            T::obeys_sub_spec() ==> final(self).x == old(self).x.sub_spec(scalar),
            T::obeys_sub_spec() ==> final(self).y == old(self).y.sub_spec(scalar),
    {
        self.x = self.x - scalar;
        self.y = self.y - scalar;
    }
}

/// The product of two vectors, component by component.
impl<T: Mul<Output = T>> Mul for Vec2<T> {
    type Output = Vec2<T>;

    fn mul(self, other: Vec2<T>) -> (v: Vec2<T>) {
        Vec2 { x: self.x * other.x, y: self.y * other.y }
    }
}

impl<T: Mul<Output = T>> MulSpecImpl for Vec2<T> {
    open spec fn obeys_mul_spec() -> bool {
        T::obeys_mul_spec()
    }

    open spec fn mul_req(self, other: Vec2<T>) -> bool {
        self.x.mul_req(other.x) && self.y.mul_req(other.y)
    }

    open spec fn mul_spec(self, other: Vec2<T>) -> Vec2<T> {
        Vec2 { x: self.x.mul_spec(other.x), y: self.y.mul_spec(other.y) }
    }
}

/// The product of each component and a scalar.
impl<T: Mul<Output = T> + Copy> Mul<T> for Vec2<T> {
    type Output = Vec2<T>;

    fn mul(self, scalar: T) -> (v: Vec2<T>) {
        Vec2 { x: self.x * scalar, y: self.y * scalar }
    }
}

impl<T: Mul<Output = T> + Copy> MulSpecImpl<T> for Vec2<T> {
    open spec fn obeys_mul_spec() -> bool {
        T::obeys_mul_spec()
    }

    open spec fn mul_req(self, scalar: T) -> bool {
        self.x.mul_req(scalar) && self.y.mul_req(scalar)
    }

    open spec fn mul_spec(self, scalar: T) -> Vec2<T> {
        Vec2 { x: self.x.mul_spec(scalar), y: self.y.mul_spec(scalar) }
    }
}

/// Replaces the vector by its product with another vector.
impl<T: Mul<Output = T> + Copy> MulAssign for Vec2<T> {
    fn mul_assign(&mut self, other: Vec2<T>)
        requires
            old(self).x.mul_req(other.x),
            old(self).y.mul_req(other.y),
        ensures
            T::obeys_mul_spec() ==> final(self).x == old(self).x.mul_spec(other.x),
            T::obeys_mul_spec() ==> final(self).y == old(self).y.mul_spec(other.y),
    {
        self.x = self.x * other.x;
        self.y = self.y * other.y;
    }
}

/// Replaces each component by its product with a scalar.
impl<T: Mul<Output = T> + Copy> MulAssign<T> for Vec2<T> {
    fn mul_assign(&mut self, scalar: T)
        requires
            old(self).x.mul_req(scalar),
            old(self).y.mul_req(scalar),
        ensures
            T::obeys_mul_spec() ==> final(self).x == old(self).x.mul_spec(scalar),
            T::obeys_mul_spec() ==> final(self).y == old(self).y.mul_spec(scalar),
    {
        self.x = self.x * scalar;
        self.y = self.y * scalar;
    }
}

/// The quotient of two vectors, component by component.
impl<T: Div<Output = T>> Div for Vec2<T> {
    type Output = Vec2<T>;

    fn div(self, other: Vec2<T>) -> (v: Vec2<T>) {
        Vec2 { x: self.x / other.x, y: self.y / other.y }
    }
}

impl<T: Div<Output = T>> DivSpecImpl for Vec2<T> {
    open spec fn obeys_div_spec() -> bool {
        T::obeys_div_spec()
    }

    open spec fn div_req(self, other: Vec2<T>) -> bool {
        self.x.div_req(other.x) && self.y.div_req(other.y)
    }

    open spec fn div_spec(self, other: Vec2<T>) -> Vec2<T> {
        Vec2 { x: self.x.div_spec(other.x), y: self.y.div_spec(other.y) }
    }
}

/// The quotient of each component and a scalar.
impl<T: Div<Output = T> + Copy> Div<T> for Vec2<T> {
    type Output = Vec2<T>;

    fn div(self, scalar: T) -> (v: Vec2<T>) {
        Vec2 { x: self.x / scalar, y: self.y / scalar }
    }
}

impl<T: Div<Output = T> + Copy> DivSpecImpl<T> for Vec2<T> {
    open spec fn obeys_div_spec() -> bool {
        T::obeys_div_spec()
    }

    open spec fn div_req(self, scalar: T) -> bool {
        self.x.div_req(scalar) && self.y.div_req(scalar)
    }

    open spec fn div_spec(self, scalar: T) -> Vec2<T> {
        Vec2 { x: self.x.div_spec(scalar), y: self.y.div_spec(scalar) }
    }
}

/// Replaces the vector by its quotient with another vector.
impl<T: Div<Output = T> + Copy> DivAssign for Vec2<T> {
    fn div_assign(&mut self, other: Vec2<T>)
        requires
            old(self).x.div_req(other.x),
            old(self).y.div_req(other.y),
        ensures
            T::obeys_div_spec() ==> final(self).x == old(self).x.div_spec(other.x),
            T::obeys_div_spec() ==> final(self).y == old(self).y.div_spec(other.y),
    {
        self.x = self.x / other.x;
        self.y = self.y / other.y;
    }
}

/// Replaces each component by its quotient with a scalar.
impl<T: Div<Output = T> + Copy> DivAssign<T> for Vec2<T> {
    fn div_assign(&mut self, scalar: T)
        requires
            old(self).x.div_req(scalar),
            old(self).y.div_req(scalar),
        ensures
            T::obeys_div_spec() ==> final(self).x == old(self).x.div_spec(scalar),
            T::obeys_div_spec() ==> final(self).y == old(self).y.div_spec(scalar),
    {
        self.x = self.x / scalar;
        self.y = self.y / scalar;
    }
}

/// The remainder of two vectors, component by component.
impl<T: Rem<Output = T>> Rem for Vec2<T> {
    type Output = Vec2<T>;

    fn rem(self, other: Vec2<T>) -> (v: Vec2<T>) {
        Vec2 { x: self.x % other.x, y: self.y % other.y }
    }
}

impl<T: Rem<Output = T>> RemSpecImpl for Vec2<T> {
    open spec fn obeys_rem_spec() -> bool {
        T::obeys_rem_spec()
    }

    open spec fn rem_req(self, other: Vec2<T>) -> bool {
        self.x.rem_req(other.x) && self.y.rem_req(other.y)
    }

    open spec fn rem_spec(self, other: Vec2<T>) -> Vec2<T> {
        Vec2 { x: self.x.rem_spec(other.x), y: self.y.rem_spec(other.y) }
    }
}

/// The remainder of each component and a scalar.
impl<T: Rem<Output = T> + Copy> Rem<T> for Vec2<T> {
    type Output = Vec2<T>;

    fn rem(self, scalar: T) -> (v: Vec2<T>) {
        Vec2 { x: self.x % scalar, y: self.y % scalar }
    }
}

impl<T: Rem<Output = T> + Copy> RemSpecImpl<T> for Vec2<T> {
    open spec fn obeys_rem_spec() -> bool {
        T::obeys_rem_spec()
    }

    open spec fn rem_req(self, scalar: T) -> bool {
        self.x.rem_req(scalar) && self.y.rem_req(scalar)
    }

    open spec fn rem_spec(self, scalar: T) -> Vec2<T> {
        Vec2 { x: self.x.rem_spec(scalar), y: self.y.rem_spec(scalar) }
    }
}

/// Replaces the vector by its remainder with another vector.
impl<T: Rem<Output = T> + Copy> RemAssign for Vec2<T> {
    fn rem_assign(&mut self, other: Vec2<T>)
        requires
            old(self).x.rem_req(other.x),
            old(self).y.rem_req(other.y),
        ensures
            T::obeys_rem_spec() ==> final(self).x == old(self).x.rem_spec(other.x),
            T::obeys_rem_spec() ==> final(self).y == old(self).y.rem_spec(other.y),
    {
        self.x = self.x % other.x;
        self.y = self.y % other.y;
    }
}

/// Replaces each component by its remainder with a scalar.
impl<T: Rem<Output = T> + Copy> RemAssign<T> for Vec2<T> {
    fn rem_assign(&mut self, scalar: T)
        requires
            old(self).x.rem_req(scalar),
            old(self).y.rem_req(scalar),
        ensures
            T::obeys_rem_spec() ==> final(self).x == old(self).x.rem_spec(scalar),
            T::obeys_rem_spec() ==> final(self).y == old(self).y.rem_spec(scalar),
    {
        self.x = self.x % scalar;
        self.y = self.y % scalar;
    }
}

/// The sum of two vectors, component by component.
impl<T: Add<Output = T>> Add for Vec3<T> {
    type Output = Vec3<T>;

    fn add(self, other: Vec3<T>) -> (v: Vec3<T>) {
        Vec3 { x: self.x + other.x, y: self.y + other.y, z: self.z + other.z }
    }
}

impl<T: Add<Output = T>> AddSpecImpl for Vec3<T> {
    open spec fn obeys_add_spec() -> bool {
        T::obeys_add_spec()
    }

    open spec fn add_req(self, other: Vec3<T>) -> bool {
        self.x.add_req(other.x) && self.y.add_req(other.y) && self.z.add_req(other.z)
    }

    open spec fn add_spec(self, other: Vec3<T>) -> Vec3<T> {
        Vec3 {
            x: self.x.add_spec(other.x),
            y: self.y.add_spec(other.y),
            z: self.z.add_spec(other.z),
        }
    }
}

/// The sum of each component and a scalar.
impl<T: Add<Output = T> + Copy> Add<T> for Vec3<T> {
    type Output = Vec3<T>;

    fn add(self, scalar: T) -> (v: Vec3<T>) {
        Vec3 { x: self.x + scalar, y: self.y + scalar, z: self.z + scalar }
    }
}

impl<T: Add<Output = T> + Copy> AddSpecImpl<T> for Vec3<T> {
    open spec fn obeys_add_spec() -> bool {
        T::obeys_add_spec()
    }

    open spec fn add_req(self, scalar: T) -> bool {
        self.x.add_req(scalar) && self.y.add_req(scalar) && self.z.add_req(scalar)
    }

    open spec fn add_spec(self, scalar: T) -> Vec3<T> {
        Vec3 { x: self.x.add_spec(scalar), y: self.y.add_spec(scalar), z: self.z.add_spec(scalar) }
    }
}

/// Replaces the vector by its sum with another vector.
impl<T: Add<Output = T> + Copy> AddAssign for Vec3<T> {
    fn add_assign(&mut self, other: Vec3<T>)
        requires
            old(self).x.add_req(other.x),
            old(self).y.add_req(other.y),
            old(self).z.add_req(other.z),
        ensures
            T::obeys_add_spec() ==> final(self).x == old(self).x.add_spec(other.x),
            T::obeys_add_spec() ==> final(self).y == old(self).y.add_spec(other.y),
            T::obeys_add_spec() ==> final(self).z == old(self).z.add_spec(other.z),
    {
        self.x = self.x + other.x;
        self.y = self.y + other.y;
        self.z = self.z + other.z;
    }
}

/// Replaces each component by its sum with a scalar.
impl<T: Add<Output = T> + Copy> AddAssign<T> for Vec3<T> {
    fn add_assign(&mut self, scalar: T)
        requires
            old(self).x.add_req(scalar),
            old(self).y.add_req(scalar),
            old(self).z.add_req(scalar),
        ensures
            T::obeys_add_spec() ==> final(self).x == old(self).x.add_spec(scalar),
            T::obeys_add_spec() ==> final(self).y == old(self).y.add_spec(scalar),
            T::obeys_add_spec() ==> final(self).z == old(self).z.add_spec(scalar),
    {
        self.x = self.x + scalar;
        self.y = self.y + scalar;
        self.z = self.z + scalar;
    }
}

/// The difference of two vectors, component by component.
impl<T: Sub<Output = T>> Sub for Vec3<T> {
    type Output = Vec3<T>;

    fn sub(self, other: Vec3<T>) -> (v: Vec3<T>) {
        Vec3 { x: self.x - other.x, y: self.y - other.y, z: self.z - other.z }
    }
}

impl<T: Sub<Output = T>> SubSpecImpl for Vec3<T> {
    open spec fn obeys_sub_spec() -> bool {
        T::obeys_sub_spec()
    }

    open spec fn sub_req(self, other: Vec3<T>) -> bool {
        self.x.sub_req(other.x) && self.y.sub_req(other.y) && self.z.sub_req(other.z)
    }

    open spec fn sub_spec(self, other: Vec3<T>) -> Vec3<T> {
        Vec3 {
            x: self.x.sub_spec(other.x),
            y: self.y.sub_spec(other.y),
            z: self.z.sub_spec(other.z),
        }
    }
}

/// The difference of each component and a scalar.
impl<T: Sub<Output = T> + Copy> Sub<T> for Vec3<T> {
    type Output = Vec3<T>;

    fn sub(self, scalar: T) -> (v: Vec3<T>) {
        Vec3 { x: self.x - scalar, y: self.y - scalar, z: self.z - scalar }
    }
}

impl<T: Sub<Output = T> + Copy> SubSpecImpl<T> for Vec3<T> {
    open spec fn obeys_sub_spec() -> bool {
        T::obeys_sub_spec()
    }

    open spec fn sub_req(self, scalar: T) -> bool {
        self.x.sub_req(scalar) && self.y.sub_req(scalar) && self.z.sub_req(scalar)
    }

    open spec fn sub_spec(self, scalar: T) -> Vec3<T> {
        Vec3 { x: self.x.sub_spec(scalar), y: self.y.sub_spec(scalar), z: self.z.sub_spec(scalar) }
    }
}

/// Replaces the vector by its difference with another vector.
impl<T: Sub<Output = T> + Copy> SubAssign for Vec3<T> {
    fn sub_assign(&mut self, other: Vec3<T>)
        requires
            old(self).x.sub_req(other.x),
            old(self).y.sub_req(other.y),
            old(self).z.sub_req(other.z),
        ensures
            T::obeys_sub_spec() ==> final(self).x == old(self).x.sub_spec(other.x),
            T::obeys_sub_spec() ==> final(self).y == old(self).y.sub_spec(other.y),
            T::obeys_sub_spec() ==> final(self).z == old(self).z.sub_spec(other.z),
    {
        self.x = self.x - other.x;
        self.y = self.y - other.y;
        self.z = self.z - other.z;
    }
}

/// Replaces each component by its difference with a scalar.
impl<T: Sub<Output = T> + Copy> SubAssign<T> for Vec3<T> {
    fn sub_assign(&mut self, scalar: T)
        requires
            old(self).x.sub_req(scalar),
            old(self).y.sub_req(scalar),
            old(self).z.sub_req(scalar),
        ensures
            T::obeys_sub_spec() ==> final(self).x == old(self).x.sub_spec(scalar),
            T::obeys_sub_spec() ==> final(self).y == old(self).y.sub_spec(scalar),
            T::obeys_sub_spec() ==> final(self).z == old(self).z.sub_spec(scalar),
    {
        self.x = self.x - scalar;
        self.y = self.y - scalar;
        self.z = self.z - scalar;
    }
}

/// The product of two vectors, component by component.
impl<T: Mul<Output = T>> Mul for Vec3<T> {
    type Output = Vec3<T>;

    fn mul(self, other: Vec3<T>) -> (v: Vec3<T>) {
        Vec3 { x: self.x * other.x, y: self.y * other.y, z: self.z * other.z }
    }
}

impl<T: Mul<Output = T>> MulSpecImpl for Vec3<T> {
    open spec fn obeys_mul_spec() -> bool {
        T::obeys_mul_spec()
    }

    open spec fn mul_req(self, other: Vec3<T>) -> bool {
        self.x.mul_req(other.x) && self.y.mul_req(other.y) && self.z.mul_req(other.z)
    }

    open spec fn mul_spec(self, other: Vec3<T>) -> Vec3<T> {
        Vec3 {
            x: self.x.mul_spec(other.x),
            y: self.y.mul_spec(other.y),
            z: self.z.mul_spec(other.z),
        }
    }
}

/// The product of each component and a scalar.
impl<T: Mul<Output = T> + Copy> Mul<T> for Vec3<T> {
    type Output = Vec3<T>;

    fn mul(self, scalar: T) -> (v: Vec3<T>) {
        Vec3 { x: self.x * scalar, y: self.y * scalar, z: self.z * scalar }
    }
}

impl<T: Mul<Output = T> + Copy> MulSpecImpl<T> for Vec3<T> {
    open spec fn obeys_mul_spec() -> bool {
        T::obeys_mul_spec()
    }

    open spec fn mul_req(self, scalar: T) -> bool {
        self.x.mul_req(scalar) && self.y.mul_req(scalar) && self.z.mul_req(scalar)
    }

    open spec fn mul_spec(self, scalar: T) -> Vec3<T> {
        Vec3 { x: self.x.mul_spec(scalar), y: self.y.mul_spec(scalar), z: self.z.mul_spec(scalar) }
    }
}

/// Replaces the vector by its product with another vector.
impl<T: Mul<Output = T> + Copy> MulAssign for Vec3<T> {
    fn mul_assign(&mut self, other: Vec3<T>)
        requires
            old(self).x.mul_req(other.x),
            old(self).y.mul_req(other.y),
            old(self).z.mul_req(other.z),
        ensures
            T::obeys_mul_spec() ==> final(self).x == old(self).x.mul_spec(other.x),
            T::obeys_mul_spec() ==> final(self).y == old(self).y.mul_spec(other.y),
            T::obeys_mul_spec() ==> final(self).z == old(self).z.mul_spec(other.z),
    {
        self.x = self.x * other.x;
        self.y = self.y * other.y;
        self.z = self.z * other.z;
    }
}

/// Replaces each component by its product with a scalar.
impl<T: Mul<Output = T> + Copy> MulAssign<T> for Vec3<T> {
    fn mul_assign(&mut self, scalar: T)
        requires
            old(self).x.mul_req(scalar),
            old(self).y.mul_req(scalar),
            old(self).z.mul_req(scalar),
        ensures
            T::obeys_mul_spec() ==> final(self).x == old(self).x.mul_spec(scalar),
            T::obeys_mul_spec() ==> final(self).y == old(self).y.mul_spec(scalar),
            T::obeys_mul_spec() ==> final(self).z == old(self).z.mul_spec(scalar),
    {
        self.x = self.x * scalar;
        self.y = self.y * scalar;
        self.z = self.z * scalar;
    }
}

/// The quotient of two vectors, component by component.
impl<T: Div<Output = T>> Div for Vec3<T> {
    type Output = Vec3<T>;

    fn div(self, other: Vec3<T>) -> (v: Vec3<T>) {
        Vec3 { x: self.x / other.x, y: self.y / other.y, z: self.z / other.z }
    }
}

impl<T: Div<Output = T>> DivSpecImpl for Vec3<T> {
    open spec fn obeys_div_spec() -> bool {
        T::obeys_div_spec()
    }

    open spec fn div_req(self, other: Vec3<T>) -> bool {
        self.x.div_req(other.x) && self.y.div_req(other.y) && self.z.div_req(other.z)
    }

    open spec fn div_spec(self, other: Vec3<T>) -> Vec3<T> {
        Vec3 {
            x: self.x.div_spec(other.x),
            y: self.y.div_spec(other.y),
            z: self.z.div_spec(other.z),
        }
    }
}

/// The quotient of each component and a scalar.
impl<T: Div<Output = T> + Copy> Div<T> for Vec3<T> {
    type Output = Vec3<T>;

    fn div(self, scalar: T) -> (v: Vec3<T>) {
        Vec3 { x: self.x / scalar, y: self.y / scalar, z: self.z / scalar }
    }
}

impl<T: Div<Output = T> + Copy> DivSpecImpl<T> for Vec3<T> {
    open spec fn obeys_div_spec() -> bool {
        T::obeys_div_spec()
    }

    open spec fn div_req(self, scalar: T) -> bool {
        self.x.div_req(scalar) && self.y.div_req(scalar) && self.z.div_req(scalar)
    }

    open spec fn div_spec(self, scalar: T) -> Vec3<T> {
        Vec3 { x: self.x.div_spec(scalar), y: self.y.div_spec(scalar), z: self.z.div_spec(scalar) }
    }
}

/// Replaces the vector by its quotient with another vector.
impl<T: Div<Output = T> + Copy> DivAssign for Vec3<T> {
    fn div_assign(&mut self, other: Vec3<T>)
        requires
            old(self).x.div_req(other.x),
            old(self).y.div_req(other.y),
            old(self).z.div_req(other.z),
        ensures
            T::obeys_div_spec() ==> final(self).x == old(self).x.div_spec(other.x),
            T::obeys_div_spec() ==> final(self).y == old(self).y.div_spec(other.y),
            T::obeys_div_spec() ==> final(self).z == old(self).z.div_spec(other.z),
    {
        self.x = self.x / other.x;
        self.y = self.y / other.y;
        self.z = self.z / other.z;
    }
}

/// Replaces each component by its quotient with a scalar.
impl<T: Div<Output = T> + Copy> DivAssign<T> for Vec3<T> {
    fn div_assign(&mut self, scalar: T)
        requires
            old(self).x.div_req(scalar),
            old(self).y.div_req(scalar),
            old(self).z.div_req(scalar),
        ensures
            T::obeys_div_spec() ==> final(self).x == old(self).x.div_spec(scalar),
            T::obeys_div_spec() ==> final(self).y == old(self).y.div_spec(scalar),
            T::obeys_div_spec() ==> final(self).z == old(self).z.div_spec(scalar),
    {
        self.x = self.x / scalar;
        self.y = self.y / scalar;
        self.z = self.z / scalar;
    }
}

/// The remainder of two vectors, component by component.
impl<T: Rem<Output = T>> Rem for Vec3<T> {
    type Output = Vec3<T>;

    fn rem(self, other: Vec3<T>) -> (v: Vec3<T>) {
        Vec3 { x: self.x % other.x, y: self.y % other.y, z: self.z % other.z }
    }
}

impl<T: Rem<Output = T>> RemSpecImpl for Vec3<T> {
    open spec fn obeys_rem_spec() -> bool {
        T::obeys_rem_spec()
    }

    open spec fn rem_req(self, other: Vec3<T>) -> bool {
        self.x.rem_req(other.x) && self.y.rem_req(other.y) && self.z.rem_req(other.z)
    }

    open spec fn rem_spec(self, other: Vec3<T>) -> Vec3<T> {
        Vec3 {
            x: self.x.rem_spec(other.x),
            y: self.y.rem_spec(other.y),
            z: self.z.rem_spec(other.z),
        }
    }
}

/// The remainder of each component and a scalar.
impl<T: Rem<Output = T> + Copy> Rem<T> for Vec3<T> {
    type Output = Vec3<T>;

    fn rem(self, scalar: T) -> (v: Vec3<T>) {
        Vec3 { x: self.x % scalar, y: self.y % scalar, z: self.z % scalar }
    }
}

impl<T: Rem<Output = T> + Copy> RemSpecImpl<T> for Vec3<T> {
    open spec fn obeys_rem_spec() -> bool {
        T::obeys_rem_spec()
    }

    open spec fn rem_req(self, scalar: T) -> bool {
        self.x.rem_req(scalar) && self.y.rem_req(scalar) && self.z.rem_req(scalar)
    }

    open spec fn rem_spec(self, scalar: T) -> Vec3<T> {
        Vec3 { x: self.x.rem_spec(scalar), y: self.y.rem_spec(scalar), z: self.z.rem_spec(scalar) }
    }
}

/// Replaces the vector by its remainder with another vector.
impl<T: Rem<Output = T> + Copy> RemAssign for Vec3<T> {
    fn rem_assign(&mut self, other: Vec3<T>)
        requires
            old(self).x.rem_req(other.x),
            old(self).y.rem_req(other.y),
            old(self).z.rem_req(other.z),
        ensures
            T::obeys_rem_spec() ==> final(self).x == old(self).x.rem_spec(other.x),
            T::obeys_rem_spec() ==> final(self).y == old(self).y.rem_spec(other.y),
            T::obeys_rem_spec() ==> final(self).z == old(self).z.rem_spec(other.z),
    {
        self.x = self.x % other.x;
        self.y = self.y % other.y;
        self.z = self.z % other.z;
    }
}

/// Replaces each component by its remainder with a scalar.
impl<T: Rem<Output = T> + Copy> RemAssign<T> for Vec3<T> {
    fn rem_assign(&mut self, scalar: T)
        requires
            old(self).x.rem_req(scalar),
            old(self).y.rem_req(scalar),
            old(self).z.rem_req(scalar),
        ensures
            T::obeys_rem_spec() ==> final(self).x == old(self).x.rem_spec(scalar),
            T::obeys_rem_spec() ==> final(self).y == old(self).y.rem_spec(scalar),
            T::obeys_rem_spec() ==> final(self).z == old(self).z.rem_spec(scalar),
    {
        self.x = self.x % scalar;
        self.y = self.y % scalar;
        self.z = self.z % scalar;
    }
}

} // verus!
