use vstd::prelude::*;
use vstd::std_specs::ops::{
    AddSpec, AddSpecImpl, DivSpec, DivSpecImpl, MulSpec, MulSpecImpl, RemSpec, RemSpecImpl, SubSpec,
    SubSpecImpl,
};
use std::ops::{Add, Div, Mul, Rem, Sub};
use crate::math::vec::{Vec2, Vec3};

verus! {

/// The sum of a scalar and each component of a vector.
impl Add<Vec2<u8>> for u8 {
    type Output = Vec2<u8>;

    fn add(self, vec: Vec2<u8>) -> (v: Vec2<u8>) {
        Vec2 { x: self + vec.x, y: self + vec.y }
    }
}

impl AddSpecImpl<Vec2<u8>> for u8 {
    open spec fn obeys_add_spec() -> bool {
        true
    }

    open spec fn add_req(self, vec: Vec2<u8>) -> bool {
        AddSpec::<u8>::add_req(self, vec.x) && AddSpec::<u8>::add_req(self, vec.y)
    }

    open spec fn add_spec(self, vec: Vec2<u8>) -> Vec2<u8> {
        Vec2 { x: AddSpec::<u8>::add_spec(self, vec.x), y: AddSpec::<u8>::add_spec(self, vec.y) }
    }
}

/// The difference of a scalar and each component of a vector.
impl Sub<Vec2<u8>> for u8 {
    type Output = Vec2<u8>;

    fn sub(self, vec: Vec2<u8>) -> (v: Vec2<u8>) {
        Vec2 { x: self - vec.x, y: self - vec.y }
    }
}

impl SubSpecImpl<Vec2<u8>> for u8 {
    open spec fn obeys_sub_spec() -> bool {
        true
    }

    open spec fn sub_req(self, vec: Vec2<u8>) -> bool {
        SubSpec::<u8>::sub_req(self, vec.x) && SubSpec::<u8>::sub_req(self, vec.y)
    }

    open spec fn sub_spec(self, vec: Vec2<u8>) -> Vec2<u8> {
        Vec2 { x: SubSpec::<u8>::sub_spec(self, vec.x), y: SubSpec::<u8>::sub_spec(self, vec.y) }
    }
}

/// The product of a scalar and each component of a vector.
impl Mul<Vec2<u8>> for u8 {
    type Output = Vec2<u8>;

    fn mul(self, vec: Vec2<u8>) -> (v: Vec2<u8>) {
        Vec2 { x: self * vec.x, y: self * vec.y }
    }
}

impl MulSpecImpl<Vec2<u8>> for u8 {
    open spec fn obeys_mul_spec() -> bool {
        true
    }

    open spec fn mul_req(self, vec: Vec2<u8>) -> bool {
        MulSpec::<u8>::mul_req(self, vec.x) && MulSpec::<u8>::mul_req(self, vec.y)
    }

    open spec fn mul_spec(self, vec: Vec2<u8>) -> Vec2<u8> {
        Vec2 { x: MulSpec::<u8>::mul_spec(self, vec.x), y: MulSpec::<u8>::mul_spec(self, vec.y) }
    }
}

/// The quotient of a scalar and each component of a vector.
impl Div<Vec2<u8>> for u8 {
    type Output = Vec2<u8>;

    fn div(self, vec: Vec2<u8>) -> (v: Vec2<u8>) {
        Vec2 { x: self / vec.x, y: self / vec.y }
    }
}

impl DivSpecImpl<Vec2<u8>> for u8 {
    open spec fn obeys_div_spec() -> bool {
        true
    }

    open spec fn div_req(self, vec: Vec2<u8>) -> bool {
        DivSpec::<u8>::div_req(self, vec.x) && DivSpec::<u8>::div_req(self, vec.y)
    }

    open spec fn div_spec(self, vec: Vec2<u8>) -> Vec2<u8> {
        Vec2 { x: DivSpec::<u8>::div_spec(self, vec.x), y: DivSpec::<u8>::div_spec(self, vec.y) }
    }
}

/// The remainder of a scalar and each component of a vector.
impl Rem<Vec2<u8>> for u8 {
    type Output = Vec2<u8>;

    fn rem(self, vec: Vec2<u8>) -> (v: Vec2<u8>) {
        Vec2 { x: self % vec.x, y: self % vec.y }
    }
}

impl RemSpecImpl<Vec2<u8>> for u8 {
    open spec fn obeys_rem_spec() -> bool {
        true
    }

    open spec fn rem_req(self, vec: Vec2<u8>) -> bool {
        RemSpec::<u8>::rem_req(self, vec.x) && RemSpec::<u8>::rem_req(self, vec.y)
    }

    open spec fn rem_spec(self, vec: Vec2<u8>) -> Vec2<u8> {
        Vec2 { x: RemSpec::<u8>::rem_spec(self, vec.x), y: RemSpec::<u8>::rem_spec(self, vec.y) }
    }
}

/// The sum of a scalar and each component of a vector.
impl Add<Vec3<u8>> for u8 {
    type Output = Vec3<u8>;

    fn add(self, vec: Vec3<u8>) -> (v: Vec3<u8>) {
        Vec3 { x: self + vec.x, y: self + vec.y, z: self + vec.z }
    }
}

impl AddSpecImpl<Vec3<u8>> for u8 {
    open spec fn obeys_add_spec() -> bool {
        true
    }

    open spec fn add_req(self, vec: Vec3<u8>) -> bool {
        AddSpec::<u8>::add_req(self, vec.x)
            && AddSpec::<u8>::add_req(self, vec.y)
            && AddSpec::<u8>::add_req(self, vec.z)
    }

    open spec fn add_spec(self, vec: Vec3<u8>) -> Vec3<u8> {
        Vec3 {
            x: AddSpec::<u8>::add_spec(self, vec.x),
            y: AddSpec::<u8>::add_spec(self, vec.y),
            z: AddSpec::<u8>::add_spec(self, vec.z),
        }
    }
}

/// The difference of a scalar and each component of a vector.
impl Sub<Vec3<u8>> for u8 {
    type Output = Vec3<u8>;

    fn sub(self, vec: Vec3<u8>) -> (v: Vec3<u8>) {
        Vec3 { x: self - vec.x, y: self - vec.y, z: self - vec.z }
    }
}

impl SubSpecImpl<Vec3<u8>> for u8 {
    open spec fn obeys_sub_spec() -> bool {
        true
    }

    open spec fn sub_req(self, vec: Vec3<u8>) -> bool {
        SubSpec::<u8>::sub_req(self, vec.x)
            && SubSpec::<u8>::sub_req(self, vec.y)
            && SubSpec::<u8>::sub_req(self, vec.z)
    }

    open spec fn sub_spec(self, vec: Vec3<u8>) -> Vec3<u8> {
        Vec3 {
            x: SubSpec::<u8>::sub_spec(self, vec.x),
            y: SubSpec::<u8>::sub_spec(self, vec.y),
            z: SubSpec::<u8>::sub_spec(self, vec.z),
        }
    }
}

/// The product of a scalar and each component of a vector.
impl Mul<Vec3<u8>> for u8 {
    type Output = Vec3<u8>;

    fn mul(self, vec: Vec3<u8>) -> (v: Vec3<u8>) {
        Vec3 { x: self * vec.x, y: self * vec.y, z: self * vec.z }
    }
}

impl MulSpecImpl<Vec3<u8>> for u8 {
    open spec fn obeys_mul_spec() -> bool {
        true
    }

    open spec fn mul_req(self, vec: Vec3<u8>) -> bool {
        MulSpec::<u8>::mul_req(self, vec.x)
            && MulSpec::<u8>::mul_req(self, vec.y)
            && MulSpec::<u8>::mul_req(self, vec.z)
    }

    open spec fn mul_spec(self, vec: Vec3<u8>) -> Vec3<u8> {
        Vec3 {
            x: MulSpec::<u8>::mul_spec(self, vec.x),
            y: MulSpec::<u8>::mul_spec(self, vec.y),
            z: MulSpec::<u8>::mul_spec(self, vec.z),
        }
    }
}

/// The quotient of a scalar and each component of a vector.
impl Div<Vec3<u8>> for u8 {
    type Output = Vec3<u8>;

    fn div(self, vec: Vec3<u8>) -> (v: Vec3<u8>) {
        Vec3 { x: self / vec.x, y: self / vec.y, z: self / vec.z }
    }
}

impl DivSpecImpl<Vec3<u8>> for u8 {
    open spec fn obeys_div_spec() -> bool {
        true
    }

    open spec fn div_req(self, vec: Vec3<u8>) -> bool {
        DivSpec::<u8>::div_req(self, vec.x)
            && DivSpec::<u8>::div_req(self, vec.y)
            && DivSpec::<u8>::div_req(self, vec.z)
    }

    open spec fn div_spec(self, vec: Vec3<u8>) -> Vec3<u8> {
        Vec3 {
            x: DivSpec::<u8>::div_spec(self, vec.x),
            y: DivSpec::<u8>::div_spec(self, vec.y),
            z: DivSpec::<u8>::div_spec(self, vec.z),
        }
    }
}

/// The remainder of a scalar and each component of a vector.
impl Rem<Vec3<u8>> for u8 {
    type Output = Vec3<u8>;

    fn rem(self, vec: Vec3<u8>) -> (v: Vec3<u8>) {
        Vec3 { x: self % vec.x, y: self % vec.y, z: self % vec.z }
    }
}

impl RemSpecImpl<Vec3<u8>> for u8 {
    open spec fn obeys_rem_spec() -> bool {
        true
    }

    open spec fn rem_req(self, vec: Vec3<u8>) -> bool {
        RemSpec::<u8>::rem_req(self, vec.x)
            && RemSpec::<u8>::rem_req(self, vec.y)
            && RemSpec::<u8>::rem_req(self, vec.z)
    }

    open spec fn rem_spec(self, vec: Vec3<u8>) -> Vec3<u8> {
        Vec3 {
            x: RemSpec::<u8>::rem_spec(self, vec.x),
            y: RemSpec::<u8>::rem_spec(self, vec.y),
            z: RemSpec::<u8>::rem_spec(self, vec.z),
        }
    }
}

/// The sum of a scalar and each component of a vector.
impl Add<Vec2<u16>> for u16 {
    type Output = Vec2<u16>;

    fn add(self, vec: Vec2<u16>) -> (v: Vec2<u16>) {
        Vec2 { x: self + vec.x, y: self + vec.y }
    }
}

impl AddSpecImpl<Vec2<u16>> for u16 {
    open spec fn obeys_add_spec() -> bool {
        true
    }

    open spec fn add_req(self, vec: Vec2<u16>) -> bool {
        AddSpec::<u16>::add_req(self, vec.x) && AddSpec::<u16>::add_req(self, vec.y)
    }

    open spec fn add_spec(self, vec: Vec2<u16>) -> Vec2<u16> {
        Vec2 { x: AddSpec::<u16>::add_spec(self, vec.x), y: AddSpec::<u16>::add_spec(self, vec.y) }
    }
}

/// The difference of a scalar and each component of a vector.
impl Sub<Vec2<u16>> for u16 {
    type Output = Vec2<u16>;

    fn sub(self, vec: Vec2<u16>) -> (v: Vec2<u16>) {
        Vec2 { x: self - vec.x, y: self - vec.y }
    }
}

impl SubSpecImpl<Vec2<u16>> for u16 {
    open spec fn obeys_sub_spec() -> bool {
        true
    }

    open spec fn sub_req(self, vec: Vec2<u16>) -> bool {
        SubSpec::<u16>::sub_req(self, vec.x) && SubSpec::<u16>::sub_req(self, vec.y)
    }

    open spec fn sub_spec(self, vec: Vec2<u16>) -> Vec2<u16> {
        Vec2 { x: SubSpec::<u16>::sub_spec(self, vec.x), y: SubSpec::<u16>::sub_spec(self, vec.y) }
    }
}

/// The product of a scalar and each component of a vector.
impl Mul<Vec2<u16>> for u16 {
    type Output = Vec2<u16>;

    fn mul(self, vec: Vec2<u16>) -> (v: Vec2<u16>) {
        Vec2 { x: self * vec.x, y: self * vec.y }
    }
}

impl MulSpecImpl<Vec2<u16>> for u16 {
    open spec fn obeys_mul_spec() -> bool {
        true
    }

    open spec fn mul_req(self, vec: Vec2<u16>) -> bool {
        MulSpec::<u16>::mul_req(self, vec.x) && MulSpec::<u16>::mul_req(self, vec.y)
    }

    open spec fn mul_spec(self, vec: Vec2<u16>) -> Vec2<u16> {
        Vec2 { x: MulSpec::<u16>::mul_spec(self, vec.x), y: MulSpec::<u16>::mul_spec(self, vec.y) }
    }
}

/// The quotient of a scalar and each component of a vector.
impl Div<Vec2<u16>> for u16 {
    type Output = Vec2<u16>;

    fn div(self, vec: Vec2<u16>) -> (v: Vec2<u16>) {
        Vec2 { x: self / vec.x, y: self / vec.y }
    }
}

impl DivSpecImpl<Vec2<u16>> for u16 {
    open spec fn obeys_div_spec() -> bool {
        true
    }

    open spec fn div_req(self, vec: Vec2<u16>) -> bool {
        DivSpec::<u16>::div_req(self, vec.x) && DivSpec::<u16>::div_req(self, vec.y)
    }

    open spec fn div_spec(self, vec: Vec2<u16>) -> Vec2<u16> {
        Vec2 { x: DivSpec::<u16>::div_spec(self, vec.x), y: DivSpec::<u16>::div_spec(self, vec.y) }
    }
}

/// The remainder of a scalar and each component of a vector.
impl Rem<Vec2<u16>> for u16 {
    type Output = Vec2<u16>;

    fn rem(self, vec: Vec2<u16>) -> (v: Vec2<u16>) {
        Vec2 { x: self % vec.x, y: self % vec.y }
    }
}

impl RemSpecImpl<Vec2<u16>> for u16 {
    open spec fn obeys_rem_spec() -> bool {
        true
    }

    open spec fn rem_req(self, vec: Vec2<u16>) -> bool {
        RemSpec::<u16>::rem_req(self, vec.x) && RemSpec::<u16>::rem_req(self, vec.y)
    }

    open spec fn rem_spec(self, vec: Vec2<u16>) -> Vec2<u16> {
        Vec2 { x: RemSpec::<u16>::rem_spec(self, vec.x), y: RemSpec::<u16>::rem_spec(self, vec.y) }
    }
}

/// The sum of a scalar and each component of a vector.
impl Add<Vec3<u16>> for u16 {
    type Output = Vec3<u16>;

    fn add(self, vec: Vec3<u16>) -> (v: Vec3<u16>) {
        Vec3 { x: self + vec.x, y: self + vec.y, z: self + vec.z }
    }
}

impl AddSpecImpl<Vec3<u16>> for u16 {
    open spec fn obeys_add_spec() -> bool {
        true
    }

    open spec fn add_req(self, vec: Vec3<u16>) -> bool {
        AddSpec::<u16>::add_req(self, vec.x)
            && AddSpec::<u16>::add_req(self, vec.y)
            && AddSpec::<u16>::add_req(self, vec.z)
    }

    open spec fn add_spec(self, vec: Vec3<u16>) -> Vec3<u16> {
        Vec3 {
            x: AddSpec::<u16>::add_spec(self, vec.x),
            y: AddSpec::<u16>::add_spec(self, vec.y),
            z: AddSpec::<u16>::add_spec(self, vec.z),
        }
    }
}

/// The difference of a scalar and each component of a vector.
impl Sub<Vec3<u16>> for u16 {
    type Output = Vec3<u16>;

    fn sub(self, vec: Vec3<u16>) -> (v: Vec3<u16>) {
        Vec3 { x: self - vec.x, y: self - vec.y, z: self - vec.z }
    }
}

impl SubSpecImpl<Vec3<u16>> for u16 {
    open spec fn obeys_sub_spec() -> bool {
        true
    }

    open spec fn sub_req(self, vec: Vec3<u16>) -> bool {
        SubSpec::<u16>::sub_req(self, vec.x)
            && SubSpec::<u16>::sub_req(self, vec.y)
            && SubSpec::<u16>::sub_req(self, vec.z)
    }

    open spec fn sub_spec(self, vec: Vec3<u16>) -> Vec3<u16> {
        Vec3 {
            x: SubSpec::<u16>::sub_spec(self, vec.x),
            y: SubSpec::<u16>::sub_spec(self, vec.y),
            z: SubSpec::<u16>::sub_spec(self, vec.z),
        }
    }
}

/// The product of a scalar and each component of a vector.
impl Mul<Vec3<u16>> for u16 {
    type Output = Vec3<u16>;

    fn mul(self, vec: Vec3<u16>) -> (v: Vec3<u16>) {
        Vec3 { x: self * vec.x, y: self * vec.y, z: self * vec.z }
    }
}

impl MulSpecImpl<Vec3<u16>> for u16 {
    open spec fn obeys_mul_spec() -> bool {
        true
    }

    open spec fn mul_req(self, vec: Vec3<u16>) -> bool {
        MulSpec::<u16>::mul_req(self, vec.x)
            && MulSpec::<u16>::mul_req(self, vec.y)
            && MulSpec::<u16>::mul_req(self, vec.z)
    }

    open spec fn mul_spec(self, vec: Vec3<u16>) -> Vec3<u16> {
        Vec3 {
            x: MulSpec::<u16>::mul_spec(self, vec.x),
            y: MulSpec::<u16>::mul_spec(self, vec.y),
            z: MulSpec::<u16>::mul_spec(self, vec.z),
        }
    }
}

/// The quotient of a scalar and each component of a vector.
impl Div<Vec3<u16>> for u16 {
    type Output = Vec3<u16>;

    fn div(self, vec: Vec3<u16>) -> (v: Vec3<u16>) {
        Vec3 { x: self / vec.x, y: self / vec.y, z: self / vec.z }
    }
}

impl DivSpecImpl<Vec3<u16>> for u16 {
    open spec fn obeys_div_spec() -> bool {
        true
    }

    open spec fn div_req(self, vec: Vec3<u16>) -> bool {
        DivSpec::<u16>::div_req(self, vec.x)
            && DivSpec::<u16>::div_req(self, vec.y)
            && DivSpec::<u16>::div_req(self, vec.z)
    }

    open spec fn div_spec(self, vec: Vec3<u16>) -> Vec3<u16> {
        Vec3 {
            x: DivSpec::<u16>::div_spec(self, vec.x),
            y: DivSpec::<u16>::div_spec(self, vec.y),
            z: DivSpec::<u16>::div_spec(self, vec.z),
        }
    }
}

/// The remainder of a scalar and each component of a vector.
impl Rem<Vec3<u16>> for u16 {
    type Output = Vec3<u16>;

    fn rem(self, vec: Vec3<u16>) -> (v: Vec3<u16>) {
        Vec3 { x: self % vec.x, y: self % vec.y, z: self % vec.z }
    }
}

impl RemSpecImpl<Vec3<u16>> for u16 {
    open spec fn obeys_rem_spec() -> bool {
        true
    }

    open spec fn rem_req(self, vec: Vec3<u16>) -> bool {
        RemSpec::<u16>::rem_req(self, vec.x)
            && RemSpec::<u16>::rem_req(self, vec.y)
            && RemSpec::<u16>::rem_req(self, vec.z)
    }

    open spec fn rem_spec(self, vec: Vec3<u16>) -> Vec3<u16> {
        Vec3 {
            x: RemSpec::<u16>::rem_spec(self, vec.x),
            y: RemSpec::<u16>::rem_spec(self, vec.y),
            z: RemSpec::<u16>::rem_spec(self, vec.z),
        }
    }
}

/// The sum of a scalar and each component of a vector.
impl Add<Vec2<u32>> for u32 {
    type Output = Vec2<u32>;

    fn add(self, vec: Vec2<u32>) -> (v: Vec2<u32>) {
        Vec2 { x: self + vec.x, y: self + vec.y }
    }
}

impl AddSpecImpl<Vec2<u32>> for u32 {
    open spec fn obeys_add_spec() -> bool {
        true
    }

    open spec fn add_req(self, vec: Vec2<u32>) -> bool {
        AddSpec::<u32>::add_req(self, vec.x) && AddSpec::<u32>::add_req(self, vec.y)
    }

    open spec fn add_spec(self, vec: Vec2<u32>) -> Vec2<u32> {
        Vec2 { x: AddSpec::<u32>::add_spec(self, vec.x), y: AddSpec::<u32>::add_spec(self, vec.y) }
    }
}

/// The difference of a scalar and each component of a vector.
impl Sub<Vec2<u32>> for u32 {
    type Output = Vec2<u32>;

    fn sub(self, vec: Vec2<u32>) -> (v: Vec2<u32>) {
        Vec2 { x: self - vec.x, y: self - vec.y }
    }
}

impl SubSpecImpl<Vec2<u32>> for u32 {
    open spec fn obeys_sub_spec() -> bool {
        true
    }

    open spec fn sub_req(self, vec: Vec2<u32>) -> bool {
        SubSpec::<u32>::sub_req(self, vec.x) && SubSpec::<u32>::sub_req(self, vec.y)
    }

    open spec fn sub_spec(self, vec: Vec2<u32>) -> Vec2<u32> {
        Vec2 { x: SubSpec::<u32>::sub_spec(self, vec.x), y: SubSpec::<u32>::sub_spec(self, vec.y) }
    }
}

/// The product of a scalar and each component of a vector.
impl Mul<Vec2<u32>> for u32 {
    type Output = Vec2<u32>;

    fn mul(self, vec: Vec2<u32>) -> (v: Vec2<u32>) {
        Vec2 { x: self * vec.x, y: self * vec.y }
    }
}

impl MulSpecImpl<Vec2<u32>> for u32 {
    open spec fn obeys_mul_spec() -> bool {
        true
    }

    open spec fn mul_req(self, vec: Vec2<u32>) -> bool {
        MulSpec::<u32>::mul_req(self, vec.x) && MulSpec::<u32>::mul_req(self, vec.y)
    }

    open spec fn mul_spec(self, vec: Vec2<u32>) -> Vec2<u32> {
        Vec2 { x: MulSpec::<u32>::mul_spec(self, vec.x), y: MulSpec::<u32>::mul_spec(self, vec.y) }
    }
}

/// The quotient of a scalar and each component of a vector.
impl Div<Vec2<u32>> for u32 {
    type Output = Vec2<u32>;

    fn div(self, vec: Vec2<u32>) -> (v: Vec2<u32>) {
        Vec2 { x: self / vec.x, y: self / vec.y }
    }
}

impl DivSpecImpl<Vec2<u32>> for u32 {
    open spec fn obeys_div_spec() -> bool {
        true
    }

    open spec fn div_req(self, vec: Vec2<u32>) -> bool {
        DivSpec::<u32>::div_req(self, vec.x) && DivSpec::<u32>::div_req(self, vec.y)
    }

    open spec fn div_spec(self, vec: Vec2<u32>) -> Vec2<u32> {
        Vec2 { x: DivSpec::<u32>::div_spec(self, vec.x), y: DivSpec::<u32>::div_spec(self, vec.y) }
    }
}

/// The remainder of a scalar and each component of a vector.
impl Rem<Vec2<u32>> for u32 {
    type Output = Vec2<u32>;

    fn rem(self, vec: Vec2<u32>) -> (v: Vec2<u32>) {
        Vec2 { x: self % vec.x, y: self % vec.y }
    }
}

impl RemSpecImpl<Vec2<u32>> for u32 {
    open spec fn obeys_rem_spec() -> bool {
        true
    }

    open spec fn rem_req(self, vec: Vec2<u32>) -> bool {
        RemSpec::<u32>::rem_req(self, vec.x) && RemSpec::<u32>::rem_req(self, vec.y)
    }

    open spec fn rem_spec(self, vec: Vec2<u32>) -> Vec2<u32> {
        Vec2 { x: RemSpec::<u32>::rem_spec(self, vec.x), y: RemSpec::<u32>::rem_spec(self, vec.y) }
    }
}

/// The sum of a scalar and each component of a vector.
impl Add<Vec3<u32>> for u32 {
    type Output = Vec3<u32>;

    fn add(self, vec: Vec3<u32>) -> (v: Vec3<u32>) {
        Vec3 { x: self + vec.x, y: self + vec.y, z: self + vec.z }
    }
}

impl AddSpecImpl<Vec3<u32>> for u32 {
    open spec fn obeys_add_spec() -> bool {
        true
    }

    open spec fn add_req(self, vec: Vec3<u32>) -> bool {
        AddSpec::<u32>::add_req(self, vec.x)
            && AddSpec::<u32>::add_req(self, vec.y)
            && AddSpec::<u32>::add_req(self, vec.z)
    }

    open spec fn add_spec(self, vec: Vec3<u32>) -> Vec3<u32> {
        Vec3 {
            x: AddSpec::<u32>::add_spec(self, vec.x),
            y: AddSpec::<u32>::add_spec(self, vec.y),
            z: AddSpec::<u32>::add_spec(self, vec.z),
        }
    }
}

/// The difference of a scalar and each component of a vector.
impl Sub<Vec3<u32>> for u32 {
    type Output = Vec3<u32>;

    fn sub(self, vec: Vec3<u32>) -> (v: Vec3<u32>) {
        Vec3 { x: self - vec.x, y: self - vec.y, z: self - vec.z }
    }
}

impl SubSpecImpl<Vec3<u32>> for u32 {
    open spec fn obeys_sub_spec() -> bool {
        true
    }

    open spec fn sub_req(self, vec: Vec3<u32>) -> bool {
        SubSpec::<u32>::sub_req(self, vec.x)
            && SubSpec::<u32>::sub_req(self, vec.y)
            && SubSpec::<u32>::sub_req(self, vec.z)
    }

    open spec fn sub_spec(self, vec: Vec3<u32>) -> Vec3<u32> {
        Vec3 {
            x: SubSpec::<u32>::sub_spec(self, vec.x),
            y: SubSpec::<u32>::sub_spec(self, vec.y),
            z: SubSpec::<u32>::sub_spec(self, vec.z),
        }
    }
}

/// The product of a scalar and each component of a vector.
impl Mul<Vec3<u32>> for u32 {
    type Output = Vec3<u32>;

    fn mul(self, vec: Vec3<u32>) -> (v: Vec3<u32>) {
        Vec3 { x: self * vec.x, y: self * vec.y, z: self * vec.z }
    }
}

impl MulSpecImpl<Vec3<u32>> for u32 {
    open spec fn obeys_mul_spec() -> bool {
        true
    }

    open spec fn mul_req(self, vec: Vec3<u32>) -> bool {
        MulSpec::<u32>::mul_req(self, vec.x)
            && MulSpec::<u32>::mul_req(self, vec.y)
            && MulSpec::<u32>::mul_req(self, vec.z)
    }

    open spec fn mul_spec(self, vec: Vec3<u32>) -> Vec3<u32> {
        Vec3 {
            x: MulSpec::<u32>::mul_spec(self, vec.x),
            y: MulSpec::<u32>::mul_spec(self, vec.y),
            z: MulSpec::<u32>::mul_spec(self, vec.z),
        }
    }
}

/// The quotient of a scalar and each component of a vector.
impl Div<Vec3<u32>> for u32 {
    type Output = Vec3<u32>;

    fn div(self, vec: Vec3<u32>) -> (v: Vec3<u32>) {
        Vec3 { x: self / vec.x, y: self / vec.y, z: self / vec.z }
    }
}

impl DivSpecImpl<Vec3<u32>> for u32 {
    open spec fn obeys_div_spec() -> bool {
        true
    }

    open spec fn div_req(self, vec: Vec3<u32>) -> bool {
        DivSpec::<u32>::div_req(self, vec.x)
            && DivSpec::<u32>::div_req(self, vec.y)
            && DivSpec::<u32>::div_req(self, vec.z)
    }

    open spec fn div_spec(self, vec: Vec3<u32>) -> Vec3<u32> {
        Vec3 {
            x: DivSpec::<u32>::div_spec(self, vec.x),
            y: DivSpec::<u32>::div_spec(self, vec.y),
            z: DivSpec::<u32>::div_spec(self, vec.z),
        }
    }
}

/// The remainder of a scalar and each component of a vector.
impl Rem<Vec3<u32>> for u32 {
    type Output = Vec3<u32>;

    fn rem(self, vec: Vec3<u32>) -> (v: Vec3<u32>) {
        Vec3 { x: self % vec.x, y: self % vec.y, z: self % vec.z }
    }
}

impl RemSpecImpl<Vec3<u32>> for u32 {
    open spec fn obeys_rem_spec() -> bool {
        true
    }

    open spec fn rem_req(self, vec: Vec3<u32>) -> bool {
        RemSpec::<u32>::rem_req(self, vec.x)
            && RemSpec::<u32>::rem_req(self, vec.y)
            && RemSpec::<u32>::rem_req(self, vec.z)
    }

    open spec fn rem_spec(self, vec: Vec3<u32>) -> Vec3<u32> {
        Vec3 {
            x: RemSpec::<u32>::rem_spec(self, vec.x),
            y: RemSpec::<u32>::rem_spec(self, vec.y),
            z: RemSpec::<u32>::rem_spec(self, vec.z),
        }
    }
}

/// The sum of a scalar and each component of a vector.
impl Add<Vec2<u64>> for u64 {
    type Output = Vec2<u64>;

    fn add(self, vec: Vec2<u64>) -> (v: Vec2<u64>) {
        Vec2 { x: self + vec.x, y: self + vec.y }
    }
}

impl AddSpecImpl<Vec2<u64>> for u64 {
    open spec fn obeys_add_spec() -> bool {
        true
    }

    open spec fn add_req(self, vec: Vec2<u64>) -> bool {
        AddSpec::<u64>::add_req(self, vec.x) && AddSpec::<u64>::add_req(self, vec.y)
    }

    open spec fn add_spec(self, vec: Vec2<u64>) -> Vec2<u64> {
        Vec2 { x: AddSpec::<u64>::add_spec(self, vec.x), y: AddSpec::<u64>::add_spec(self, vec.y) }
    }
}

/// The difference of a scalar and each component of a vector.
impl Sub<Vec2<u64>> for u64 {
    type Output = Vec2<u64>;

    fn sub(self, vec: Vec2<u64>) -> (v: Vec2<u64>) {
        Vec2 { x: self - vec.x, y: self - vec.y }
    }
}

impl SubSpecImpl<Vec2<u64>> for u64 {
    open spec fn obeys_sub_spec() -> bool {
        true
    }

    open spec fn sub_req(self, vec: Vec2<u64>) -> bool {
        SubSpec::<u64>::sub_req(self, vec.x) && SubSpec::<u64>::sub_req(self, vec.y)
    }

    open spec fn sub_spec(self, vec: Vec2<u64>) -> Vec2<u64> {
        Vec2 { x: SubSpec::<u64>::sub_spec(self, vec.x), y: SubSpec::<u64>::sub_spec(self, vec.y) }
    }
}

/// The product of a scalar and each component of a vector.
impl Mul<Vec2<u64>> for u64 {
    type Output = Vec2<u64>;

    fn mul(self, vec: Vec2<u64>) -> (v: Vec2<u64>) {
        Vec2 { x: self * vec.x, y: self * vec.y }
    }
}

impl MulSpecImpl<Vec2<u64>> for u64 {
    open spec fn obeys_mul_spec() -> bool {
        true
    }

    open spec fn mul_req(self, vec: Vec2<u64>) -> bool {
        MulSpec::<u64>::mul_req(self, vec.x) && MulSpec::<u64>::mul_req(self, vec.y)
    }

    open spec fn mul_spec(self, vec: Vec2<u64>) -> Vec2<u64> {
        Vec2 { x: MulSpec::<u64>::mul_spec(self, vec.x), y: MulSpec::<u64>::mul_spec(self, vec.y) }
    }
}

/// The quotient of a scalar and each component of a vector.
impl Div<Vec2<u64>> for u64 {
    type Output = Vec2<u64>;

    fn div(self, vec: Vec2<u64>) -> (v: Vec2<u64>) {
        Vec2 { x: self / vec.x, y: self / vec.y }
    }
}

impl DivSpecImpl<Vec2<u64>> for u64 {
    open spec fn obeys_div_spec() -> bool {
        true
    }

    open spec fn div_req(self, vec: Vec2<u64>) -> bool {
        DivSpec::<u64>::div_req(self, vec.x) && DivSpec::<u64>::div_req(self, vec.y)
    }

    open spec fn div_spec(self, vec: Vec2<u64>) -> Vec2<u64> {
        Vec2 { x: DivSpec::<u64>::div_spec(self, vec.x), y: DivSpec::<u64>::div_spec(self, vec.y) }
    }
}

/// The remainder of a scalar and each component of a vector.
impl Rem<Vec2<u64>> for u64 {
    type Output = Vec2<u64>;

    fn rem(self, vec: Vec2<u64>) -> (v: Vec2<u64>) {
        Vec2 { x: self % vec.x, y: self % vec.y }
    }
}

impl RemSpecImpl<Vec2<u64>> for u64 {
    open spec fn obeys_rem_spec() -> bool {
        true
    }

    open spec fn rem_req(self, vec: Vec2<u64>) -> bool {
        RemSpec::<u64>::rem_req(self, vec.x) && RemSpec::<u64>::rem_req(self, vec.y)
    }

    open spec fn rem_spec(self, vec: Vec2<u64>) -> Vec2<u64> {
        Vec2 { x: RemSpec::<u64>::rem_spec(self, vec.x), y: RemSpec::<u64>::rem_spec(self, vec.y) }
    }
}

/// The sum of a scalar and each component of a vector.
impl Add<Vec3<u64>> for u64 {
    type Output = Vec3<u64>;

    fn add(self, vec: Vec3<u64>) -> (v: Vec3<u64>) {
        Vec3 { x: self + vec.x, y: self + vec.y, z: self + vec.z }
    }
}

impl AddSpecImpl<Vec3<u64>> for u64 {
    open spec fn obeys_add_spec() -> bool {
        true
    }

    open spec fn add_req(self, vec: Vec3<u64>) -> bool {
        AddSpec::<u64>::add_req(self, vec.x)
            && AddSpec::<u64>::add_req(self, vec.y)
            && AddSpec::<u64>::add_req(self, vec.z)
    }

    open spec fn add_spec(self, vec: Vec3<u64>) -> Vec3<u64> {
        Vec3 {
            x: AddSpec::<u64>::add_spec(self, vec.x),
            y: AddSpec::<u64>::add_spec(self, vec.y),
            z: AddSpec::<u64>::add_spec(self, vec.z),
        }
    }
}

/// The difference of a scalar and each component of a vector.
impl Sub<Vec3<u64>> for u64 {
    type Output = Vec3<u64>;

    fn sub(self, vec: Vec3<u64>) -> (v: Vec3<u64>) {
        Vec3 { x: self - vec.x, y: self - vec.y, z: self - vec.z }
    }
}

impl SubSpecImpl<Vec3<u64>> for u64 {
    open spec fn obeys_sub_spec() -> bool {
        true
    }

    open spec fn sub_req(self, vec: Vec3<u64>) -> bool {
        SubSpec::<u64>::sub_req(self, vec.x)
            && SubSpec::<u64>::sub_req(self, vec.y)
            && SubSpec::<u64>::sub_req(self, vec.z)
    }

    open spec fn sub_spec(self, vec: Vec3<u64>) -> Vec3<u64> {
        Vec3 {
            x: SubSpec::<u64>::sub_spec(self, vec.x),
            y: SubSpec::<u64>::sub_spec(self, vec.y),
            z: SubSpec::<u64>::sub_spec(self, vec.z),
        }
    }
}

/// The product of a scalar and each component of a vector.
impl Mul<Vec3<u64>> for u64 {
    type Output = Vec3<u64>;

    fn mul(self, vec: Vec3<u64>) -> (v: Vec3<u64>) {
        Vec3 { x: self * vec.x, y: self * vec.y, z: self * vec.z }
    }
}

impl MulSpecImpl<Vec3<u64>> for u64 {
    open spec fn obeys_mul_spec() -> bool {
        true
    }

    open spec fn mul_req(self, vec: Vec3<u64>) -> bool {
        MulSpec::<u64>::mul_req(self, vec.x)
            && MulSpec::<u64>::mul_req(self, vec.y)
            && MulSpec::<u64>::mul_req(self, vec.z)
    }

    open spec fn mul_spec(self, vec: Vec3<u64>) -> Vec3<u64> {
        Vec3 {
            x: MulSpec::<u64>::mul_spec(self, vec.x),
            y: MulSpec::<u64>::mul_spec(self, vec.y),
            z: MulSpec::<u64>::mul_spec(self, vec.z),
        }
    }
}

/// The quotient of a scalar and each component of a vector.
impl Div<Vec3<u64>> for u64 {
    type Output = Vec3<u64>;

    fn div(self, vec: Vec3<u64>) -> (v: Vec3<u64>) {
        Vec3 { x: self / vec.x, y: self / vec.y, z: self / vec.z }
    }
}

impl DivSpecImpl<Vec3<u64>> for u64 {
    open spec fn obeys_div_spec() -> bool {
        true
    }

    open spec fn div_req(self, vec: Vec3<u64>) -> bool {
        DivSpec::<u64>::div_req(self, vec.x)
            && DivSpec::<u64>::div_req(self, vec.y)
            && DivSpec::<u64>::div_req(self, vec.z)
    }

    open spec fn div_spec(self, vec: Vec3<u64>) -> Vec3<u64> {
        Vec3 {
            x: DivSpec::<u64>::div_spec(self, vec.x),
            y: DivSpec::<u64>::div_spec(self, vec.y),
            z: DivSpec::<u64>::div_spec(self, vec.z),
        }
    }
}

/// The remainder of a scalar and each component of a vector.
impl Rem<Vec3<u64>> for u64 {
    type Output = Vec3<u64>;

    fn rem(self, vec: Vec3<u64>) -> (v: Vec3<u64>) {
        Vec3 { x: self % vec.x, y: self % vec.y, z: self % vec.z }
    }
}

impl RemSpecImpl<Vec3<u64>> for u64 {
    open spec fn obeys_rem_spec() -> bool {
        true
    }

    open spec fn rem_req(self, vec: Vec3<u64>) -> bool {
        RemSpec::<u64>::rem_req(self, vec.x)
            && RemSpec::<u64>::rem_req(self, vec.y)
            && RemSpec::<u64>::rem_req(self, vec.z)
    }

    open spec fn rem_spec(self, vec: Vec3<u64>) -> Vec3<u64> {
        Vec3 {
            x: RemSpec::<u64>::rem_spec(self, vec.x),
            y: RemSpec::<u64>::rem_spec(self, vec.y),
            z: RemSpec::<u64>::rem_spec(self, vec.z),
        }
    }
}

/// The sum of a scalar and each component of a vector.
impl Add<Vec2<i32>> for i32 {
    type Output = Vec2<i32>;

    fn add(self, vec: Vec2<i32>) -> (v: Vec2<i32>) {
        Vec2 { x: self + vec.x, y: self + vec.y }
    }
}

impl AddSpecImpl<Vec2<i32>> for i32 {
    open spec fn obeys_add_spec() -> bool {
        true
    }

    open spec fn add_req(self, vec: Vec2<i32>) -> bool {
        AddSpec::<i32>::add_req(self, vec.x) && AddSpec::<i32>::add_req(self, vec.y)
    }

    open spec fn add_spec(self, vec: Vec2<i32>) -> Vec2<i32> {
        Vec2 { x: AddSpec::<i32>::add_spec(self, vec.x), y: AddSpec::<i32>::add_spec(self, vec.y) }
    }
}

/// The difference of a scalar and each component of a vector.
impl Sub<Vec2<i32>> for i32 {
    type Output = Vec2<i32>;

    fn sub(self, vec: Vec2<i32>) -> (v: Vec2<i32>) {
        Vec2 { x: self - vec.x, y: self - vec.y }
    }
}

impl SubSpecImpl<Vec2<i32>> for i32 {
    open spec fn obeys_sub_spec() -> bool {
        true
    }

    open spec fn sub_req(self, vec: Vec2<i32>) -> bool {
        SubSpec::<i32>::sub_req(self, vec.x) && SubSpec::<i32>::sub_req(self, vec.y)
    }

    open spec fn sub_spec(self, vec: Vec2<i32>) -> Vec2<i32> {
        Vec2 { x: SubSpec::<i32>::sub_spec(self, vec.x), y: SubSpec::<i32>::sub_spec(self, vec.y) }
    }
}

/// The product of a scalar and each component of a vector.
impl Mul<Vec2<i32>> for i32 {
    type Output = Vec2<i32>;

    fn mul(self, vec: Vec2<i32>) -> (v: Vec2<i32>) {
        Vec2 { x: self * vec.x, y: self * vec.y }
    }
}

impl MulSpecImpl<Vec2<i32>> for i32 {
    open spec fn obeys_mul_spec() -> bool {
        true
    }

    open spec fn mul_req(self, vec: Vec2<i32>) -> bool {
        MulSpec::<i32>::mul_req(self, vec.x) && MulSpec::<i32>::mul_req(self, vec.y)
    }

    open spec fn mul_spec(self, vec: Vec2<i32>) -> Vec2<i32> {
        Vec2 { x: MulSpec::<i32>::mul_spec(self, vec.x), y: MulSpec::<i32>::mul_spec(self, vec.y) }
    }
}

/// The quotient of a scalar and each component of a vector.
impl Div<Vec2<i32>> for i32 {
    type Output = Vec2<i32>;

    fn div(self, vec: Vec2<i32>) -> (v: Vec2<i32>) {
        Vec2 { x: self / vec.x, y: self / vec.y }
    }
}

impl DivSpecImpl<Vec2<i32>> for i32 {
    open spec fn obeys_div_spec() -> bool {
        true
    }

    open spec fn div_req(self, vec: Vec2<i32>) -> bool {
        DivSpec::<i32>::div_req(self, vec.x) && DivSpec::<i32>::div_req(self, vec.y)
    }

    open spec fn div_spec(self, vec: Vec2<i32>) -> Vec2<i32> {
        Vec2 { x: DivSpec::<i32>::div_spec(self, vec.x), y: DivSpec::<i32>::div_spec(self, vec.y) }
    }
}

/// The remainder of a scalar and each component of a vector.
impl Rem<Vec2<i32>> for i32 {
    type Output = Vec2<i32>;

    fn rem(self, vec: Vec2<i32>) -> (v: Vec2<i32>) {
        Vec2 { x: self % vec.x, y: self % vec.y }
    }
}

impl RemSpecImpl<Vec2<i32>> for i32 {
    open spec fn obeys_rem_spec() -> bool {
        true
    }

    open spec fn rem_req(self, vec: Vec2<i32>) -> bool {
        RemSpec::<i32>::rem_req(self, vec.x) && RemSpec::<i32>::rem_req(self, vec.y)
    }

    open spec fn rem_spec(self, vec: Vec2<i32>) -> Vec2<i32> {
        Vec2 { x: RemSpec::<i32>::rem_spec(self, vec.x), y: RemSpec::<i32>::rem_spec(self, vec.y) }
    }
}

/// The sum of a scalar and each component of a vector.
impl Add<Vec3<i32>> for i32 {
    type Output = Vec3<i32>;

    fn add(self, vec: Vec3<i32>) -> (v: Vec3<i32>) {
        Vec3 { x: self + vec.x, y: self + vec.y, z: self + vec.z }
    }
}

impl AddSpecImpl<Vec3<i32>> for i32 {
    open spec fn obeys_add_spec() -> bool {
        true
    }

    open spec fn add_req(self, vec: Vec3<i32>) -> bool {
        AddSpec::<i32>::add_req(self, vec.x)
            && AddSpec::<i32>::add_req(self, vec.y)
            && AddSpec::<i32>::add_req(self, vec.z)
    }

    open spec fn add_spec(self, vec: Vec3<i32>) -> Vec3<i32> {
        Vec3 {
            x: AddSpec::<i32>::add_spec(self, vec.x),
            y: AddSpec::<i32>::add_spec(self, vec.y),
            z: AddSpec::<i32>::add_spec(self, vec.z),
        }
    }
}

/// The difference of a scalar and each component of a vector.
impl Sub<Vec3<i32>> for i32 {
    type Output = Vec3<i32>;

    fn sub(self, vec: Vec3<i32>) -> (v: Vec3<i32>) {
        Vec3 { x: self - vec.x, y: self - vec.y, z: self - vec.z }
    }
}

impl SubSpecImpl<Vec3<i32>> for i32 {
    open spec fn obeys_sub_spec() -> bool {
        true
    }

    open spec fn sub_req(self, vec: Vec3<i32>) -> bool {
        SubSpec::<i32>::sub_req(self, vec.x)
            && SubSpec::<i32>::sub_req(self, vec.y)
            && SubSpec::<i32>::sub_req(self, vec.z)
    }

    open spec fn sub_spec(self, vec: Vec3<i32>) -> Vec3<i32> {
        Vec3 {
            x: SubSpec::<i32>::sub_spec(self, vec.x),
            y: SubSpec::<i32>::sub_spec(self, vec.y),
            z: SubSpec::<i32>::sub_spec(self, vec.z),
        }
    }
}

/// The product of a scalar and each component of a vector.
impl Mul<Vec3<i32>> for i32 {
    type Output = Vec3<i32>;

    fn mul(self, vec: Vec3<i32>) -> (v: Vec3<i32>) {
        Vec3 { x: self * vec.x, y: self * vec.y, z: self * vec.z }
    }
}

impl MulSpecImpl<Vec3<i32>> for i32 {
    open spec fn obeys_mul_spec() -> bool {
        true
    }

    open spec fn mul_req(self, vec: Vec3<i32>) -> bool {
        MulSpec::<i32>::mul_req(self, vec.x)
            && MulSpec::<i32>::mul_req(self, vec.y)
            && MulSpec::<i32>::mul_req(self, vec.z)
    }

    open spec fn mul_spec(self, vec: Vec3<i32>) -> Vec3<i32> {
        Vec3 {
            x: MulSpec::<i32>::mul_spec(self, vec.x),
            y: MulSpec::<i32>::mul_spec(self, vec.y),
            z: MulSpec::<i32>::mul_spec(self, vec.z),
        }
    }
}

/// The quotient of a scalar and each component of a vector.
impl Div<Vec3<i32>> for i32 {
    type Output = Vec3<i32>;

    fn div(self, vec: Vec3<i32>) -> (v: Vec3<i32>) {
        Vec3 { x: self / vec.x, y: self / vec.y, z: self / vec.z }
    }
}

impl DivSpecImpl<Vec3<i32>> for i32 {
    open spec fn obeys_div_spec() -> bool {
        true
    }

    open spec fn div_req(self, vec: Vec3<i32>) -> bool {
        DivSpec::<i32>::div_req(self, vec.x)
            && DivSpec::<i32>::div_req(self, vec.y)
            && DivSpec::<i32>::div_req(self, vec.z)
    }

    open spec fn div_spec(self, vec: Vec3<i32>) -> Vec3<i32> {
        Vec3 {
            x: DivSpec::<i32>::div_spec(self, vec.x),
            y: DivSpec::<i32>::div_spec(self, vec.y),
            z: DivSpec::<i32>::div_spec(self, vec.z),
        }
    }
}

/// The remainder of a scalar and each component of a vector.
impl Rem<Vec3<i32>> for i32 {
    type Output = Vec3<i32>;

    fn rem(self, vec: Vec3<i32>) -> (v: Vec3<i32>) {
        Vec3 { x: self % vec.x, y: self % vec.y, z: self % vec.z }
    }
}

impl RemSpecImpl<Vec3<i32>> for i32 {
    open spec fn obeys_rem_spec() -> bool {
        true
    }

    open spec fn rem_req(self, vec: Vec3<i32>) -> bool {
        RemSpec::<i32>::rem_req(self, vec.x)
            && RemSpec::<i32>::rem_req(self, vec.y)
            && RemSpec::<i32>::rem_req(self, vec.z)
    }

    open spec fn rem_spec(self, vec: Vec3<i32>) -> Vec3<i32> {
        Vec3 {
            x: RemSpec::<i32>::rem_spec(self, vec.x),
            y: RemSpec::<i32>::rem_spec(self, vec.y),
            z: RemSpec::<i32>::rem_spec(self, vec.z),
        }
    }
}

/// The sum of a scalar and each component of a vector.
impl Add<Vec2<i64>> for i64 {
    type Output = Vec2<i64>;

    fn add(self, vec: Vec2<i64>) -> (v: Vec2<i64>) {
        Vec2 { x: self + vec.x, y: self + vec.y }
    }
}

impl AddSpecImpl<Vec2<i64>> for i64 {
    open spec fn obeys_add_spec() -> bool {
        true
    }

    open spec fn add_req(self, vec: Vec2<i64>) -> bool {
        AddSpec::<i64>::add_req(self, vec.x) && AddSpec::<i64>::add_req(self, vec.y)
    }

    open spec fn add_spec(self, vec: Vec2<i64>) -> Vec2<i64> {
        Vec2 { x: AddSpec::<i64>::add_spec(self, vec.x), y: AddSpec::<i64>::add_spec(self, vec.y) }
    }
}

/// The difference of a scalar and each component of a vector.
impl Sub<Vec2<i64>> for i64 {
    type Output = Vec2<i64>;

    fn sub(self, vec: Vec2<i64>) -> (v: Vec2<i64>) {
        Vec2 { x: self - vec.x, y: self - vec.y }
    }
}

impl SubSpecImpl<Vec2<i64>> for i64 {
    open spec fn obeys_sub_spec() -> bool {
        true
    }

    open spec fn sub_req(self, vec: Vec2<i64>) -> bool {
        SubSpec::<i64>::sub_req(self, vec.x) && SubSpec::<i64>::sub_req(self, vec.y)
    }

    open spec fn sub_spec(self, vec: Vec2<i64>) -> Vec2<i64> {
        Vec2 { x: SubSpec::<i64>::sub_spec(self, vec.x), y: SubSpec::<i64>::sub_spec(self, vec.y) }
    }
}

/// The product of a scalar and each component of a vector.
impl Mul<Vec2<i64>> for i64 {
    type Output = Vec2<i64>;

    fn mul(self, vec: Vec2<i64>) -> (v: Vec2<i64>) {
        Vec2 { x: self * vec.x, y: self * vec.y }
    }
}

impl MulSpecImpl<Vec2<i64>> for i64 {
    open spec fn obeys_mul_spec() -> bool {
        true
    }

    open spec fn mul_req(self, vec: Vec2<i64>) -> bool {
        MulSpec::<i64>::mul_req(self, vec.x) && MulSpec::<i64>::mul_req(self, vec.y)
    }

    open spec fn mul_spec(self, vec: Vec2<i64>) -> Vec2<i64> {
        Vec2 { x: MulSpec::<i64>::mul_spec(self, vec.x), y: MulSpec::<i64>::mul_spec(self, vec.y) }
    }
}

/// The quotient of a scalar and each component of a vector.
impl Div<Vec2<i64>> for i64 {
    type Output = Vec2<i64>;

    fn div(self, vec: Vec2<i64>) -> (v: Vec2<i64>) {
        Vec2 { x: self / vec.x, y: self / vec.y }
    }
}

impl DivSpecImpl<Vec2<i64>> for i64 {
    open spec fn obeys_div_spec() -> bool {
        true
    }

    open spec fn div_req(self, vec: Vec2<i64>) -> bool {
        DivSpec::<i64>::div_req(self, vec.x) && DivSpec::<i64>::div_req(self, vec.y)
    }

    open spec fn div_spec(self, vec: Vec2<i64>) -> Vec2<i64> {
        Vec2 { x: DivSpec::<i64>::div_spec(self, vec.x), y: DivSpec::<i64>::div_spec(self, vec.y) }
    }
}

/// The remainder of a scalar and each component of a vector.
impl Rem<Vec2<i64>> for i64 {
    type Output = Vec2<i64>;

    fn rem(self, vec: Vec2<i64>) -> (v: Vec2<i64>) {
        Vec2 { x: self % vec.x, y: self % vec.y }
    }
}

impl RemSpecImpl<Vec2<i64>> for i64 {
    open spec fn obeys_rem_spec() -> bool {
        true
    }

    open spec fn rem_req(self, vec: Vec2<i64>) -> bool {
        RemSpec::<i64>::rem_req(self, vec.x) && RemSpec::<i64>::rem_req(self, vec.y)
    }

    open spec fn rem_spec(self, vec: Vec2<i64>) -> Vec2<i64> {
        Vec2 { x: RemSpec::<i64>::rem_spec(self, vec.x), y: RemSpec::<i64>::rem_spec(self, vec.y) }
    }
}

/// The sum of a scalar and each component of a vector.
impl Add<Vec3<i64>> for i64 {
    type Output = Vec3<i64>;

    fn add(self, vec: Vec3<i64>) -> (v: Vec3<i64>) {
        Vec3 { x: self + vec.x, y: self + vec.y, z: self + vec.z }
    }
}

impl AddSpecImpl<Vec3<i64>> for i64 {
    open spec fn obeys_add_spec() -> bool {
        true
    }

    open spec fn add_req(self, vec: Vec3<i64>) -> bool {
        AddSpec::<i64>::add_req(self, vec.x)
            && AddSpec::<i64>::add_req(self, vec.y)
            && AddSpec::<i64>::add_req(self, vec.z)
    }

    open spec fn add_spec(self, vec: Vec3<i64>) -> Vec3<i64> {
        Vec3 {
            x: AddSpec::<i64>::add_spec(self, vec.x),
            y: AddSpec::<i64>::add_spec(self, vec.y),
            z: AddSpec::<i64>::add_spec(self, vec.z),
        }
    }
}

/// The difference of a scalar and each component of a vector.
impl Sub<Vec3<i64>> for i64 {
    type Output = Vec3<i64>;

    fn sub(self, vec: Vec3<i64>) -> (v: Vec3<i64>) {
        Vec3 { x: self - vec.x, y: self - vec.y, z: self - vec.z }
    }
}

impl SubSpecImpl<Vec3<i64>> for i64 {
    open spec fn obeys_sub_spec() -> bool {
        true
    }

    open spec fn sub_req(self, vec: Vec3<i64>) -> bool {
        SubSpec::<i64>::sub_req(self, vec.x)
            && SubSpec::<i64>::sub_req(self, vec.y)
            && SubSpec::<i64>::sub_req(self, vec.z)
    }

    open spec fn sub_spec(self, vec: Vec3<i64>) -> Vec3<i64> {
        Vec3 {
            x: SubSpec::<i64>::sub_spec(self, vec.x),
            y: SubSpec::<i64>::sub_spec(self, vec.y),
            z: SubSpec::<i64>::sub_spec(self, vec.z),
        }
    }
}

/// The product of a scalar and each component of a vector.
impl Mul<Vec3<i64>> for i64 {
    type Output = Vec3<i64>;

    fn mul(self, vec: Vec3<i64>) -> (v: Vec3<i64>) {
        Vec3 { x: self * vec.x, y: self * vec.y, z: self * vec.z }
    }
}

impl MulSpecImpl<Vec3<i64>> for i64 {
    open spec fn obeys_mul_spec() -> bool {
        true
    }

    open spec fn mul_req(self, vec: Vec3<i64>) -> bool {
        MulSpec::<i64>::mul_req(self, vec.x)
            && MulSpec::<i64>::mul_req(self, vec.y)
            && MulSpec::<i64>::mul_req(self, vec.z)
    }

    open spec fn mul_spec(self, vec: Vec3<i64>) -> Vec3<i64> {
        Vec3 {
            x: MulSpec::<i64>::mul_spec(self, vec.x),
            y: MulSpec::<i64>::mul_spec(self, vec.y),
            z: MulSpec::<i64>::mul_spec(self, vec.z),
        }
    }
}

/// The quotient of a scalar and each component of a vector.
impl Div<Vec3<i64>> for i64 {
    type Output = Vec3<i64>;

    fn div(self, vec: Vec3<i64>) -> (v: Vec3<i64>) {
        Vec3 { x: self / vec.x, y: self / vec.y, z: self / vec.z }
    }
}

impl DivSpecImpl<Vec3<i64>> for i64 {
    open spec fn obeys_div_spec() -> bool {
        true
    }

    open spec fn div_req(self, vec: Vec3<i64>) -> bool {
        DivSpec::<i64>::div_req(self, vec.x)
            && DivSpec::<i64>::div_req(self, vec.y)
            && DivSpec::<i64>::div_req(self, vec.z)
    }

    open spec fn div_spec(self, vec: Vec3<i64>) -> Vec3<i64> {
        Vec3 {
            x: DivSpec::<i64>::div_spec(self, vec.x),
            y: DivSpec::<i64>::div_spec(self, vec.y),
            z: DivSpec::<i64>::div_spec(self, vec.z),
        }
    }
}

/// The remainder of a scalar and each component of a vector.
impl Rem<Vec3<i64>> for i64 {
    type Output = Vec3<i64>;

    fn rem(self, vec: Vec3<i64>) -> (v: Vec3<i64>) {
        Vec3 { x: self % vec.x, y: self % vec.y, z: self % vec.z }
    }
}

impl RemSpecImpl<Vec3<i64>> for i64 {
    open spec fn obeys_rem_spec() -> bool {
        true
    }

    open spec fn rem_req(self, vec: Vec3<i64>) -> bool {
        RemSpec::<i64>::rem_req(self, vec.x)
            && RemSpec::<i64>::rem_req(self, vec.y)
            && RemSpec::<i64>::rem_req(self, vec.z)
    }

    open spec fn rem_spec(self, vec: Vec3<i64>) -> Vec3<i64> {
        Vec3 {
            x: RemSpec::<i64>::rem_spec(self, vec.x),
            y: RemSpec::<i64>::rem_spec(self, vec.y),
            z: RemSpec::<i64>::rem_spec(self, vec.z),
        }
    }
}

} // verus!
