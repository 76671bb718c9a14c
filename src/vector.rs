use vstd::prelude::*;
use crate::fixed::{abs, mul_fx, is_floor_sqrt, sqrt_floor, div_toward_zero, floor_sqrt, lemma_floor_sqrt_unique, SCALE};

verus! {

/// A vector of three fixed-point components (thousandths of an SI unit).
/// `y` points up, away from the ground.
#[derive(Clone, Copy, Debug, PartialEq, Eq, Structural)]
pub struct Vec3 {
    pub x: i64,
    pub y: i64,
    pub z: i64,
}

impl Vec3 {
    /// Every component lies in `-m ..= m`.
    pub open spec fn within(self, m: int) -> bool {
        abs(self.x as int) <= m && abs(self.y as int) <= m && abs(self.z as int) <= m
    }

    /// Squared length, in millionths of the squared SI unit.
    pub open spec fn len_sq(self) -> int {
        self.x * self.x + self.y * self.y + self.z * self.z
    }

    /// Length in thousandths, rounded down.
    pub open spec fn len(self) -> int {
        sqrt_floor(self.len_sq())
    }

    pub open spec fn is_zero(self) -> bool {
        self.x == 0 && self.y == 0 && self.z == 0
    }

    pub fn zero() -> (r: Vec3)
        ensures
            r.is_zero(),
    {
        Vec3 { x: 0, y: 0, z: 0 }
    }

    pub fn new(x: i64, y: i64, z: i64) -> (r: Vec3)
        ensures
            r.x == x && r.y == y && r.z == z,
    {
        Vec3 { x, y, z }
    }

    pub fn add(self, o: Vec3) -> (r: Vec3)
        requires
            i64::MIN <= self.x + o.x <= i64::MAX,
            i64::MIN <= self.y + o.y <= i64::MAX,
            i64::MIN <= self.z + o.z <= i64::MAX,
        ensures
            r.x == self.x + o.x,
            r.y == self.y + o.y,
            r.z == self.z + o.z,
    {
        Vec3 { x: self.x + o.x, y: self.y + o.y, z: self.z + o.z }
    }

    pub fn sub(self, o: Vec3) -> (r: Vec3)
        requires
            i64::MIN <= self.x - o.x <= i64::MAX,
            i64::MIN <= self.y - o.y <= i64::MAX,
            i64::MIN <= self.z - o.z <= i64::MAX,
        ensures
            r.x == self.x - o.x,
            r.y == self.y - o.y,
            r.z == self.z - o.z,
    {
        Vec3 { x: self.x - o.x, y: self.y - o.y, z: self.z - o.z }
    }

    /// Each component multiplied by the fixed-point factor `k`.
    pub fn scale(self, k: i64) -> (r: Vec3)
        requires
            i64::MIN <= mul_fx(self.x as int, k as int) <= i64::MAX,
            i64::MIN <= mul_fx(self.y as int, k as int) <= i64::MAX,
            i64::MIN <= mul_fx(self.z as int, k as int) <= i64::MAX,
        ensures
            r.x == mul_fx(self.x as int, k as int),
            r.y == mul_fx(self.y as int, k as int),
            r.z == mul_fx(self.z as int, k as int),
    {
        Vec3 { x: scale_component(self.x, k), y: scale_component(self.y, k), z: scale_component(self.z, k) }
    }

    /// Squared length, in millionths of the squared SI unit.
    pub fn length_sq(self) -> (r: i128)
        requires
            self.within(COMPONENT_LIMIT as int),
        ensures
            r == self.len_sq(),
            0 <= r <= 3 * (COMPONENT_LIMIT as int) * (COMPONENT_LIMIT as int),
    {
        let x = self.x as i128;
        let y = self.y as i128;
        let z = self.z as i128;
        proof {
            lemma_square_bound(x as int);
            lemma_square_bound(y as int);
            lemma_square_bound(z as int);
        }
        x * x + y * y + z * z
    }

    /// Length in thousandths, rounded down.
    pub fn length(self) -> (r: i64)
        requires
            self.within(COMPONENT_LIMIT as int),
        ensures
            r == self.len(),
            is_floor_sqrt(self.len_sq(), r as int),
    {
        let n = self.length_sq();
        let s = floor_sqrt(n as u128);
        proof {
            lemma_floor_sqrt_unique(self.len_sq(), s as int);
            assert(s <= COMPONENT_LIMIT * 2) by (nonlinear_arith)
                requires
                    (s as int) * (s as int) <= n,
                    n <= 3 * (COMPONENT_LIMIT as int) * (COMPONENT_LIMIT as int),
                    s >= 0,
            ;
        }
        s as i64
    }

    /// Dot product, in millionths.
    pub fn dot(self, o: Vec3) -> (r: i128)
        requires
            self.within(COMPONENT_LIMIT as int),
            o.within(COMPONENT_LIMIT as int),
        ensures
            r == self.x * o.x + self.y * o.y + self.z * o.z,
            abs(r as int) <= 3 * (COMPONENT_LIMIT as int) * (COMPONENT_LIMIT as int),
    {
        proof {
            lemma_product_bound(self.x as int, o.x as int);
            lemma_product_bound(self.y as int, o.y as int);
            lemma_product_bound(self.z as int, o.z as int);
        }
        (self.x as i128) * (o.x as i128) + (self.y as i128) * (o.y as i128) + (self.z as i128) * (o.z as i128)
    }
}

/// Largest component size for which squared lengths and dot products are
/// computed exactly.
pub const COMPONENT_LIMIT: i64 = 1_000_000_000_000_000_000;

pub proof fn lemma_square_bound(a: int)
    requires
        abs(a) <= COMPONENT_LIMIT,
    ensures
        0 <= a * a <= (COMPONENT_LIMIT as int) * (COMPONENT_LIMIT as int),
{
    assert(0 <= a * a <= (COMPONENT_LIMIT as int) * (COMPONENT_LIMIT as int)) by (nonlinear_arith)
        requires
            -1_000_000_000_000_000_000 <= a <= 1_000_000_000_000_000_000,
    ;
}

pub proof fn lemma_product_bound(a: int, b: int)
    requires
        abs(a) <= COMPONENT_LIMIT,
        abs(b) <= COMPONENT_LIMIT,
    ensures
        abs(a * b) <= (COMPONENT_LIMIT as int) * (COMPONENT_LIMIT as int),
{
    assert(abs(a * b) <= (COMPONENT_LIMIT as int) * (COMPONENT_LIMIT as int)) by (nonlinear_arith)
        requires
            -1_000_000_000_000_000_000 <= a <= 1_000_000_000_000_000_000,
            -1_000_000_000_000_000_000 <= b <= 1_000_000_000_000_000_000,
    ;
}

/// One component multiplied by a fixed-point factor.
pub fn scale_component(c: i64, k: i64) -> (r: i64)
    requires
        i64::MIN <= mul_fx(c as int, k as int) <= i64::MAX,
    ensures
        r == mul_fx(c as int, k as int),
{
    let p: i128 = (c as i128) * (k as i128);
    assert(-0x4000_0000_0000_0000_0000_0000_0000_0000 <= (c as int) * (k as int) <= 0x4000_0000_0000_0000_0000_0000_0000_0000) by (nonlinear_arith)
        requires
            -0x8000_0000_0000_0000 <= c <= 0x7fff_ffff_ffff_ffff,
            -0x8000_0000_0000_0000 <= k <= 0x7fff_ffff_ffff_ffff,
    ;
    div_toward_zero(p, SCALE as i128) as i64
}

} // verus!
