use vstd::prelude::*;

verus! {

/// Whether an integer fits in an `i64`.
pub open spec fn fits(v: int) -> bool {
    i64::MIN <= v <= i64::MAX
}

/// A homogeneous coordinate (x, y, z, w) on the integer grid. A tuple with
/// w = 1 is a point, one with w = 0 a vector; any other w is a legal
/// intermediate value of the algebra. Components are exact, so two tuples
/// are equal exactly when all four components are.
#[derive(Clone, Copy, Debug, PartialEq, Eq, Structural)]
pub struct Tuple {
    pub x: i64,
    pub y: i64,
    pub z: i64,
    pub w: i64,
}

/// The tuple with the given components.
pub open spec fn tuple_of(x: int, y: int, z: int, w: int) -> Tuple
    recommends
        fits(x),
        fits(y),
        fits(z),
        fits(w),
{
    Tuple { x: x as i64, y: y as i64, z: z as i64, w: w as i64 }
}

/// Componentwise sum, as integers.
pub open spec fn add_spec(a: Tuple, b: Tuple) -> (int, int, int, int) {
    (a.x + b.x, a.y + b.y, a.z + b.z, a.w + b.w)
}

/// Componentwise difference, as integers.
pub open spec fn sub_spec(a: Tuple, b: Tuple) -> (int, int, int, int) {
    (a.x - b.x, a.y - b.y, a.z - b.z, a.w - b.w)
}

/// Every component scaled by `s`, as integers.
pub open spec fn mul_spec(a: Tuple, s: int) -> (int, int, int, int) {
    (a.x * s, a.y * s, a.z * s, a.w * s)
}

/// Every component negated, as integers.
pub open spec fn neg_spec(a: Tuple) -> (int, int, int, int) {
    (-a.x, -a.y, -a.z, -a.w)
}

/// The sum of the componentwise products over all four components.
pub open spec fn dot_spec(a: Tuple, b: Tuple) -> int {
    a.x * b.x + a.y * b.y + a.z * b.z + a.w * b.w
}

/// The 3-D cross product of the (x, y, z) parts; its w is always zero.
pub open spec fn cross_spec(a: Tuple, b: Tuple) -> (int, int, int, int) {
    (a.y * b.z - a.z * b.y, a.z * b.x - a.x * b.z, a.x * b.y - a.y * b.x, 0)
}

/// Whether all four components of an integer quadruple fit in `i64`.
pub open spec fn fits4(c: (int, int, int, int)) -> bool {
    fits(c.0) && fits(c.1) && fits(c.2) && fits(c.3)
}

/// The components of a tuple as integers.
pub open spec fn components(t: Tuple) -> (int, int, int, int) {
    (t.x as int, t.y as int, t.z as int, t.w as int)
}

impl Tuple {
    pub fn new(x: i64, y: i64, z: i64, w: i64) -> (r: Tuple)
        ensures
            r.x == x && r.y == y && r.z == z && r.w == w,
    {
        Tuple { x, y, z, w }
    }

    /// A tuple is a point when its w is one.
    pub fn is_point(self) -> (r: bool)
        ensures
            r == (self.w == 1),
    {
        self.w == 1
    }

    /// A tuple is a vector when its w is zero.
    pub fn is_vector(self) -> (r: bool)
        ensures
            r == (self.w == 0),
    {
        self.w == 0
    }

    /// Componentwise sum.
    pub fn add(self, other: Tuple) -> (r: Tuple)
        requires
            fits4(add_spec(self, other)),
        ensures
            components(r) == add_spec(self, other),
    {
        Tuple {
            x: self.x + other.x,
            y: self.y + other.y,
            z: self.z + other.z,
            w: self.w + other.w,
        }
    }

    /// Componentwise difference.
    pub fn sub(self, other: Tuple) -> (r: Tuple)
        requires
            fits4(sub_spec(self, other)),
        ensures
            components(r) == sub_spec(self, other),
    {
        Tuple {
            x: self.x - other.x,
            y: self.y - other.y,
            z: self.z - other.z,
            w: self.w - other.w,
        }
    }

    /// Every component, w included, multiplied by `s`.
    pub fn mul(self, s: i64) -> (r: Tuple)
        requires
            fits4(mul_spec(self, s as int)),
        ensures
            components(r) == mul_spec(self, s as int),
    {
        Tuple { x: self.x * s, y: self.y * s, z: self.z * s, w: self.w * s }
    }

    /// Every component negated.
    pub fn neg(self) -> (r: Tuple)
        requires
            fits4(neg_spec(self)),
        ensures
            components(r) == neg_spec(self),
    {
        Tuple { x: -self.x, y: -self.y, z: -self.z, w: -self.w }
    }

    /// The sum of the componentwise products over all four components.
    pub fn dot(self, other: Tuple) -> (r: i64)
        requires
            dot_fits(self, other),
        ensures
            r == dot_spec(self, other),
    {
        let xx = self.x * other.x;
        let yy = self.y * other.y;
        let zz = self.z * other.z;
        let ww = self.w * other.w;
        xx + yy + zz + ww
    }

    /// The 3-D cross product of the (x, y, z) parts, with w set to zero
    /// whatever the inputs' w.
    pub fn cross(self, other: Tuple) -> (r: Tuple)
        requires
            cross_fits(self, other),
        ensures
            components(r) == cross_spec(self, other),
    {
        Tuple {
            x: self.y * other.z - self.z * other.y,
            y: self.z * other.x - self.x * other.z,
            z: self.x * other.y - self.y * other.x,
            w: 0,
        }
    }
}

/// Whether each product and each partial sum of the dot product fits in `i64`.
pub open spec fn dot_fits(a: Tuple, b: Tuple) -> bool {
    &&& fits(a.x * b.x)
    &&& fits(a.y * b.y)
    &&& fits(a.z * b.z)
    &&& fits(a.w * b.w)
    &&& fits(a.x * b.x + a.y * b.y)
    &&& fits(a.x * b.x + a.y * b.y + a.z * b.z)
    &&& fits(dot_spec(a, b))
}

/// Whether each product and each difference of the cross product fits in `i64`.
pub open spec fn cross_fits(a: Tuple, b: Tuple) -> bool {
    &&& fits(a.y * b.z)
    &&& fits(a.z * b.y)
    &&& fits(a.z * b.x)
    &&& fits(a.x * b.z)
    &&& fits(a.x * b.y)
    &&& fits(a.y * b.x)
    &&& fits4(cross_spec(a, b))
}

/// The tuple (x, y, z, w).
pub fn tuple(x: i64, y: i64, z: i64, w: i64) -> (r: Tuple)
    ensures
        r == tuple_of(x as int, y as int, z as int, w as int),
{
    Tuple::new(x, y, z, w)
}

/// The point (x, y, z): the tuple whose w is one.
pub fn point(x: i64, y: i64, z: i64) -> (r: Tuple)
    ensures
        r == tuple_of(x as int, y as int, z as int, 1),
        r.is_point_spec(),
{
    tuple(x, y, z, 1)
}

/// The vector (x, y, z): the tuple whose w is zero.
pub fn vector(x: i64, y: i64, z: i64) -> (r: Tuple)
    ensures
        r == tuple_of(x as int, y as int, z as int, 0),
        r.is_vector_spec(),
{
    tuple(x, y, z, 0)
}

impl Tuple {
    pub open spec fn is_point_spec(self) -> bool {
        self.w == 1
    }

    pub open spec fn is_vector_spec(self) -> bool {
        self.w == 0
    }
}

/// The difference of two points is a vector; a point less a vector is a
/// point; the difference of two vectors is a vector.
pub proof fn lemma_sub_classification(a: Tuple, b: Tuple)
    ensures
        a.is_point_spec() && b.is_point_spec() ==> sub_spec(a, b).3 == 0,
        a.is_point_spec() && b.is_vector_spec() ==> sub_spec(a, b).3 == 1,
        a.is_vector_spec() && b.is_vector_spec() ==> sub_spec(a, b).3 == 0,
{
}

/// The cross product is anti-commutative: a x b is the negation of b x a.
pub proof fn lemma_cross_anticommutative(a: Tuple, b: Tuple)
    ensures
        cross_spec(a, b) == (-cross_spec(b, a).0, -cross_spec(b, a).1, -cross_spec(b, a).2, -cross_spec(b, a).3),
{
    assert(a.y * b.z == b.z * a.y) by (nonlinear_arith);
    assert(a.z * b.y == b.y * a.z) by (nonlinear_arith);
    assert(a.z * b.x == b.x * a.z) by (nonlinear_arith);
    assert(a.x * b.z == b.z * a.x) by (nonlinear_arith);
    assert(a.x * b.y == b.y * a.x) by (nonlinear_arith);
    assert(a.y * b.x == b.x * a.y) by (nonlinear_arith);
}

} // verus!
