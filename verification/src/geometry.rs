//! Vectors and matrices of fixed-point scalars, and the few operations on
//! them that the vertex transformer needs.

use vstd::prelude::*;
use crate::fixed::{ONE, spec_rescale, spec_saturate, spec_floor_div, product, rescale, saturate,
    floor_div};

verus! {

/// A vector of two scalars.
#[derive(Clone, Copy, Debug, PartialEq, Eq)]
pub struct Vec2 {
    pub x: i32,
    pub y: i32,
}

/// A vector of three scalars.
#[derive(Clone, Copy, Debug, PartialEq, Eq)]
pub struct Vec3 {
    pub x: i32,
    pub y: i32,
    pub z: i32,
}

/// A vector of four scalars: a point or direction in homogeneous coordinates.
#[derive(Clone, Copy, Debug, PartialEq, Eq)]
pub struct Vec4 {
    pub x: i32,
    pub y: i32,
    pub z: i32,
    pub w: i32,
}

/// A matrix of three rows and three columns, held by rows.
#[derive(Clone, Copy, Debug, PartialEq, Eq)]
pub struct Mat3 {
    pub row0: Vec3,
    pub row1: Vec3,
    pub row2: Vec3,
}

/// A matrix of four rows and four columns, held by rows.
#[derive(Clone, Copy, Debug, PartialEq, Eq)]
pub struct Mat4 {
    pub row0: Vec4,
    pub row1: Vec4,
    pub row2: Vec4,
    pub row3: Vec4,
}

/// The exact raw dot product of two vectors of three.
pub open spec fn spec_dot3(a: Vec3, b: Vec3) -> int {
    a.x * b.x + a.y * b.y + a.z * b.z
}

/// The exact raw dot product of two vectors of four.
pub open spec fn spec_dot4(a: Vec4, b: Vec4) -> int {
    a.x * b.x + a.y * b.y + a.z * b.z + a.w * b.w
}

/// The nine cofactors of a matrix of three by three, as exact raw integers:
/// `cIJ` is the signed minor that belongs to row `I` and column `J`.
pub struct Cofactors {
    pub c00: int,
    pub c01: int,
    pub c02: int,
    pub c10: int,
    pub c11: int,
    pub c12: int,
    pub c20: int,
    pub c21: int,
    pub c22: int,
}

/// One entry of an inverse: the cofactor over the determinant, as a scalar.
/// The factor `ONE * ONE` makes up for the units of the two raw values.
pub open spec fn spec_inverse_entry(cofactor: int, determinant: int) -> i32
    recommends
        determinant != 0,
{
    spec_saturate(spec_floor_div(ONE * ONE * cofactor, determinant))
}

fn dot3(a: &Vec3, b: &Vec3) -> (d: i128)
    ensures
        d == spec_dot3(*a, *b),
{
    let px: i64 = product(a.x, b.x);
    let py: i64 = product(a.y, b.y);
    let pz: i64 = product(a.z, b.z);
    px as i128 + py as i128 + pz as i128
}

fn dot4(a: &Vec4, b: &Vec4) -> (d: i128)
    ensures
        d == spec_dot4(*a, *b),
{
    let px: i64 = product(a.x, b.x);
    let py: i64 = product(a.y, b.y);
    let pz: i64 = product(a.z, b.z);
    let pw: i64 = product(a.w, b.w);
    px as i128 + py as i128 + pz as i128 + pw as i128
}

/// `a * b - c * d`, exactly.
fn minor(a: i32, b: i32, c: i32, d: i32) -> (m: i128)
    ensures
        m == a * b - c * d,
        -0x8000_0000_0000_0000 <= m <= 0x8000_0000_0000_0000,
{
    let ab: i64 = product(a, b);
    let cd: i64 = product(c, d);
    ab as i128 - cd as i128
}

/// `a * c`, exactly, for a cofactor `c`.
fn expand(a: i32, c: i128) -> (p: i128)
    requires
        -0x8000_0000_0000_0000 <= c <= 0x8000_0000_0000_0000,
    ensures
        p == a * c,
        -0x4000_0000_0000_0000_0000_0000 <= p <= 0x4000_0000_0000_0000_0000_0000,
{
    proof {
        assert(-0x4000_0000_0000_0000_0000_0000 <= (a as int) * (c as int)
            <= 0x4000_0000_0000_0000_0000_0000) by (nonlinear_arith)
            requires
                -0x8000_0000 <= a <= 0x7fff_ffff,
                -0x8000_0000_0000_0000 <= c <= 0x8000_0000_0000_0000,
        ;
    }
    (a as i128) * c
}

fn inverse_entry(cofactor: i128, determinant: i128) -> (e: i32)
    requires
        determinant != 0,
        -0x8000_0000_0000_0000 <= cofactor <= 0x8000_0000_0000_0000,
        -0x1_0000_0000_0000_0000_0000_0000 <= determinant <= 0x1_0000_0000_0000_0000_0000_0000,
    ensures
        e == spec_inverse_entry(cofactor as int, determinant as int),
{
    let numerator: i128 = 10_000_000_000 * cofactor;
    assert(numerator == ONE * ONE * cofactor);
    saturate(floor_div(numerator, determinant))
}

impl Vec3 {
    /// The vector with the given components.
    pub fn new(x: i32, y: i32, z: i32) -> (v: Vec3)
        ensures
            v == (Vec3 { x, y, z }),
    {
        Vec3 { x, y, z }
    }
}

impl Vec4 {
    /// The vector with the given components.
    pub fn new(x: i32, y: i32, z: i32, w: i32) -> (v: Vec4)
        ensures
            v == (Vec4 { x, y, z, w }),
    {
        Vec4 { x, y, z, w }
    }
}

impl Mat3 {
    /// The matrix that maps every vector to itself.
    pub open spec fn spec_identity() -> Mat3 {
        Mat3 {
            row0: Vec3 { x: ONE, y: 0, z: 0 },
            row1: Vec3 { x: 0, y: ONE, z: 0 },
            row2: Vec3 { x: 0, y: 0, z: ONE },
        }
    }

    /// Rows and columns exchanged.
    pub open spec fn spec_transpose(self) -> Mat3 {
        Mat3 {
            row0: Vec3 { x: self.row0.x, y: self.row1.x, z: self.row2.x },
            row1: Vec3 { x: self.row0.y, y: self.row1.y, z: self.row2.y },
            row2: Vec3 { x: self.row0.z, y: self.row1.z, z: self.row2.z },
        }
    }

    /// The matrix applied to a vector: each component is the dot product of
    /// one row with the vector, brought back to the scalar's unit.
    pub open spec fn spec_transform(self, v: Vec3) -> Vec3 {
        Vec3 {
            x: spec_rescale(spec_dot3(self.row0, v)),
            y: spec_rescale(spec_dot3(self.row1, v)),
            z: spec_rescale(spec_dot3(self.row2, v)),
        }
    }

    /// The cofactors of the raw entries.
    pub open spec fn spec_cofactors(self) -> Cofactors {
        Cofactors {
            c00: self.row1.y * self.row2.z - self.row1.z * self.row2.y,
            c01: self.row1.z * self.row2.x - self.row1.x * self.row2.z,
            c02: self.row1.x * self.row2.y - self.row1.y * self.row2.x,
            c10: self.row0.z * self.row2.y - self.row0.y * self.row2.z,
            c11: self.row0.x * self.row2.z - self.row0.z * self.row2.x,
            c12: self.row0.y * self.row2.x - self.row0.x * self.row2.y,
            c20: self.row0.y * self.row1.z - self.row0.z * self.row1.y,
            c21: self.row0.z * self.row1.x - self.row0.x * self.row1.z,
            c22: self.row0.x * self.row1.y - self.row0.y * self.row1.x,
        }
    }

    /// The determinant of the raw entries, expanded along the first row.
    pub open spec fn spec_determinant(self) -> int {
        let c = self.spec_cofactors();
        self.row0.x * c.c00 + self.row0.y * c.c01 + self.row0.z * c.c02
    }

    /// The inverse, where there is one: the transposed cofactors over the
    /// determinant. A matrix whose determinant is zero has none.
    pub open spec fn spec_inverse(self) -> Option<Mat3> {
        let c = self.spec_cofactors();
        let d = self.spec_determinant();
        if d == 0 {
            None
        } else {
            Some(
                Mat3 {
                    row0: Vec3 {
                        x: spec_inverse_entry(c.c00, d),
                        y: spec_inverse_entry(c.c10, d),
                        z: spec_inverse_entry(c.c20, d),
                    },
                    row1: Vec3 {
                        x: spec_inverse_entry(c.c01, d),
                        y: spec_inverse_entry(c.c11, d),
                        z: spec_inverse_entry(c.c21, d),
                    },
                    row2: Vec3 {
                        x: spec_inverse_entry(c.c02, d),
                        y: spec_inverse_entry(c.c12, d),
                        z: spec_inverse_entry(c.c22, d),
                    },
                },
            )
        }
    }

    /// The identity matrix.
    pub fn identity() -> (m: Mat3)
        ensures
            m == Mat3::spec_identity(),
    {
        Mat3 {
            row0: Vec3 { x: ONE, y: 0, z: 0 },
            row1: Vec3 { x: 0, y: ONE, z: 0 },
            row2: Vec3 { x: 0, y: 0, z: ONE },
        }
    }

    /// The transposed matrix.
    pub fn transpose(&self) -> (m: Mat3)
        ensures
            m == self.spec_transpose(),
    {
        Mat3 {
            row0: Vec3 { x: self.row0.x, y: self.row1.x, z: self.row2.x },
            row1: Vec3 { x: self.row0.y, y: self.row1.y, z: self.row2.y },
            row2: Vec3 { x: self.row0.z, y: self.row1.z, z: self.row2.z },
        }
    }

    /// Applies the matrix to a vector.
    pub fn transform(&self, v: &Vec3) -> (r: Vec3)
        ensures
            r == self.spec_transform(*v),
    {
        Vec3 {
            x: rescale(dot3(&self.row0, v)),
            y: rescale(dot3(&self.row1, v)),
            z: rescale(dot3(&self.row2, v)),
        }
    }

    /// Inverts the matrix, or reports that it is singular. The test for
    /// singularity is exact: the determinant of the raw entries is zero.
    pub fn try_inverse(&self) -> (inverse: Option<Mat3>)
        ensures
            inverse == self.spec_inverse(),
            inverse.is_none() <==> self.spec_determinant() == 0,
    {
        let c00: i128 = minor(self.row1.y, self.row2.z, self.row1.z, self.row2.y);
        let c01: i128 = minor(self.row1.z, self.row2.x, self.row1.x, self.row2.z);
        let c02: i128 = minor(self.row1.x, self.row2.y, self.row1.y, self.row2.x);
        let c10: i128 = minor(self.row0.z, self.row2.y, self.row0.y, self.row2.z);
        let c11: i128 = minor(self.row0.x, self.row2.z, self.row0.z, self.row2.x);
        let c12: i128 = minor(self.row0.y, self.row2.x, self.row0.x, self.row2.y);
        let c20: i128 = minor(self.row0.y, self.row1.z, self.row0.z, self.row1.y);
        let c21: i128 = minor(self.row0.z, self.row1.x, self.row0.x, self.row1.z);
        let c22: i128 = minor(self.row0.x, self.row1.y, self.row0.y, self.row1.x);
        let d: i128 = expand(self.row0.x, c00) + expand(self.row0.y, c01) + expand(
            self.row0.z,
            c02,
        );
        if d == 0 {
            None
        } else {
            Some(
                Mat3 {
                    row0: Vec3 {
                        x: inverse_entry(c00, d),
                        y: inverse_entry(c10, d),
                        z: inverse_entry(c20, d),
                    },
                    row1: Vec3 {
                        x: inverse_entry(c01, d),
                        y: inverse_entry(c11, d),
                        z: inverse_entry(c21, d),
                    },
                    row2: Vec3 {
                        x: inverse_entry(c02, d),
                        y: inverse_entry(c12, d),
                        z: inverse_entry(c22, d),
                    },
                },
            )
        }
    }
}

impl Mat4 {
    /// The matrix that maps every vector to itself.
    pub open spec fn spec_identity() -> Mat4 {
        Mat4 {
            row0: Vec4 { x: ONE, y: 0, z: 0, w: 0 },
            row1: Vec4 { x: 0, y: ONE, z: 0, w: 0 },
            row2: Vec4 { x: 0, y: 0, z: ONE, w: 0 },
            row3: Vec4 { x: 0, y: 0, z: 0, w: ONE },
        }
    }

    /// The matrix applied to a vector: each component is the dot product of
    /// one row with the vector, brought back to the scalar's unit.
    pub open spec fn spec_transform(self, v: Vec4) -> Vec4 {
        Vec4 {
            x: spec_rescale(spec_dot4(self.row0, v)),
            y: spec_rescale(spec_dot4(self.row1, v)),
            z: spec_rescale(spec_dot4(self.row2, v)),
            w: spec_rescale(spec_dot4(self.row3, v)),
        }
    }

    /// The first three rows and columns.
    pub open spec fn spec_upper_left(self) -> Mat3 {
        Mat3 {
            row0: Vec3 { x: self.row0.x, y: self.row0.y, z: self.row0.z },
            row1: Vec3 { x: self.row1.x, y: self.row1.y, z: self.row1.z },
            row2: Vec3 { x: self.row2.x, y: self.row2.y, z: self.row2.z },
        }
    }

    /// The identity matrix.
    pub fn identity() -> (m: Mat4)
        ensures
            m == Mat4::spec_identity(),
    {
        Mat4 {
            row0: Vec4 { x: ONE, y: 0, z: 0, w: 0 },
            row1: Vec4 { x: 0, y: ONE, z: 0, w: 0 },
            row2: Vec4 { x: 0, y: 0, z: ONE, w: 0 },
            row3: Vec4 { x: 0, y: 0, z: 0, w: ONE },
        }
    }

    /// Applies the matrix to a vector.
    pub fn transform(&self, v: &Vec4) -> (r: Vec4)
        ensures
            r == self.spec_transform(*v),
    {
        Vec4 {
            x: rescale(dot4(&self.row0, v)),
            y: rescale(dot4(&self.row1, v)),
            z: rescale(dot4(&self.row2, v)),
            w: rescale(dot4(&self.row3, v)),
        }
    }

    /// The upper-left block of three rows and three columns.
    pub fn upper_left(&self) -> (m: Mat3)
        ensures
            m == self.spec_upper_left(),
    {
        Mat3 {
            row0: Vec3 { x: self.row0.x, y: self.row0.y, z: self.row0.z },
            row1: Vec3 { x: self.row1.x, y: self.row1.y, z: self.row1.z },
            row2: Vec3 { x: self.row2.x, y: self.row2.y, z: self.row2.z },
        }
    }
}

/// The product of three integers, in the order given.
spec fn spec_triple(x: int, y: int, z: int) -> int {
    x * y * z
}

proof fn lemma_triple_orders(x: int, y: int, z: int)
    by (nonlinear_arith)
    ensures
        spec_triple(x, y, z) == spec_triple(x, z, y),
        spec_triple(x, y, z) == spec_triple(y, x, z),
        spec_triple(x, y, z) == spec_triple(y, z, x),
        spec_triple(x, y, z) == spec_triple(z, x, y),
        spec_triple(x, y, z) == spec_triple(z, y, x),
{
}

proof fn lemma_minor_expands(x: int, p: int, q: int, r: int, s: int)
    by (nonlinear_arith)
    ensures
        x * (p * q - r * s) == spec_triple(x, p, q) - spec_triple(x, r, s),
{
}

/// The six triple products of a determinant, whichever way its factors are
/// written: expanding along a row or along a column gives the same sum.
proof fn lemma_determinant_orders(
    a: int,
    b: int,
    c: int,
    d: int,
    e: int,
    f: int,
    g: int,
    h: int,
    i: int,
)
    ensures
        a * (e * i - f * h) + b * (f * g - d * i) + c * (d * h - e * g) == spec_triple(a, e, i)
            - spec_triple(a, f, h) + spec_triple(b, f, g) - spec_triple(b, d, i) + spec_triple(
            c,
            d,
            h,
        ) - spec_triple(c, e, g),
{
    lemma_minor_expands(a, e, i, f, h);
    lemma_minor_expands(b, f, g, d, i);
    lemma_minor_expands(c, d, h, e, g);
}

/// The identity matrix leaves every vector as it is.
pub proof fn lemma_identity_transform(v: Vec3)
    ensures
        Mat3::spec_identity().spec_transform(v) == v,
{
    assert(spec_dot3(Mat3::spec_identity().row0, v) == 100_000 * v.x);
    assert(spec_dot3(Mat3::spec_identity().row1, v) == 100_000 * v.y);
    assert(spec_dot3(Mat3::spec_identity().row2, v) == 100_000 * v.z);
}

/// The cofactors are what an inverse is made of: a matrix times its
/// transposed cofactors is the determinant times the identity, entry by
/// entry and exactly.
pub proof fn lemma_cofactor_expansion(m: Mat3)
    ensures
        ({
            let c = m.spec_cofactors();
            let d = m.spec_determinant();
            &&& m.row0.x * c.c00 + m.row0.y * c.c01 + m.row0.z * c.c02 == d
            &&& m.row0.x * c.c10 + m.row0.y * c.c11 + m.row0.z * c.c12 == 0
            &&& m.row0.x * c.c20 + m.row0.y * c.c21 + m.row0.z * c.c22 == 0
            &&& m.row1.x * c.c00 + m.row1.y * c.c01 + m.row1.z * c.c02 == 0
            &&& m.row1.x * c.c10 + m.row1.y * c.c11 + m.row1.z * c.c12 == d
            &&& m.row1.x * c.c20 + m.row1.y * c.c21 + m.row1.z * c.c22 == 0
            &&& m.row2.x * c.c00 + m.row2.y * c.c01 + m.row2.z * c.c02 == 0
            &&& m.row2.x * c.c10 + m.row2.y * c.c11 + m.row2.z * c.c12 == 0
            &&& m.row2.x * c.c20 + m.row2.y * c.c21 + m.row2.z * c.c22 == d
        }),
{
    let a = m.row0.x as int;
    let b = m.row0.y as int;
    let c = m.row0.z as int;
    let d = m.row1.x as int;
    let e = m.row1.y as int;
    let f = m.row1.z as int;
    let g = m.row2.x as int;
    let h = m.row2.y as int;
    let i = m.row2.z as int;
    assert(a * (c * h - b * i) + b * (a * i - c * g) + c * (b * g - a * h) == 0)
        by (nonlinear_arith);
    assert(a * (b * f - c * e) + b * (c * d - a * f) + c * (a * e - b * d) == 0)
        by (nonlinear_arith);
    assert(d * (e * i - f * h) + e * (f * g - d * i) + f * (d * h - e * g) == 0)
        by (nonlinear_arith);
    lemma_determinant_orders(a, b, c, d, e, f, g, h, i);
    lemma_triple_orders(a, e, i);
    lemma_triple_orders(a, f, h);
    lemma_triple_orders(b, f, g);
    lemma_triple_orders(b, d, i);
    lemma_triple_orders(c, d, h);
    lemma_triple_orders(c, e, g);
    assert(d * (c * h - b * i) + e * (a * i - c * g) + f * (b * g - a * h) == a * (e * i - f * h)
        + b * (f * g - d * i) + c * (d * h - e * g)) by {
        lemma_minor_expands(d, c, h, b, i);
        lemma_minor_expands(e, a, i, c, g);
        lemma_minor_expands(f, b, g, a, h);
    }
    assert(d * (b * f - c * e) + e * (c * d - a * f) + f * (a * e - b * d) == 0)
        by (nonlinear_arith);
    assert(g * (e * i - f * h) + h * (f * g - d * i) + i * (d * h - e * g) == 0)
        by (nonlinear_arith);
    assert(g * (c * h - b * i) + h * (a * i - c * g) + i * (b * g - a * h) == 0)
        by (nonlinear_arith);
    assert(g * (b * f - c * e) + h * (c * d - a * f) + i * (a * e - b * d) == a * (e * i - f * h)
        + b * (f * g - d * i) + c * (d * h - e * g)) by {
        lemma_minor_expands(g, b, f, c, e);
        lemma_minor_expands(h, c, d, a, f);
        lemma_minor_expands(i, a, e, b, d);
    }
}

/// Inverting and transposing can be done in either order: the inverse of the
/// transposed matrix is the transposed inverse, entry for entry.
pub proof fn lemma_inverse_of_transpose(m: Mat3)
    ensures
        m.spec_transpose().spec_determinant() == m.spec_determinant(),
        m.spec_transpose().spec_inverse() == match m.spec_inverse() {
            Some(inverse) => Some(inverse.spec_transpose()),
            None => None,
        },
{
    let a = m.row0.x as int;
    let b = m.row0.y as int;
    let c = m.row0.z as int;
    let d = m.row1.x as int;
    let e = m.row1.y as int;
    let f = m.row1.z as int;
    let g = m.row2.x as int;
    let h = m.row2.y as int;
    let i = m.row2.z as int;
    assert(a * (e * i - h * f) + d * (h * c - b * i) + g * (b * f - e * c) == a * (e * i - f * h)
        + b * (f * g - d * i) + c * (d * h - e * g)) by {
        lemma_determinant_orders(a, b, c, d, e, f, g, h, i);
        lemma_triple_orders(a, e, i);
        lemma_triple_orders(a, f, h);
        lemma_triple_orders(b, f, g);
        lemma_triple_orders(b, d, i);
        lemma_triple_orders(c, d, h);
        lemma_triple_orders(c, e, g);
        lemma_minor_expands(a, e, i, h, f);
        lemma_minor_expands(d, h, c, b, i);
        lemma_minor_expands(g, b, f, e, c);
    }
    let t = m.spec_transpose().spec_cofactors();
    let o = m.spec_cofactors();
    assert(t.c00 == o.c00 && t.c11 == o.c11 && t.c22 == o.c22) by (nonlinear_arith)
        requires
            t == m.spec_transpose().spec_cofactors(),
            o == m.spec_cofactors(),
    ;
    assert(t.c01 == o.c10 && t.c02 == o.c20 && t.c12 == o.c21) by (nonlinear_arith)
        requires
            t == m.spec_transpose().spec_cofactors(),
            o == m.spec_cofactors(),
    ;
    assert(t.c10 == o.c01 && t.c20 == o.c02 && t.c21 == o.c12) by (nonlinear_arith)
        requires
            t == m.spec_transpose().spec_cofactors(),
            o == m.spec_cofactors(),
    ;
}

} // verus!
