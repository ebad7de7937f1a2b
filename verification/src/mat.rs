//! Fixed-point vectors and 4x4 matrices.
//!
//! The renderer's CPU-side math works on exact fixed-point values: a raw
//! integer of `MILLI` stands for the scalar one. Everything the library
//! states about matrices is stated over these exact values; the driver
//! converts them to the floating-point form the graphics library expects by
//! dividing by `MILLI`.

use vstd::arithmetic::div_mod::lemma_div_multiples_vanish;
use vstd::prelude::*;

verus! {

/// Raw ticks per scalar unit: a stored value of `MILLI` stands for 1.0.
pub const MILLI: i64 = 1000;

/// A three-component fixed-point vector.
#[derive(Clone, Copy, Debug, PartialEq, Eq, Structural)]
pub struct Vec3 {
    pub x: i64,
    pub y: i64,
    pub z: i64,
}

impl Vec3 {
    /// Builds a vector from its three components.
    pub fn new(x: i64, y: i64, z: i64) -> (v: Vec3)
        ensures
            v == (Vec3 { x, y, z }),
    {
        Vec3 { x, y, z }
    }
}

/// A four-component fixed-point vector (a point in homogeneous coordinates).
#[derive(Clone, Copy, Debug, PartialEq, Eq, Structural)]
pub struct Vec4 {
    pub x: i64,
    pub y: i64,
    pub z: i64,
    pub w: i64,
}

/// A 4x4 matrix of fixed-point values, stored column-major as the GPU's
/// uniform block layout expects: entry (row `r`, column `c`) is at index
/// `c * 4 + r`.
#[derive(Clone, Debug)]
pub struct Mat4 {
    pub m: Vec<i64>,
}

/// Entry of the fixed-point identity matrix: `MILLI` on the diagonal.
pub open spec fn identity_entry(r: int, c: int) -> int {
    if r == c {
        MILLI as int
    } else {
        0
    }
}

/// Entry of the fixed-point matrix that translates by `(x, y, z)`: the
/// identity with the offset in the last column.
pub open spec fn translation_entry(x: i64, y: i64, z: i64, r: int, c: int) -> int {
    if c == 3 {
        if r == 0 {
            x as int
        } else if r == 1 {
            y as int
        } else if r == 2 {
            z as int
        } else {
            MILLI as int
        }
    } else {
        identity_entry(r, c)
    }
}

impl Mat4 {
    /// A matrix is well formed when it holds exactly 16 entries.
    pub open spec fn wf(self) -> bool {
        self.m@.len() == 16
    }

    /// Entry at row `r`, column `c`, as a mathematical integer.
    pub open spec fn at(self, r: int, c: int) -> int {
        self.m@[c * 4 + r] as int
    }

    /// The matrix is the fixed-point identity.
    pub open spec fn is_identity(self) -> bool {
        forall|r: int, c: int|
            0 <= r < 4 && 0 <= c < 4 ==> self.at(r, c) == identity_entry(r, c)
    }

    /// The matrix translates by `(x, y, z)`.
    pub open spec fn is_translation(self, x: i64, y: i64, z: i64) -> bool {
        forall|r: int, c: int|
            0 <= r < 4 && 0 <= c < 4 ==> self.at(r, c) == translation_entry(x, y, z, r, c)
    }

    /// The fixed-point identity matrix.
    pub fn identity() -> (m: Mat4)
        ensures
            m.wf(),
            m.is_identity(),
    {
        let entries: Vec<i64> = vec![
            MILLI, 0, 0, 0,
            0, MILLI, 0, 0,
            0, 0, MILLI, 0,
            0, 0, 0, MILLI,
        ];
        let m = Mat4 { m: entries };
        proof {
            assert forall|r: int, c: int| 0 <= r < 4 && 0 <= c < 4 implies m.at(r, c)
                == identity_entry(r, c) by {
                assert(0 <= c * 4 + r < 16);
            }
        }
        m
    }

    /// The fixed-point matrix translating by `(x, y, z)`.
    pub fn translation(x: i64, y: i64, z: i64) -> (m: Mat4)
        ensures
            m.wf(),
            m.is_translation(x, y, z),
    {
        let entries: Vec<i64> = vec![
            MILLI, 0, 0, 0,
            0, MILLI, 0, 0,
            0, 0, MILLI, 0,
            x, y, z, MILLI,
        ];
        let m = Mat4 { m: entries };
        proof {
            assert forall|r: int, c: int| 0 <= r < 4 && 0 <= c < 4 implies m.at(r, c)
                == translation_entry(x, y, z, r, c) by {
                assert(0 <= c * 4 + r < 16);
            }
        }
        m
    }

    /// Reads the entry at row `r`, column `c`.
    pub fn entry(&self, r: usize, c: usize) -> (e: i64)
        requires
            self.wf(),
            r < 4,
            c < 4,
        ensures
            e as int == self.at(r as int, c as int),
    {
        self.m[c * 4 + r]
    }
}

/// Entry (row `r`, column `c`) of the plain integer product of two matrices,
/// before any rescaling: the usual four-term sum of products.
pub open spec fn product_entry(a: Mat4, b: Mat4, r: int, c: int) -> int {
    a.at(r, 0) * b.at(0, c) + a.at(r, 1) * b.at(1, c) + a.at(r, 2) * b.at(2, c) + a.at(r, 3) * b.at(
        3,
        c,
    )
}

/// Entry of the fixed-point product: the integer product rescaled back to
/// fixed point, since multiplying two `MILLI`-scaled values yields a value
/// scaled by `MILLI * MILLI`.
pub open spec fn fixed_product_entry(a: Mat4, b: Mat4, r: int, c: int) -> int {
    product_entry(a, b, r, c) / (MILLI as int)
}

/// Composing any matrix with the fixed-point identity on the right leaves
/// every entry unchanged: the identity is the unit of the fixed-point
/// product.
pub proof fn lemma_identity_is_right_unit(a: Mat4, b: Mat4)
    requires
        a.wf(),
        b.wf(),
        b.is_identity(),
    ensures
        forall|r: int, c: int|
            0 <= r < 4 && 0 <= c < 4 ==> #[trigger] fixed_product_entry(a, b, r, c) == a.at(r, c),
{
    assert forall|r: int, c: int| 0 <= r < 4 && 0 <= c < 4 implies #[trigger] fixed_product_entry(
        a,
        b,
        r,
        c,
    ) == a.at(r, c) by {
        let p0 = a.at(r, 0);
        let p1 = a.at(r, 1);
        let p2 = a.at(r, 2);
        let p3 = a.at(r, 3);
        let q0 = b.at(0, c);
        let q1 = b.at(1, c);
        let q2 = b.at(2, c);
        let q3 = b.at(3, c);
        assert(q0 == identity_entry(0, c));
        assert(q1 == identity_entry(1, c));
        assert(q2 == identity_entry(2, c));
        assert(q3 == identity_entry(3, c));
        assert(p0 * q0 + p1 * q1 + p2 * q2 + p3 * q3 == (if c == 0 {
            p0
        } else if c == 1 {
            p1
        } else if c == 2 {
            p2
        } else {
            p3
        }) * 1000) by (nonlinear_arith)
            requires
                0 <= c < 4,
                q0 == (if c == 0 { 1000int } else { 0 }),
                q1 == (if c == 1 { 1000int } else { 0 }),
                q2 == (if c == 2 { 1000int } else { 0 }),
                q3 == (if c == 3 { 1000int } else { 0 }),
        ;
        assert(product_entry(a, b, r, c) == a.at(r, c) * 1000);
        lemma_div_multiples_vanish(a.at(r, c), MILLI as int);
        assert(1000 * a.at(r, c) == a.at(r, c) * 1000);
    }
}

} // verus!
