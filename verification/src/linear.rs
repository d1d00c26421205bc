//! Small vectors and the homogeneous pose matrix.

use vstd::prelude::*;
use crate::scalar::Scalar;

verus! {

/// Three scalars: a point, a scale or a colour.
#[derive(Clone, Copy, Debug, PartialEq, Eq, Structural)]
pub struct Vector3 {
    pub x: Scalar,
    pub y: Scalar,
    pub z: Scalar,
}

/// Four scalars: a column of a pose, a quaternion `(x, y, z, w)` or a colour
/// `(r, g, b, a)`.
#[derive(Clone, Copy, Debug, PartialEq, Eq, Structural)]
pub struct Vector4 {
    pub x: Scalar,
    pub y: Scalar,
    pub z: Scalar,
    pub w: Scalar,
}

impl Vector3 {
    /// The vector with these components.
    pub fn new(x: Scalar, y: Scalar, z: Scalar) -> (v: Vector3)
        ensures
            v == (Vector3 { x, y, z }),
    {
        Vector3 { x, y, z }
    }
}

impl Vector4 {
    /// The vector with these components.
    pub fn new(x: Scalar, y: Scalar, z: Scalar, w: Scalar) -> (v: Vector4)
        ensures
            v == (Vector4 { x, y, z, w }),
    {
        Vector4 { x, y, z, w }
    }

    /// Every component with the opposite sign.
    pub open spec fn negation(self) -> Vector4 {
        Vector4 {
            x: self.x.negation(),
            y: self.y.negation(),
            z: self.z.negation(),
            w: self.w.negation(),
        }
    }

    /// Flips the sign of every component.
    pub fn negated(self) -> (r: Vector4)
        ensures
            r == self.negation(),
    {
        Vector4 {
            x: self.x.negated(),
            y: self.y.negated(),
            z: self.z.negated(),
            w: self.w.negated(),
        }
    }
}

/// A 4×4 homogeneous pose, held by columns: the images of the three axes,
/// then the translation. On the wire the sixteen numbers go out column by
/// column, each column from `x` to `w`.
#[derive(Clone, Copy, Debug, PartialEq, Eq, Structural)]
pub struct Pose {
    pub x_axis: Vector4,
    pub y_axis: Vector4,
    pub z_axis: Vector4,
    pub translation: Vector4,
}

impl Pose {
    /// The pose that moves nothing.
    pub open spec fn spec_identity() -> Pose {
        Pose::spec_from_translation(
            Vector3 { x: Scalar { bits: 0 }, y: Scalar { bits: 0 }, z: Scalar { bits: 0 } },
        )
    }

    /// The pose that shifts by `t` and turns nothing.
    pub open spec fn spec_from_translation(t: Vector3) -> Pose {
        let o = Scalar { bits: 0 };
        let i = Scalar { bits: 0x3FF0_0000_0000_0000 };
        Pose {
            x_axis: Vector4 { x: i, y: o, z: o, w: o },
            y_axis: Vector4 { x: o, y: i, z: o, w: o },
            z_axis: Vector4 { x: o, y: o, z: i, w: o },
            translation: Vector4 { x: t.x, y: t.y, z: t.z, w: i },
        }
    }

    /// `self` followed on the right by a quarter turn about the X axis.
    ///
    /// The quarter turn has the columns `(1,0,0,0)`, `(0,0,1,0)`, `(0,-1,0,0)`
    /// and `(0,0,0,1)`, so the product keeps the first and last column of
    /// `self`, moves its third column to the second place and puts the
    /// negated second column in the third.
    pub open spec fn quarter_turn_x(self) -> Pose {
        Pose {
            x_axis: self.x_axis,
            y_axis: self.z_axis,
            z_axis: self.y_axis.negation(),
            translation: self.translation,
        }
    }

    /// The sixteen numbers in wire order.
    pub open spec fn column_major(self) -> Seq<Scalar> {
        seq![
            self.x_axis.x, self.x_axis.y, self.x_axis.z, self.x_axis.w,
            self.y_axis.x, self.y_axis.y, self.y_axis.z, self.y_axis.w,
            self.z_axis.x, self.z_axis.y, self.z_axis.z, self.z_axis.w,
            self.translation.x, self.translation.y, self.translation.z, self.translation.w,
        ]
    }

    /// The pose that moves nothing.
    #[verifier::when_used_as_spec(spec_identity)]
    pub fn identity() -> (p: Pose)
        ensures
            p == Pose::spec_identity(),
    {
        Pose::from_translation(Vector3 { x: Scalar::zero(), y: Scalar::zero(), z: Scalar::zero() })
    }

    /// The pose that shifts by `t` and turns nothing.
    #[verifier::when_used_as_spec(spec_from_translation)]
    pub fn from_translation(t: Vector3) -> (p: Pose)
        ensures
            p == Pose::spec_from_translation(t),
    {
        let o = Scalar::zero();
        let i = Scalar::one();
        Pose {
            x_axis: Vector4 { x: i, y: o, z: o, w: o },
            y_axis: Vector4 { x: o, y: i, z: o, w: o },
            z_axis: Vector4 { x: o, y: o, z: i, w: o },
            translation: Vector4 { x: t.x, y: t.y, z: t.z, w: i },
        }
    }

    /// The pose with these columns.
    pub fn from_columns(
        x_axis: Vector4,
        y_axis: Vector4,
        z_axis: Vector4,
        translation: Vector4,
    ) -> (p: Pose)
        ensures
            p == (Pose { x_axis, y_axis, z_axis, translation }),
    {
        Pose { x_axis, y_axis, z_axis, translation }
    }

    /// Composes with a quarter turn about the X axis.
    pub fn rotated_quarter_turn_x(self) -> (p: Pose)
        ensures
            p == self.quarter_turn_x(),
    {
        Pose {
            x_axis: self.x_axis,
            y_axis: self.z_axis,
            z_axis: self.y_axis.negated(),
            translation: self.translation,
        }
    }

    /// The sixteen numbers in wire order.
    pub fn to_column_major(self) -> (cells: [Scalar; 16])
        ensures
            cells@ == self.column_major(),
    {
        let cells = [
            self.x_axis.x, self.x_axis.y, self.x_axis.z, self.x_axis.w,
            self.y_axis.x, self.y_axis.y, self.y_axis.z, self.y_axis.w,
            self.z_axis.x, self.z_axis.y, self.z_axis.z, self.z_axis.w,
            self.translation.x, self.translation.y, self.translation.z, self.translation.w,
        ];
        assert(cells@ =~= self.column_major());
        cells
    }

    /// Reads sixteen numbers in wire order.
    pub fn from_column_major(cells: [Scalar; 16]) -> (p: Pose)
        ensures
            p.column_major() == cells@,
    {
        let p = Pose {
            x_axis: Vector4 { x: cells[0], y: cells[1], z: cells[2], w: cells[3] },
            y_axis: Vector4 { x: cells[4], y: cells[5], z: cells[6], w: cells[7] },
            z_axis: Vector4 { x: cells[8], y: cells[9], z: cells[10], w: cells[11] },
            translation: Vector4 { x: cells[12], y: cells[13], z: cells[14], w: cells[15] },
        };
        assert(p.column_major() =~= cells@);
        p
    }
}

} // verus!
