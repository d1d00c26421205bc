//! Shapes: parametric primitives, raw point buffers and mesh files.

use vstd::prelude::*;
use vstd::pervasive::unreached;
use uuid::Uuid;
use crate::ident::fresh_uuid;
use crate::linear::{Pose, Vector3};
use crate::scalar::Scalar;

verus! {

/// The pattern of `2π`, a full turn in radians.
pub const FULL_TURN_BITS: u64 = 0x4019_21FB_5444_2D18;

/// One attribute of a point buffer: a list of three-component items.
#[derive(Clone, Debug)]
pub struct BufferGeometryAttribute {
    pub item_size: usize,
    pub attribute_type: String,
    /// The items, one per point.
    pub array: Vec<Vector3>,
    pub normalized: bool,
}

/// The numbers of `items` one after the other, each item from `x` to `z`.
pub open spec fn flat(items: Seq<Vector3>) -> Seq<Scalar> {
    Seq::new(
        3 * items.len(),
        |k: int|
            if k % 3 == 0 {
                items[k / 3].x
            } else if k % 3 == 1 {
                items[k / 3].y
            } else {
                items[k / 3].z
            },
    )
}

impl BufferGeometryAttribute {
    /// The attribute's numbers as they go on the wire: one flat list, with
    /// no trace of rows and columns.
    pub fn flattened(&self) -> (out: Vec<Scalar>)
        ensures
            out@ == flat(self.array@),
    {
        let mut out: Vec<Scalar> = Vec::new();
        let n: usize = self.array.len();
        let mut i: usize = 0;
        while i < n
            invariant
                n == self.array@.len(),
                i <= n,
                out@ == flat(self.array@.take(i as int)),
            decreases n - i,
        {
            let item: Vector3 = self.array[i];
            let ghost before = out@;
            out.push(item.x);
            out.push(item.y);
            out.push(item.z);
            proof {
                let s = self.array@.take(i as int);
                let t = self.array@.take(i + 1);
                assert(t.len() == i + 1);
                assert forall|k: int| 0 <= k < 3 * (i + 1) implies out@[k] == flat(t)[k] by {
                    if k < 3 * i {
                        assert(before[k] == flat(s)[k]);
                        assert(s[k / 3] == t[k / 3]);
                    } else {
                        assert(k / 3 == i);
                        assert(t[i as int] == item);
                    }
                }
                assert(out@ =~= flat(t));
            }
            i = i + 1;
        }
        assert(self.array@.take(n as int) =~= self.array@);
        out
    }
}

/// The attributes of a point buffer.
#[derive(Clone, Debug)]
pub struct BufferGeometryAttributes {
    pub position: BufferGeometryAttribute,
    pub color: BufferGeometryAttribute,
    pub normal: Option<BufferGeometryAttribute>,
    pub uv: Option<BufferGeometryAttribute>,
}

/// The payload of a point buffer.
#[derive(Clone, Debug)]
pub struct BufferGeometryData {
    pub attributes: BufferGeometryAttributes,
}

/// What a geometry is.
#[derive(Clone, Debug)]
pub enum GeometryType {
    /// Raw points or line ends.
    Buffer { data: Box<BufferGeometryData> },
    /// A mesh file: its format and its text, read by the viewer.
    Mesh { format: String, data: String },
    Box { width: Scalar, height: Scalar, depth: Scalar },
    Circle { radius: Scalar, segments: u32, theta_start: Scalar, theta_length: Scalar },
    Cone {
        radius: Scalar,
        height: Scalar,
        radial_segments: u32,
        height_segments: u32,
        theta_start: Scalar,
        theta_length: Scalar,
    },
    Cylinder {
        radius_top: Scalar,
        radius_bottom: Scalar,
        height: Scalar,
        radial_segments: u32,
        height_segments: u32,
        theta_start: Scalar,
        theta_length: Scalar,
    },
    Dodecahedron { radius: Scalar, detail: u32 },
    Icosahedron { radius: Scalar, detail: u32 },
    Octahedron { radius: Scalar, detail: u32 },
    Plane { width: Scalar, height: Scalar, width_segments: u32, height_segments: u32 },
    Ring {
        inner_radius: Scalar,
        outer_radius: Scalar,
        theta_segments: u32,
        phi_segments: u32,
        theta_start: Scalar,
        theta_length: Scalar,
    },
    Sphere { radius: Scalar, width_segments: u32, height_segments: u32 },
    Tetrahedron { radius: Scalar, detail: u32 },
    Torus { radius: Scalar, tube: Scalar, radial_segments: u32, tubular_segments: u32 },
}

/// A shape as a robot description gives it.
#[derive(Clone, Debug)]
pub enum Shape {
    Box { size: Vector3 },
    Cylinder { radius: Scalar, length: Scalar },
    Capsule { radius: Scalar, length: Scalar },
    Sphere { radius: Scalar },
    /// A mesh file, with its text already read.
    Mesh { format: String, data: String },
}

impl GeometryType {
    /// Whether the viewer lays the shape's long axis along Y, where
    /// descriptions put it along Z.
    pub open spec fn spec_is_cylinder(&self) -> bool {
        self is Cylinder
    }

    #[verifier::when_used_as_spec(spec_is_cylinder)]
    pub fn is_cylinder(&self) -> (b: bool)
        ensures
            b == self.spec_is_cylinder(),
    {
        match self {
            GeometryType::Cylinder { .. } => true,
            _ => false,
        }
    }

    /// The geometry that stands for a described shape: a box by its three
    /// sizes, a cylinder with 32 radial segments and a full turn, a sphere
    /// with 32 by 16 segments, a mesh as it is.
    pub open spec fn of_shape(shape: Shape) -> GeometryType {
        match shape {
            Shape::Box { size } => GeometryType::Box {
                width: size.x,
                height: size.y,
                depth: size.z,
            },
            Shape::Cylinder { radius, length } => GeometryType::Cylinder {
                radius_top: radius,
                radius_bottom: radius,
                height: length,
                radial_segments: 32,
                height_segments: 1,
                theta_start: Scalar { bits: 0 },
                theta_length: Scalar { bits: FULL_TURN_BITS },
            },
            Shape::Sphere { radius } => GeometryType::Sphere {
                radius,
                width_segments: 32,
                height_segments: 16,
            },
            Shape::Mesh { format, data } => GeometryType::Mesh { format, data },
            Shape::Capsule { .. } => arbitrary(),
        }
    }

    /// Turns a described shape into a geometry. The viewer has no capsule.
    pub fn from_shape(shape: Shape) -> (g: GeometryType)
        requires
            !(shape is Capsule),
        ensures
            g == GeometryType::of_shape(shape),
    {
        match shape {
            Shape::Box { size } => GeometryType::Box {
                width: size.x,
                height: size.y,
                depth: size.z,
            },
            Shape::Cylinder { radius, length } => GeometryType::Cylinder {
                radius_top: radius,
                radius_bottom: radius,
                height: length,
                radial_segments: 32,
                height_segments: 1,
                theta_start: Scalar::zero(),
                theta_length: Scalar::from_bits(FULL_TURN_BITS),
            },
            Shape::Sphere { radius } => GeometryType::Sphere {
                radius,
                width_segments: 32,
                height_segments: 16,
            },
            Shape::Mesh { format, data } => GeometryType::Mesh { format, data },
            Shape::Capsule { .. } => unreached(),
        }
    }
}

/// A shape with its identifier and the pose at which it sits in an object
/// made of several shapes.
#[derive(Clone, Debug)]
pub struct Geometry {
    pub uuid: Uuid,
    pub geometry: GeometryType,
    pub origin: Pose,
}

impl Geometry {
    /// A geometry at the identity pose, under a new identifier.
    pub fn new(geometry: GeometryType) -> (g: Geometry)
        ensures
            g.geometry == geometry,
            g.origin == Pose::identity(),
    {
        Geometry::new_with_origin(geometry, Pose::identity())
    }

    /// A geometry at `origin`, under a new identifier.
    pub fn new_with_origin(geometry: GeometryType, origin: Pose) -> (g: Geometry)
        ensures
            g.geometry == geometry,
            g.origin == origin,
    {
        Geometry { uuid: fresh_uuid(), geometry, origin }
    }

    /// The pose of the object that shows this geometry inside a larger one:
    /// the geometry's own pose, turned a quarter about X for a cylinder.
    pub open spec fn child_pose(&self) -> Pose {
        if self.geometry is Cylinder {
            self.origin.quarter_turn_x()
        } else {
            self.origin
        }
    }

    /// Computes [`Geometry::child_pose`].
    pub fn placed(&self) -> (p: Pose)
        ensures
            p == self.child_pose(),
    {
        if self.geometry.is_cylinder() {
            self.origin.rotated_quarter_turn_x()
        } else {
            self.origin
        }
    }
}

} // verus!
