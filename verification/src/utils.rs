//! Helpers around file names and ready-made scenes.

use vstd::prelude::*;
use vstd::pervasive::unreached;
use crate::error::Error;
use crate::geometry::{
    BufferGeometryAttribute, BufferGeometryAttributes, BufferGeometryData, Geometry, GeometryType,
};
use crate::linear::{Pose, Vector3};
use crate::material::{Material, MaterialBuilder, MaterialType};
use crate::scalar::Scalar;
use crate::scene::{map_of, LumpedObject, Object, ObjectType};
use crate::texture::{Texture, TextureType};

verus! {

/// Where the extension of a file name starts: behind its last dot, or at
/// the front where it has no dot.
pub open spec fn extension_start(name: Seq<char>) -> int
    decreases name.len(),
{
    if name.len() == 0 {
        0
    } else if name.last() == '.' {
        name.len() as int
    } else {
        extension_start(name.drop_last())
    }
}

/// The extension of a file name: what follows its last dot, or all of it
/// where it has no dot.
pub open spec fn extension(name: Seq<char>) -> Seq<char> {
    name.subrange(extension_start(name), name.len() as int)
}

/// The extension holds no dot, and a dot stands right before it unless it is
/// the whole name.
pub proof fn lemma_extension(name: Seq<char>)
    ensures
        0 <= extension_start(name) <= name.len(),
        forall|i: int| extension_start(name) <= i < name.len() ==> name[i] != '.',
        extension_start(name) > 0 ==> name[extension_start(name) - 1] == '.',
        !name.contains('.') ==> extension(name) == name,
    decreases name.len(),
{
    if name.len() > 0 && name.last() != '.' {
        let front = name.drop_last();
        lemma_extension(front);
        assert forall|i: int| extension_start(name) <= i < name.len() implies name[i] != '.' by {
            if i < front.len() {
                assert(name[i] == front[i]);
            }
        }
        if extension_start(name) > 0 {
            assert(name[extension_start(name) - 1] == front[extension_start(front) - 1]);
        }
    }
    if !name.contains('.') {
        if extension_start(name) > 0 {
            assert(name.contains(name[extension_start(name) - 1]));
        }
        assert(extension(name) =~= name);
    }
}

/// The extension of a file name. Every name has one, so this never fails.
pub fn file_extension(path: &str) -> (r: Result<&str, Error>)
    ensures
        r matches Ok(ext) && ext@ == extension(path@),
{
    let n: usize = path.unicode_len();
    let mut start: usize = 0;
    let mut i: usize = 0;
    while i < n
        invariant
            n == path@.len(),
            i <= n,
            start <= i,
            start == extension_start(path@.take(i as int)),
        decreases n - i,
    {
        let c: char = path.get_char(i);
        proof {
            let next = path@.take(i + 1);
            assert(next.last() == c);
            assert(next.drop_last() =~= path@.take(i as int));
        }
        i = i + 1;
        if c == '.' {
            start = i;
        }
    }
    assert(path@.take(n as int) =~= path@);
    Ok(path.substring_char(start, n))
}

/// The geometry of a mesh file, from the file's name and its text: the
/// format is the name's extension. Every name has one, so this never fails.
pub fn load_mesh(path: &str, data: String) -> (r: Result<GeometryType, Error>)
    ensures
        r matches Ok(GeometryType::Mesh { format, data: text }) && format@ == extension(path@)
            && text == data,
{
    match file_extension(path) {
        Ok(ext) => Ok(GeometryType::Mesh { format: ext.to_owned(), data }),
        Err(e) => Err(e),
    }
}

/// The pattern of `10.0`.
pub const TEN_BITS: u64 = 0x4024_0000_0000_0000;

/// The pattern of `0.5`.
pub const HALF_BITS: u64 = 0x3FE0_0000_0000_0000;

/// The pattern of `0.6`.
pub const SIX_TENTHS_BITS: u64 = 0x3FE3_3333_3333_3333;

/// Whether `scene` is a sign that shows `texture`: one plane of ten by ten
/// in a single segment, under a transparent Phong material laid over the
/// texture, on a mesh at the identity pose.
pub open spec fn is_sign(scene: LumpedObject, texture: TextureType) -> bool {
    &&& scene.well_formed()
    &&& scene.metadata.is_object_format()
    &&& scene.texture matches Some(t) && t.texture_type == texture
    &&& scene.image is None
    &&& scene.geometries@.len() == 1
    &&& scene.geometries@[0].geometry == (GeometryType::Plane {
        width: Scalar { bits: TEN_BITS },
        height: Scalar { bits: TEN_BITS },
        width_segments: 1,
        height_segments: 1,
    })
    &&& scene.geometries@[0].origin == Pose::identity()
    &&& scene.material == (MaterialBuilder {
        transparent: Some(true),
        ..MaterialBuilder::initial()
    }).material(scene.material.uuid).mapped(map_of(scene.texture))
    &&& scene.object.geometry is None
    &&& scene.object.matrix == Pose::identity()
    &&& scene.object.object_type == ObjectType::Mesh
}

/// A sign that shows `texture`.
pub fn scene_text(texture: TextureType) -> (scene: LumpedObject)
    ensures
        is_sign(scene, texture),
{
    let plane = Geometry::new(
        GeometryType::Plane {
            width: Scalar::from_bits(TEN_BITS),
            height: Scalar::from_bits(TEN_BITS),
            width_segments: 1,
            height_segments: 1,
        },
    );
    let mut geometries: Vec<Geometry> = Vec::new();
    geometries.push(plane);
    let built = LumpedObject::builder().texture(Texture::new(texture)).geometries(
        geometries,
    ).material(
        Material::builder().material_type(MaterialType::MeshPhong).transparent(true).build(),
    ).build();
    match built {
        Ok(scene) => scene,
        Err(_) => unreached(),
    }
}

/// The ends of the three segments of a triad of length one half: from the
/// origin along X, along Y and along Z.
pub open spec fn triad_points() -> Seq<Vector3> {
    let o = Scalar { bits: 0 };
    let h = Scalar { bits: HALF_BITS };
    seq![
        Vector3 { x: o, y: o, z: o },
        Vector3 { x: h, y: o, z: o },
        Vector3 { x: o, y: o, z: o },
        Vector3 { x: o, y: h, z: o },
        Vector3 { x: o, y: o, z: o },
        Vector3 { x: o, y: o, z: h },
    ]
}

/// The colours at the ends of the three segments: red, green and blue, each
/// running into a lighter shade.
pub open spec fn triad_colors() -> Seq<Vector3> {
    let o = Scalar { bits: 0 };
    let i = Scalar { bits: 0x3FF0_0000_0000_0000 };
    let s = Scalar { bits: SIX_TENTHS_BITS };
    seq![
        Vector3 { x: i, y: o, z: o },
        Vector3 { x: i, y: s, z: o },
        Vector3 { x: o, y: i, z: o },
        Vector3 { x: s, y: i, z: o },
        Vector3 { x: o, y: o, z: i },
        Vector3 { x: o, y: s, z: i },
    ]
}

/// Whether `attribute` holds `items` as plain three-component numbers.
pub open spec fn holds_triples(attribute: BufferGeometryAttribute, items: Seq<Vector3>) -> bool {
    &&& attribute.item_size == 3
    &&& attribute.attribute_type@ == "Float32Array"@
    &&& attribute.array@ == items
    &&& !attribute.normalized
}

/// Whether `scene` is the triad at `pose`: one buffer of three coloured
/// segments, under a line material that takes its colours from the points,
/// drawn as line segments.
pub open spec fn is_triad(scene: LumpedObject, pose: Pose) -> bool {
    &&& scene.well_formed()
    &&& scene.metadata.is_object_format()
    &&& scene.texture is None
    &&& scene.image is None
    &&& scene.geometries@.len() == 1
    &&& scene.geometries@[0].origin == Pose::identity()
    &&& scene.geometries@[0].geometry matches GeometryType::Buffer { data }
    &&& holds_triples(data.attributes.position, triad_points())
    &&& holds_triples(data.attributes.color, triad_colors())
    &&& data.attributes.normal is None
    &&& data.attributes.uv is None
    &&& scene.material == (MaterialBuilder {
        material_type: MaterialType::LineBasic,
        vertex_colors: Some(true),
        ..MaterialBuilder::initial()
    }).material(scene.material.uuid)
    &&& scene.object.geometry is None
    &&& scene.object.matrix == pose
    &&& scene.object.object_type == ObjectType::LineSegments
}

/// A buffer attribute of plain three-component numbers.
fn triples(items: Vec<Vector3>) -> (attribute: BufferGeometryAttribute)
    ensures
        holds_triples(attribute, items@),
{
    BufferGeometryAttribute {
        item_size: 3,
        attribute_type: "Float32Array".to_owned(),
        array: items,
        normalized: false,
    }
}

/// The triad at `pose`: the three axes of a frame as coloured segments.
pub fn triad(pose: Pose) -> (scene: LumpedObject)
    ensures
        is_triad(scene, pose),
{
    let o = Scalar::zero();
    let i = Scalar::one();
    let h = Scalar::from_bits(HALF_BITS);
    let s = Scalar::from_bits(SIX_TENTHS_BITS);
    let mut points: Vec<Vector3> = Vec::new();
    points.push(Vector3::new(o, o, o));
    points.push(Vector3::new(h, o, o));
    points.push(Vector3::new(o, o, o));
    points.push(Vector3::new(o, h, o));
    points.push(Vector3::new(o, o, o));
    points.push(Vector3::new(o, o, h));
    assert(points@ =~= triad_points());
    let mut colors: Vec<Vector3> = Vec::new();
    colors.push(Vector3::new(i, o, o));
    colors.push(Vector3::new(i, s, o));
    colors.push(Vector3::new(o, i, o));
    colors.push(Vector3::new(s, i, o));
    colors.push(Vector3::new(o, o, i));
    colors.push(Vector3::new(o, s, i));
    assert(colors@ =~= triad_colors());
    let segments = Geometry::new(
        GeometryType::Buffer {
            data: Box::new(
                BufferGeometryData {
                    attributes: BufferGeometryAttributes {
                        position: triples(points),
                        color: triples(colors),
                        normal: None,
                        uv: None,
                    },
                },
            ),
        },
    );
    let mut geometries: Vec<Geometry> = Vec::new();
    geometries.push(segments);
    let built = LumpedObject::builder().geometries(geometries).material(
        Material::builder().vertex_colors(true).material_type(MaterialType::LineBasic).build(),
    ).object(Object::new(pose, ObjectType::LineSegments)).build();
    match built {
        Ok(scene) => scene,
        Err(_) => unreached(),
    }
}

} // verus!
