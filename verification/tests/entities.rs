use meshcat::error::Error;
use meshcat::geometry::{
    BufferGeometryAttribute, Geometry, GeometryType, Shape, FULL_TURN_BITS,
};
use meshcat::linear::{Pose, Vector3, Vector4};
use meshcat::material::{Material, MaterialType};
use meshcat::scalar::{Scalar, ONE_BITS, SIGN_BIT, ZERO_BITS};
use meshcat::scene::ObjectType;
use meshcat::texture::{Image, Texture, TextureType};
use meshcat::utils::{file_extension, load_mesh, scene_text, triad};

fn n(x: f64) -> Scalar {
    Scalar::from_bits(x.to_bits())
}

fn f(s: Scalar) -> f64 {
    f64::from_bits(s.to_bits())
}

fn v3(x: f64, y: f64, z: f64) -> Vector3 {
    Vector3::new(n(x), n(y), n(z))
}

#[test]
fn scalars_are_bit_patterns() {
    assert_eq!(Scalar::zero().to_bits(), 0.0f64.to_bits());
    assert_eq!(Scalar::one().to_bits(), 1.0f64.to_bits());
    assert_eq!(ZERO_BITS, 0);
    assert_eq!(ONE_BITS, 0x3FF0_0000_0000_0000);
    assert_eq!(SIGN_BIT, (-0.0f64).to_bits());
    assert_eq!(Scalar::from_bits(42).to_bits(), 42);
    assert_eq!(FULL_TURN_BITS, (2.0 * std::f64::consts::PI).to_bits());
}

#[test]
fn negation_flips_the_sign_only() {
    assert_eq!(n(1.0).negated(), n(-1.0));
    assert_eq!(n(-2.5).negated(), n(2.5));
    assert_eq!(n(0.0).negated().to_bits(), 0x8000_0000_0000_0000);
    assert_eq!(n(-0.0).negated().to_bits(), 0);
    assert_eq!(f(n(f64::INFINITY).negated()), f64::NEG_INFINITY);
    assert_eq!(n(1.0e-300).negated().negated(), n(1.0e-300));
    assert_eq!(Scalar::from_bits(u64::MAX).negated().to_bits(), 0x7FFF_FFFF_FFFF_FFFF);
    let v = Vector4::new(n(1.0), n(-2.0), n(3.0), n(0.0)).negated();
    assert_eq!(v, Vector4::new(n(-1.0), n(2.0), n(-3.0), n(-0.0)));
}

#[test]
fn poses_go_out_by_columns() {
    let cells: Vec<Scalar> = (0..16).map(|k| n(k as f64)).collect();
    let cells: [Scalar; 16] = cells.try_into().unwrap();
    let pose = Pose::from_column_major(cells);
    assert_eq!(pose.x_axis, Vector4::new(n(0.0), n(1.0), n(2.0), n(3.0)));
    assert_eq!(pose.y_axis, Vector4::new(n(4.0), n(5.0), n(6.0), n(7.0)));
    assert_eq!(pose.z_axis, Vector4::new(n(8.0), n(9.0), n(10.0), n(11.0)));
    assert_eq!(pose.translation, Vector4::new(n(12.0), n(13.0), n(14.0), n(15.0)));
    assert_eq!(pose.to_column_major(), cells);
    let id = Pose::identity().to_column_major().map(f);
    assert_eq!(
        id,
        [1.0, 0.0, 0.0, 0.0, 0.0, 1.0, 0.0, 0.0, 0.0, 0.0, 1.0, 0.0, 0.0, 0.0, 0.0, 1.0]
    );
}

#[test]
fn four_quarter_turns_are_a_full_turn() {
    let cells: Vec<Scalar> = (0..16).map(|k| n(0.5 - k as f64)).collect();
    let pose = Pose::from_column_major(cells.try_into().unwrap());
    let once = pose.rotated_quarter_turn_x();
    assert_eq!(once.x_axis, pose.x_axis);
    assert_eq!(once.y_axis, pose.z_axis);
    assert_eq!(once.z_axis, pose.y_axis.negated());
    assert_eq!(once.translation, pose.translation);
    let twice = once.rotated_quarter_turn_x();
    assert_eq!(twice.y_axis, pose.y_axis.negated());
    assert_eq!(twice.z_axis, pose.z_axis.negated());
    let back = twice.rotated_quarter_turn_x().rotated_quarter_turn_x();
    assert_eq!(back, pose);
    assert_ne!(once, pose);
}

#[test]
fn extensions() {
    assert_eq!(file_extension("picture.png"), Ok("png"));
    assert_eq!(file_extension("examples/data/head_multisense.obj"), Ok("obj"));
    assert_eq!(file_extension("archive.tar.gz"), Ok("gz"));
    assert_eq!(file_extension("noextension"), Ok("noextension"));
    assert_eq!(file_extension("trailing."), Ok(""));
    assert_eq!(file_extension(""), Ok(""));
    assert_eq!(file_extension(".hidden"), Ok("hidden"));
    assert_eq!(file_extension("dir.d/file"), Ok("d/file"));
    assert_eq!(file_extension("é.ü"), Ok("ü"));
}

#[test]
fn png_becomes_a_data_uri() {
    let image = Image::new("picture.png", b"hello").unwrap();
    assert_eq!(image.url, "data:image/png;base64,aGVsbG8=");
    let image = Image::new("png", b"").unwrap();
    assert_eq!(image.url, "data:image/png;base64,");
    let image = Image::new("a.b.png", &[0xFF, 0xFE, 0xFD]).unwrap();
    assert_eq!(image.url, "data:image/png;base64,//79");
    let image = Image::new("x.png", b"ab").unwrap();
    assert_eq!(image.url, "data:image/png;base64,YWI=");
    let other = Image::from_png_base64("QUJD");
    assert_eq!(other.url, "data:image/png;base64,QUJD");
    assert_ne!(other.uuid, image.uuid);
}

#[test]
fn only_png_is_supported() {
    assert!(Image::supports("a.png"));
    assert!(Image::supports("dir/a.b.png"));
    assert!(Image::supports("png"));
    assert!(!Image::supports("a.jpeg"));
    assert!(!Image::supports("a.Png"));
    assert!(!Image::supports("a.png/"));
    assert!(!Image::supports(""));
}

#[test]
fn other_codecs_are_refused() {
    assert_eq!(Image::new("picture.jpg", b"hello").err(), Some(Error::UnsupportedMedia));
    assert_eq!(Image::new("picture.PNG", b"hello").err(), Some(Error::UnsupportedMedia));
    assert_eq!(Image::new("picture", b"hello").err(), Some(Error::UnsupportedMedia));
    assert_eq!(Image::new("picture.png.", b"hello").err(), Some(Error::UnsupportedMedia));
    assert_eq!(Image::new("picture.pngx", b"hello").err(), Some(Error::UnsupportedMedia));
    assert_eq!(Image::new("", b"hello").err(), Some(Error::UnsupportedMedia));
}

#[test]
fn textures() {
    let t = TextureType::new_text("Hello", 12, "sans-serif");
    assert_eq!(
        t,
        TextureType::Text {
            text_type: "_text".to_string(),
            text: "Hello".to_string(),
            font_size: 12,
            font_face: "sans-serif".to_string(),
        }
    );
    let i = TextureType::new_image();
    assert_eq!(i, TextureType::Image { image: None, repeat: [1, 1], wrap: [1001, 1001] });
    let id = Texture::new(TextureType::new_image()).uuid;
    assert_eq!(
        i.link(id),
        TextureType::Image { image: Some(id), repeat: [1, 1], wrap: [1001, 1001] }
    );
    assert_eq!(t.clone().link(id), t);
    let texture = Texture::new(TextureType::Image { image: None, repeat: [2, 3], wrap: [1000, 1002] });
    let linked = texture.clone().link(id);
    assert_eq!(linked.uuid, texture.uuid);
    assert_eq!(
        linked.texture_type,
        TextureType::Image { image: Some(id), repeat: [2, 3], wrap: [1000, 1002] }
    );
}

#[test]
fn materials() {
    let m = Material::default();
    assert_eq!(m.material_type, MaterialType::MeshPhong);
    assert_eq!(m.side, Some(2));
    assert_eq!(m.color, None);
    assert_eq!(m.linewidth, None);
    assert_eq!(m.opacity, None);
    assert_eq!(m.reflectivity, None);
    assert_eq!(m.transparent, None);
    assert_eq!(m.vertex_colors, None);
    assert_eq!(m.wireframe, None);
    assert_eq!(m.wireframe_line_width, None);
    assert_eq!(m.map, None);
    let m = Material::builder()
        .material_type(MaterialType::Points { size: n(0.001) })
        .color(0xFF8800)
        .linewidth(n(2.0))
        .opacity(n(0.5))
        .reflectivity(n(0.25))
        .side(1)
        .transparent(true)
        .vertex_colors(false)
        .wireframe(true)
        .wireframe_line_width(n(3.0))
        .build();
    assert_eq!(m.material_type, MaterialType::Points { size: n(0.001) });
    assert_eq!(m.color, Some(0xFF8800));
    assert_eq!(m.linewidth, Some(n(2.0)));
    assert_eq!(m.opacity, Some(n(0.5)));
    assert_eq!(m.reflectivity, Some(n(0.25)));
    assert_eq!(m.side, Some(1));
    assert_eq!(m.transparent, Some(true));
    assert_eq!(m.vertex_colors, Some(false));
    assert_eq!(m.wireframe, Some(true));
    assert_eq!(m.wireframe_line_width, Some(n(3.0)));
    assert_eq!(m.map, None);
    let id = Material::default().uuid;
    let mapped = m.with_map(Some(id));
    assert_eq!(mapped.map, Some(id));
    assert_eq!(mapped.uuid, m.uuid);
    assert_eq!(mapped.color, m.color);
    assert_eq!(mapped.with_map(None).map, None);
}

#[test]
fn geometries() {
    let g = Geometry::new(GeometryType::Dodecahedron { radius: n(1.0), detail: 2 });
    assert_eq!(g.origin, Pose::identity());
    assert_eq!(g.placed(), Pose::identity());
    assert!(!g.geometry.is_cylinder());
    let at = Pose::from_translation(v3(1.0, 2.0, 3.0));
    let h = Geometry::new_with_origin(GeometryType::Octahedron { radius: n(1.0), detail: 0 }, at);
    assert_eq!(h.origin, at);
    assert_eq!(h.placed(), at);
    assert_ne!(g.uuid, h.uuid);
    let c = Geometry::new_with_origin(
        GeometryType::from_shape(Shape::Cylinder { radius: n(0.1), length: n(2.0) }),
        at,
    );
    assert!(c.geometry.is_cylinder());
    assert_eq!(c.placed(), at.rotated_quarter_turn_x());
}

#[test]
fn described_shapes() {
    match GeometryType::from_shape(Shape::Box { size: v3(1.0, 2.0, 3.0) }) {
        GeometryType::Box { width, height, depth } => {
            assert_eq!((f(width), f(height), f(depth)), (1.0, 2.0, 3.0));
        }
        other => panic!("not a box: {:?}", other),
    }
    match GeometryType::from_shape(Shape::Cylinder { radius: n(0.25), length: n(1.5) }) {
        GeometryType::Cylinder {
            radius_top,
            radius_bottom,
            height,
            radial_segments,
            height_segments,
            theta_start,
            theta_length,
        } => {
            assert_eq!(f(radius_top), 0.25);
            assert_eq!(f(radius_bottom), 0.25);
            assert_eq!(f(height), 1.5);
            assert_eq!(radial_segments, 32);
            assert_eq!(height_segments, 1);
            assert_eq!(f(theta_start), 0.0);
            assert_eq!(f(theta_length), 2.0 * std::f64::consts::PI);
        }
        other => panic!("not a cylinder: {:?}", other),
    }
    match GeometryType::from_shape(Shape::Sphere { radius: n(0.75) }) {
        GeometryType::Sphere { radius, width_segments, height_segments } => {
            assert_eq!(f(radius), 0.75);
            assert_eq!(width_segments, 32);
            assert_eq!(height_segments, 16);
        }
        other => panic!("not a sphere: {:?}", other),
    }
    match GeometryType::from_shape(Shape::Mesh { format: "dae".to_string(), data: "<x/>".to_string() }) {
        GeometryType::Mesh { format, data } => {
            assert_eq!(format, "dae");
            assert_eq!(data, "<x/>");
        }
        other => panic!("not a mesh: {:?}", other),
    }
}

#[test]
fn mesh_files() {
    match load_mesh("examples/data/head_multisense.obj", "v 0 0 0\n".to_string()) {
        Ok(GeometryType::Mesh { format, data }) => {
            assert_eq!(format, "obj");
            assert_eq!(data, "v 0 0 0\n");
        }
        other => panic!("not a mesh: {:?}", other),
    }
    match load_mesh("model", String::new()) {
        Ok(GeometryType::Mesh { format, data }) => {
            assert_eq!(format, "model");
            assert_eq!(data, "");
        }
        other => panic!("not a mesh: {:?}", other),
    }
}

#[test]
fn buffers_go_out_flat() {
    let attribute = BufferGeometryAttribute {
        item_size: 3,
        attribute_type: "Float32Array".to_string(),
        array: vec![v3(1.0, 2.0, 3.0), v3(4.0, 5.0, 6.0), v3(7.0, 8.0, 9.0)],
        normalized: false,
    };
    let flat: Vec<f64> = attribute.flattened().into_iter().map(f).collect();
    assert_eq!(flat, vec![1.0, 2.0, 3.0, 4.0, 5.0, 6.0, 7.0, 8.0, 9.0]);
    let empty = BufferGeometryAttribute {
        item_size: 3,
        attribute_type: "Float32Array".to_string(),
        array: Vec::new(),
        normalized: true,
    };
    assert!(empty.flattened().is_empty());
}

#[test]
fn sign_scene() {
    let scene = scene_text(TextureType::new_text("Hello, meshcat!", 20, "sans-serif"));
    let texture = scene.texture.unwrap();
    assert_eq!(texture.texture_type, TextureType::new_text("Hello, meshcat!", 20, "sans-serif"));
    assert!(scene.image.is_none());
    assert_eq!(scene.geometries.len(), 1);
    match &scene.geometries[0].geometry {
        GeometryType::Plane { width, height, width_segments, height_segments } => {
            assert_eq!(f(*width), 10.0);
            assert_eq!(f(*height), 10.0);
            assert_eq!(*width_segments, 1);
            assert_eq!(*height_segments, 1);
        }
        other => panic!("not a plane: {:?}", other),
    }
    assert_eq!(scene.material.material_type, MaterialType::MeshPhong);
    assert_eq!(scene.material.transparent, Some(true));
    assert_eq!(scene.material.side, Some(2));
    assert_eq!(scene.material.map, Some(texture.uuid));
    assert_eq!(scene.object.object_type, ObjectType::Mesh);
    assert_eq!(scene.object.matrix, Pose::identity());
    assert_eq!(scene.object.material, Some(scene.material.uuid));
    assert_eq!(scene.object.children.len(), 1);
    assert_eq!(scene.object.children[0].geometry, Some(scene.geometries[0].uuid));
    assert_eq!(scene.object.children[0].matrix, Pose::identity());
}

#[test]
fn triad_scene() {
    let pose = Pose::from_translation(v3(1.0, 2.0, 3.0));
    let scene = triad(pose);
    assert!(scene.texture.is_none());
    assert!(scene.image.is_none());
    assert_eq!(scene.geometries.len(), 1);
    match &scene.geometries[0].geometry {
        GeometryType::Buffer { data } => {
            let position = &data.attributes.position;
            let color = &data.attributes.color;
            assert_eq!(position.item_size, 3);
            assert_eq!(position.attribute_type, "Float32Array");
            assert!(!position.normalized);
            assert_eq!(
                position.array,
                vec![
                    v3(0.0, 0.0, 0.0),
                    v3(0.5, 0.0, 0.0),
                    v3(0.0, 0.0, 0.0),
                    v3(0.0, 0.5, 0.0),
                    v3(0.0, 0.0, 0.0),
                    v3(0.0, 0.0, 0.5),
                ]
            );
            assert_eq!(color.item_size, 3);
            assert_eq!(color.attribute_type, "Float32Array");
            assert!(!color.normalized);
            assert_eq!(
                color.array,
                vec![
                    v3(1.0, 0.0, 0.0),
                    v3(1.0, 0.6, 0.0),
                    v3(0.0, 1.0, 0.0),
                    v3(0.6, 1.0, 0.0),
                    v3(0.0, 0.0, 1.0),
                    v3(0.0, 0.6, 1.0),
                ]
            );
            assert!(data.attributes.normal.is_none());
            assert!(data.attributes.uv.is_none());
        }
        other => panic!("not a buffer: {:?}", other),
    }
    assert_eq!(scene.material.material_type, MaterialType::LineBasic);
    assert_eq!(scene.material.vertex_colors, Some(true));
    assert_eq!(scene.material.map, None);
    assert_eq!(scene.object.object_type, ObjectType::LineSegments);
    assert_eq!(scene.object.matrix, pose);
    assert_eq!(scene.object.children.len(), 1);
    assert_eq!(scene.object.children[0].object_type, ObjectType::LineSegments);
    assert_eq!(scene.object.children[0].matrix, Pose::identity());
    assert_eq!(scene.object.children[0].geometry, Some(scene.geometries[0].uuid));
}
