//! Objects, and the assembly of entities into one scene.

use vstd::prelude::*;
use uuid::Uuid;
use crate::error::Error;
use crate::geometry::Geometry;
use crate::ident::fresh_uuid;
use crate::linear::Pose;
use crate::material::{Material, MaterialBuilder};
use crate::scalar::Scalar;
use crate::texture::{Image, Texture};

verus! {

/// The pattern of `4.5`, the version of the scene format.
pub const FORMAT_VERSION_BITS: u64 = 0x4012_0000_0000_0000;

/// What kind of scene description a payload is.
#[derive(Clone, Debug)]
pub struct Metadata {
    pub metadata_type: String,
    pub version: Scalar,
}

impl Metadata {
    /// Whether this is the metadata of an object in format 4.5.
    pub open spec fn is_object_format(&self) -> bool {
        self.metadata_type@ == "Object"@ && self.version.bits == FORMAT_VERSION_BITS
    }
}

impl Default for Metadata {
    /// An object in format 4.5.
    fn default() -> (m: Metadata)
        ensures
            m.is_object_format(),
    {
        Metadata {
            metadata_type: "Object".to_owned(),
            version: Scalar::from_bits(FORMAT_VERSION_BITS),
        }
    }
}

/// How an object is drawn.
#[derive(Clone, Copy, Debug, PartialEq, Eq, Structural)]
pub enum ObjectType {
    Mesh,
    Points,
    LineSegments,
}

/// A node of the scene: a pose, what is drawn there, and the nodes below.
///
/// `material` and `geometry` refer by identifier; `children` are owned.
#[derive(Debug)]
pub struct Object {
    pub uuid: Uuid,
    pub material: Option<Uuid>,
    pub geometry: Option<Uuid>,
    pub children: Vec<Box<Object>>,
    pub matrix: Pose,
    pub object_type: ObjectType,
}

impl Object {
    /// Whether the object draws nothing yet and has nothing below it.
    pub open spec fn is_bare(&self) -> bool {
        self.material is None && self.geometry is None && self.children@.len() == 0
    }

    /// A bare object at `origin`, under a new identifier.
    pub fn new(origin: Pose, object_type: ObjectType) -> (o: Object)
        ensures
            o.is_bare(),
            o.matrix == origin,
            o.object_type == object_type,
    {
        Object {
            uuid: fresh_uuid(),
            material: None,
            geometry: None,
            children: Vec::new(),
            matrix: origin,
            object_type,
        }
    }

    /// Whether the object is the leaf that shows `geometry` with the
    /// material `material`, drawn as `kind`: it refers to both, has nothing
    /// below it, and sits at the geometry's child pose.
    pub open spec fn shows(&self, geometry: Geometry, material: Uuid, kind: ObjectType) -> bool {
        &&& self.geometry == Some(geometry.uuid)
        &&& self.material == Some(material)
        &&& self.children@.len() == 0
        &&& self.matrix == geometry.child_pose()
        &&& self.object_type == kind
    }

    /// The leaf that shows `geometry`, under a new identifier.
    pub fn child_for(geometry: &Geometry, material: Uuid, kind: ObjectType) -> (o: Object)
        ensures
            o.shows(*geometry, material, kind),
    {
        Object {
            uuid: fresh_uuid(),
            material: Some(material),
            geometry: Some(geometry.uuid),
            children: Vec::new(),
            matrix: geometry.placed(),
            object_type: kind,
        }
    }
}

impl Object {
    /// Whether two objects are the same tree: the same node, over the same
    /// trees in the same order.
    pub open spec fn same_tree(&self, other: &Object) -> bool
        decreases self,
    {
        &&& self.uuid == other.uuid
        &&& self.material == other.material
        &&& self.geometry == other.geometry
        &&& self.matrix == other.matrix
        &&& self.object_type == other.object_type
        &&& self.children@.len() == other.children@.len()
        &&& forall|k: int|
            0 <= k < self.children@.len() ==> (#[trigger] self.children@[k]).same_tree(
                &*other.children@[k],
            )
    }
}

impl Clone for Object {
    /// A copy of the node and of everything below it.
    fn clone(&self) -> (o: Object)
        ensures
            self.same_tree(&o),
        decreases self,
    {
        let mut children: Vec<Box<Object>> = Vec::new();
        let n: usize = self.children.len();
        let mut k: usize = 0;
        while k < n
            invariant
                n == self.children@.len(),
                k <= n,
                children@.len() == k,
                forall|j: int|
                    0 <= j < k ==> (#[trigger] self.children@[j]).same_tree(&*children@[j]),
            decreases n - k,
        {
            let child: &Object = &*self.children[k];
            children.push(Box::new(child.clone()));
            k = k + 1;
        }
        Object {
            uuid: self.uuid,
            material: self.material,
            geometry: self.geometry,
            children,
            matrix: self.matrix,
            object_type: self.object_type,
        }
    }
}

impl Default for Object {
    /// A bare mesh at the identity pose.
    fn default() -> (o: Object)
        ensures
            o.is_bare(),
            o.matrix == Pose::identity(),
            o.object_type == ObjectType::Mesh,
    {
        Object::new(Pose::identity(), ObjectType::Mesh)
    }
}

/// The identifier of a texture, where there is one.
pub open spec fn map_of(texture: Option<Texture>) -> Option<Uuid> {
    match texture {
        Some(t) => Some(t.uuid),
        None => None,
    }
}

/// The texture as it stands in a scene beside `image`: pointed at the image
/// where there is one.
pub open spec fn wired(texture: Option<Texture>, image: Option<Image>) -> Option<Texture> {
    match texture {
        Some(t) => match image {
            Some(i) => Some(t.linked(i.uuid)),
            None => Some(t),
        },
        None => None,
    }
}

/// One node of the scene with everything it refers to: the unit of a
/// "set object" command.
#[derive(Clone, Debug)]
pub struct LumpedObject {
    pub metadata: Metadata,
    pub texture: Option<Texture>,
    pub image: Option<Image>,
    pub geometries: Vec<Geometry>,
    pub material: Material,
    pub object: Object,
}

impl LumpedObject {
    /// Whether the references inside the scene agree:
    /// there is a geometry; an image texture beside an image refers to it;
    /// the material is laid over the texture, or over none where there is
    /// none; the root refers to the material; and the root has one leaf for
    /// each geometry, in the order of the geometries.
    pub open spec fn well_formed(&self) -> bool {
        &&& self.geometries@.len() >= 1
        &&& self.texture matches Some(t) ==> (self.image matches Some(i)
            ==> t.texture_type.agrees_with(i.uuid))
        &&& self.material.map == map_of(self.texture)
        &&& self.object.material == Some(self.material.uuid)
        &&& self.object.children@.len() == self.geometries@.len()
        &&& forall|k: int|
            0 <= k < self.geometries@.len() ==> (#[trigger] self.object.children@[k]).shows(
                self.geometries@[k],
                self.material.uuid,
                self.object.object_type,
            )
    }

    /// Starts a scene with nothing in it.
    pub fn builder() -> (b: LumpedObjectBuilder)
        ensures
            b.metadata is None,
            b.texture is None,
            b.image is None,
            b.geometries@.len() == 0,
            b.material is None,
            b.object is None,
    {
        LumpedObjectBuilder {
            metadata: None,
            texture: None,
            image: None,
            geometries: Vec::new(),
            material: None,
            object: None,
        }
    }
}

/// The entities of a scene while they are collected. Nothing is wired until
/// `build`.
#[derive(Clone, Debug)]
pub struct LumpedObjectBuilder {
    pub metadata: Option<Metadata>,
    pub texture: Option<Texture>,
    pub image: Option<Image>,
    pub geometries: Vec<Geometry>,
    pub material: Option<Material>,
    pub object: Option<Object>,
}

impl LumpedObjectBuilder {
    /// Sets the metadata; without it the scene is an object in format 4.5.
    pub fn metadata(self, metadata: Metadata) -> (b: LumpedObjectBuilder)
        ensures
            b == (LumpedObjectBuilder { metadata: Some(metadata), ..self }),
    {
        LumpedObjectBuilder { metadata: Some(metadata), ..self }
    }

    /// Sets the texture.
    pub fn texture(self, texture: Texture) -> (b: LumpedObjectBuilder)
        ensures
            b == (LumpedObjectBuilder { texture: Some(texture), ..self }),
    {
        LumpedObjectBuilder { texture: Some(texture), ..self }
    }

    /// Sets the image.
    pub fn image(self, image: Image) -> (b: LumpedObjectBuilder)
        ensures
            b == (LumpedObjectBuilder { image: Some(image), ..self }),
    {
        LumpedObjectBuilder { image: Some(image), ..self }
    }

    /// Sets the geometries, in the order in which their leaves will stand.
    pub fn geometries(self, geometries: Vec<Geometry>) -> (b: LumpedObjectBuilder)
        ensures
            b == (LumpedObjectBuilder { geometries, ..self }),
    {
        LumpedObjectBuilder { geometries, ..self }
    }

    /// Sets the material; without it the scene gets a default one.
    pub fn material(self, material: Material) -> (b: LumpedObjectBuilder)
        ensures
            b == (LumpedObjectBuilder { material: Some(material), ..self }),
    {
        LumpedObjectBuilder { material: Some(material), ..self }
    }

    /// Sets the root; without it the root is a bare mesh at the identity pose.
    pub fn object(self, object: Object) -> (b: LumpedObjectBuilder)
        ensures
            b == (LumpedObjectBuilder { object: Some(object), ..self }),
    {
        LumpedObjectBuilder { object: Some(object), ..self }
    }

    /// Whether `scene` is what these entities assemble to.
    ///
    /// The geometries and the image are kept. The texture is pointed at the
    /// image. The material, the given one or a default one, is laid over the
    /// texture. The root, the given one or a bare mesh at the identity pose,
    /// keeps its identifier, geometry, pose and kind, refers to the
    /// material, and gets one new leaf for each geometry in place of
    /// whatever it had below it.
    pub open spec fn assembles(self, scene: LumpedObject) -> bool {
        &&& match self.metadata {
            Some(m) => scene.metadata == m,
            None => scene.metadata.is_object_format(),
        }
        &&& scene.texture == wired(self.texture, self.image)
        &&& scene.image == self.image
        &&& scene.geometries@ == self.geometries@
        &&& match self.material {
            Some(m) => scene.material == m.mapped(map_of(self.texture)),
            None => scene.material == MaterialBuilder::initial().material(
                scene.material.uuid,
            ).mapped(map_of(self.texture)),
        }
        &&& match self.object {
            Some(o) => {
                &&& scene.object.uuid == o.uuid
                &&& scene.object.geometry == o.geometry
                &&& scene.object.matrix == o.matrix
                &&& scene.object.object_type == o.object_type
            },
            None => {
                &&& scene.object.geometry is None
                &&& scene.object.matrix == Pose::identity()
                &&& scene.object.object_type == ObjectType::Mesh
            },
        }
        &&& scene.object.material == Some(scene.material.uuid)
        &&& scene.object.children@.len() == self.geometries@.len()
        &&& forall|k: int|
            0 <= k < self.geometries@.len() ==> (#[trigger] scene.object.children@[k]).shows(
                self.geometries@[k],
                scene.material.uuid,
                scene.object.object_type,
            )
    }

    /// Assembles the scene. It takes at least one geometry; with none the
    /// scene is refused.
    pub fn build(self) -> (r: Result<LumpedObject, Error>)
        ensures
            self.geometries@.len() == 0 ==> r == Err::<LumpedObject, Error>(Error::EmptyScene),
            self.geometries@.len() > 0 ==> (r matches Ok(scene) && self.assembles(scene)
                && scene.well_formed()),
    {
        if self.geometries.len() == 0 {
            return Err(Error::EmptyScene);
        }
        let ghost given = self;
        let LumpedObjectBuilder { metadata, texture, image, geometries, material, object } = self;
        let metadata = match metadata {
            Some(m) => m,
            None => Metadata::default(),
        };
        let texture = match texture {
            Some(t) => match &image {
                Some(i) => Some(t.link(i.uuid)),
                None => Some(t),
            },
            None => None,
        };
        let map = match &texture {
            Some(t) => Some(t.uuid),
            None => None,
        };
        let material = match material {
            Some(m) => m.with_map(map),
            None => Material::default().with_map(map),
        };
        let root = match object {
            Some(o) => o,
            None => Object::default(),
        };
        let kind = root.object_type;
        let mut children: Vec<Box<Object>> = Vec::new();
        let n: usize = geometries.len();
        let mut k: usize = 0;
        while k < n
            invariant
                n == geometries@.len(),
                k <= n,
                children@.len() == k,
                forall|j: int|
                    0 <= j < k ==> (#[trigger] children@[j]).shows(
                        geometries@[j],
                        material.uuid,
                        kind,
                    ),
            decreases n - k,
        {
            children.push(Box::new(Object::child_for(&geometries[k], material.uuid, kind)));
            k = k + 1;
        }
        let scene = LumpedObject {
            metadata,
            texture,
            image,
            geometries,
            material,
            object: Object {
                uuid: root.uuid,
                material: Some(material.uuid),
                geometry: root.geometry,
                children,
                matrix: root.matrix,
                object_type: kind,
            },
        };
        proof {
            assert(given.assembles(scene));
            LumpedObjectBuilder::lemma_assembled_is_well_formed(given, scene);
        }
        Ok(scene)
    }

    /// Whatever these entities assemble to is well formed, given that there
    /// is a geometry.
    pub proof fn lemma_assembled_is_well_formed(self, scene: LumpedObject)
        requires
            self.geometries@.len() >= 1,
            self.assembles(scene),
        ensures
            scene.well_formed(),
    {
    }

    /// Assembling twice gives the same structure. Two scenes from the same
    /// entities hold the same texture, image and geometries, and materials
    /// that differ at most in a default material's identifier; their roots
    /// have as many leaves, and leaves in the same place show the same
    /// geometry at the same pose in the same way. Only the identifiers that
    /// an assembly mints can differ.
    pub proof fn lemma_structure_is_determined(self, a: LumpedObject, b: LumpedObject)
        requires
            self.assembles(a),
            self.assembles(b),
        ensures
            a.texture == b.texture,
            a.image == b.image,
            a.geometries@ == b.geometries@,
            a.material == (Material { uuid: a.material.uuid, ..b.material }),
            self.material is Some ==> a.material == b.material,
            self.object is Some ==> a.object.uuid == b.object.uuid,
            a.object.geometry == b.object.geometry,
            a.object.matrix == b.object.matrix,
            a.object.object_type == b.object.object_type,
            a.object.children@.len() == b.object.children@.len(),
            forall|k: int|
                0 <= k < a.object.children@.len() ==> {
                    &&& (#[trigger] a.object.children@[k]).geometry == b.object.children@[k].geometry
                    &&& a.object.children@[k].matrix == b.object.children@[k].matrix
                    &&& a.object.children@[k].object_type == b.object.children@[k].object_type
                    &&& a.object.children@[k].children@.len() == 0
                    &&& b.object.children@[k].children@.len() == 0
                },
    {
        assert forall|k: int| 0 <= k < a.object.children@.len() implies {
            &&& (#[trigger] a.object.children@[k]).geometry == b.object.children@[k].geometry
            &&& a.object.children@[k].matrix == b.object.children@[k].matrix
            &&& a.object.children@[k].object_type == b.object.children@[k].object_type
            &&& a.object.children@[k].children@.len() == 0
            &&& b.object.children@[k].children@.len() == 0
        } by {
            assert(a.object.children@[k].shows(
                self.geometries@[k],
                a.material.uuid,
                a.object.object_type,
            ));
            assert(b.object.children@[k].shows(
                self.geometries@[k],
                b.material.uuid,
                b.object.object_type,
            ));
        }
    }

    /// The root of an assembled scene has exactly one leaf for each
    /// geometry, in the order of the geometries; each leaf refers to its
    /// geometry and to the one material of the scene.
    pub proof fn lemma_children_follow_geometries(self, scene: LumpedObject)
        requires
            self.geometries@.len() >= 1,
            self.assembles(scene),
        ensures
            scene.object.children@.len() == self.geometries@.len(),
            scene.object.material == Some(scene.material.uuid),
            forall|k: int|
                0 <= k < self.geometries@.len() ==> {
                    &&& (#[trigger] scene.object.children@[k]).geometry == Some(
                        self.geometries@[k].uuid,
                    )
                    &&& scene.object.children@[k].material == Some(scene.material.uuid)
                },
    {
    }

    /// With an image texture and an image, the texture of the assembled
    /// scene is still an image texture, under the same identifier, and
    /// refers to the image. With any texture the material is laid over it;
    /// with none the material is laid over nothing.
    pub proof fn lemma_texture_wiring(self, scene: LumpedObject)
        requires
            self.assembles(scene),
        ensures
            self.texture is None ==> scene.texture is None && scene.material.map is None,
            self.texture matches Some(t) ==> scene.texture matches Some(w) && w.uuid == t.uuid
                && scene.material.map == Some(t.uuid),
            self.texture matches Some(t) ==> (self.image matches Some(i) ==> (t.texture_type is Image
                ==> (scene.texture matches Some(w) && w.texture_type is Image
                && w.texture_type->image == Some(i.uuid)))),
    {
    }

    /// The leaf of a cylinder sits at the cylinder's pose followed by a
    /// quarter turn about X; the leaf of any other geometry sits at the
    /// geometry's pose. Either way the leaf stays where the geometry was
    /// put: the turn moves neither the translation nor the X axis.
    pub proof fn lemma_child_pose(self, scene: LumpedObject, k: int)
        requires
            self.assembles(scene),
            0 <= k < self.geometries@.len(),
        ensures
            self.geometries@[k].geometry is Cylinder ==> scene.object.children@[k].matrix
                == self.geometries@[k].origin.quarter_turn_x(),
            !(self.geometries@[k].geometry is Cylinder) ==> scene.object.children@[k].matrix
                == self.geometries@[k].origin,
            scene.object.children@[k].matrix.translation
                == self.geometries@[k].origin.translation,
            scene.object.children@[k].matrix.x_axis == self.geometries@[k].origin.x_axis,
    {
        assert(scene.object.children@[k].shows(
            self.geometries@[k],
            scene.material.uuid,
            scene.object.object_type,
        ));
    }
}

} // verus!
