//! Surface descriptions.

use vstd::prelude::*;
use uuid::Uuid;
use crate::ident::fresh_uuid;
use crate::scalar::Scalar;

verus! {

/// What a material is.
#[derive(Clone, Copy, Debug, PartialEq, Eq, Structural)]
pub enum MaterialType {
    MeshBasic,
    MeshPhong,
    MeshLambert,
    MeshToon,
    LineBasic,
    Points { size: Scalar },
}

/// A material: its kind, its decorations, and the texture laid over it.
///
/// `map` refers to a texture by identifier; assembling a scene sets it.
#[derive(Clone, Copy, Debug)]
pub struct Material {
    pub uuid: Uuid,
    pub material_type: MaterialType,
    pub color: Option<u32>,
    pub linewidth: Option<Scalar>,
    pub opacity: Option<Scalar>,
    pub reflectivity: Option<Scalar>,
    pub side: Option<u16>,
    pub transparent: Option<bool>,
    pub vertex_colors: Option<bool>,
    pub wireframe: Option<bool>,
    pub wireframe_line_width: Option<Scalar>,
    pub map: Option<Uuid>,
}

/// What a material is to be, before it gets its identifier.
#[derive(Clone, Copy, Debug)]
pub struct MaterialBuilder {
    pub material_type: MaterialType,
    pub color: Option<u32>,
    pub linewidth: Option<Scalar>,
    pub opacity: Option<Scalar>,
    pub reflectivity: Option<Scalar>,
    pub side: Option<u16>,
    pub transparent: Option<bool>,
    pub vertex_colors: Option<bool>,
    pub wireframe: Option<bool>,
    pub wireframe_line_width: Option<Scalar>,
}

impl MaterialBuilder {
    /// Where every builder starts: a Phong material shown on both sides,
    /// with nothing else set.
    pub open spec fn initial() -> MaterialBuilder {
        MaterialBuilder {
            material_type: MaterialType::MeshPhong,
            color: None,
            linewidth: None,
            opacity: None,
            reflectivity: None,
            side: Some(2u16),
            transparent: None,
            vertex_colors: None,
            wireframe: None,
            wireframe_line_width: None,
        }
    }

    /// The material that `build` gives under the identifier `uuid`.
    pub open spec fn material(self, uuid: Uuid) -> Material {
        Material {
            uuid,
            material_type: self.material_type,
            color: self.color,
            linewidth: self.linewidth,
            opacity: self.opacity,
            reflectivity: self.reflectivity,
            side: self.side,
            transparent: self.transparent,
            vertex_colors: self.vertex_colors,
            wireframe: self.wireframe,
            wireframe_line_width: self.wireframe_line_width,
            map: None,
        }
    }

    /// Sets the kind of material.
    pub fn material_type(self, material_type: MaterialType) -> (b: MaterialBuilder)
        ensures
            b == (MaterialBuilder { material_type, ..self }),
    {
        MaterialBuilder { material_type, ..self }
    }

    /// Sets the colour, as `0xRRGGBB`.
    pub fn color(self, color: u32) -> (b: MaterialBuilder)
        ensures
            b == (MaterialBuilder { color: Some(color), ..self }),
    {
        MaterialBuilder { color: Some(color), ..self }
    }

    /// Sets the width of lines.
    pub fn linewidth(self, linewidth: Scalar) -> (b: MaterialBuilder)
        ensures
            b == (MaterialBuilder { linewidth: Some(linewidth), ..self }),
    {
        MaterialBuilder { linewidth: Some(linewidth), ..self }
    }

    /// Sets the opacity.
    pub fn opacity(self, opacity: Scalar) -> (b: MaterialBuilder)
        ensures
            b == (MaterialBuilder { opacity: Some(opacity), ..self }),
    {
        MaterialBuilder { opacity: Some(opacity), ..self }
    }

    /// Sets the reflectivity.
    pub fn reflectivity(self, reflectivity: Scalar) -> (b: MaterialBuilder)
        ensures
            b == (MaterialBuilder { reflectivity: Some(reflectivity), ..self }),
    {
        MaterialBuilder { reflectivity: Some(reflectivity), ..self }
    }

    /// Sets which sides are shown.
    pub fn side(self, side: u16) -> (b: MaterialBuilder)
        ensures
            b == (MaterialBuilder { side: Some(side), ..self }),
    {
        MaterialBuilder { side: Some(side), ..self }
    }

    /// Sets whether the material lets light through.
    pub fn transparent(self, transparent: bool) -> (b: MaterialBuilder)
        ensures
            b == (MaterialBuilder { transparent: Some(transparent), ..self }),
    {
        MaterialBuilder { transparent: Some(transparent), ..self }
    }

    /// Sets whether colours come from the points.
    pub fn vertex_colors(self, vertex_colors: bool) -> (b: MaterialBuilder)
        ensures
            b == (MaterialBuilder { vertex_colors: Some(vertex_colors), ..self }),
    {
        MaterialBuilder { vertex_colors: Some(vertex_colors), ..self }
    }

    /// Sets whether only edges are drawn.
    pub fn wireframe(self, wireframe: bool) -> (b: MaterialBuilder)
        ensures
            b == (MaterialBuilder { wireframe: Some(wireframe), ..self }),
    {
        MaterialBuilder { wireframe: Some(wireframe), ..self }
    }

    /// Sets the width of the edges of a wireframe.
    pub fn wireframe_line_width(self, width: Scalar) -> (b: MaterialBuilder)
        ensures
            b == (MaterialBuilder { wireframe_line_width: Some(width), ..self }),
    {
        MaterialBuilder { wireframe_line_width: Some(width), ..self }
    }

    /// The material, under a new identifier and with no texture.
    pub fn build(self) -> (m: Material)
        ensures
            m == self.material(m.uuid),
    {
        Material {
            uuid: fresh_uuid(),
            material_type: self.material_type,
            color: self.color,
            linewidth: self.linewidth,
            opacity: self.opacity,
            reflectivity: self.reflectivity,
            side: self.side,
            transparent: self.transparent,
            vertex_colors: self.vertex_colors,
            wireframe: self.wireframe,
            wireframe_line_width: self.wireframe_line_width,
            map: None,
        }
    }
}

impl Material {
    /// Starts a material.
    pub fn builder() -> (b: MaterialBuilder)
        ensures
            b == MaterialBuilder::initial(),
    {
        MaterialBuilder {
            material_type: MaterialType::MeshPhong,
            color: None,
            linewidth: None,
            opacity: None,
            reflectivity: None,
            side: Some(2u16),
            transparent: None,
            vertex_colors: None,
            wireframe: None,
            wireframe_line_width: None,
        }
    }

    /// The same material over the texture `map`, or over none.
    pub open spec fn mapped(self, map: Option<Uuid>) -> Material {
        Material { map, ..self }
    }

    /// Lays the material over the texture `map`, or over none.
    pub fn with_map(self, map: Option<Uuid>) -> (m: Material)
        ensures
            m == self.mapped(map),
    {
        Material { map, ..self }
    }
}

impl Default for Material {
    /// A Phong material shown on both sides, under a new identifier.
    fn default() -> (m: Material)
        ensures
            m == MaterialBuilder::initial().material(m.uuid),
    {
        Material::builder().material_type(MaterialType::MeshPhong).build()
    }
}

} // verus!
