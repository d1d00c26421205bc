//! The four commands and what each carries.

use vstd::prelude::*;
use crate::linear::{Pose, Vector3, Vector4};
use crate::scalar::Scalar;
use crate::scene::LumpedObject;

verus! {

/// Whether two strings hold the same characters.
fn same_text(a: &str, b: &str) -> (same: bool)
    ensures
        same == (a@ == b@),
{
    let n: usize = a.unicode_len();
    if b.unicode_len() != n {
        return false;
    }
    let mut i: usize = 0;
    while i < n
        invariant
            n == a@.len(),
            n == b@.len(),
            i <= n,
            forall|j: int| 0 <= j < i ==> a@[j] == b@[j],
        decreases n - i,
    {
        if a.get_char(i) != b.get_char(i) {
            return false;
        }
        i = i + 1;
    }
    assert(a@ =~= b@);
    true
}

/// Puts a node at a pose. The pose always goes out as its full matrix.
#[derive(Clone, Debug)]
pub struct SetTransformData {
    pub matrix: Pose,
    pub path: String,
    pub request_type: String,
}

impl SetTransformData {
    /// The command that puts the node at `path` at `matrix`.
    pub fn new(matrix: Pose, path: &str) -> (data: SetTransformData)
        ensures
            data.matrix == matrix,
            data.path@ == path@,
            data.request_type@ == "set_transform"@,
    {
        SetTransformData { matrix, path: path.to_owned(), request_type: "set_transform".to_owned() }
    }
}

/// Creates or replaces a node.
#[derive(Clone, Debug)]
pub struct SetObjectData {
    pub object: LumpedObject,
    pub path: String,
    pub request_type: String,
}

impl SetObjectData {
    /// The command that sets the node at `path` to `object`.
    pub fn new(object: LumpedObject, path: &str) -> (data: SetObjectData)
        ensures
            data.object == object,
            data.path@ == path@,
            data.request_type@ == "set_object"@,
    {
        SetObjectData { object, path: path.to_owned(), request_type: "set_object".to_owned() }
    }
}

/// Removes a node and everything below it.
#[derive(Clone, Debug)]
pub struct DeleteData {
    pub path: String,
    pub request_type: String,
}

impl DeleteData {
    /// The command that removes the node at `path`.
    pub fn new(path: &str) -> (data: DeleteData)
        ensures
            data.path@ == path@,
            data.request_type@ == "delete"@,
    {
        DeleteData { path: path.to_owned(), request_type: "delete".to_owned() }
    }
}

/// A property value as it goes on the wire: its shape and nothing else. No
/// tag goes with it; the receiver knows the shape from the property's name.
#[derive(Clone, Copy, Debug, PartialEq, Eq, Structural)]
pub enum WireValue {
    Flag(bool),
    Triple(Vector3),
    Quadruple(Vector4),
    Number(Scalar),
}

/// A property of a node, with its new value.
#[derive(Clone, Copy, Debug, PartialEq, Eq, Structural)]
pub enum PropertyType {
    Visible(bool),
    Position(Vector3),
    /// In the order `x`, `y`, `z`, `w`.
    Quaternion(Vector4),
    Scale(Vector3),
    /// In the order red, green, blue, alpha.
    Color(Vector4),
    Opacity(Scalar),
    ModulatedOpacity(Scalar),
    TopColor(Vector3),
    BottomColor(Vector3),
}

impl PropertyType {
    /// The name under which the property goes on the wire.
    pub open spec fn name(self) -> Seq<char> {
        match self {
            PropertyType::Visible(_) => "visible"@,
            PropertyType::Position(_) => "position"@,
            PropertyType::Quaternion(_) => "quaternion"@,
            PropertyType::Scale(_) => "scale"@,
            PropertyType::Color(_) => "color"@,
            PropertyType::Opacity(_) => "opacity"@,
            PropertyType::ModulatedOpacity(_) => "modulated_opacity"@,
            PropertyType::TopColor(_) => "top_color"@,
            PropertyType::BottomColor(_) => "bottom_color"@,
        }
    }

    /// The value as it goes on the wire.
    pub open spec fn wire_value(self) -> WireValue {
        match self {
            PropertyType::Visible(b) => WireValue::Flag(b),
            PropertyType::Position(v) => WireValue::Triple(v),
            PropertyType::Quaternion(q) => WireValue::Quadruple(q),
            PropertyType::Scale(v) => WireValue::Triple(v),
            PropertyType::Color(c) => WireValue::Quadruple(c),
            PropertyType::Opacity(s) => WireValue::Number(s),
            PropertyType::ModulatedOpacity(s) => WireValue::Number(s),
            PropertyType::TopColor(v) => WireValue::Triple(v),
            PropertyType::BottomColor(v) => WireValue::Triple(v),
        }
    }

    /// The property that a name and a wire value stand for, where the name
    /// is one of the nine and the value has the shape that goes with it.
    pub open spec fn decoded(name: Seq<char>, value: WireValue) -> Option<PropertyType> {
        if name == "visible"@ {
            match value {
                WireValue::Flag(b) => Some(PropertyType::Visible(b)),
                _ => None,
            }
        } else if name == "position"@ {
            match value {
                WireValue::Triple(v) => Some(PropertyType::Position(v)),
                _ => None,
            }
        } else if name == "quaternion"@ {
            match value {
                WireValue::Quadruple(q) => Some(PropertyType::Quaternion(q)),
                _ => None,
            }
        } else if name == "scale"@ {
            match value {
                WireValue::Triple(v) => Some(PropertyType::Scale(v)),
                _ => None,
            }
        } else if name == "color"@ {
            match value {
                WireValue::Quadruple(c) => Some(PropertyType::Color(c)),
                _ => None,
            }
        } else if name == "opacity"@ {
            match value {
                WireValue::Number(s) => Some(PropertyType::Opacity(s)),
                _ => None,
            }
        } else if name == "modulated_opacity"@ {
            match value {
                WireValue::Number(s) => Some(PropertyType::ModulatedOpacity(s)),
                _ => None,
            }
        } else if name == "top_color"@ {
            match value {
                WireValue::Triple(v) => Some(PropertyType::TopColor(v)),
                _ => None,
            }
        } else if name == "bottom_color"@ {
            match value {
                WireValue::Triple(v) => Some(PropertyType::BottomColor(v)),
                _ => None,
            }
        } else {
            None
        }
    }

    /// The name under which the property goes on the wire.
    pub fn property_name(&self) -> (name: &'static str)
        ensures
            name@ == self.name(),
    {
        match self {
            PropertyType::Visible(_) => "visible",
            PropertyType::Position(_) => "position",
            PropertyType::Quaternion(_) => "quaternion",
            PropertyType::Scale(_) => "scale",
            PropertyType::Color(_) => "color",
            PropertyType::Opacity(_) => "opacity",
            PropertyType::ModulatedOpacity(_) => "modulated_opacity",
            PropertyType::TopColor(_) => "top_color",
            PropertyType::BottomColor(_) => "bottom_color",
        }
    }

    /// The value as it goes on the wire.
    pub fn to_wire(&self) -> (value: WireValue)
        ensures
            value == self.wire_value(),
    {
        match *self {
            PropertyType::Visible(b) => WireValue::Flag(b),
            PropertyType::Position(v) => WireValue::Triple(v),
            PropertyType::Quaternion(q) => WireValue::Quadruple(q),
            PropertyType::Scale(v) => WireValue::Triple(v),
            PropertyType::Color(c) => WireValue::Quadruple(c),
            PropertyType::Opacity(s) => WireValue::Number(s),
            PropertyType::ModulatedOpacity(s) => WireValue::Number(s),
            PropertyType::TopColor(v) => WireValue::Triple(v),
            PropertyType::BottomColor(v) => WireValue::Triple(v),
        }
    }

    /// Reads a property back from its name and its wire value. A name that
    /// is none of the nine, or a value of another shape than the name asks
    /// for, gives nothing.
    pub fn from_wire(name: &str, value: WireValue) -> (property: Option<PropertyType>)
        ensures
            property == PropertyType::decoded(name@, value),
    {
        if same_text(name, "visible") {
            match value {
                WireValue::Flag(b) => Some(PropertyType::Visible(b)),
                _ => None,
            }
        } else if same_text(name, "position") {
            match value {
                WireValue::Triple(v) => Some(PropertyType::Position(v)),
                _ => None,
            }
        } else if same_text(name, "quaternion") {
            match value {
                WireValue::Quadruple(q) => Some(PropertyType::Quaternion(q)),
                _ => None,
            }
        } else if same_text(name, "scale") {
            match value {
                WireValue::Triple(v) => Some(PropertyType::Scale(v)),
                _ => None,
            }
        } else if same_text(name, "color") {
            match value {
                WireValue::Quadruple(c) => Some(PropertyType::Color(c)),
                _ => None,
            }
        } else if same_text(name, "opacity") {
            match value {
                WireValue::Number(s) => Some(PropertyType::Opacity(s)),
                _ => None,
            }
        } else if same_text(name, "modulated_opacity") {
            match value {
                WireValue::Number(s) => Some(PropertyType::ModulatedOpacity(s)),
                _ => None,
            }
        } else if same_text(name, "top_color") {
            match value {
                WireValue::Triple(v) => Some(PropertyType::TopColor(v)),
                _ => None,
            }
        } else if same_text(name, "bottom_color") {
            match value {
                WireValue::Triple(v) => Some(PropertyType::BottomColor(v)),
                _ => None,
            }
        } else {
            None
        }
    }

    /// The nine names differ from one another: two properties under one
    /// name are the same kind of property, with values of the same shape.
    pub proof fn lemma_name_fixes_kind(self, other: PropertyType)
        requires
            self.name() == other.name(),
        ensures
            self is Visible <==> other is Visible,
            self is Position <==> other is Position,
            self is Quaternion <==> other is Quaternion,
            self is Scale <==> other is Scale,
            self is Color <==> other is Color,
            self is Opacity <==> other is Opacity,
            self is ModulatedOpacity <==> other is ModulatedOpacity,
            self is TopColor <==> other is TopColor,
            self is BottomColor <==> other is BottomColor,
            self.wire_value() is Flag <==> other.wire_value() is Flag,
            self.wire_value() is Triple <==> other.wire_value() is Triple,
            self.wire_value() is Quadruple <==> other.wire_value() is Quadruple,
            self.wire_value() is Number <==> other.wire_value() is Number,
    {
        lemma_names_differ();
    }

    /// A property comes back from its name and its wire value exactly as it
    /// went out.
    pub proof fn lemma_round_trip(self)
        ensures
            PropertyType::decoded(self.name(), self.wire_value()) == Some(self),
    {
        lemma_names_differ();
    }

    /// A quaternion goes out under the name `quaternion`, as four numbers.
    pub proof fn lemma_quaternion_goes_out_as_four(q: Vector4)
        ensures
            PropertyType::Quaternion(q).name() == "quaternion"@,
            PropertyType::Quaternion(q).wire_value() == WireValue::Quadruple(q),
    {
    }
}

/// The nine property names, each told from the others by its length and its
/// first letter.
proof fn lemma_names_differ()
    ensures
        "visible"@.len() == 7 && "visible"@[0] == 'v',
        "position"@.len() == 8 && "position"@[0] == 'p',
        "quaternion"@.len() == 10 && "quaternion"@[0] == 'q',
        "scale"@.len() == 5 && "scale"@[0] == 's',
        "color"@.len() == 5 && "color"@[0] == 'c',
        "opacity"@.len() == 7 && "opacity"@[0] == 'o',
        "modulated_opacity"@.len() == 17 && "modulated_opacity"@[0] == 'm',
        "top_color"@.len() == 9 && "top_color"@[0] == 't',
        "bottom_color"@.len() == 12 && "bottom_color"@[0] == 'b',
{
    reveal_strlit("visible");
    reveal_strlit("position");
    reveal_strlit("quaternion");
    reveal_strlit("scale");
    reveal_strlit("color");
    reveal_strlit("opacity");
    reveal_strlit("modulated_opacity");
    reveal_strlit("top_color");
    reveal_strlit("bottom_color");
}

/// Changes one property of a node.
#[derive(Clone, Debug)]
pub struct SetPropertyData {
    pub path: String,
    pub request_type: String,
    pub property: String,
    pub value: PropertyType,
}

impl SetPropertyData {
    /// The command that sets `property` at `path`; the property's name is
    /// the one that goes with its kind.
    pub fn new(path: &str, property: PropertyType) -> (data: SetPropertyData)
        ensures
            data.path@ == path@,
            data.request_type@ == "set_property"@,
            data.property@ == property.name(),
            data.value == property,
    {
        SetPropertyData {
            path: path.to_owned(),
            request_type: "set_property".to_owned(),
            property: property.property_name().to_owned(),
            value: property,
        }
    }
}

} // verus!
