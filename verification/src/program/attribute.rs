//! Shader attribute introspection: the structured report of a program's
//! active (vertex) attributes, assembled from the driver's raw records.

use vstd::prelude::*;

verus! {

/// The recognized data types of shader attributes, as reported by the
/// driver's introspection queries.  A type tag this library does not
/// recognize is carried through as
/// [`ShaderAttributeType::UnrecognizedType`] with the raw tag value.
#[derive(Debug, Clone, Copy, PartialEq, Eq, Structural)]
pub enum ShaderAttributeType {
    Float,
    FloatVec2,
    FloatVec3,
    FloatVec4,
    FloatMat2,
    FloatMat3,
    FloatMat4,
    FloatMat2x3,
    FloatMat2x4,
    FloatMat3x2,
    FloatMat3x4,
    FloatMat4x2,
    FloatMat4x3,
    Int,
    IntVec2,
    IntVec3,
    IntVec4,
    UnsignedInt,
    UnsignedIntVec2,
    UnsignedIntVec3,
    UnsignedIntVec4,
    UnrecognizedType(u32),
}

/// The attribute data type denoted by a raw driver type tag.
pub open spec fn spec_attribute_type_from_tag(tag: u32) -> ShaderAttributeType {
    match tag {
        0x1406u32 => ShaderAttributeType::Float,
        0x8B50u32 => ShaderAttributeType::FloatVec2,
        0x8B51u32 => ShaderAttributeType::FloatVec3,
        0x8B52u32 => ShaderAttributeType::FloatVec4,
        0x8B5Au32 => ShaderAttributeType::FloatMat2,
        0x8B5Bu32 => ShaderAttributeType::FloatMat3,
        0x8B5Cu32 => ShaderAttributeType::FloatMat4,
        0x8B65u32 => ShaderAttributeType::FloatMat2x3,
        0x8B66u32 => ShaderAttributeType::FloatMat2x4,
        0x8B67u32 => ShaderAttributeType::FloatMat3x2,
        0x8B68u32 => ShaderAttributeType::FloatMat3x4,
        0x8B69u32 => ShaderAttributeType::FloatMat4x2,
        0x8B6Au32 => ShaderAttributeType::FloatMat4x3,
        0x1404u32 => ShaderAttributeType::Int,
        0x8B53u32 => ShaderAttributeType::IntVec2,
        0x8B54u32 => ShaderAttributeType::IntVec3,
        0x8B55u32 => ShaderAttributeType::IntVec4,
        0x1405u32 => ShaderAttributeType::UnsignedInt,
        0x8DC6u32 => ShaderAttributeType::UnsignedIntVec2,
        0x8DC7u32 => ShaderAttributeType::UnsignedIntVec3,
        0x8DC8u32 => ShaderAttributeType::UnsignedIntVec4,
        _ => ShaderAttributeType::UnrecognizedType(tag),
    }
}

/// Decode a raw driver type tag into a [`ShaderAttributeType`].
pub fn attribute_type_from_u32(tag: u32) -> (r: ShaderAttributeType)
    ensures
        r == spec_attribute_type_from_tag(tag),
{
    match tag {
        0x1406u32 => ShaderAttributeType::Float,
        0x8B50u32 => ShaderAttributeType::FloatVec2,
        0x8B51u32 => ShaderAttributeType::FloatVec3,
        0x8B52u32 => ShaderAttributeType::FloatVec4,
        0x8B5Au32 => ShaderAttributeType::FloatMat2,
        0x8B5Bu32 => ShaderAttributeType::FloatMat3,
        0x8B5Cu32 => ShaderAttributeType::FloatMat4,
        0x8B65u32 => ShaderAttributeType::FloatMat2x3,
        0x8B66u32 => ShaderAttributeType::FloatMat2x4,
        0x8B67u32 => ShaderAttributeType::FloatMat3x2,
        0x8B68u32 => ShaderAttributeType::FloatMat3x4,
        0x8B69u32 => ShaderAttributeType::FloatMat4x2,
        0x8B6Au32 => ShaderAttributeType::FloatMat4x3,
        0x1404u32 => ShaderAttributeType::Int,
        0x8B53u32 => ShaderAttributeType::IntVec2,
        0x8B54u32 => ShaderAttributeType::IntVec3,
        0x8B55u32 => ShaderAttributeType::IntVec4,
        0x1405u32 => ShaderAttributeType::UnsignedInt,
        0x8DC6u32 => ShaderAttributeType::UnsignedIntVec2,
        0x8DC7u32 => ShaderAttributeType::UnsignedIntVec3,
        0x8DC8u32 => ShaderAttributeType::UnsignedIntVec4,
        _ => ShaderAttributeType::UnrecognizedType(tag),
    }
}

/// One raw record of the driver's per-attribute introspection queries:
/// the properties of one active attribute, plus its location as queried
/// by name.  These records are the input to [`make_attribute_info_vec`].
pub struct GlAttribute {
    /// The attribute's name.
    pub name: String,
    /// The array size: how many instances of the type the attribute holds.
    pub size: i32,
    /// The raw driver type tag.
    pub attribute_type: u32,
    /// The attribute's location.
    pub location: i32,
}

impl Clone for GlAttribute {
    /// Cloning copies every field.
    fn clone(&self) -> (r: Self)
        ensures
            r == *self,
    {
        GlAttribute {
            name: self.name.clone(),
            size: self.size,
            attribute_type: self.attribute_type,
            location: self.location,
        }
    }
}

/// Describes an active attribute of a shader program.
#[derive(Debug)]
pub struct ShaderAttribute {
    /// Name of the attribute.
    pub name: String,
    /// Location of the attribute.
    pub location: i32,
    /// Data type of the attribute.
    pub attribute_type: ShaderAttributeType,
    /// Size of the attribute, counted in instances of the type.
    pub size: i32,
}

/// Some attribute carries this name, and `i` is the first position that
/// does.
pub open spec fn spec_first_attribute_at(attrs: Seq<ShaderAttribute>, name: Seq<char>, i: int) -> bool {
    &&& 0 <= i < attrs.len()
    &&& attrs[i].name@ == name
    &&& forall|k: int| 0 <= k < i ==> attrs[k].name@ != name
}

/// Contains information on a shader program's active attributes.
#[derive(Debug)]
pub struct ShaderAttributeInfo {
    /// List of attributes.
    pub attributes: Vec<ShaderAttribute>,
}

impl ShaderAttributeInfo {
    /// Seek an attribute by name; the first match is returned.  A linear
    /// search: look the location up once and keep it, rather than
    /// searching repeatedly.
    pub fn get_attribute(&self, name: &str) -> (r: Option<&ShaderAttribute>)
        ensures
            match r {
                Some(a) => exists|i: int|
                    spec_first_attribute_at(self.attributes@, name@, i) && *a
                        == self.attributes@[i],
                None => forall|i: int|
                    0 <= i < self.attributes@.len() ==> self.attributes@[i].name@ != name@,
            },
    {
        let wanted = name.to_owned();
        let mut i: usize = 0;
        while i < self.attributes.len()
            invariant
                i <= self.attributes@.len(),
                wanted@ == name@,
                forall|k: int| 0 <= k < i ==> self.attributes@[k].name@ != name@,
            decreases self.attributes@.len() - i,
        {
            if self.attributes[i].name == wanted {
                proof {
                    assert(spec_first_attribute_at(self.attributes@, name@, i as int));
                }
                return Some(&self.attributes[i]);
            }
            i = i + 1;
        }
        None
    }
}

/// Assemble the raw per-attribute records into the structured report,
/// decoding each type tag.  Zero active attributes yield an empty list,
/// not a failure.
pub fn make_attribute_info_vec(raw: Vec<GlAttribute>) -> (r: ShaderAttributeInfo)
    ensures
        r.attributes@.len() == raw@.len(),
        forall|i: int|
            0 <= i < raw@.len() ==> (#[trigger] r.attributes@[i]) == (ShaderAttribute {
                name: raw@[i].name,
                location: raw@[i].location,
                attribute_type: spec_attribute_type_from_tag(raw@[i].attribute_type),
                size: raw@[i].size,
            }),
{
    let mut attributes: Vec<ShaderAttribute> = Vec::new();
    let mut i: usize = 0;
    while i < raw.len()
        invariant
            i <= raw@.len(),
            attributes@.len() == i,
            forall|k: int|
                0 <= k < i ==> (#[trigger] attributes@[k]) == (ShaderAttribute {
                    name: raw@[k].name,
                    location: raw@[k].location,
                    attribute_type: spec_attribute_type_from_tag(raw@[k].attribute_type),
                    size: raw@[k].size,
                }),
        decreases raw@.len() - i,
    {
        let record = &raw[i];
        let attribute_type = attribute_type_from_u32(record.attribute_type);
        attributes.push(
            ShaderAttribute {
                name: record.name.clone(),
                location: record.location,
                attribute_type,
                size: record.size,
            },
        );
        i = i + 1;
    }
    ShaderAttributeInfo { attributes }
}

} // verus!
