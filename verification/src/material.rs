//! Materials: the typed query protocol over the import engine's generic
//! property store.
//!
//! The store itself stays with the import engine. A `Material` holds what the
//! store answered to the fixed set of queries that this module knows: one
//! answer for each well-known key, and for each texture semantic the number
//! of its slots and one answer for each slot.

use crate::prim::{col4, str, Color4, RawColor4, RawString, Single};
use crate::record::Record;
use crate::translate::{decode_signed, decoded, from_signed, ForeignEnum};
use vstd::pervasive::unreached;
use vstd::prelude::*;

verus! {

pub type TextureIdx = libc::c_uint;

/// Name for default materials.
pub const DEFAULT_MATERIAL_NAME: &'static str = "DefaultMaterial";

// ++++++++++++++++++++ enumerations ++++++++++++++++++++

/// How the Nth texture of a semantic is combined with the result of all
/// layers before it.
#[derive(Debug, Clone, Copy, PartialEq, Eq, Structural)]
pub enum TextureOp {
    /// `T = T1 * T2`
    Multiply,
    /// `T = T1 + T2`
    Add,
    /// `T = T1 - T2`
    Subtract,
    /// `T = T1 / T2`
    Divide,
    /// `T = (T1 + T2) - (T1 * T2)`
    SmoothAdd,
    /// `T = T1 + (T2 - 0.5)`
    SignedAdd,
}

impl ForeignEnum for TextureOp {
    open spec fn code(self) -> u32 {
        match self {
            TextureOp::Multiply => 0x0,
            TextureOp::Add => 0x1,
            TextureOp::Subtract => 0x2,
            TextureOp::Divide => 0x3,
            TextureOp::SmoothAdd => 0x4,
            TextureOp::SignedAdd => 0x5,
        }
    }

    open spec fn decode(x: u32) -> Option<Self> {
        match x {
            0x0 => Some(TextureOp::Multiply),
            0x1 => Some(TextureOp::Add),
            0x2 => Some(TextureOp::Subtract),
            0x3 => Some(TextureOp::Divide),
            0x4 => Some(TextureOp::SmoothAdd),
            0x5 => Some(TextureOp::SignedAdd),
            _ => None,
        }
    }

    fn to_ffi(self) -> (r: u32) {
        match self {
            TextureOp::Multiply => 0x0,
            TextureOp::Add => 0x1,
            TextureOp::Subtract => 0x2,
            TextureOp::Divide => 0x3,
            TextureOp::SmoothAdd => 0x4,
            TextureOp::SignedAdd => 0x5,
        }
    }

    fn from_ffi(x: u32) -> (r: Option<Self>) {
        match x {
            0x0 => Some(TextureOp::Multiply),
            0x1 => Some(TextureOp::Add),
            0x2 => Some(TextureOp::Subtract),
            0x3 => Some(TextureOp::Divide),
            0x4 => Some(TextureOp::SmoothAdd),
            0x5 => Some(TextureOp::SignedAdd),
            _ => None,
        }
    }

    proof fn lemma_decode_encode(v: Self) {
    }

    proof fn lemma_encode_decode(x: u32) {
    }
}

/// How UV coordinates outside the unit square are handled.
#[derive(Debug, Clone, Copy, PartialEq, Eq, Structural)]
pub enum TextureMapMode {
    /// A coordinate u|v becomes u%1|v%1.
    Wrap,
    /// Coordinates are clamped to the nearest valid value.
    Clamp,
    /// Outside the unit square the texture is not applied.
    Decal,
    /// Like `Wrap`, mirrored in every other repetition.
    Mirror,
}

impl ForeignEnum for TextureMapMode {
    open spec fn code(self) -> u32 {
        match self {
            TextureMapMode::Wrap => 0x0,
            TextureMapMode::Clamp => 0x1,
            TextureMapMode::Decal => 0x3,
            TextureMapMode::Mirror => 0x2,
        }
    }

    open spec fn decode(x: u32) -> Option<Self> {
        match x {
            0x0 => Some(TextureMapMode::Wrap),
            0x1 => Some(TextureMapMode::Clamp),
            0x3 => Some(TextureMapMode::Decal),
            0x2 => Some(TextureMapMode::Mirror),
            _ => None,
        }
    }

    fn to_ffi(self) -> (r: u32) {
        match self {
            TextureMapMode::Wrap => 0x0,
            TextureMapMode::Clamp => 0x1,
            TextureMapMode::Decal => 0x3,
            TextureMapMode::Mirror => 0x2,
        }
    }

    fn from_ffi(x: u32) -> (r: Option<Self>) {
        match x {
            0x0 => Some(TextureMapMode::Wrap),
            0x1 => Some(TextureMapMode::Clamp),
            0x3 => Some(TextureMapMode::Decal),
            0x2 => Some(TextureMapMode::Mirror),
            _ => None,
        }
    }

    proof fn lemma_decode_encode(v: Self) {
    }

    proof fn lemma_encode_decode(x: u32) {
    }
}

/// How the mapping coordinates of a texture are generated.
#[derive(Debug, Clone, Copy, PartialEq, Eq, Structural)]
pub enum TextureMapping {
    /// Taken from a UV channel of the mesh.
    Uv,
    /// Spherical mapping.
    Sphere,
    /// Cylindrical mapping.
    Cylinder,
    /// Cubic mapping.
    Box,
    /// Planar mapping.
    Plane,
    /// Undefined mapping.
    Other,
}

impl ForeignEnum for TextureMapping {
    open spec fn code(self) -> u32 {
        match self {
            TextureMapping::Uv => 0x0,
            TextureMapping::Sphere => 0x1,
            TextureMapping::Cylinder => 0x2,
            TextureMapping::Box => 0x3,
            TextureMapping::Plane => 0x4,
            TextureMapping::Other => 0x5,
        }
    }

    open spec fn decode(x: u32) -> Option<Self> {
        match x {
            0x0 => Some(TextureMapping::Uv),
            0x1 => Some(TextureMapping::Sphere),
            0x2 => Some(TextureMapping::Cylinder),
            0x3 => Some(TextureMapping::Box),
            0x4 => Some(TextureMapping::Plane),
            0x5 => Some(TextureMapping::Other),
            _ => None,
        }
    }

    fn to_ffi(self) -> (r: u32) {
        match self {
            TextureMapping::Uv => 0x0,
            TextureMapping::Sphere => 0x1,
            TextureMapping::Cylinder => 0x2,
            TextureMapping::Box => 0x3,
            TextureMapping::Plane => 0x4,
            TextureMapping::Other => 0x5,
        }
    }

    fn from_ffi(x: u32) -> (r: Option<Self>) {
        match x {
            0x0 => Some(TextureMapping::Uv),
            0x1 => Some(TextureMapping::Sphere),
            0x2 => Some(TextureMapping::Cylinder),
            0x3 => Some(TextureMapping::Box),
            0x4 => Some(TextureMapping::Plane),
            0x5 => Some(TextureMapping::Other),
            _ => None,
        }
    }

    proof fn lemma_decode_encode(v: Self) {
    }

    proof fn lemma_encode_decode(x: u32) {
    }
}

/// The role that a texture plays in shading: its semantic.
#[derive(Debug, Clone, Copy, PartialEq, Eq, Structural)]
pub enum TextureType {
    /// No texture, but the value to be used with keys that are not tied to one.
    NoTexture,
    /// Combined with the result of the diffuse lighting equation.
    Diffuse,
    /// Combined with the result of the specular lighting equation.
    Specular,
    /// Combined with the result of the ambient lighting equation.
    Ambient,
    /// Added to the result of the lighting calculation.
    Emissive,
    /// A height map.
    Height,
    /// A tangent space normal map.
    Normals,
    /// The glossiness of the material.
    Shininess,
    /// Per-pixel opacity.
    Opacity,
    /// A displacement map.
    Displacement,
    /// A lightmap, or ambient occlusion.
    Lightmap,
    /// The colour of a perfect mirror reflection.
    Reflection,
    /// A texture of none of the kinds above.
    Unknown,
}

impl ForeignEnum for TextureType {
    open spec fn code(self) -> u32 {
        match self {
            TextureType::NoTexture => 0x0,
            TextureType::Diffuse => 0x1,
            TextureType::Specular => 0x2,
            TextureType::Ambient => 0x3,
            TextureType::Emissive => 0x4,
            TextureType::Height => 0x5,
            TextureType::Normals => 0x6,
            TextureType::Shininess => 0x7,
            TextureType::Opacity => 0x8,
            TextureType::Displacement => 0x9,
            TextureType::Lightmap => 0xA,
            TextureType::Reflection => 0xB,
            TextureType::Unknown => 0xC,
        }
    }

    open spec fn decode(x: u32) -> Option<Self> {
        match x {
            0x0 => Some(TextureType::NoTexture),
            0x1 => Some(TextureType::Diffuse),
            0x2 => Some(TextureType::Specular),
            0x3 => Some(TextureType::Ambient),
            0x4 => Some(TextureType::Emissive),
            0x5 => Some(TextureType::Height),
            0x6 => Some(TextureType::Normals),
            0x7 => Some(TextureType::Shininess),
            0x8 => Some(TextureType::Opacity),
            0x9 => Some(TextureType::Displacement),
            0xA => Some(TextureType::Lightmap),
            0xB => Some(TextureType::Reflection),
            0xC => Some(TextureType::Unknown),
            _ => None,
        }
    }

    fn to_ffi(self) -> (r: u32) {
        match self {
            TextureType::NoTexture => 0x0,
            TextureType::Diffuse => 0x1,
            TextureType::Specular => 0x2,
            TextureType::Ambient => 0x3,
            TextureType::Emissive => 0x4,
            TextureType::Height => 0x5,
            TextureType::Normals => 0x6,
            TextureType::Shininess => 0x7,
            TextureType::Opacity => 0x8,
            TextureType::Displacement => 0x9,
            TextureType::Lightmap => 0xA,
            TextureType::Reflection => 0xB,
            TextureType::Unknown => 0xC,
        }
    }

    fn from_ffi(x: u32) -> (r: Option<Self>) {
        match x {
            0x0 => Some(TextureType::NoTexture),
            0x1 => Some(TextureType::Diffuse),
            0x2 => Some(TextureType::Specular),
            0x3 => Some(TextureType::Ambient),
            0x4 => Some(TextureType::Emissive),
            0x5 => Some(TextureType::Height),
            0x6 => Some(TextureType::Normals),
            0x7 => Some(TextureType::Shininess),
            0x8 => Some(TextureType::Opacity),
            0x9 => Some(TextureType::Displacement),
            0xA => Some(TextureType::Lightmap),
            0xB => Some(TextureType::Reflection),
            0xC => Some(TextureType::Unknown),
            _ => None,
        }
    }

    proof fn lemma_decode_encode(v: Self) {
    }

    proof fn lemma_encode_decode(x: u32) {
    }
}

/// The shading model that a material asks for.
#[derive(Debug, Clone, Copy, PartialEq, Eq, Structural)]
pub enum ShadingMode {
    /// One colour per face.
    Flat,
    /// Simple smooth shading.
    Gouraud,
    /// Phong shading.
    Phong,
    /// Phong-Blinn shading.
    Blinn,
    /// Toon shading.
    Toon,
    /// Oren-Nayar shading.
    OrenNayar,
    /// Minnaert shading.
    Minnaert,
    /// Cook-Torrance shading.
    CookTorrance,
    /// No shading at all: constant light influence.
    NoShading,
    /// Fresnel shading.
    Fresnel,
}

impl ForeignEnum for ShadingMode {
    open spec fn code(self) -> u32 {
        match self {
            ShadingMode::Flat => 0x1,
            ShadingMode::Gouraud => 0x2,
            ShadingMode::Phong => 0x3,
            ShadingMode::Blinn => 0x4,
            ShadingMode::Toon => 0x5,
            ShadingMode::OrenNayar => 0x6,
            ShadingMode::Minnaert => 0x7,
            ShadingMode::CookTorrance => 0x8,
            ShadingMode::NoShading => 0x9,
            ShadingMode::Fresnel => 0xA,
        }
    }

    open spec fn decode(x: u32) -> Option<Self> {
        match x {
            0x1 => Some(ShadingMode::Flat),
            0x2 => Some(ShadingMode::Gouraud),
            0x3 => Some(ShadingMode::Phong),
            0x4 => Some(ShadingMode::Blinn),
            0x5 => Some(ShadingMode::Toon),
            0x6 => Some(ShadingMode::OrenNayar),
            0x7 => Some(ShadingMode::Minnaert),
            0x8 => Some(ShadingMode::CookTorrance),
            0x9 => Some(ShadingMode::NoShading),
            0xA => Some(ShadingMode::Fresnel),
            _ => None,
        }
    }

    fn to_ffi(self) -> (r: u32) {
        match self {
            ShadingMode::Flat => 0x1,
            ShadingMode::Gouraud => 0x2,
            ShadingMode::Phong => 0x3,
            ShadingMode::Blinn => 0x4,
            ShadingMode::Toon => 0x5,
            ShadingMode::OrenNayar => 0x6,
            ShadingMode::Minnaert => 0x7,
            ShadingMode::CookTorrance => 0x8,
            ShadingMode::NoShading => 0x9,
            ShadingMode::Fresnel => 0xA,
        }
    }

    fn from_ffi(x: u32) -> (r: Option<Self>) {
        match x {
            0x1 => Some(ShadingMode::Flat),
            0x2 => Some(ShadingMode::Gouraud),
            0x3 => Some(ShadingMode::Phong),
            0x4 => Some(ShadingMode::Blinn),
            0x5 => Some(ShadingMode::Toon),
            0x6 => Some(ShadingMode::OrenNayar),
            0x7 => Some(ShadingMode::Minnaert),
            0x8 => Some(ShadingMode::CookTorrance),
            0x9 => Some(ShadingMode::NoShading),
            0xA => Some(ShadingMode::Fresnel),
            _ => None,
        }
    }

    proof fn lemma_decode_encode(v: Self) {
    }

    proof fn lemma_encode_decode(x: u32) {
    }
}

/// How the final colour of a pixel is blended with what is in the
/// framebuffer.
#[derive(Debug, Clone, Copy, PartialEq, Eq, Structural)]
pub enum BlendMode {
    /// `SourceColor * SourceAlpha + DestColor * (1 - SourceAlpha)`
    Default,
    /// `SourceColor * 1 + DestColor * 1`
    Additive,
}

impl ForeignEnum for BlendMode {
    open spec fn code(self) -> u32 {
        match self {
            BlendMode::Default => 0x0,
            BlendMode::Additive => 0x1,
        }
    }

    open spec fn decode(x: u32) -> Option<Self> {
        match x {
            0x0 => Some(BlendMode::Default),
            0x1 => Some(BlendMode::Additive),
            _ => None,
        }
    }

    fn to_ffi(self) -> (r: u32) {
        match self {
            BlendMode::Default => 0x0,
            BlendMode::Additive => 0x1,
        }
    }

    fn from_ffi(x: u32) -> (r: Option<Self>) {
        match x {
            0x0 => Some(BlendMode::Default),
            0x1 => Some(BlendMode::Additive),
            _ => None,
        }
    }

    proof fn lemma_decode_encode(v: Self) {
    }

    proof fn lemma_encode_decode(x: u32) {
    }
}

// ++++++++++++++++++++ texture flags ++++++++++++++++++++

/// Flags of a texture slot.
#[derive(Clone, Copy, Debug, PartialEq, Eq, Structural)]
pub struct TextureFlags {
    pub bits: u32,
}

/// The texture's colour values have to be inverted.
pub const INVERT: u32 = 0x1;

/// The alpha channel of the texture is to be used.
pub const USE_ALPHA: u32 = 0x2;

/// The alpha channel of the texture is to be ignored.
pub const IGNORE_ALPHA: u32 = 0x4;

impl TextureFlags {
    /// Every bit of `bits` is a flag of this set.
    pub open spec fn known(bits: u32) -> bool {
        bits & !0x7u32 == 0
    }

    /// The set without any flag.
    pub fn empty() -> (r: Self)
        ensures
            r.bits == 0,
    {
        TextureFlags { bits: 0 }
    }

    /// The set of all flags.
    pub fn all() -> (r: Self)
        ensures
            r.bits == 0x7,
    {
        TextureFlags { bits: 0x7 }
    }

    pub fn bits(&self) -> (r: u32)
        ensures
            r == self.bits,
    {
        self.bits
    }

    /// The set that `bits` stands for, or nothing where a bit of it is no
    /// flag of this set.
    pub fn from_bits(bits: u32) -> (r: Option<Self>)
        ensures
            r is Some <==> Self::known(bits),
            r matches Some(f) ==> f.bits == bits,
    {
        if bits & !0x7u32 == 0 {
            Some(TextureFlags { bits })
        } else {
            None
        }
    }

    /// The flags of this set among `bits`; the other bits are dropped.
    pub fn from_bits_truncate(bits: u32) -> (r: Self)
        ensures
            r.bits == bits & 0x7,
    {
        TextureFlags { bits: bits & 0x7 }
    }

    pub fn is_empty(&self) -> (r: bool)
        ensures
            r == (self.bits == 0),
    {
        self.bits == 0
    }

    /// Every flag of `other` is in this set.
    pub fn contains(&self, other: Self) -> (r: bool)
        ensures
            r == (self.bits & other.bits == other.bits),
    {
        self.bits & other.bits == other.bits
    }

    /// The flags that are in this set or in `other`.
    pub fn union(self, other: Self) -> (r: Self)
        ensures
            r.bits == self.bits | other.bits,
    {
        TextureFlags { bits: self.bits | other.bits }
    }
}

// ++++++++++++++++++++ UV transform ++++++++++++++++++++

/// How the UV coordinates of a texture slot are transformed: scaling first,
/// then rotation, then translation.
#[derive(Debug, Clone, Copy)]
pub struct UvTransform {
    pub translation: crate::prim::RawVector2,
    pub scaling: crate::prim::RawVector2,
    pub rotation: Single,
}

impl UvTransform {
    /// Translation on the u and v axes.
    pub fn translation(&self) -> (r: crate::prim::Vector2)
        ensures
            r@ == seq![self.translation.x, self.translation.y],
    {
        crate::prim::vec2(self.translation)
    }

    /// Scaling on the u and v axes.
    pub fn scaling(&self) -> (r: crate::prim::Vector2)
        ensures
            r@ == seq![self.scaling.x, self.scaling.y],
    {
        crate::prim::vec2(self.scaling)
    }

    /// Rotation, counter-clockwise, in radians, around the centre (0.5, 0.5).
    pub fn rotation(&self) -> (r: Single)
        ensures
            r == self.rotation,
    {
        self.rotation
    }
}

// ++++++++++++++++++++ the store, as it answered ++++++++++++++++++++

/// The well-known keys that the aggregate query reads. Each is asked with
/// semantic 0 and index 0.
#[derive(Debug, Clone, Copy, PartialEq, Eq, Structural)]
pub enum MaterialKey {
    Name,
    TwoSided,
    ShadingModel,
    Wireframe,
    BlendFunc,
    Opacity,
    BumpScaling,
    Shininess,
    ShininessStrength,
    Reflectivity,
    RefractionIndex,
    ColorDiffuse,
    ColorAmbient,
    ColorSpecular,
    ColorEmissive,
    ColorTransparent,
    ColorReflective,
}

impl MaterialKey {
    /// The key as the store spells it.
    pub open spec fn spelling(self) -> Seq<char> {
        match self {
            MaterialKey::Name => "?mat.name"@,
            MaterialKey::TwoSided => "$mat.twosided"@,
            MaterialKey::ShadingModel => "$mat.shadingm"@,
            MaterialKey::Wireframe => "$mat.wireframe"@,
            MaterialKey::BlendFunc => "$mat.blend"@,
            MaterialKey::Opacity => "$mat.opacity"@,
            MaterialKey::BumpScaling => "$mat.bumpscaling"@,
            MaterialKey::Shininess => "$mat.shininess"@,
            MaterialKey::ShininessStrength => "$mat.shinpercent"@,
            MaterialKey::Reflectivity => "$mat.reflectivity"@,
            MaterialKey::RefractionIndex => "$mat.refracti"@,
            MaterialKey::ColorDiffuse => "$clr.diffuse"@,
            MaterialKey::ColorAmbient => "$clr.ambient"@,
            MaterialKey::ColorSpecular => "$clr.specular"@,
            MaterialKey::ColorEmissive => "$clr.emissive"@,
            MaterialKey::ColorTransparent => "$clr.transparent"@,
            MaterialKey::ColorReflective => "$clr.reflective"@,
        }
    }

    pub fn name(self) -> (r: &'static str)
        ensures
            r@ == self.spelling(),
    {
        match self {
            MaterialKey::Name => "?mat.name",
            MaterialKey::TwoSided => "$mat.twosided",
            MaterialKey::ShadingModel => "$mat.shadingm",
            MaterialKey::Wireframe => "$mat.wireframe",
            MaterialKey::BlendFunc => "$mat.blend",
            MaterialKey::Opacity => "$mat.opacity",
            MaterialKey::BumpScaling => "$mat.bumpscaling",
            MaterialKey::Shininess => "$mat.shininess",
            MaterialKey::ShininessStrength => "$mat.shinpercent",
            MaterialKey::Reflectivity => "$mat.reflectivity",
            MaterialKey::RefractionIndex => "$mat.refracti",
            MaterialKey::ColorDiffuse => "$clr.diffuse",
            MaterialKey::ColorAmbient => "$clr.ambient",
            MaterialKey::ColorSpecular => "$clr.specular",
            MaterialKey::ColorEmissive => "$clr.emissive",
            MaterialKey::ColorTransparent => "$clr.transparent",
            MaterialKey::ColorReflective => "$clr.reflective",
        }
    }
}

/// What the store wrote into the out-values of one texture slot query that
/// succeeded. An out-value that the store did not write still holds what
/// `TextureBinding::initial` put there.
#[derive(Debug, Clone)]
pub struct TextureBinding {
    pub path: RawString,
    pub mapping: u32,
    pub uv_index: u32,
    pub blend: Single,
    pub op: u32,
    pub map_mode: [u32; 2],
    pub flags: u32,
}

/// The UV index that says that the slot names no UV channel.
pub const NO_UV_INDEX: u32 = 0xffff_ffff;

impl TextureBinding {
    /// The out-values before the query: what a slot is taken to say where
    /// the store says nothing.
    pub fn initial() -> (r: Self)
        ensures
            r.path.length == 0,
            TextureMapping::decode(r.mapping) == Some(TextureMapping::Other),
            r.uv_index == NO_UV_INDEX,
            r.blend == Single::zero(),
            TextureOp::decode(r.op) == Some(TextureOp::Multiply),
            TextureMapMode::decode(r.map_mode[0]) == Some(TextureMapMode::Wrap),
            TextureMapMode::decode(r.map_mode[1]) == Some(TextureMapMode::Wrap),
            r.flags == 0,
    {
        TextureBinding {
            path: RawString { length: 0, data: Vec::new() },
            mapping: TextureMapping::Other.to_ffi(),
            uv_index: NO_UV_INDEX,
            blend: Single::zero(),
            op: TextureOp::Multiply.to_ffi(),
            map_mode: [TextureMapMode::Wrap.to_ffi(), TextureMapMode::Wrap.to_ffi()],
            flags: 0,
        }
    }
}

/// A binding with a mapping, an operator, a wrap mode or a flag outside its
/// domain is not well formed, so no well-formed material holds it in a slot
/// that it counts.
pub proof fn lemma_binding_outside_domain(b: TextureBinding)
    requires
        b.mapping > 5 || b.op > 5 || b.map_mode[0] > 3 || b.map_mode[1] > 3 || b.flags & !0x7u32
            != 0,
    ensures
        !b.wf(),
{
}

impl Record for TextureBinding {
    /// The slot names a texture, and each of its codes is in its domain.
    open spec fn wf(&self) -> bool {
        &&& self.path.named()
        &&& TextureMapping::decode(self.mapping) is Some
        &&& TextureOp::decode(self.op) is Some
        &&& TextureMapMode::decode(self.map_mode[0]) is Some
        &&& TextureMapMode::decode(self.map_mode[1]) is Some
        &&& TextureFlags::known(self.flags)
    }

    fn is_well_formed(&self) -> (b: bool) {
        self.path.is_named() && TextureMapping::from_ffi(self.mapping).is_some()
            && TextureOp::from_ffi(self.op).is_some() && TextureMapMode::from_ffi(
            self.map_mode[0],
        ).is_some() && TextureMapMode::from_ffi(self.map_mode[1]).is_some()
            && TextureFlags::from_bits(self.flags).is_some()
    }
}

/// The slots of one texture semantic: how many the store counted, and what
/// it answered for each of them. An answer of `None` is a query that failed.
#[derive(Debug, Clone)]
pub struct TextureStack {
    pub count: u32,
    pub slots: Vec<Option<TextureBinding>>,
}

impl Record for TextureStack {
    /// There is an answer for each slot counted, and each answer that names
    /// a binding is well formed.
    open spec fn wf(&self) -> bool {
        &&& self.count <= self.slots@.len()
        &&& forall|i: int|
            0 <= i < self.count ==> ((#[trigger] self.slots@[i]) matches Some(b) ==> b.wf())
    }

    fn is_well_formed(&self) -> (b: bool) {
        if self.count as usize > self.slots.len() {
            return false;
        }
        let mut i: usize = 0;
        while i < self.count as usize
            invariant
                i <= self.count <= self.slots@.len(),
                forall|j: int|
                    0 <= j < i ==> ((#[trigger] self.slots@[j]) matches Some(b) ==> b.wf()),
            decreases self.count - i,
        {
            let ok = match &self.slots[i] {
                Some(b) => b.is_well_formed(),
                None => true,
            };
            if !ok {
                assert(!(self.slots@[i as int] matches Some(b) ==> b.wf()));
                return false;
            }
            i += 1;
        }
        true
    }
}

/// A material, as its property store answered.
///
/// Each field named after a well-known key holds the answer to the query for
/// that key, `None` where the query failed because the key is not set.
/// `textures` holds one stack for each texture semantic, at the place of the
/// semantic's code; a semantic beyond the end has no slots.
#[derive(Debug, Clone)]
pub struct Material {
    pub name: Option<RawString>,
    pub two_sided: Option<i32>,
    pub shading_model: Option<i32>,
    pub wireframe: Option<i32>,
    pub blend_func: Option<i32>,
    pub opacity: Option<Single>,
    pub bump_scaling: Option<Single>,
    pub shininess: Option<Single>,
    pub shininess_strength: Option<Single>,
    pub reflectivity: Option<Single>,
    pub refraction_index: Option<Single>,
    pub color_diffuse: Option<RawColor4>,
    pub color_ambient: Option<RawColor4>,
    pub color_specular: Option<RawColor4>,
    pub color_emissive: Option<RawColor4>,
    pub color_transparent: Option<RawColor4>,
    pub color_reflective: Option<RawColor4>,
    pub textures: Vec<TextureStack>,
}

// ++++++++++++++++++++ what the queries return ++++++++++++++++++++

/// The well-known properties of a material, each with its default where the
/// material does not set it.
#[derive(Debug, Clone)]
pub struct MaterialProperties {
    pub name: String,
    pub twosided: bool,
    pub shading_mode: ShadingMode,
    pub wireframe: bool,
    pub blend_mode: BlendMode,
    pub opacity: Single,
    pub bumpscaling: Single,
    pub shininess: Single,
    pub shininess_strength: Single,
    pub reflectivity: Single,
    pub refracti: Single,
    pub color_diffuse: Color4,
    pub color_ambient: Color4,
    pub color_specular: Color4,
    pub color_emissive: Color4,
    pub color_transparent: Color4,
    pub color_reflective: Color4,
}

/// One texture slot of a material, decoded.
#[derive(Debug, Clone)]
pub struct TextureProperties {
    pub texture_ref: String,
    pub mapping: TextureMapping,
    pub uv_index: Option<u32>,
    pub blend: Single,
    pub op: TextureOp,
    pub map_mode: [TextureMapMode; 2],
    pub flags: TextureFlags,
}

/// The answer, or the default where the key is not set.
pub open spec fn or_default<T>(answer: Option<T>, default: T) -> T {
    match answer {
        Some(v) => v,
        None => default,
    }
}

/// The components of a colour answer, all zero where the key is not set.
pub open spec fn color_or_black(answer: Option<RawColor4>) -> Seq<Single> {
    match answer {
        Some(c) => seq![c.r, c.g, c.b, c.a],
        None => seq![Single::zero(), Single::zero(), Single::zero(), Single::zero()],
    }
}

/// A flag answer: set where the store holds a number other than zero.
pub open spec fn flag_or_clear(answer: Option<i32>) -> bool {
    match answer {
        Some(v) => v != 0,
        None => false,
    }
}

fn answered_color(answer: &Option<RawColor4>) -> (r: Color4)
    ensures
        r@ == color_or_black(*answer),
{
    match answer {
        Some(c) => col4(*c),
        None => [Single::zero(), Single::zero(), Single::zero(), Single::zero()],
    }
}

fn answered_single(answer: &Option<Single>, default: Single) -> (r: Single)
    ensures
        r == or_default(*answer, default),
{
    match answer {
        Some(v) => *v,
        None => default,
    }
}

fn answered_flag(answer: &Option<i32>) -> (r: bool)
    ensures
        r == flag_or_clear(*answer),
{
    match answer {
        Some(v) => *v != 0,
        None => false,
    }
}

impl TextureType {
    /// All semantics, each at the place of its code: the order in which a
    /// material holds its texture stacks.
    pub fn all() -> (r: [TextureType; 13])
        ensures
            forall|i: int| 0 <= i < 13 ==> (#[trigger] r@[i]).code() == i,
    {
        [
            TextureType::NoTexture,
            TextureType::Diffuse,
            TextureType::Specular,
            TextureType::Ambient,
            TextureType::Emissive,
            TextureType::Height,
            TextureType::Normals,
            TextureType::Shininess,
            TextureType::Opacity,
            TextureType::Displacement,
            TextureType::Lightmap,
            TextureType::Reflection,
            TextureType::Unknown,
        ]
    }
}

impl Material {
    /// The name that the aggregate reports: empty where the store holds
    /// none.
    pub open spec fn name_text(&self) -> Seq<char> {
        match self.name {
            Some(s) => if s.length == 0 {
                Seq::empty()
            } else {
                s.text()
            },
            None => Seq::empty(),
        }
    }

    /// The shading model that the aggregate reports.
    pub open spec fn shading_mode(&self) -> Option<ShadingMode> {
        match self.shading_model {
            Some(c) => decode_signed::<ShadingMode>(c),
            None => Some(ShadingMode::Gouraud),
        }
    }

    /// The blend mode that the aggregate reports.
    pub open spec fn blend_mode(&self) -> Option<BlendMode> {
        match self.blend_func {
            Some(c) => decode_signed::<BlendMode>(c),
            None => Some(BlendMode::Default),
        }
    }

    /// The stack of a semantic, where the record holds one.
    pub open spec fn stack(&self, tex_ty: TextureType) -> Option<TextureStack> {
        if tex_ty.code() < self.textures@.len() {
            Some(self.textures@[tex_ty.code() as int])
        } else {
            None
        }
    }

    /// The number of slots of a semantic.
    pub open spec fn slot_count(&self, tex_ty: TextureType) -> u32 {
        match self.stack(tex_ty) {
            Some(s) => s.count,
            None => 0,
        }
    }

    /// What the store answered for slot `idx` of a semantic: the binding, or
    /// nothing where there is no such slot or the query failed.
    pub open spec fn slot(&self, tex_ty: TextureType, idx: u32) -> Option<TextureBinding> {
        match self.stack(tex_ty) {
            Some(s) => if idx < s.count && idx < s.slots@.len() {
                s.slots@[idx as int]
            } else {
                None
            },
            None => None,
        }
    }

    /// Reads the well-known keys into one record. A key that the material
    /// does not set is no error: its default stands in.
    pub fn material_properties(&self) -> (r: MaterialProperties)
        requires
            self.name matches Some(s) ==> s.wf(),
            self.shading_mode() is Some,
            self.blend_mode() is Some,
        ensures
            r.name@ == self.name_text(),
            r.twosided == flag_or_clear(self.two_sided),
            Some(r.shading_mode) == self.shading_mode(),
            r.wireframe == flag_or_clear(self.wireframe),
            Some(r.blend_mode) == self.blend_mode(),
            r.opacity == or_default(self.opacity, Single::one()),
            r.bumpscaling == or_default(self.bump_scaling, Single::zero()),
            r.shininess == or_default(self.shininess, Single::zero()),
            r.shininess_strength == or_default(self.shininess_strength, Single::one()),
            r.reflectivity == or_default(self.reflectivity, Single::zero()),
            r.refracti == or_default(self.refraction_index, Single::one()),
            r.color_diffuse@ == color_or_black(self.color_diffuse),
            r.color_ambient@ == color_or_black(self.color_ambient),
            r.color_specular@ == color_or_black(self.color_specular),
            r.color_emissive@ == color_or_black(self.color_emissive),
            r.color_transparent@ == color_or_black(self.color_transparent),
            r.color_reflective@ == color_or_black(self.color_reflective),
            self.opacity is None ==> r.opacity == Single::one(),
            self.refraction_index is None ==> r.refracti == Single::one(),
            self.shading_model is None ==> r.shading_mode == ShadingMode::Gouraud,
    {
        let name = match &self.name {
            Some(s) => match str(s) {
                Some(t) => t.to_owned(),
                None => String::new(),
            },
            None => String::new(),
        };
        let shading_mode = match self.shading_model {
            Some(c) => match from_signed::<ShadingMode>(c) {
                Some(m) => m,
                None => unreached(),
            },
            None => ShadingMode::Gouraud,
        };
        let blend_mode = match self.blend_func {
            Some(c) => match from_signed::<BlendMode>(c) {
                Some(m) => m,
                None => unreached(),
            },
            None => BlendMode::Default,
        };
        MaterialProperties {
            name,
            twosided: answered_flag(&self.two_sided),
            shading_mode,
            wireframe: answered_flag(&self.wireframe),
            blend_mode,
            opacity: answered_single(&self.opacity, Single::one()),
            bumpscaling: answered_single(&self.bump_scaling, Single::zero()),
            shininess: answered_single(&self.shininess, Single::zero()),
            shininess_strength: answered_single(&self.shininess_strength, Single::one()),
            reflectivity: answered_single(&self.reflectivity, Single::zero()),
            refracti: answered_single(&self.refraction_index, Single::one()),
            color_diffuse: answered_color(&self.color_diffuse),
            color_ambient: answered_color(&self.color_ambient),
            color_specular: answered_color(&self.color_specular),
            color_emissive: answered_color(&self.color_emissive),
            color_transparent: answered_color(&self.color_transparent),
            color_reflective: answered_color(&self.color_reflective),
        }
    }

    /// The number of texture slots of a semantic.
    pub fn count_texture_properties(&self, tex_ty: TextureType) -> (r: u32)
        ensures
            r == self.slot_count(tex_ty),
    {
        let at = tex_ty.to_ffi() as usize;
        if at < self.textures.len() {
            self.textures[at].count
        } else {
            0
        }
    }

    /// Slot `idx` of a semantic, decoded, or nothing where the semantic has
    /// no such slot or the store did not answer for it.
    pub fn texture_properties(&self, tex_ty: TextureType, idx: u32) -> (r: Option<
        TextureProperties,
    >)
        requires
            self.stack(tex_ty) matches Some(s) ==> s.wf(),
        ensures
            idx >= self.slot_count(tex_ty) ==> r is None,
            r is Some <==> self.slot(tex_ty, idx) is Some,
            r matches Some(p) ==> {
                let b = self.slot(tex_ty, idx).unwrap();
                &&& p.texture_ref@ == b.path.text()
                &&& Some(p.mapping) == TextureMapping::decode(b.mapping)
                &&& p.uv_index == if b.uv_index != NO_UV_INDEX {
                    Some(b.uv_index)
                } else {
                    None
                }
                &&& p.blend == b.blend
                &&& Some(p.op) == TextureOp::decode(b.op)
                &&& p.map_mode@.len() == 2
                &&& Some(p.map_mode[0]) == TextureMapMode::decode(b.map_mode[0])
                &&& Some(p.map_mode[1]) == TextureMapMode::decode(b.map_mode[1])
                &&& p.flags.bits == b.flags
            },
    {
        if idx >= self.count_texture_properties(tex_ty) {
            return None;
        }
        let stack = &self.textures[tex_ty.to_ffi() as usize];
        assert(stack.wf());
        match &stack.slots[idx as usize] {
            Some(b) => {
                assert(b.wf());
                Some(
                    TextureProperties {
                        texture_ref: b.path.as_name().to_owned(),
                        mapping: decoded(b.mapping),
                        uv_index: if b.uv_index != NO_UV_INDEX {
                            Some(b.uv_index)
                        } else {
                            None
                        },
                        blend: b.blend,
                        op: decoded(b.op),
                        map_mode: [decoded(b.map_mode[0]), decoded(b.map_mode[1])],
                        flags: TextureFlags { bits: b.flags },
                    },
                )
            },
            None => None,
        }
    }
}

/// A material whose shading model or blend mode is set to a code outside
/// the domain is not well formed, so no scene holds it.
pub proof fn lemma_material_outside_domain(m: Material)
    requires
        (m.shading_model matches Some(c) && !(1 <= c <= 10)) || (m.blend_func matches Some(c)
            && !(0 <= c <= 1)),
    ensures
        !m.wf(),
{
}

impl Record for Material {
    /// The name, if set, is text; the shading model and the blend mode, if
    /// set, are in their domains; each texture stack is well formed.
    open spec fn wf(&self) -> bool {
        &&& self.name matches Some(s) ==> s.wf()
        &&& self.shading_mode() is Some
        &&& self.blend_mode() is Some
        &&& forall|i: int| 0 <= i < self.textures@.len() ==> (#[trigger] self.textures@[i]).wf()
    }

    fn is_well_formed(&self) -> (b: bool) {
        let name_ok = match &self.name {
            Some(s) => s.is_well_formed(),
            None => true,
        };
        let shading_ok = match self.shading_model {
            Some(c) => from_signed::<ShadingMode>(c).is_some(),
            None => true,
        };
        let blend_ok = match self.blend_func {
            Some(c) => from_signed::<BlendMode>(c).is_some(),
            None => true,
        };
        if !(name_ok && shading_ok && blend_ok) {
            return false;
        }
        let mut i: usize = 0;
        while i < self.textures.len()
            invariant
                i <= self.textures@.len(),
                forall|j: int| 0 <= j < i ==> (#[trigger] self.textures@[j]).wf(),
            decreases self.textures@.len() - i,
        {
            if !self.textures[i].is_well_formed() {
                assert(!self.textures@[i as int].wf());
                return false;
            }
            i += 1;
        }
        true
    }
}

} // verus!
