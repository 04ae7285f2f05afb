//! Light sources.

use crate::prim::{
    col3, vec2, vec3, Color3, RawColor3, RawString, RawVector2, RawVector3, Single, Vector2,
    Vector3,
};
use crate::record::Record;
use crate::translate::{decoded, ForeignEnum};
use vstd::prelude::*;

verus! {

/// The kinds of light sources.
#[derive(Debug, Clone, Copy, PartialEq, Eq, Structural)]
pub enum LightSourceType {
    Undefined,
    /// A light with a direction and no position: it is infinitely far away.
    Directional,
    /// A light with a position and no direction: it shines in all directions.
    Point,
    /// A light with a position and a direction, shining into a cone.
    Spot,
    /// The generic light level of the world, with neither position nor
    /// direction.
    Ambient,
    /// A rectangle that shines in one direction.
    Area,
}

impl ForeignEnum for LightSourceType {
    open spec fn code(self) -> u32 {
        match self {
            LightSourceType::Undefined => 0x0,
            LightSourceType::Directional => 0x1,
            LightSourceType::Point => 0x2,
            LightSourceType::Spot => 0x3,
            LightSourceType::Ambient => 0x4,
            LightSourceType::Area => 0x5,
        }
    }

    open spec fn decode(x: u32) -> Option<Self> {
        match x {
            0x0 => Some(LightSourceType::Undefined),
            0x1 => Some(LightSourceType::Directional),
            0x2 => Some(LightSourceType::Point),
            0x3 => Some(LightSourceType::Spot),
            0x4 => Some(LightSourceType::Ambient),
            0x5 => Some(LightSourceType::Area),
            _ => None,
        }
    }

    fn to_ffi(self) -> (r: u32) {
        match self {
            LightSourceType::Undefined => 0x0,
            LightSourceType::Directional => 0x1,
            LightSourceType::Point => 0x2,
            LightSourceType::Spot => 0x3,
            LightSourceType::Ambient => 0x4,
            LightSourceType::Area => 0x5,
        }
    }

    fn from_ffi(x: u32) -> (r: Option<Self>) {
        match x {
            0x0 => Some(LightSourceType::Undefined),
            0x1 => Some(LightSourceType::Directional),
            0x2 => Some(LightSourceType::Point),
            0x3 => Some(LightSourceType::Spot),
            0x4 => Some(LightSourceType::Ambient),
            0x5 => Some(LightSourceType::Area),
            _ => None,
        }
    }

    proof fn lemma_decode_encode(v: Self) {
    }

    proof fn lemma_encode_decode(x: u32) {
    }
}

/// A light source of the scene. Where it stands and shines is relative to
/// the node of the same name.
#[derive(Debug, Clone)]
pub struct Light {
    pub name: RawString,
    pub source_type: u32,
    pub position: RawVector3,
    pub direction: RawVector3,
    pub up: RawVector3,
    pub attenuation_constant: Single,
    pub attenuation_linear: Single,
    pub attenuation_quadratic: Single,
    pub color_diffuse: RawColor3,
    pub color_specular: RawColor3,
    pub color_ambient: RawColor3,
    pub angle_inner_cone: Single,
    pub angle_outer_cone: Single,
    pub size: RawVector2,
}

impl Light {
    /// The name of the light source.
    pub fn name(&self) -> (r: &str)
        requires
            self.name.named(),
        ensures
            r@ == self.name.text(),
    {
        self.name.as_name()
    }

    /// The kind of the light source.
    pub fn source_type(&self) -> (r: LightSourceType)
        requires
            LightSourceType::decode(self.source_type) is Some,
        ensures
            Some(r) == LightSourceType::decode(self.source_type),
    {
        decoded(self.source_type)
    }

    /// Position of the light source in space.
    pub fn position(&self) -> (r: Vector3)
        ensures
            r@ == seq![self.position.x, self.position.y, self.position.z],
    {
        vec3(self.position)
    }

    /// Direction of the light source in space.
    pub fn direction(&self) -> (r: Vector3)
        ensures
            r@ == seq![self.direction.x, self.direction.y, self.direction.z],
    {
        vec3(self.direction)
    }

    /// Up direction of the light source in space.
    pub fn up(&self) -> (r: Vector3)
        ensures
            r@ == seq![self.up.x, self.up.y, self.up.z],
    {
        vec3(self.up)
    }

    /// Constant light attenuation factor.
    pub fn attenuation_constant(&self) -> (r: Single)
        ensures
            r == self.attenuation_constant,
    {
        self.attenuation_constant
    }

    /// Linear light attenuation factor.
    pub fn attenuation_linear(&self) -> (r: Single)
        ensures
            r == self.attenuation_linear,
    {
        self.attenuation_linear
    }

    /// Quadratic light attenuation factor.
    pub fn attenuation_quadratic(&self) -> (r: Single)
        ensures
            r == self.attenuation_quadratic,
    {
        self.attenuation_quadratic
    }

    /// Diffuse colour of the light source.
    pub fn color_diffuse(&self) -> (r: Color3)
        ensures
            r@ == seq![self.color_diffuse.r, self.color_diffuse.g, self.color_diffuse.b],
    {
        col3(self.color_diffuse)
    }

    /// Specular colour of the light source.
    pub fn color_specular(&self) -> (r: Color3)
        ensures
            r@ == seq![self.color_specular.r, self.color_specular.g, self.color_specular.b],
    {
        col3(self.color_specular)
    }

    /// Ambient colour of the light source.
    pub fn color_ambient(&self) -> (r: Color3)
        ensures
            r@ == seq![self.color_ambient.r, self.color_ambient.g, self.color_ambient.b],
    {
        col3(self.color_ambient)
    }

    /// Inner angle of a spot light's light cone, in radians.
    pub fn angle_inner_cone(&self) -> (r: Single)
        ensures
            r == self.angle_inner_cone,
    {
        self.angle_inner_cone
    }

    /// Outer angle of a spot light's light cone, in radians.
    pub fn angle_outer_cone(&self) -> (r: Single)
        ensures
            r == self.angle_outer_cone,
    {
        self.angle_outer_cone
    }

    /// Size of an area light source.
    pub fn size(&self) -> (r: Vector2)
        ensures
            r@ == seq![self.size.x, self.size.y],
    {
        vec2(self.size)
    }
}

/// A light whose kind is outside the domain is not well formed, so no scene
/// holds it.
pub proof fn lemma_light_outside_domain(l: Light)
    requires
        l.source_type > 5,
    ensures
        LightSourceType::decode(l.source_type) is None,
        !l.wf(),
{
}

impl Record for Light {
    /// The light has a name, and its kind is in the domain.
    open spec fn wf(&self) -> bool {
        &&& self.name.named()
        &&& LightSourceType::decode(self.source_type) is Some
    }

    fn is_well_formed(&self) -> (b: bool) {
        self.name.is_named() && LightSourceType::from_ffi(self.source_type).is_some()
    }
}

} // verus!
