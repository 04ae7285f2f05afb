//! The post-processing steps that can be asked of the import engine.

use vstd::prelude::*;

verus! {

/// A set of post-processing steps to run on a scene after it is imported.
#[derive(Clone, Copy, Debug, PartialEq, Eq, Structural)]
pub struct PostProcessSteps {
    pub bits: u32,
}

/// Calculates the tangents and bitangents of the imported meshes.
pub const CALC_TANGENT_SPACE: u32 = 0x1;

/// Identifies and joins identical vertex data sets within all meshes.
pub const JOIN_IDENTICAL_VERTICES: u32 = 0x2;

/// Converts all the imported data to a left-handed coordinate space.
pub const MAKE_LEFT_HANDED: u32 = 0x4;

/// Triangulates all faces of all meshes.
pub const TRIANGULATE: u32 = 0x8;

/// Removes some parts of the data structure.
pub const REMOVE_COMPONENT: u32 = 0x10;

/// Generates normals for all faces of all meshes.
pub const GEN_NORMALS: u32 = 0x20;

/// Generates smooth normals for all vertices in the mesh.
pub const GEN_SMOOTH_NORMALS: u32 = 0x40;

/// Splits large meshes into smaller sub-meshes.
pub const SPLIT_LARGE_MESHES: u32 = 0x80;

/// Removes the node graph and transforms all vertices beforehand.
pub const PRE_TRANSFORM_VERTICES: u32 = 0x100;

/// Limits the number of bones that affect a single vertex.
pub const LIMIT_BONE_WEIGHTS: u32 = 0x200;

/// Validates the imported scene data structure.
pub const VALIDATE_DATA_STRUCTURE: u32 = 0x400;

/// Reorders triangles for better vertex cache locality.
pub const IMPROVE_CACHE_LOCALITY: u32 = 0x800;

/// Searches for redundant or unreferenced materials and removes them.
pub const REMOVE_REDUNDANT_MATERIALS: u32 = 0x1000;

/// Tries to find the normals that face inwards and inverts them.
pub const FIX_INFACING_NORMALS: u32 = 0x2000;

/// Splits meshes with more than one primitive type into homogeneous
/// sub-meshes.
pub const SORT_BY_PTYPE: u32 = 0x8000;

/// Converts degenerate primitives into proper lines or points.
pub const FIND_DEGENERATES: u32 = 0x10000;

/// Searches all meshes for invalid data and removes or fixes it.
pub const FIND_INVALID_DATA: u32 = 0x20000;

/// Converts mappings that are not UV mappings to proper texture
/// coordinate channels.
pub const GEN_UV_COORDS: u32 = 0x40000;

/// Applies per-texture UV transformations and bakes them into
/// stand-alone texture coordinate channels.
pub const TRANSFORM_UV_COORDS: u32 = 0x80000;

/// Searches for duplicate meshes and replaces them with references to
/// the first mesh.
pub const FIND_INSTANCES: u32 = 0x100000;

/// Reduces the number of meshes.
pub const OPTIMIZE_MESHES: u32 = 0x200000;

/// Optimizes the scene hierarchy.
pub const OPTIMIZE_GRAPH: u32 = 0x400000;

/// Flips all UV coordinates along the y-axis.
pub const FLIP_UVS: u32 = 0x800000;

/// Makes face winding order clockwise.
pub const FLIP_WINDING_ORDER: u32 = 0x1000000;

/// Splits meshes with many bones into sub-meshes.
pub const SPLIT_BY_BONE_COUNT: u32 = 0x2000000;

/// Removes bones losslessly or according to some threshold.
pub const DEBONE: u32 = 0x4000000;

impl PostProcessSteps {
    /// Every bit of `bits` is a flag of this set.
    pub open spec fn known(bits: u32) -> bool {
        bits & !0x7ffbfffu32 == 0
    }

    /// The set without any flag.
    pub fn empty() -> (r: Self)
        ensures
            r.bits == 0,
    {
        PostProcessSteps { bits: 0 }
    }

    /// The set of all flags.
    pub fn all() -> (r: Self)
        ensures
            r.bits == 0x7ffbfff,
    {
        PostProcessSteps { bits: 0x7ffbfff }
    }

    pub fn bits(&self) -> (r: u32)
        ensures
            r == self.bits,
    {
        self.bits
    }

    /// The set that `bits` stands for, or nothing where a bit of it is no
    /// flag of this set.
    pub fn from_bits(bits: u32) -> (r: Option<Self>)
        ensures
            r is Some <==> Self::known(bits),
            r matches Some(f) ==> f.bits == bits,
    {
        if bits & !0x7ffbfffu32 == 0 {
            Some(PostProcessSteps { bits })
        } else {
            None
        }
    }

    /// The flags of this set among `bits`; the other bits are dropped.
    pub fn from_bits_truncate(bits: u32) -> (r: Self)
        ensures
            r.bits == bits & 0x7ffbfff,
    {
        PostProcessSteps { bits: bits & 0x7ffbfff }
    }

    pub fn is_empty(&self) -> (r: bool)
        ensures
            r == (self.bits == 0),
    {
        self.bits == 0
    }

    /// Every flag of `other` is in this set.
    pub fn contains(&self, other: Self) -> (r: bool)
        ensures
            r == (self.bits & other.bits == other.bits),
    {
        self.bits & other.bits == other.bits
    }

    /// The flags that are in this set or in `other`.
    pub fn union(self, other: Self) -> (r: Self)
        ensures
            r.bits == self.bits | other.bits,
    {
        PostProcessSteps { bits: self.bits | other.bits }
    }
}

} // verus!
