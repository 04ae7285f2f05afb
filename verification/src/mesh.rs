//! Meshes: geometry with a single material.

use crate::prim::{
    bridged, fits, mat4, pointee, pointer, slice, str, Color4, Matrix4, RawMatrix4, RawString,
    Single, Vector3,
};
use crate::record::{check_fits, check_records, records_wf, Record};
use vstd::prelude::*;

verus! {

pub type VertexIdx = libc::c_uint;

pub type MaterialIdx = libc::c_uint;

/// The number of vertex colour channels that a mesh can hold.
pub const MAX_COLOR_SETS: usize = 8;

/// The number of texture coordinate channels that a mesh can hold.
pub const MAX_TEXTURE_COORDS: usize = 8;

// ++++++++++++++++++++ Face ++++++++++++++++++++

/// A single face of a mesh: the vertices it refers to, by index. Three
/// indices make a triangle, more make a polygon.
#[derive(Debug, Clone)]
pub struct Face {
    pub num_indices: u32,
    pub indices: Option<Vec<VertexIdx>>,
}

impl Face {
    /// The indices defining this face.
    pub fn indices(&self) -> (r: &[VertexIdx])
        requires
            self.wf(),
        ensures
            r@ == bridged(pointee(self.indices), self.num_indices as nat),
    {
        slice(pointer(&self.indices), self.num_indices)
    }
}

impl Record for Face {
    /// The index array, unless it is null, holds as many indices as the
    /// face counts.
    open spec fn wf(&self) -> bool {
        fits(pointee(self.indices), self.num_indices as nat)
    }

    fn is_well_formed(&self) -> (b: bool) {
        check_fits(&self.indices, self.num_indices)
    }
}

// ++++++++++++++++++++ VertexWeight ++++++++++++++++++++

/// A single influence of a bone on a vertex.
#[derive(Debug, Clone, Copy)]
pub struct VertexWeight {
    pub vertex_id: VertexIdx,
    pub weight: Single,
}

impl VertexWeight {
    /// Index of the vertex which is influenced by the bone.
    pub fn vertex_idx(&self) -> (r: VertexIdx)
        ensures
            r == self.vertex_id,
    {
        self.vertex_id
    }

    /// The strength of the influence, between 0 and 1.
    pub fn weight(&self) -> (r: Single)
        ensures
            r == self.weight,
    {
        self.weight
    }
}

// ++++++++++++++++++++ Bone ++++++++++++++++++++

/// A single bone of a mesh: a name by which it is found in the node
/// hierarchy and addressed by animations, and its influences on vertices.
#[derive(Debug, Clone)]
pub struct Bone {
    pub name: RawString,
    pub num_weights: u32,
    pub weights: Option<Vec<VertexWeight>>,
    pub offset_matrix: RawMatrix4,
}

impl Bone {
    /// The name of the bone.
    pub fn name(&self) -> (r: &str)
        requires
            self.name.named(),
        ensures
            r@ == self.name.text(),
    {
        self.name.as_name()
    }

    /// The vertices affected by this bone.
    pub fn weights(&self) -> (r: &[VertexWeight])
        requires
            fits(pointee(self.weights), self.num_weights as nat),
        ensures
            r@ == bridged(pointee(self.weights), self.num_weights as nat),
    {
        slice(pointer(&self.weights), self.num_weights)
    }

    /// Matrix that transforms from mesh space to bone space in bind pose.
    pub fn offset_matrix(&self) -> (r: Matrix4)
        ensures
            r@.len() == 4,
            r@[0]@ == seq![
                self.offset_matrix.a1,
                self.offset_matrix.a2,
                self.offset_matrix.a3,
                self.offset_matrix.a4,
            ],
            r@[1]@ == seq![
                self.offset_matrix.b1,
                self.offset_matrix.b2,
                self.offset_matrix.b3,
                self.offset_matrix.b4,
            ],
            r@[2]@ == seq![
                self.offset_matrix.c1,
                self.offset_matrix.c2,
                self.offset_matrix.c3,
                self.offset_matrix.c4,
            ],
            r@[3]@ == seq![
                self.offset_matrix.d1,
                self.offset_matrix.d2,
                self.offset_matrix.d3,
                self.offset_matrix.d4,
            ],
    {
        mat4(self.offset_matrix)
    }
}

impl Record for Bone {
    /// The bone has a name, and the weight array, unless it is null, holds
    /// as many weights as the bone counts.
    open spec fn wf(&self) -> bool {
        &&& self.name.named()
        &&& fits(pointee(self.weights), self.num_weights as nat)
    }

    fn is_well_formed(&self) -> (b: bool) {
        self.name.is_named() && check_fits(&self.weights, self.num_weights)
    }
}

// ++++++++++++++++++++ PrimitiveTypes ++++++++++++++++++++

/// The kinds of geometric primitives that a mesh holds.
#[derive(Clone, Copy, Debug, PartialEq, Eq, Structural)]
pub struct PrimitiveTypes {
    pub bits: u32,
}

/// A point: a face with one index.
pub const POINT: u32 = 0x1;

/// A line: a face with two indices.
pub const LINE: u32 = 0x2;

/// A triangle: a face with three indices.
pub const TRIANGLE: u32 = 0x4;

/// A polygon with more than three edges.
pub const POLYGON: u32 = 0x8;

impl PrimitiveTypes {
    /// Every bit of `bits` is a flag of this set.
    pub open spec fn known(bits: u32) -> bool {
        bits & !0xfu32 == 0
    }

    /// The set without any flag.
    pub fn empty() -> (r: Self)
        ensures
            r.bits == 0,
    {
        PrimitiveTypes { bits: 0 }
    }

    /// The set of all flags.
    pub fn all() -> (r: Self)
        ensures
            r.bits == 0xf,
    {
        PrimitiveTypes { bits: 0xf }
    }

    pub fn bits(&self) -> (r: u32)
        ensures
            r == self.bits,
    {
        self.bits
    }

    /// The set that `bits` stands for, or nothing where a bit of it is no
    /// flag of this set.
    pub fn from_bits(bits: u32) -> (r: Option<Self>)
        ensures
            r is Some <==> Self::known(bits),
            r matches Some(f) ==> f.bits == bits,
    {
        if bits & !0xfu32 == 0 {
            Some(PrimitiveTypes { bits })
        } else {
            None
        }
    }

    /// The flags of this set among `bits`; the other bits are dropped.
    pub fn from_bits_truncate(bits: u32) -> (r: Self)
        ensures
            r.bits == bits & 0xf,
    {
        PrimitiveTypes { bits: bits & 0xf }
    }

    pub fn is_empty(&self) -> (r: bool)
        ensures
            r == (self.bits == 0),
    {
        self.bits == 0
    }

    /// Every flag of `other` is in this set.
    pub fn contains(&self, other: Self) -> (r: bool)
        ensures
            r == (self.bits & other.bits == other.bits),
    {
        self.bits & other.bits == other.bits
    }

    /// The flags that are in this set or in `other`.
    pub fn union(self, other: Self) -> (r: Self)
        ensures
            r.bits == self.bits | other.bits,
    {
        PrimitiveTypes { bits: self.bits | other.bits }
    }
}

// ++++++++++++++++++++ Mesh ++++++++++++++++++++

/// A mesh: a geometry with a single material.
///
/// Vertex data comes in channels, each holding one piece of information for
/// each vertex. A channel whose pointer is null is not there; one that is
/// there holds `num_vertices` elements.
#[derive(Debug, Clone)]
pub struct Mesh {
    pub primitive_types: u32,
    pub num_vertices: u32,
    pub num_faces: u32,
    pub vertices: Option<Vec<Vector3>>,
    pub normals: Option<Vec<Vector3>>,
    pub tangents: Option<Vec<Vector3>>,
    pub bitangents: Option<Vec<Vector3>>,
    pub colors: [Option<Vec<Color4>>; 8],
    pub texture_coords: [Option<Vec<Vector3>>; 8],
    pub num_uv_components: [u32; 8],
    pub faces: Option<Vec<Face>>,
    pub num_bones: u32,
    pub bones: Option<Vec<Bone>>,
    pub material_index: MaterialIdx,
    pub name: RawString,
}

impl Mesh {
    /// What a vertex channel stands for.
    pub open spec fn channel<T>(&self, ptr: Option<Vec<T>>) -> Seq<T> {
        bridged(pointee(ptr), self.num_vertices as nat)
    }

    /// Name of the mesh. Meshes can be named, but need not be.
    pub fn name(&self) -> (r: Option<&str>)
        requires
            self.name.wf(),
        ensures
            self.name.length == 0 ==> r is None,
            self.name.length != 0 ==> r is Some && r.unwrap()@ == self.name.text(),
    {
        str(&self.name)
    }

    /// The kinds of primitives that are present in the mesh.
    pub fn primitive_types(&self) -> (r: PrimitiveTypes)
        requires
            PrimitiveTypes::known(self.primitive_types),
        ensures
            r.bits == self.primitive_types,
    {
        PrimitiveTypes { bits: self.primitive_types }
    }

    /// Vertex positions.
    pub fn vertices(&self) -> (r: &[Vector3])
        requires
            fits(pointee(self.vertices), self.num_vertices as nat),
        ensures
            r@ == self.channel(self.vertices),
    {
        slice(pointer(&self.vertices), self.num_vertices)
    }

    /// Vertex normals, empty where the mesh has none.
    pub fn normals(&self) -> (r: &[Vector3])
        requires
            fits(pointee(self.normals), self.num_vertices as nat),
        ensures
            r@ == self.channel(self.normals),
    {
        slice(pointer(&self.normals), self.num_vertices)
    }

    /// Vertex tangents, empty where the mesh has none. The tangent of a
    /// vertex points in the direction of the positive X texture axis.
    pub fn tangents(&self) -> (r: &[Vector3])
        requires
            fits(pointee(self.tangents), self.num_vertices as nat),
        ensures
            r@ == self.channel(self.tangents),
    {
        slice(pointer(&self.tangents), self.num_vertices)
    }

    /// Vertex bitangents, empty where the mesh has none. The bitangent of a
    /// vertex points in the direction of the positive Y texture axis.
    pub fn bitangents(&self) -> (r: &[Vector3])
        requires
            fits(pointee(self.bitangents), self.num_vertices as nat),
        ensures
            r@ == self.channel(self.bitangents),
    {
        slice(pointer(&self.bitangents), self.num_vertices)
    }

    /// A vertex colour channel, empty where the mesh has no such channel.
    pub fn colors(&self, channel: usize) -> (r: &[Color4])
        requires
            channel < MAX_COLOR_SETS ==> fits(
                pointee(self.colors@[channel as int]),
                self.num_vertices as nat,
            ),
        ensures
            r@ == if channel < MAX_COLOR_SETS {
                self.channel(self.colors@[channel as int])
            } else {
                Seq::empty()
            },
    {
        if channel >= MAX_COLOR_SETS {
            return &[];
        }
        slice(pointer(&self.colors[channel]), self.num_vertices)
    }

    /// A texture coordinate channel, also known as UV channel, empty where
    /// the mesh has no such channel.
    pub fn texture_coords(&self, channel: usize) -> (r: &[Vector3])
        requires
            channel < MAX_TEXTURE_COORDS ==> fits(
                pointee(self.texture_coords@[channel as int]),
                self.num_vertices as nat,
            ),
        ensures
            r@ == if channel < MAX_TEXTURE_COORDS {
                self.channel(self.texture_coords@[channel as int])
            } else {
                Seq::empty()
            },
    {
        if channel >= MAX_TEXTURE_COORDS {
            return &[];
        }
        slice(pointer(&self.texture_coords[channel]), self.num_vertices)
    }

    /// The number of components of a UV channel: up to three, none for a
    /// channel that a mesh cannot hold.
    pub fn num_uv_components(&self, channel: usize) -> (r: usize)
        ensures
            r == if channel < MAX_TEXTURE_COORDS {
                self.num_uv_components@[channel as int] as usize
            } else {
                0
            },
    {
        if channel >= MAX_TEXTURE_COORDS {
            return 0;
        }
        self.num_uv_components[channel] as usize
    }

    /// The faces the mesh is constructed from.
    pub fn faces(&self) -> (r: &[Face])
        requires
            records_wf(self.faces, self.num_faces),
        ensures
            r@ == bridged(pointee(self.faces), self.num_faces as nat),
            forall|i: int| 0 <= i < r@.len() ==> (#[trigger] r@[i]).wf(),
    {
        slice(pointer(&self.faces), self.num_faces)
    }

    /// The bones of this mesh.
    pub fn bones(&self) -> (r: &[Bone])
        requires
            records_wf(self.bones, self.num_bones),
        ensures
            r@ == bridged(pointee(self.bones), self.num_bones as nat),
            forall|i: int| 0 <= i < r@.len() ==> (#[trigger] r@[i]).wf(),
    {
        slice(pointer(&self.bones), self.num_bones)
    }

    /// The material used by this mesh, as an index into the scene's
    /// material list.
    pub fn material_idx(&self) -> (r: MaterialIdx)
        ensures
            r == self.material_index,
    {
        self.material_index
    }
}

impl Record for Mesh {
    /// The name is text, the primitive types are known flags, each vertex
    /// channel that is there holds an element for each vertex, and the faces
    /// and bones are there and well formed.
    open spec fn wf(&self) -> bool {
        &&& self.name.wf()
        &&& PrimitiveTypes::known(self.primitive_types)
        &&& fits(pointee(self.vertices), self.num_vertices as nat)
        &&& fits(pointee(self.normals), self.num_vertices as nat)
        &&& fits(pointee(self.tangents), self.num_vertices as nat)
        &&& fits(pointee(self.bitangents), self.num_vertices as nat)
        &&& forall|c: int|
            0 <= c < MAX_COLOR_SETS ==> fits(
                pointee(#[trigger] self.colors@[c]),
                self.num_vertices as nat,
            )
        &&& forall|c: int|
            0 <= c < MAX_TEXTURE_COORDS ==> fits(
                pointee(#[trigger] self.texture_coords@[c]),
                self.num_vertices as nat,
            )
        &&& records_wf(self.faces, self.num_faces)
        &&& records_wf(self.bones, self.num_bones)
    }

    fn is_well_formed(&self) -> (b: bool) {
        if !(self.name.is_well_formed() && PrimitiveTypes::from_bits(
            self.primitive_types,
        ).is_some() && check_fits(&self.vertices, self.num_vertices) && check_fits(
            &self.normals,
            self.num_vertices,
        ) && check_fits(&self.tangents, self.num_vertices) && check_fits(
            &self.bitangents,
            self.num_vertices,
        )) {
            return false;
        }
        let mut c: usize = 0;
        while c < 8
            invariant
                c <= 8,
                forall|j: int|
                    0 <= j < c ==> fits(
                        pointee(#[trigger] self.colors@[j]),
                        self.num_vertices as nat,
                    ),
                forall|j: int|
                    0 <= j < c ==> fits(
                        pointee(#[trigger] self.texture_coords@[j]),
                        self.num_vertices as nat,
                    ),
            decreases 8 - c,
        {
            if !check_fits(&self.colors[c], self.num_vertices) {
                assert(!fits(pointee(self.colors@[c as int]), self.num_vertices as nat));
                return false;
            }
            if !check_fits(&self.texture_coords[c], self.num_vertices) {
                assert(!fits(pointee(self.texture_coords@[c as int]), self.num_vertices as nat));
                return false;
            }
            c += 1;
        }
        check_records(&self.faces, self.num_faces) && check_records(&self.bones, self.num_bones)
    }
}

} // verus!
