//! The scene: the owner of everything that was imported, and the node
//! hierarchy that hangs from it.

use crate::anim::Animation;
use crate::camera::Camera;
use crate::light::Light;
use crate::material::Material;
use crate::mesh::Mesh;
use crate::metadata::MetaData;
use crate::postprocess::PostProcessSteps;
use crate::prim::{
    bridged, c_string, fits, mat4, pointee, pointer, slice, str, Matrix4, RawMatrix4, RawString,
};
use crate::record::{check_fits, check_records, records_wf, Record};
use crate::texture::Texture;
use vstd::prelude::*;
use vstd::string::StringSliceAdditionalSpecFns;

verus! {

pub type MeshIdx = libc::c_uint;

// ++++++++++++++++++++ records ++++++++++++++++++++

/// A node of the hierarchy, as it lies in the scene's arena. Its links to
/// other nodes are places in the arena: `parent` is the place of the node
/// above it, null for the root, and `children` holds the places of the nodes
/// below it.
#[derive(Debug, Clone)]
pub struct NodeData {
    pub name: RawString,
    pub transformation: RawMatrix4,
    pub parent: Option<usize>,
    pub num_children: u32,
    pub children: Option<Vec<usize>>,
    pub num_meshes: u32,
    pub meshes: Option<Vec<MeshIdx>>,
    pub meta_data: Option<MetaData>,
}

impl Record for NodeData {
    /// The name is text, the child and mesh arrays hold as many elements as
    /// the node counts, and the metadata block, if there is one, is well
    /// formed.
    open spec fn wf(&self) -> bool {
        &&& self.name.wf()
        &&& fits(pointee(self.children), self.num_children as nat)
        &&& fits(pointee(self.meshes), self.num_meshes as nat)
        &&& self.meta_data matches Some(m) ==> m.wf()
    }

    fn is_well_formed(&self) -> (b: bool) {
        self.name.is_well_formed() && check_fits(&self.children, self.num_children) && check_fits(
            &self.meshes,
            self.num_meshes,
        ) && match &self.meta_data {
            Some(m) => m.is_well_formed(),
            None => true,
        }
    }
}

/// What is known of a scene as a whole.
#[derive(Clone, Copy, Debug, PartialEq, Eq, Structural)]
pub struct SceneFlags {
    pub bits: u32,
}

/// The scene data structure that was imported is not complete.
pub const INCOMPLETE: u32 = 0x1;

/// The validation step found the data structure to be sound.
pub const VALIDATED: u32 = 0x2;

/// The validation step found the data structure to be sound, but with
/// issues.
pub const VALIDATION_WARNING: u32 = 0x4;

/// A vertex may be referenced by more than one face.
pub const NON_VERBOSE_FORMAT: u32 = 0x8;

/// The scene is pure height-map terrain data.
pub const TERRAIN: u32 = 0x10;

impl SceneFlags {
    /// Every bit of `bits` is a flag of this set.
    pub open spec fn known(bits: u32) -> bool {
        bits & !0x1fu32 == 0
    }

    /// The set without any flag.
    pub fn empty() -> (r: Self)
        ensures
            r.bits == 0,
    {
        SceneFlags { bits: 0 }
    }

    /// The set of all flags.
    pub fn all() -> (r: Self)
        ensures
            r.bits == 0x1f,
    {
        SceneFlags { bits: 0x1f }
    }

    pub fn bits(&self) -> (r: u32)
        ensures
            r == self.bits,
    {
        self.bits
    }

    /// The set that `bits` stands for, or nothing where a bit of it is no
    /// flag of this set.
    pub fn from_bits(bits: u32) -> (r: Option<Self>)
        ensures
            r is Some <==> Self::known(bits),
            r matches Some(f) ==> f.bits == bits,
    {
        if bits & !0x1fu32 == 0 {
            Some(SceneFlags { bits })
        } else {
            None
        }
    }

    /// The flags of this set among `bits`; the other bits are dropped.
    pub fn from_bits_truncate(bits: u32) -> (r: Self)
        ensures
            r.bits == bits & 0x1f,
    {
        SceneFlags { bits: bits & 0x1f }
    }

    pub fn is_empty(&self) -> (r: bool)
        ensures
            r == (self.bits == 0),
    {
        self.bits == 0
    }

    /// Every flag of `other` is in this set.
    pub fn contains(&self, other: Self) -> (r: bool)
        ensures
            r == (self.bits & other.bits == other.bits),
    {
        self.bits & other.bits == other.bits
    }

    /// The flags that are in this set or in `other`.
    pub fn union(self, other: Self) -> (r: Self)
        ensures
            r.bits == self.bits | other.bits,
    {
        SceneFlags { bits: self.bits | other.bits }
    }
}

/// Everything that was imported, as the import engine lays it out.
///
/// `nodes` is the arena of the hierarchy and `root_node` the place of its
/// root. The other collections are flat.
#[derive(Debug, Clone)]
pub struct SceneData {
    pub flags: u32,
    pub root_node: Option<usize>,
    pub nodes: Vec<NodeData>,
    pub num_meshes: u32,
    pub meshes: Option<Vec<Mesh>>,
    pub num_materials: u32,
    pub materials: Option<Vec<Material>>,
    pub num_animations: u32,
    pub animations: Option<Vec<Animation>>,
    pub num_textures: u32,
    pub textures: Option<Vec<Texture>>,
    pub num_lights: u32,
    pub lights: Option<Vec<Light>>,
    pub num_cameras: u32,
    pub cameras: Option<Vec<Camera>>,
}

impl SceneData {
    /// The places of the children of the node at place `n`.
    pub open spec fn children_of(&self, n: int) -> Seq<usize> {
        bridged(pointee(self.nodes@[n].children), self.nodes@[n].num_children as nat)
    }

    /// The links of the node at place `n` are sound: it has no parent
    /// exactly if it is the root, its parent counts it among its children,
    /// and each of its children names it as parent.
    pub open spec fn linked(&self, n: int) -> bool {
        &&& self.nodes@[n].parent is None <==> self.root_node == Some(n as usize)
        &&& self.nodes@[n].parent matches Some(p) ==> p < self.nodes@.len() && self.children_of(
            p as int,
        ).contains(n as usize)
        &&& forall|k: int|
            0 <= k < self.children_of(n).len() ==> {
                let c = #[trigger] self.children_of(n)[k];
                c < self.nodes@.len() && self.nodes@[c as int].parent == Some(n as usize)
            }
    }

    /// The meshes that belong to the scene.
    pub open spec fn mesh_seq(&self) -> Seq<Mesh> {
        bridged(pointee(self.meshes), self.num_meshes as nat)
    }

    /// The meshes of the node at place `n`, each by its place in the mesh
    /// list of the scene.
    pub open spec fn meshes_of(&self, n: int) -> Seq<MeshIdx> {
        bridged(pointee(self.nodes@[n].meshes), self.nodes@[n].num_meshes as nat)
    }

    /// Each mesh that the node at place `n` refers to is a mesh of the
    /// scene.
    pub open spec fn refers(&self, n: int) -> bool {
        forall|k: int|
            0 <= k < self.meshes_of(n).len() ==> (#[trigger] self.meshes_of(n)[k])
                < self.mesh_seq().len()
    }

    /// Every node refers to meshes of the scene only.
    pub open spec fn references_wf(&self) -> bool {
        forall|n: int| 0 <= n < self.nodes@.len() ==> #[trigger] self.refers(n)
    }

    /// The hierarchy has a root, its nodes are well formed, and the links of
    /// each node are sound.
    pub open spec fn hierarchy_wf(&self) -> bool {
        &&& self.root_node matches Some(r) && r < self.nodes@.len()
        &&& forall|n: int| 0 <= n < self.nodes@.len() ==> (#[trigger] self.nodes@[n]).wf()
        &&& forall|n: int| 0 <= n < self.nodes@.len() ==> #[trigger] self.linked(n)
    }

    /// Whether `x` is among `s`.
    fn among(s: &[usize], x: usize) -> (b: bool)
        ensures
            b == s@.contains(x),
    {
        let mut i: usize = 0;
        while i < s.len()
            invariant
                i <= s@.len(),
                forall|j: int| 0 <= j < i ==> s@[j] != x,
            decreases s@.len() - i,
        {
            if s[i] == x {
                return true;
            }
            i += 1;
        }
        false
    }

    /// Decides `linked` for the node at place `n`.
    fn is_linked(&self, n: usize) -> (b: bool)
        requires
            n < self.nodes@.len(),
            forall|m: int| 0 <= m < self.nodes@.len() ==> (#[trigger] self.nodes@[m]).wf(),
        ensures
            b == self.linked(n as int),
    {
        let node = &self.nodes[n];
        let is_root = match self.root_node {
            Some(r) => r == n,
            None => false,
        };
        let up = match node.parent {
            Some(p) => {
                if is_root || p >= self.nodes.len() {
                    false
                } else {
                    let above = &self.nodes[p];
                    assert(above.wf());
                    Self::among(slice(pointer(&above.children), above.num_children), n)
                }
            },
            None => is_root,
        };
        if !up {
            return false;
        }
        assert(node.wf());
        let below = slice(pointer(&node.children), node.num_children);
        let mut k: usize = 0;
        while k < below.len()
            invariant
                n < self.nodes@.len(),
                below@ == self.children_of(n as int),
                k <= below@.len(),
                forall|j: int|
                    0 <= j < k ==> {
                        let c = #[trigger] self.children_of(n as int)[j];
                        c < self.nodes@.len() && self.nodes@[c as int].parent == Some(n)
                    },
            decreases below@.len() - k,
        {
            let c = below[k];
            let down = c < self.nodes.len() && match self.nodes[c].parent {
                Some(p) => p == n,
                None => false,
            };
            if !down {
                assert(self.children_of(n as int)[k as int] == c);
                return false;
            }
            k += 1;
        }
        true
    }

    /// Decides `references_wf`.
    fn is_referring(&self) -> (b: bool)
        requires
            self.hierarchy_wf(),
            records_wf(self.meshes, self.num_meshes),
        ensures
            b == self.references_wf(),
    {
        let count = slice(pointer(&self.meshes), self.num_meshes).len();
        let mut n: usize = 0;
        while n < self.nodes.len()
            invariant
                self.hierarchy_wf(),
                count == self.mesh_seq().len(),
                n <= self.nodes@.len(),
                forall|m: int| 0 <= m < n ==> #[trigger] self.refers(m),
            decreases self.nodes@.len() - n,
        {
            let node = &self.nodes[n];
            assert(node.wf());
            let indices = slice(pointer(&node.meshes), node.num_meshes);
            let mut k: usize = 0;
            while k < indices.len()
                invariant
                    n < self.nodes@.len(),
                    count == self.mesh_seq().len(),
                    indices@ == self.meshes_of(n as int),
                    k <= indices@.len(),
                    forall|j: int|
                        0 <= j < k ==> (#[trigger] self.meshes_of(n as int)[j]) < count,
                decreases indices@.len() - k,
            {
                if indices[k] as usize >= count {
                    assert(!(self.meshes_of(n as int)[k as int] < count));
                    assert(!self.refers(n as int));
                    return false;
                }
                k += 1;
            }
            n += 1;
        }
        true
    }

    /// Decides `hierarchy_wf`.
    fn is_hierarchy(&self) -> (b: bool)
        ensures
            b == self.hierarchy_wf(),
    {
        match self.root_node {
            Some(r) => if r >= self.nodes.len() {
                return false;
            },
            None => {
                return false;
            },
        }
        let mut n: usize = 0;
        while n < self.nodes.len()
            invariant
                n <= self.nodes@.len(),
                forall|m: int| 0 <= m < n ==> (#[trigger] self.nodes@[m]).wf(),
            decreases self.nodes@.len() - n,
        {
            if !self.nodes[n].is_well_formed() {
                assert(!self.nodes@[n as int].wf());
                return false;
            }
            n += 1;
        }
        let mut n: usize = 0;
        while n < self.nodes.len()
            invariant
                n <= self.nodes@.len(),
                forall|m: int| 0 <= m < self.nodes@.len() ==> (#[trigger] self.nodes@[m]).wf(),
                forall|m: int| 0 <= m < n ==> #[trigger] self.linked(m),
            decreases self.nodes@.len() - n,
        {
            if !self.is_linked(n) {
                assert(!self.linked(n as int));
                return false;
            }
            n += 1;
        }
        true
    }
}

impl Record for SceneData {
    /// The flags are known flags, the hierarchy is well formed, each flat
    /// collection holds as many well-formed records as the scene counts,
    /// and the nodes refer to meshes of the scene only.
    open spec fn wf(&self) -> bool {
        &&& SceneFlags::known(self.flags)
        &&& self.hierarchy_wf()
        &&& self.references_wf()
        &&& records_wf(self.meshes, self.num_meshes)
        &&& records_wf(self.materials, self.num_materials)
        &&& records_wf(self.animations, self.num_animations)
        &&& records_wf(self.textures, self.num_textures)
        &&& records_wf(self.lights, self.num_lights)
        &&& records_wf(self.cameras, self.num_cameras)
    }

    fn is_well_formed(&self) -> (b: bool) {
        SceneFlags::from_bits(self.flags).is_some() && self.is_hierarchy() && check_records(
            &self.meshes,
            self.num_meshes,
        ) && self.is_referring() && check_records(&self.materials, self.num_materials)
            && check_records(
            &self.animations,
            self.num_animations,
        ) && check_records(&self.textures, self.num_textures) && check_records(
            &self.lights,
            self.num_lights,
        ) && check_records(&self.cameras, self.num_cameras)
    }
}

/// In a well-formed scene, each mesh that a node refers to is a mesh of the
/// scene.
pub proof fn lemma_node_refers_to_mesh(scene: SceneData, n: int, k: int)
    requires
        scene.wf(),
        0 <= n < scene.nodes@.len(),
        0 <= k < scene.meshes_of(n).len(),
    ensures
        scene.meshes_of(n)[k] < scene.mesh_seq().len(),
{
    assert(scene.refers(n));
}

/// The root of a well-formed scene has no parent.
pub proof fn lemma_root_has_no_parent(scene: SceneData)
    requires
        scene.wf(),
    ensures
        scene.root_node matches Some(r) && r < scene.nodes@.len() && scene.nodes@[r as int].parent
            is None,
{
    assert(scene.linked(scene.root_node.unwrap() as int));
}

/// In a well-formed scene, following the parent link of a child of the node
/// at place `n` leads back to `n`.
pub proof fn lemma_child_names_parent(scene: SceneData, n: int, k: int)
    requires
        scene.wf(),
        0 <= n < scene.nodes@.len(),
        0 <= k < scene.children_of(n).len(),
    ensures
        scene.children_of(n)[k] < scene.nodes@.len(),
        scene.nodes@[scene.children_of(n)[k] as int].parent == Some(n as usize),
{
    assert(scene.linked(n));
}

/// In a well-formed scene, every node but the root has a parent, and is
/// among the children of that parent.
pub proof fn lemma_parent_counts_child(scene: SceneData, n: int)
    requires
        scene.wf(),
        0 <= n < scene.nodes@.len(),
        scene.root_node != Some(n as usize),
    ensures
        scene.nodes@[n].parent matches Some(p) && p < scene.nodes@.len() && scene.children_of(
            p as int,
        ).contains(n as usize),
{
    assert(scene.linked(n));
}

// ++++++++++++++++++++ import ++++++++++++++++++++

/// What an import from a file hands to the import engine.
#[derive(Debug, Clone)]
pub struct FileImport {
    /// The path, ended by NUL.
    pub path: Vec<u8>,
    pub flags: libc::c_uint,
}

/// What an import from memory hands to the import engine, beside the buffer
/// itself.
#[derive(Debug, Clone)]
pub struct MemoryImport {
    /// The length of the buffer.
    pub length: libc::c_uint,
    /// The format hint, ended by NUL.
    pub hint: Vec<u8>,
    pub flags: libc::c_uint,
}

// ++++++++++++++++++++ Scene ++++++++++++++++++++

/// Why no scene came out of an import.
#[derive(Debug, Clone)]
pub enum ImportError {
    /// The import engine returned no scene. The message is the engine's own.
    ImportFailure(String),
    /// The import engine returned a scene that breaks a promise of its
    /// format: a pointer is null or a count reaches further than the data
    /// where the format says otherwise, a string is not text, a code is
    /// outside its domain, or the links of the node hierarchy do not agree.
    ContractViolation,
}

/// The root structure of the imported data. Everything that was imported is
/// reached from here, and lives exactly as long as the scene does.
#[derive(Debug)]
pub struct Scene {
    data: SceneData,
}

impl View for Scene {
    type V = SceneData;

    closed spec fn view(&self) -> SceneData {
        self.data
    }
}

impl Scene {
    #[verifier::type_invariant]
    spec fn inv(self) -> bool {
        self.data.wf()
    }

    /// The arguments of an import of the file at `path`, with the
    /// post-processing steps of `flags`.
    pub fn file_import(path: &str, flags: PostProcessSteps) -> (r: FileImport)
        ensures
            r.path@ == path.spec_bytes().push(0u8),
            r.flags == flags.bits,
    {
        FileImport { path: c_string(path), flags: flags.bits() }
    }

    /// The arguments of an import of a file held in a buffer of `length`
    /// bytes, or nothing where the engine cannot count that many. The hint
    /// is the file's extension.
    pub fn memory_import(length: usize, hint: &str, flags: PostProcessSteps) -> (r: Option<
        MemoryImport,
    >)
        ensures
            r is Some <==> length <= u32::MAX,
            r matches Some(m) ==> {
                &&& m.length == length
                &&& m.hint@ == hint.spec_bytes().push(0u8)
                &&& m.flags == flags.bits
            },
    {
        if length > 0xffff_ffff {
            None
        } else {
            Some(MemoryImport { length: length as u32, hint: c_string(hint), flags: flags.bits() })
        }
    }

    /// Takes over a scene that is known to be there and well formed.
    pub fn from_ptr(ptr: Option<SceneData>) -> (s: Scene)
        requires
            ptr matches Some(d) && d.wf(),
        ensures
            s@ == ptr.unwrap(),
    {
        match ptr {
            Some(data) => Scene { data },
            None => vstd::pervasive::unreached(),
        }
    }

    /// Turns what an import call came back with into a scene. A null scene
    /// pointer is a failed import, told with the engine's message. A scene
    /// that is not well formed is a contract violation.
    pub fn from_import(ptr: Option<SceneData>, message: String) -> (r: Result<Scene, ImportError>)
        ensures
            match ptr {
                Some(d) => if d.wf() {
                    r matches Ok(s) && s@ == d
                } else {
                    r matches Err(ImportError::ContractViolation)
                },
                None => r matches Err(ImportError::ImportFailure(m)) && m == message,
            },
    {
        match ptr {
            Some(data) => if data.is_well_formed() {
                Ok(Scene { data })
            } else {
                Err(ImportError::ContractViolation)
            },
            None => Err(ImportError::ImportFailure(message)),
        }
    }

    /// The records of the scene, which are well formed.
    pub fn raw(&self) -> (r: &SceneData)
        ensures
            *r == self@,
            r.wf(),
    {
        proof {
            use_type_invariant(self);
        }
        &self.data
    }

    /// The flags of the scene. Most applications will want to reject a
    /// scene that is incomplete.
    pub fn flags(&self) -> (r: SceneFlags)
        ensures
            r.bits == self@.flags,
            SceneFlags::known(r.bits),
    {
        proof {
            use_type_invariant(self);
        }
        SceneFlags { bits: self.data.flags }
    }

    /// The root node of the hierarchy.
    pub fn root_node(&self) -> (r: Node<'_>)
        ensures
            r.graph() == self@,
            Some(r.place()) == self@.root_node,
            r.data().parent is None,
    {
        proof {
            use_type_invariant(self);
            lemma_root_has_no_parent(self.data);
        }
        match self.data.root_node {
            Some(index) => Node { scene: self, index },
            None => vstd::pervasive::unreached(),
        }
    }

    /// The meshes. The nodes refer to them by their place in this array.
    pub fn meshes(&self) -> (r: &[Mesh])
        ensures
            r@ == bridged(pointee(self@.meshes), self@.num_meshes as nat),
            forall|i: int| 0 <= i < r@.len() ==> (#[trigger] r@[i]).wf(),
    {
        proof {
            use_type_invariant(self);
        }
        slice(pointer(&self.data.meshes), self.data.num_meshes)
    }

    /// The materials. The meshes refer to them by their place in this array.
    pub fn materials(&self) -> (r: &[Material])
        ensures
            r@ == bridged(pointee(self@.materials), self@.num_materials as nat),
            forall|i: int| 0 <= i < r@.len() ==> (#[trigger] r@[i]).wf(),
    {
        proof {
            use_type_invariant(self);
        }
        slice(pointer(&self.data.materials), self.data.num_materials)
    }

    /// The animations.
    pub fn animations(&self) -> (r: &[Animation])
        ensures
            r@ == bridged(pointee(self@.animations), self@.num_animations as nat),
            forall|i: int| 0 <= i < r@.len() ==> (#[trigger] r@[i]).wf(),
    {
        proof {
            use_type_invariant(self);
        }
        slice(pointer(&self.data.animations), self.data.num_animations)
    }

    /// The embedded textures.
    pub fn textures(&self) -> (r: &[Texture])
        ensures
            r@ == bridged(pointee(self@.textures), self@.num_textures as nat),
            forall|i: int| 0 <= i < r@.len() ==> (#[trigger] r@[i]).wf(),
    {
        proof {
            use_type_invariant(self);
        }
        slice(pointer(&self.data.textures), self.data.num_textures)
    }

    /// The light sources.
    pub fn lights(&self) -> (r: &[Light])
        ensures
            r@ == bridged(pointee(self@.lights), self@.num_lights as nat),
            forall|i: int| 0 <= i < r@.len() ==> (#[trigger] r@[i]).wf(),
    {
        proof {
            use_type_invariant(self);
        }
        slice(pointer(&self.data.lights), self.data.num_lights)
    }

    /// The cameras. The first, if there is one, is the default view into the
    /// scene.
    pub fn cameras(&self) -> (r: &[Camera])
        ensures
            r@ == bridged(pointee(self@.cameras), self@.num_cameras as nat),
            forall|i: int| 0 <= i < r@.len() ==> (#[trigger] r@[i]).wf(),
    {
        proof {
            use_type_invariant(self);
        }
        slice(pointer(&self.data.cameras), self.data.num_cameras)
    }
}

// ++++++++++++++++++++ Node ++++++++++++++++++++

/// A node in the imported hierarchy, seen from the scene that owns it.
///
/// Each node has a name, a parent node (except for the root node), a
/// transformation relative to its parent and possibly several child nodes.
#[derive(Debug, Clone, Copy)]
pub struct Node<'a> {
    scene: &'a Scene,
    index: usize,
}

impl<'a> Node<'a> {
    #[verifier::type_invariant]
    spec fn inv(self) -> bool {
        self.index < self.scene.data.nodes@.len()
    }

    /// The records of the scene that the node belongs to.
    pub closed spec fn graph(&self) -> SceneData {
        self.scene.data
    }

    /// The place of the node in the arena of its scene.
    pub closed spec fn place(&self) -> usize {
        self.index
    }

    /// The record of the node.
    pub open spec fn data(&self) -> NodeData {
        self.graph().nodes@[self.place() as int]
    }

    /// The record of the node, which is one of a well-formed scene.
    pub fn raw(&self) -> (r: &'a NodeData)
        ensures
            *r == self.data(),
            self.graph().wf(),
            self.place() < self.graph().nodes@.len(),
            self.graph().linked(self.place() as int),
            r.wf(),
    {
        proof {
            use_type_invariant(self);
            use_type_invariant(self.scene);
            assert(self.scene.data.linked(self.index as int));
        }
        &self.scene.data.nodes[self.index]
    }

    /// The place of the node in the arena of its scene. Two nodes of one
    /// scene are the same node exactly if they are at the same place.
    pub fn index(&self) -> (r: usize)
        ensures
            r == self.place(),
    {
        self.index
    }

    /// The name of the node, where it has one.
    pub fn name(&self) -> (r: Option<&'a str>)
        ensures
            self.data().name.length == 0 ==> r is None,
            self.data().name.length != 0 ==> r is Some && r.unwrap()@ == self.data().name.text(),
    {
        str(&self.raw().name)
    }

    /// The transformation relative to the node's parent.
    pub fn transform(&self) -> (r: Matrix4)
        ensures
            r@.len() == 4,
            r@[0]@ == seq![
                self.data().transformation.a1,
                self.data().transformation.a2,
                self.data().transformation.a3,
                self.data().transformation.a4,
            ],
            r@[1]@ == seq![
                self.data().transformation.b1,
                self.data().transformation.b2,
                self.data().transformation.b3,
                self.data().transformation.b4,
            ],
            r@[2]@ == seq![
                self.data().transformation.c1,
                self.data().transformation.c2,
                self.data().transformation.c3,
                self.data().transformation.c4,
            ],
            r@[3]@ == seq![
                self.data().transformation.d1,
                self.data().transformation.d2,
                self.data().transformation.d3,
                self.data().transformation.d4,
            ],
    {
        mat4(self.raw().transformation)
    }

    /// The parent node, or nothing for the root node.
    pub fn parent(&self) -> (r: Option<Node<'a>>)
        ensures
            match self.data().parent {
                Some(p) => r matches Some(q) && q.place() == p && q.graph() == self.graph(),
                None => r is None,
            },
            r is None <==> self.graph().root_node == Some(self.place()),
    {
        match self.raw().parent {
            Some(index) => Some(Node { scene: self.scene, index }),
            None => None,
        }
    }

    /// The child nodes of this node, in their order. Each of them has this
    /// node as its parent.
    pub fn children(&self) -> (r: Vec<Node<'a>>)
        ensures
            r@.len() == self.graph().children_of(self.place() as int).len(),
            forall|k: int|
                0 <= k < r@.len() ==> {
                    &&& (#[trigger] r@[k]).place() == self.graph().children_of(
                        self.place() as int,
                    )[k]
                    &&& r@[k].graph() == self.graph()
                    &&& r@[k].data().parent == Some(self.place())
                },
    {
        let node = self.raw();
        let places = slice(pointer(&node.children), node.num_children);
        let mut nodes: Vec<Node<'a>> = Vec::with_capacity(places.len());
        let mut k: usize = 0;
        while k < places.len()
            invariant
                self.graph().linked(self.place() as int),
                places@ == self.graph().children_of(self.place() as int),
                k <= places@.len(),
                nodes@.len() == k,
                forall|j: int|
                    0 <= j < k ==> {
                        &&& (#[trigger] nodes@[j]).place() == places@[j]
                        &&& nodes@[j].graph() == self.graph()
                        &&& nodes@[j].data().parent == Some(self.place())
                    },
            decreases places@.len() - k,
        {
            let index = places[k];
            assert(self.graph().children_of(self.place() as int)[k as int] == index);
            nodes.push(Node { scene: self.scene, index });
            k += 1;
        }
        nodes
    }

    /// The meshes of this node, each by its place in the mesh list of the
    /// scene.
    pub fn meshes(&self) -> (r: &'a [MeshIdx])
        ensures
            r@ == bridged(pointee(self.data().meshes), self.data().num_meshes as nat),
            forall|i: int| 0 <= i < r@.len() ==> (#[trigger] r@[i]) < self.graph().mesh_seq().len(),
    {
        let node = self.raw();
        let indices = slice(pointer(&node.meshes), node.num_meshes);
        proof {
            assert(self.graph().refers(self.place() as int));
            assert(indices@ == self.graph().meshes_of(self.place() as int));
        }
        indices
    }

    /// The metadata of this node, where it has any.
    pub fn meta_data(&self) -> (r: Option<&'a MetaData>)
        ensures
            match self.data().meta_data {
                Some(m) => r == Some(&m) && m.wf(),
                None => r is None,
            },
    {
        match &self.raw().meta_data {
            Some(m) => Some(m),
            None => None,
        }
    }
}

} // verus!
