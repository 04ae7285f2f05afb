//! A read-only view of a 3D scene that an asset import engine produced:
//! geometry, materials, animations, lights, cameras, embedded textures and
//! metadata.
//!
//! The scene comes in as plain records that mirror the engine's layout:
//! counted pointers, length-prefixed strings, integer codes. `Scene` takes
//! such records over once it has found them well formed, and from then on
//! every accessor is a total function: sequences are bridged from pointer
//! and count, codes are decoded into closed enumerations, and the node
//! hierarchy can be walked down and up without leaving the scene.

#![allow(unused_imports)]

pub mod prim;
pub mod record;
pub mod translate;

pub mod anim;
pub mod camera;
pub mod light;
pub mod material;
pub mod mesh;
pub mod metadata;
pub mod postprocess;
pub mod scene;
pub mod texture;

pub use anim::{AnimBehavior, Animation, NodeAnim, QuatKey, VectorKey};
pub use camera::Camera;
pub use light::{Light, LightSourceType};
pub use material::{
    BlendMode, Material, MaterialKey, MaterialProperties, ShadingMode, TextureBinding,
    TextureFlags, TextureMapMode, TextureMapping, TextureOp, TextureProperties, TextureStack,
    TextureType, UvTransform, DEFAULT_MATERIAL_NAME,
};
pub use mesh::{
    Bone, Face, Mesh, PrimitiveTypes, VertexWeight, MAX_COLOR_SETS, MAX_TEXTURE_COORDS,
};
pub use metadata::{Iter, MetaData, MetadataEntry, MetadataPayload, MetadataType, MetadataValue};
pub use postprocess::PostProcessSteps;
pub use record::Record;
pub use scene::{
    FileImport, ImportError, MemoryImport, Node, NodeData, Scene, SceneData, SceneFlags,
};
pub use texture::Texture;
pub use translate::ForeignEnum;
