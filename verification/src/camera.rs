//! Cameras.

use crate::prim::{vec3, RawString, RawVector3, Single, Vector3};
use crate::record::Record;
use vstd::prelude::*;

verus! {

/// A camera of the scene. Where it stands and looks is relative to the node
/// of the same name.
#[derive(Debug, Clone)]
pub struct Camera {
    pub name: RawString,
    pub position: RawVector3,
    pub up: RawVector3,
    pub look_at: RawVector3,
    pub horizontal_fov: Single,
    pub clip_plane_near: Single,
    pub clip_plane_far: Single,
    pub aspect: Single,
}

impl Camera {
    /// The name of the camera.
    pub fn name(&self) -> (r: &str)
        requires
            self.name.named(),
        ensures
            r@ == self.name.text(),
    {
        self.name.as_name()
    }

    /// Position of the camera.
    pub fn position(&self) -> (r: Vector3)
        ensures
            r@ == seq![self.position.x, self.position.y, self.position.z],
    {
        vec3(self.position)
    }

    /// Up vector of the camera.
    pub fn up(&self) -> (r: Vector3)
        ensures
            r@ == seq![self.up.x, self.up.y, self.up.z],
    {
        vec3(self.up)
    }

    /// The direction in which the camera looks.
    pub fn look_at(&self) -> (r: Vector3)
        ensures
            r@ == seq![self.look_at.x, self.look_at.y, self.look_at.z],
    {
        vec3(self.look_at)
    }

    /// Half horizontal field of view angle, in radians.
    pub fn horizontal_fov(&self) -> (r: Single)
        ensures
            r == self.horizontal_fov,
    {
        self.horizontal_fov
    }

    /// Distance of the near clipping plane from the camera.
    pub fn clip_plane_near(&self) -> (r: Single)
        ensures
            r == self.clip_plane_near,
    {
        self.clip_plane_near
    }

    /// Distance of the far clipping plane from the camera.
    pub fn clip_plane_far(&self) -> (r: Single)
        ensures
            r == self.clip_plane_far,
    {
        self.clip_plane_far
    }

    /// Screen aspect ratio: 0 where the imported file does not say.
    pub fn aspect(&self) -> (r: Single)
        ensures
            r == self.aspect,
    {
        self.aspect
    }
}

impl Record for Camera {
    /// The camera has a name.
    open spec fn wf(&self) -> bool {
        self.name.named()
    }

    fn is_well_formed(&self) -> (b: bool) {
        self.name.is_named()
    }
}

} // verus!
