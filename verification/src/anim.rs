//! Animations: per-node channels of position, rotation and scaling keys.

use crate::prim::{
    bridged, fits, pointee, pointer, quat, slice, str, vec3, Double, Quaternion, RawQuaternion,
    RawString, RawVector3, Vector3,
};
use crate::record::{check_fits, check_records, records_wf, Record};
use crate::translate::{decoded, ForeignEnum};
use vstd::prelude::*;

verus! {

// ++++++++++++++++++++ keys ++++++++++++++++++++

/// A time-value pair specifying a certain 3D vector for the given time.
#[derive(Debug, Clone, Copy)]
pub struct VectorKey {
    pub time: Double,
    pub value: RawVector3,
}

impl VectorKey {
    /// The time of this key.
    pub fn time(&self) -> (r: Double)
        ensures
            r == self.time,
    {
        self.time
    }

    /// The value of this key.
    pub fn value(&self) -> (r: Vector3)
        ensures
            r@ == seq![self.value.x, self.value.y, self.value.z],
    {
        vec3(self.value)
    }
}

/// A time-value pair specifying a rotation for the given time.
#[derive(Debug, Clone, Copy)]
pub struct QuatKey {
    pub time: Double,
    pub value: RawQuaternion,
}

impl QuatKey {
    /// The time of this key.
    pub fn time(&self) -> (r: Double)
        ensures
            r == self.time,
    {
        self.time
    }

    /// The value of this key.
    pub fn value(&self) -> (r: Quaternion)
        ensures
            r@ == seq![self.value.w, self.value.x, self.value.y, self.value.z],
    {
        quat(self.value)
    }
}

// ++++++++++++++++++++ AnimBehavior ++++++++++++++++++++

/// How an animation channel behaves outside the time range of its keys.
#[derive(Debug, Clone, Copy, PartialEq, Eq, Structural)]
pub enum AnimBehavior {
    /// The value from the default node transformation is taken.
    Default,
    /// The nearest key value is used without interpolation.
    Constant,
    /// The value of the nearest two keys is linearly extrapolated.
    Linear,
    /// The animation is repeated.
    Repeat,
}

impl ForeignEnum for AnimBehavior {
    open spec fn code(self) -> u32 {
        match self {
            AnimBehavior::Default => 0x0,
            AnimBehavior::Constant => 0x1,
            AnimBehavior::Linear => 0x2,
            AnimBehavior::Repeat => 0x3,
        }
    }

    open spec fn decode(x: u32) -> Option<Self> {
        match x {
            0x0 => Some(AnimBehavior::Default),
            0x1 => Some(AnimBehavior::Constant),
            0x2 => Some(AnimBehavior::Linear),
            0x3 => Some(AnimBehavior::Repeat),
            _ => None,
        }
    }

    fn to_ffi(self) -> (r: u32) {
        match self {
            AnimBehavior::Default => 0x0,
            AnimBehavior::Constant => 0x1,
            AnimBehavior::Linear => 0x2,
            AnimBehavior::Repeat => 0x3,
        }
    }

    fn from_ffi(x: u32) -> (r: Option<Self>) {
        match x {
            0x0 => Some(AnimBehavior::Default),
            0x1 => Some(AnimBehavior::Constant),
            0x2 => Some(AnimBehavior::Linear),
            0x3 => Some(AnimBehavior::Repeat),
            _ => None,
        }
    }

    proof fn lemma_decode_encode(v: Self) {
    }

    proof fn lemma_encode_decode(x: u32) {
    }
}

// ++++++++++++++++++++ NodeAnim ++++++++++++++++++++

/// The animation of a single node: three separate series of keys, each
/// ordered by time, and the behaviour before the first and after the last
/// key.
#[derive(Debug, Clone)]
pub struct NodeAnim {
    pub node_name: RawString,
    pub num_position_keys: u32,
    pub position_keys: Option<Vec<VectorKey>>,
    pub num_rotation_keys: u32,
    pub rotation_keys: Option<Vec<QuatKey>>,
    pub num_scaling_keys: u32,
    pub scaling_keys: Option<Vec<VectorKey>>,
    pub pre_state: u32,
    pub post_state: u32,
}

impl NodeAnim {
    /// The name of the node affected by this animation.
    pub fn node_name(&self) -> (r: &str)
        requires
            self.node_name.named(),
        ensures
            r@ == self.node_name.text(),
    {
        self.node_name.as_name()
    }

    /// The position keys of this animation channel.
    pub fn position_keys(&self) -> (r: &[VectorKey])
        requires
            fits(pointee(self.position_keys), self.num_position_keys as nat),
        ensures
            r@ == bridged(pointee(self.position_keys), self.num_position_keys as nat),
    {
        slice(pointer(&self.position_keys), self.num_position_keys)
    }

    /// The rotation keys of this animation channel.
    pub fn rotation_keys(&self) -> (r: &[QuatKey])
        requires
            fits(pointee(self.rotation_keys), self.num_rotation_keys as nat),
        ensures
            r@ == bridged(pointee(self.rotation_keys), self.num_rotation_keys as nat),
    {
        slice(pointer(&self.rotation_keys), self.num_rotation_keys)
    }

    /// The scaling keys of this animation channel.
    pub fn scaling_keys(&self) -> (r: &[VectorKey])
        requires
            fits(pointee(self.scaling_keys), self.num_scaling_keys as nat),
        ensures
            r@ == bridged(pointee(self.scaling_keys), self.num_scaling_keys as nat),
    {
        slice(pointer(&self.scaling_keys), self.num_scaling_keys)
    }

    /// How the animation behaves before the first key.
    pub fn pre_state(&self) -> (r: AnimBehavior)
        requires
            AnimBehavior::decode(self.pre_state) is Some,
        ensures
            Some(r) == AnimBehavior::decode(self.pre_state),
    {
        decoded(self.pre_state)
    }

    /// How the animation behaves after the last key.
    pub fn post_state(&self) -> (r: AnimBehavior)
        requires
            AnimBehavior::decode(self.post_state) is Some,
        ensures
            Some(r) == AnimBehavior::decode(self.post_state),
    {
        decoded(self.post_state)
    }
}

/// A channel with a behaviour outside the domain is not well formed, so no
/// scene holds it.
pub proof fn lemma_channel_outside_domain(c: NodeAnim)
    requires
        c.pre_state > 3 || c.post_state > 3,
    ensures
        !c.wf(),
{
}

impl Record for NodeAnim {
    /// The channel names its node, each key array that is there holds as
    /// many keys as the channel counts, and both behaviours are in their
    /// domain.
    open spec fn wf(&self) -> bool {
        &&& self.node_name.named()
        &&& fits(pointee(self.position_keys), self.num_position_keys as nat)
        &&& fits(pointee(self.rotation_keys), self.num_rotation_keys as nat)
        &&& fits(pointee(self.scaling_keys), self.num_scaling_keys as nat)
        &&& AnimBehavior::decode(self.pre_state) is Some
        &&& AnimBehavior::decode(self.post_state) is Some
    }

    fn is_well_formed(&self) -> (b: bool) {
        self.node_name.is_named() && check_fits(&self.position_keys, self.num_position_keys)
            && check_fits(&self.rotation_keys, self.num_rotation_keys) && check_fits(
            &self.scaling_keys,
            self.num_scaling_keys,
        ) && AnimBehavior::from_ffi(self.pre_state).is_some() && AnimBehavior::from_ffi(
            self.post_state,
        ).is_some()
    }
}

// ++++++++++++++++++++ Animation ++++++++++++++++++++

/// An animation: keyframe data for a number of nodes.
#[derive(Debug, Clone)]
pub struct Animation {
    pub name: RawString,
    pub duration: Double,
    pub ticks_per_second: Double,
    pub num_channels: u32,
    pub channels: Option<Vec<NodeAnim>>,
}

impl Animation {
    /// The name of the animation, where it has one.
    pub fn name(&self) -> (r: Option<&str>)
        requires
            self.name.wf(),
        ensures
            self.name.length == 0 ==> r is None,
            self.name.length != 0 ==> r is Some && r.unwrap()@ == self.name.text(),
    {
        str(&self.name)
    }

    /// Duration of the animation in ticks.
    pub fn duration(&self) -> (r: Double)
        ensures
            r == self.duration,
    {
        self.duration
    }

    /// Ticks per second: 0 where the imported file does not say.
    pub fn ticks_per_second(&self) -> (r: Double)
        ensures
            r == self.ticks_per_second,
    {
        self.ticks_per_second
    }

    /// The node animation channels. Each channel affects a single node.
    pub fn channels(&self) -> (r: &[NodeAnim])
        requires
            records_wf(self.channels, self.num_channels),
        ensures
            r@ == bridged(pointee(self.channels), self.num_channels as nat),
            forall|i: int| 0 <= i < r@.len() ==> (#[trigger] r@[i]).wf(),
    {
        slice(pointer(&self.channels), self.num_channels)
    }
}

impl Record for Animation {
    /// The name is text, and the channels are there and well formed.
    open spec fn wf(&self) -> bool {
        &&& self.name.wf()
        &&& records_wf(self.channels, self.num_channels)
    }

    fn is_well_formed(&self) -> (b: bool) {
        self.name.is_well_formed() && check_records(&self.channels, self.num_channels)
    }
}

} // verus!
