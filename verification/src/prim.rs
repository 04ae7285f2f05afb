//! Primitive values, the records that carry them across the boundary, and
//! the two bridges every other module leans on: from a counted pointer to a
//! borrowed sequence, and from a length-prefixed byte buffer to a string.

use crate::record::Record;
use vstd::pervasive::unreached;
use vstd::prelude::*;
use vstd::slice::slice_subrange;
use vstd::string::StringSliceAdditionalSpecFns;
use vstd::utf8::{decode_utf8, valid_utf8};

verus! {

broadcast use vstd::utf8::encode_utf8_decode_utf8;

// ++++++++++++++++++++ numbers ++++++++++++++++++++

/// An IEEE 754 binary32 number, carried as its bit pattern.
///
/// The scene only ever hands such numbers through. Equality is equality of
/// bit patterns: two NaNs with the same payload are equal, and the two zeros
/// are not.
#[derive(Clone, Copy, Debug, PartialEq, Eq, Structural)]
pub struct Single {
    pub bits: u32,
}

/// The bit pattern of the binary32 number 1.
pub const SINGLE_ONE_BITS: u32 = 0x3f80_0000;

impl Single {
    /// The number 0.
    pub open spec fn spec_zero() -> Single {
        Single { bits: 0 }
    }

    /// The number 1.
    pub open spec fn spec_one() -> Single {
        Single { bits: SINGLE_ONE_BITS }
    }

    #[verifier::when_used_as_spec(spec_zero)]
    pub fn zero() -> (r: Single)
        ensures
            r == Self::spec_zero(),
    {
        Single { bits: 0 }
    }

    #[verifier::when_used_as_spec(spec_one)]
    pub fn one() -> (r: Single)
        ensures
            r == Self::spec_one(),
    {
        Single { bits: SINGLE_ONE_BITS }
    }

    pub fn from_bits(bits: u32) -> (r: Single)
        ensures
            r.bits == bits,
    {
        Single { bits }
    }

    pub fn to_bits(self) -> (r: u32)
        ensures
            r == self.bits,
    {
        self.bits
    }
}

/// An IEEE 754 binary64 number, carried as its bit pattern.
#[derive(Clone, Copy, Debug, PartialEq, Eq, Structural)]
pub struct Double {
    pub bits: u64,
}

impl Double {
    pub fn from_bits(bits: u64) -> (r: Double)
        ensures
            r.bits == bits,
    {
        Double { bits }
    }

    pub fn to_bits(self) -> (r: u64)
        ensures
            r == self.bits,
    {
        self.bits
    }
}

/// x, y
pub type Vector2 = [Single; 2];

/// x, y, z
pub type Vector3 = [Single; 3];

/// r, g, b
pub type Color3 = [Single; 3];

/// r, g, b, a
pub type Color4 = [Single; 4];

/// b, g, r, a
pub type Texel = [u8; 4];

/// [a1..a3], [b1..b3], [c1..c3]
pub type Matrix3 = [[Single; 3]; 3];

/// [a1..a4], [b1..b4], [c1..c4], [d1..d4]
pub type Matrix4 = [[Single; 4]; 4];

/// w, x, y, z
pub type Quaternion = [Single; 4];

// ++++++++++++++++++++ records ++++++++++++++++++++

/// A vector of two components, as the import engine lays it out.
#[derive(Clone, Copy, Debug, PartialEq, Eq, Structural)]
pub struct RawVector2 {
    pub x: Single,
    pub y: Single,
}

/// A vector of three components, as the import engine lays it out.
#[derive(Clone, Copy, Debug, PartialEq, Eq, Structural)]
pub struct RawVector3 {
    pub x: Single,
    pub y: Single,
    pub z: Single,
}

/// A colour without alpha, as the import engine lays it out.
#[derive(Clone, Copy, Debug, PartialEq, Eq, Structural)]
pub struct RawColor3 {
    pub r: Single,
    pub g: Single,
    pub b: Single,
}

/// A colour with alpha, as the import engine lays it out.
#[derive(Clone, Copy, Debug, PartialEq, Eq, Structural)]
pub struct RawColor4 {
    pub r: Single,
    pub g: Single,
    pub b: Single,
    pub a: Single,
}

/// A rotation, as the import engine lays it out.
#[derive(Clone, Copy, Debug, PartialEq, Eq, Structural)]
pub struct RawQuaternion {
    pub w: Single,
    pub x: Single,
    pub y: Single,
    pub z: Single,
}

/// A row-major 4x4 matrix, as the import engine lays it out.
#[derive(Clone, Copy, Debug, PartialEq, Eq, Structural)]
pub struct RawMatrix4 {
    pub a1: Single,
    pub a2: Single,
    pub a3: Single,
    pub a4: Single,
    pub b1: Single,
    pub b2: Single,
    pub b3: Single,
    pub b4: Single,
    pub c1: Single,
    pub c2: Single,
    pub c3: Single,
    pub c4: Single,
    pub d1: Single,
    pub d2: Single,
    pub d3: Single,
    pub d4: Single,
}

/// A string of the import engine: a byte count and a buffer that holds at
/// least that many bytes of UTF-8.
#[derive(Clone, Debug)]
pub struct RawString {
    pub length: u32,
    pub data: Vec<u8>,
}

impl RawString {
    /// The bytes that belong to the string.
    pub open spec fn bytes(&self) -> Seq<u8> {
        self.data@.subrange(0, self.length as int)
    }

    /// The characters of the string.
    pub open spec fn text(&self) -> Seq<char> {
        decode_utf8(self.bytes())
    }

    /// Well-formed and not empty: what an accessor needs that promises a
    /// name.
    pub open spec fn named(&self) -> bool {
        self.wf() && self.length != 0
    }

    /// Decides `named`.
    pub fn is_named(&self) -> (b: bool)
        ensures
            b == self.named(),
    {
        self.length != 0 && self.is_well_formed()
    }

    /// The string, which may be empty.
    pub fn as_text(&self) -> (r: &str)
        requires
            self.wf(),
        ensures
            r@ == self.text(),
            self.length == 0 ==> r@.len() == 0,
    {
        let bytes = slice_subrange(self.data.as_slice(), 0, self.length as usize);
        match from_utf8(bytes) {
            Some(t) => t,
            None => unreached(),
        }
    }

    /// The string, which is known not to be empty.
    pub fn as_name(&self) -> (r: &str)
        requires
            self.named(),
        ensures
            r@ == self.text(),
    {
        match str(self) {
            Some(t) => t,
            None => unreached(),
        }
    }
}

impl Record for RawString {
    /// The buffer holds the bytes that the length announces, and they are
    /// UTF-8.
    open spec fn wf(&self) -> bool {
        &&& self.length <= self.data@.len()
        &&& valid_utf8(self.bytes())
    }

    fn is_well_formed(&self) -> (b: bool) {
        if self.length as usize > self.data.len() {
            return false;
        }
        let bytes = slice_subrange(self.data.as_slice(), 0, self.length as usize);
        from_utf8(bytes).is_some()
    }
}

// ++++++++++++++++++++ conversions ++++++++++++++++++++

pub fn vec2(v: RawVector2) -> (r: Vector2)
    ensures
        r@ == seq![v.x, v.y],
{
    [v.x, v.y]
}

pub fn vec3(v: RawVector3) -> (r: Vector3)
    ensures
        r@ == seq![v.x, v.y, v.z],
{
    [v.x, v.y, v.z]
}

pub fn col3(v: RawColor3) -> (r: Color3)
    ensures
        r@ == seq![v.r, v.g, v.b],
{
    [v.r, v.g, v.b]
}

pub fn col4(v: RawColor4) -> (r: Color4)
    ensures
        r@ == seq![v.r, v.g, v.b, v.a],
{
    [v.r, v.g, v.b, v.a]
}

pub fn quat(v: RawQuaternion) -> (r: Quaternion)
    ensures
        r@ == seq![v.w, v.x, v.y, v.z],
{
    [v.w, v.x, v.y, v.z]
}

/// The upper left 3x3 block of `v`, row by row.
pub fn mat3(v: RawMatrix4) -> (r: Matrix3)
    ensures
        r@.len() == 3,
        r@[0]@ == seq![v.a1, v.a2, v.a3],
        r@[1]@ == seq![v.b1, v.b2, v.b3],
        r@[2]@ == seq![v.c1, v.c2, v.c3],
{
    [[v.a1, v.a2, v.a3], [v.b1, v.b2, v.b3], [v.c1, v.c2, v.c3]]
}

/// The rows of `v`.
pub fn mat4(v: RawMatrix4) -> (r: Matrix4)
    ensures
        r@.len() == 4,
        r@[0]@ == seq![v.a1, v.a2, v.a3, v.a4],
        r@[1]@ == seq![v.b1, v.b2, v.b3, v.b4],
        r@[2]@ == seq![v.c1, v.c2, v.c3, v.c4],
        r@[3]@ == seq![v.d1, v.d2, v.d3, v.d4],
{
    [
        [v.a1, v.a2, v.a3, v.a4],
        [v.b1, v.b2, v.b3, v.b4],
        [v.c1, v.c2, v.c3, v.c4],
        [v.d1, v.d2, v.d3, v.d4],
    ]
}

// ++++++++++++++++++++ strings ++++++++++++++++++++

/// `std::str::from_utf8`, with its error dropped: it succeeds on exactly the
/// byte slices that are valid UTF-8, and the string it then returns is made
/// of the very bytes it was given.
#[verifier::external_body]
pub(crate) fn from_utf8<'a>(v: &'a [u8]) -> (r: Option<&'a str>)
    ensures
        r is Some <==> valid_utf8(v@),
        r matches Some(s) ==> s.spec_bytes() == v@,
{
    std::str::from_utf8(v).ok()
}

/// The string that `s` holds, or nothing where it is empty.
pub fn str<'a>(s: &'a RawString) -> (r: Option<&'a str>)
    requires
        s.wf(),
    ensures
        s.length == 0 ==> r is None,
        s.length != 0 ==> r is Some && r.unwrap()@ == s.text(),
{
    if s.length == 0 {
        return None;
    }
    let bytes = slice_subrange(s.data.as_slice(), 0, s.length as usize);
    from_utf8(bytes)
}

/// The bytes of `s`, followed by the NUL that ends a string of the import
/// engine's language.
pub fn c_string(s: &str) -> (r: Vec<u8>)
    ensures
        r@ == s.spec_bytes().push(0u8),
{
    let mut bytes: Vec<u8> = Vec::new();
    bytes.extend_from_slice(s.as_bytes());
    bytes.push(0);
    bytes
}

// ++++++++++++++++++++ sequence bridge ++++++++++++++++++++

/// What a counted pointer stands for: the first `len` elements behind `ptr`,
/// or nothing where the pointer is null or the count is zero.
pub open spec fn bridged<T>(ptr: Option<Seq<T>>, len: nat) -> Seq<T> {
    match ptr {
        Some(s) => if len == 0 {
            Seq::empty()
        } else {
            s.subrange(0, len as int)
        },
        None => Seq::empty(),
    }
}

/// The elements behind an owned pointer.
pub open spec fn pointee<T>(ptr: Option<Vec<T>>) -> Option<Seq<T>> {
    match ptr {
        Some(v) => Some(v@),
        None => None,
    }
}

/// The elements behind a borrowed pointer.
pub open spec fn target<T>(ptr: Option<&[T]>) -> Option<Seq<T>> {
    match ptr {
        Some(s) => Some(s@),
        None => None,
    }
}

/// There are `len` elements behind `ptr`, unless it is null.
pub open spec fn fits<T>(ptr: Option<Seq<T>>, len: nat) -> bool {
    ptr matches Some(s) ==> len <= s.len()
}

/// Borrows the pointer that a record owns.
pub fn pointer<'a, T>(ptr: &'a Option<Vec<T>>) -> (r: Option<&'a [T]>)
    ensures
        target(r) == pointee(*ptr),
{
    match ptr {
        Some(v) => Some(v.as_slice()),
        None => None,
    }
}

/// Turns a pointer and a count into a borrowed sequence. Nothing is copied:
/// what comes back is a part of what was handed in. A null pointer and a
/// count of zero both give the empty sequence.
pub fn slice<'a, T>(ptr: Option<&'a [T]>, len: libc::c_uint) -> (r: &'a [T])
    requires
        fits(target(ptr), len as nat),
    ensures
        r@ == bridged(target(ptr), len as nat),
        ptr is None || len == 0 ==> r@.len() == 0,
        ptr is Some && len != 0 ==> r@.len() == len && forall|i: int|
            0 <= i < len ==> r@[i] == ptr.unwrap()@[i],
{
    span(ptr, len as usize)
}

/// The bridge for a count that is the product of other counts, and so may
/// be more than the import engine's own counts can hold.
pub fn span<'a, T>(ptr: Option<&'a [T]>, len: usize) -> (r: &'a [T])
    requires
        fits(target(ptr), len as nat),
    ensures
        r@ == bridged(target(ptr), len as nat),
        ptr is None || len == 0 ==> r@.len() == 0,
        ptr is Some && len != 0 ==> r@.len() == len && forall|i: int|
            0 <= i < len ==> r@[i] == ptr.unwrap()@[i],
{
    match ptr {
        Some(s) => if len == 0 {
            &[]
        } else {
            slice_subrange(s, 0, len)
        },
        None => &[],
    }
}

} // verus!
