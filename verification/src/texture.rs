//! Textures that a model file carries within itself.

use crate::prim::{bridged, fits, from_utf8, pointee, span, Texel};
use crate::record::Record;
use vstd::pervasive::unreached;
use vstd::prelude::*;
use vstd::slice::slice_subrange;
use vstd::utf8::{decode_utf8, valid_utf8};

verus! {

/// An embedded texture.
///
/// There are two kinds. Where `height` is not zero the data is `width` times
/// `height` texels of four bytes each, row by row. Where `height` is zero
/// the data is `width` bytes of a compressed image file, and the format hint
/// says of which kind.
#[derive(Debug, Clone)]
pub struct Texture {
    pub width: u32,
    pub height: u32,
    /// The file extension of the compressed format, in lower case and
    /// followed by NUL, or all NUL where the loader does not know it.
    pub format_hint: [u8; 4],
    pub data: Option<Vec<u8>>,
}

/// The number of bytes before the first NUL of `s`, or the length of `s`
/// where it holds none.
pub open spec fn c_len(s: Seq<u8>) -> int
    decreases s.len(),
{
    if s.len() == 0 || s[0] == 0 {
        0
    } else {
        1 + c_len(s.skip(1))
    }
}

/// The number of bytes of the data of a texture: its width where it is
/// compressed, four for each texel where it is not.
pub open spec fn byte_len(width: u32, height: u32) -> int {
    if height == 0 {
        width as int
    } else {
        4 * (width * height)
    }
}

/// The texels that `bytes` holds: each four bytes are one texel.
pub open spec fn texels_of(bytes: Seq<u8>) -> Seq<Seq<u8>> {
    Seq::new(
        (bytes.len() / 4) as nat,
        |i: int| seq![bytes[4 * i], bytes[4 * i + 1], bytes[4 * i + 2], bytes[4 * i + 3]],
    )
}

proof fn lemma_c_len(s: Seq<u8>, n: int)
    requires
        0 <= n <= s.len(),
        forall|j: int| 0 <= j < n ==> s[j] != 0,
        n == s.len() || s[n] == 0,
    ensures
        c_len(s) == n,
    decreases n,
{
    if n > 0 {
        let rest = s.skip(1);
        assert forall|j: int| 0 <= j < n - 1 implies rest[j] != 0 by {
            assert(rest[j] == s[j + 1]);
        }
        lemma_c_len(rest, n - 1);
    }
}

impl Texture {
    /// The number of bytes of the data.
    pub open spec fn byte_len(&self) -> int {
        byte_len(self.width, self.height)
    }

    /// The number of bytes of the data of a texture of the given size, or
    /// nothing where the machine cannot address that many.
    pub fn byte_count(width: u32, height: u32) -> (r: Option<usize>)
        ensures
            r is Some <==> byte_len(width, height) <= usize::MAX,
            r matches Some(n) ==> n == byte_len(width, height),
    {
        if height == 0 {
            return Some(width as usize);
        }
        assert(0 <= width * height <= 0xffff_ffff * 0xffff_ffff) by (nonlinear_arith)
            requires
                0 <= width <= 0xffff_ffff,
                0 <= height <= 0xffff_ffff,
        ;
        let bytes: u128 = 4 * (width as u128 * height as u128);
        if bytes > usize::MAX as u128 {
            None
        } else {
            Some(bytes as usize)
        }
    }

    /// The bytes of the format hint, up to its first NUL.
    pub open spec fn hint_bytes(&self) -> Seq<u8> {
        self.format_hint@.subrange(0, c_len(self.format_hint@))
    }

    /// The bytes that belong to the texture.
    pub open spec fn bytes(&self) -> Seq<u8> {
        bridged(pointee(self.data), self.byte_len() as nat)
    }

    /// A hint from the loader on the format of a compressed texture: the
    /// shortest file extension of the format, or the empty string where the
    /// loader has none to give. There is no hint for an uncompressed
    /// texture, nor where the hint is not text.
    pub fn format_hint(&self) -> (r: Option<&str>)
        ensures
            r is Some <==> self.height == 0 && valid_utf8(self.hint_bytes()),
            r matches Some(t) ==> t@ == decode_utf8(self.hint_bytes()),
    {
        broadcast use vstd::utf8::encode_utf8_decode_utf8;

        if self.height != 0 {
            return None;
        }
        let mut n: usize = 0;
        while n < 4 && self.format_hint[n] != 0
            invariant
                n <= 4,
                forall|j: int| 0 <= j < n ==> self.format_hint@[j] != 0,
            decreases 4 - n,
        {
            n += 1;
        }
        proof {
            lemma_c_len(self.format_hint@, n as int);
        }
        from_utf8(slice_subrange(self.format_hint.as_slice(), 0, n))
    }

    /// The texels of an uncompressed texture, with its width and height.
    /// There are none for a compressed texture.
    pub fn as_texels(&self) -> (r: Option<(usize, usize, Vec<Texel>)>)
        requires
            fits(pointee(self.data), self.byte_len() as nat),
        ensures
            r is Some <==> self.height != 0,
            r matches Some((w, h, texels)) ==> {
                &&& w == self.width
                &&& h == self.height
                &&& self.data is Some ==> texels@.len() == self.width * self.height
                &&& texels@.len() == texels_of(self.bytes()).len()
                &&& forall|i: int|
                    0 <= i < texels@.len() ==> (#[trigger] texels@[i])@ == texels_of(
                        self.bytes(),
                    )[i]
            },
    {
        if self.height == 0 {
            return None;
        }
        let bytes = self.as_bytes();
        let count = bytes.len() / 4;
        let mut texels: Vec<Texel> = Vec::with_capacity(count);
        let mut i: usize = 0;
        while i < count
            invariant
                count == bytes@.len() / 4,
                4 * count <= bytes@.len() <= usize::MAX,
                i <= count,
                texels@.len() == i,
                forall|j: int|
                    0 <= j < i ==> (#[trigger] texels@[j])@ == texels_of(bytes@)[j],
            decreases count - i,
        {
            let at = 4 * i;
            let texel: Texel = [bytes[at], bytes[at + 1], bytes[at + 2], bytes[at + 3]];
            texels.push(texel);
            i += 1;
        }
        Some((self.width as usize, self.height as usize, texels))
    }

    /// The data of the texture as bytes: the compressed file, or the texels
    /// one after the other. Nothing is copied.
    pub fn as_bytes(&self) -> (r: &[u8])
        requires
            fits(pointee(self.data), self.byte_len() as nat),
        ensures
            r@ == self.bytes(),
    {
        assert(0 <= self.width * self.height) by (nonlinear_arith);
        match &self.data {
            Some(d) => {
                let held = d.len();
                match Self::byte_count(self.width, self.height) {
                    Some(len) if len <= held => span(Some(d.as_slice()), len),
                    _ => unreached(),
                }
            },
            None => &[],
        }
    }
}

impl Record for Texture {
    /// The data pointer, unless it is null, has as many bytes behind it as
    /// the size of the texture asks for.
    open spec fn wf(&self) -> bool {
        fits(pointee(self.data), self.byte_len() as nat)
    }

    fn is_well_formed(&self) -> (b: bool) {
        assert(0 <= self.width * self.height) by (nonlinear_arith);
        match &self.data {
            Some(d) => {
                let held = d.len();
                match Self::byte_count(self.width, self.height) {
                    Some(len) => len <= held,
                    None => false,
                }
            },
            None => true,
        }
    }
}

} // verus!
