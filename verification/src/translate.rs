//! Translation of the import engine's small integer codes into closed
//! enumerations.

use vstd::pervasive::unreached;
use vstd::prelude::*;

verus! {

/// A closed enumeration that the import engine writes as an integer code.
///
/// Decoding is a lookup, not a reinterpretation: a code outside the
/// enumeration's domain decodes to nothing.
pub trait ForeignEnum: Sized {
    /// The code that stands for this variant.
    spec fn code(self) -> u32;

    /// The variant that `x` stands for, if there is one.
    spec fn decode(x: u32) -> Option<Self>;

    fn to_ffi(self) -> (r: u32)
        ensures
            r == self.code(),
    ;

    fn from_ffi(x: u32) -> (r: Option<Self>)
        ensures
            r == Self::decode(x),
    ;

    /// Decoding the code of a variant gives that variant back.
    proof fn lemma_decode_encode(v: Self)
        ensures
            Self::decode(v.code()) == Some(v),
    ;

    /// A code is accepted only if it is the code of the variant it decodes
    /// to: nothing outside the codes of the variants is accepted.
    proof fn lemma_encode_decode(x: u32)
        ensures
            Self::decode(x) matches Some(v) ==> v.code() == x,
    ;
}

/// A code that is the code of no variant is refused.
pub proof fn lemma_foreign_code_refused<E: ForeignEnum>(x: u32)
    requires
        forall|v: E| #[trigger] v.code() != x,
    ensures
        E::decode(x) is None,
{
    E::lemma_encode_decode(x);
}

/// Decodes a code that is known to be in the domain.
pub fn decoded<E: ForeignEnum>(x: u32) -> (r: E)
    requires
        E::decode(x) is Some,
    ensures
        Some(r) == E::decode(x),
{
    match E::from_ffi(x) {
        Some(v) => v,
        None => unreached(),
    }
}

/// The variant that a signed code stands for: negative codes stand for none.
pub open spec fn decode_signed<E: ForeignEnum>(x: i32) -> Option<E> {
    if x < 0 {
        None
    } else {
        E::decode(x as u32)
    }
}

/// Decodes a code that the import engine hands out as a signed integer.
pub fn from_signed<E: ForeignEnum>(x: i32) -> (r: Option<E>)
    ensures
        r == decode_signed::<E>(x),
{
    if x < 0 {
        None
    } else {
        E::from_ffi(x as u32)
    }
}

} // verus!
