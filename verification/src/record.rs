//! Well-formedness of the records that stand for the import engine's data.

use vstd::prelude::*;

verus! {

/// A record of the scene graph. A well-formed record is one on which every
/// accessor is defined: its pointers reach as far as its counts say, its
/// strings are text, its codes are in their domains.
pub trait Record: Sized {
    spec fn wf(&self) -> bool;

    /// Decides `wf`.
    fn is_well_formed(&self) -> (b: bool)
        ensures
            b == self.wf(),
    ;
}

/// The first `len` records behind `ptr` are there and well formed, unless
/// the pointer is null.
pub open spec fn records_wf<T: Record>(ptr: Option<Vec<T>>, len: u32) -> bool {
    ptr matches Some(v) ==> {
        &&& len <= v@.len()
        &&& forall|i: int| 0 <= i < len ==> (#[trigger] v@[i]).wf()
    }
}

/// Decides `fits`.
pub fn check_fits<T>(ptr: &Option<Vec<T>>, len: u32) -> (b: bool)
    ensures
        b == crate::prim::fits(crate::prim::pointee(*ptr), len as nat),
{
    match ptr {
        Some(v) => len as usize <= v.len(),
        None => true,
    }
}

/// Decides `records_wf`.
pub fn check_records<T: Record>(ptr: &Option<Vec<T>>, len: u32) -> (b: bool)
    ensures
        b == records_wf(*ptr, len),
{
    match ptr {
        Some(v) => {
            if len as usize > v.len() {
                return false;
            }
            let mut i: usize = 0;
            while i < len as usize
                invariant
                    *ptr == Some(*v),
                    i <= len <= v@.len(),
                    forall|j: int| 0 <= j < i ==> (#[trigger] v@[j]).wf(),
                decreases len - i,
            {
                if !v[i].is_well_formed() {
                    assert(!v@[i as int].wf());
                    return false;
                }
                i += 1;
            }
            true
        },
        None => true,
    }
}

} // verus!
