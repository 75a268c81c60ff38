//! Inline-optimized holders for the caller-supplied layer metadata.
//!
//! Layer metadata arrives in `smallvec::SmallVec`s so that the common
//! one-to-three layer case needs no heap allocation.  Verus cannot look
//! inside a `SmallVec`, so each holder is opaque and is read through the
//! trusted accessors below, whose contracts speak of the held sequence.

use crate::models::BindLensModelType;
use crate::types::FrameNumber;
use vstd::prelude::*;

verus! {

/// Per-layer lens model types, in layer order.
#[verifier::external_body]
pub struct ModelList {
    items: smallvec::SmallVec<[BindLensModelType; 4]>,
}

/// The sequence of model types a `ModelList` holds, in order.
pub uninterp spec fn model_list_seq(v: ModelList) -> Seq<BindLensModelType>;

/// Per-layer frame ranges `(start, end)`, in layer order.
#[verifier::external_body]
pub struct RangeList {
    items: smallvec::SmallVec<[(FrameNumber, FrameNumber); 4]>,
}

/// The sequence of frame ranges a `RangeList` holds, in order.
pub uninterp spec fn range_list_seq(v: RangeList) -> Seq<(FrameNumber, FrameNumber)>;

impl ModelList {
    /// Relies on `smallvec::SmallVec::new`: the new vector is empty.
    #[verifier::external_body]
    pub fn new() -> (r: ModelList)
        ensures
            model_list_seq(r) == Seq::<BindLensModelType>::empty(),
    {
        ModelList { items: smallvec::SmallVec::new() }
    }

    /// Relies on `smallvec::SmallVec::push`: appends one element at the end.
    #[verifier::external_body]
    pub fn push(&mut self, m: BindLensModelType)
        ensures
            model_list_seq(*final(self)) == model_list_seq(*old(self)).push(m),
    {
        self.items.push(m)
    }

    /// Relies on `smallvec::SmallVec`'s `Index` impl: the element at `i`.
    #[verifier::external_body]
    pub fn get(&self, i: usize) -> (r: BindLensModelType)
        requires
            i < model_list_seq(*self).len(),
        ensures
            r == model_list_seq(*self)[i as int],
    {
        self.items[i]
    }
}

impl RangeList {
    /// Relies on `smallvec::SmallVec::new`: the new vector is empty.
    #[verifier::external_body]
    pub fn new() -> (r: RangeList)
        ensures
            range_list_seq(r) == Seq::<(FrameNumber, FrameNumber)>::empty(),
    {
        RangeList { items: smallvec::SmallVec::new() }
    }

    /// Relies on `smallvec::SmallVec::push`: appends one element at the end.
    #[verifier::external_body]
    pub fn push(&mut self, r: (FrameNumber, FrameNumber))
        ensures
            range_list_seq(*final(self)) == range_list_seq(*old(self)).push(r),
    {
        self.items.push(r)
    }

    /// Relies on `smallvec::SmallVec`'s `Index` impl: the element at `i`.
    #[verifier::external_body]
    pub fn get(&self, i: usize) -> (r: (FrameNumber, FrameNumber))
        requires
            i < range_list_seq(*self).len(),
        ensures
            r == range_list_seq(*self)[i as int],
    {
        self.items[i]
    }
}

} // verus!
