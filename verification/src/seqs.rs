//! Vectors by their deep views.

use vstd::prelude::*;

verus! {

/// Puts `x` at the end of `v`.
pub(crate) fn push_deep<T: DeepView>(v: &mut Vec<T>, x: T)
    ensures
        final(v).deep_view() == old(v).deep_view().push(x.deep_view()),
{
    v.push(x);
}

/// A vector without elements.
pub(crate) fn empty_deep<T: DeepView>() -> (v: Vec<T>)
    ensures
        v.deep_view() == Seq::<T::V>::empty(),
{
    Vec::new()
}

} // verus!
