//! The body wrapper of a build without suspension.

use crate::item::{ItemFn, WrappedBody, WrappedBodyView};
use vstd::prelude::*;

verus! {

/// Wraps the body of a function as a closure. A function declared `async` cannot be
/// wrapped in a build without suspension.
pub fn make_closure(original: &ItemFn) -> (closure: WrappedBody)
    requires
        !original.sig.asyncness,
    ensures
        closure.deep_view() == WrappedBodyView::Immediate(original.deep_view().block),
{
    WrappedBody::Immediate(original.block.clone())
}

} // verus!
