//! The body wrapper of a build with suspension.

use crate::item::{ItemFn, WrappedBody, WrappedBodyView};
use vstd::prelude::*;

verus! {

/// Wraps the body of a function. The body of a function declared `async` becomes an
/// `async` block that is awaited; that of any other function a closure, as in a build
/// without suspension.
pub fn make_closure(original: &ItemFn) -> (closure: WrappedBody)
    ensures
        closure.deep_view() == if original.sig.asyncness {
            WrappedBodyView::Suspending(original.deep_view().block)
        } else {
            WrappedBodyView::Immediate(original.deep_view().block)
        },
{
    let body = original.block.clone();
    if original.sig.asyncness {
        WrappedBody::Suspending(body)
    } else {
        WrappedBody::Immediate(body)
    }
}

} // verus!
