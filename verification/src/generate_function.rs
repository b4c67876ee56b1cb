//! The function that invokes a wrapped body and logs what it returns.

use crate::attributes::{FormattedAttributes, FormattedAttributesView};
use crate::item::{
    Block, ItemFn, ItemFnView, Layer, LayerView, ReturnType, ReturnTypeView, Signature,
    SignatureView, WrappedBody, WrappedBodyView, Wrapper, WrapperView,
};
use crate::syntax::{check_function, refusal_fits, refusal_owed, settle, SyntaxError};
use vstd::prelude::*;
use vstd::string::StringExecFns;

verus! {

/// The signature under which a function is generated before it is given its own: `fn
/// temp()`.
pub open spec fn temp_signature() -> SignatureView {
    SignatureView {
        ident: "temp"@,
        asyncness: false,
        inputs: Seq::empty(),
        output: ReturnTypeView::Default,
    }
}

/// The wrapper that is laid around a wrapped body. The outcomes are told apart where the
/// return type is outcome-carrying (`result`), and also where a level was given for one
/// outcome by name, whatever the return type is.
pub open spec fn wrapper_for(
    closure: WrappedBodyView,
    expressions: FormattedAttributesView,
    result: bool,
) -> WrapperView {
    WrapperView {
        suspending: closure.suspending(),
        timed: expressions.log_ts,
        branching: result || expressions.contained_ok_or_err,
        ok_expr: expressions.ok_expr,
        err_expr: expressions.err_expr,
    }
}

/// The generated function: `temp`, with the wrapped body under its wrapper.
pub open spec fn synthesized(
    closure: WrappedBodyView,
    expressions: FormattedAttributesView,
    result: bool,
) -> ItemFnView {
    ItemFnView {
        sig: temp_signature(),
        block: closure.body().under(LayerView::Wrap(wrapper_for(closure, expressions, result))),
    }
}

/// Builds the generated function, unread by `syn`.
pub fn synthesize(closure: &WrappedBody, expressions: FormattedAttributes, result: bool) -> (item:
    ItemFn)
    ensures
        item.deep_view() == synthesized(closure.deep_view(), expressions.deep_view(), result),
{
    let FormattedAttributes { ok_expr, err_expr, log_ts, contained_ok_or_err } = expressions;
    let (body, suspending) = match closure {
        WrappedBody::Immediate(body) => (body.clone(), false),
        WrappedBody::Suspending(body) => (body.clone(), true),
    };
    let wrapper = Wrapper {
        suspending,
        timed: log_ts,
        branching: result || contained_ok_or_err,
        ok_expr,
        err_expr,
    };
    let sig = Signature {
        ident: String::from_str("temp"),
        asyncness: false,
        inputs: Vec::new(),
        output: ReturnType::Default,
    };
    assert(sig.inputs.deep_view() =~= Seq::empty());
    ItemFn { sig, block: body.under(Layer::Wrap(wrapper)) }
}

/// Generates the function that invokes the wrapped body, logs what it returns and hands
/// it on. `result` says whether the return type is outcome-carrying.
///
/// `syn` is asked whether the generated code is Rust; its refusal comes back in its own
/// words, and nothing is promised of its verdict. A body of more than
/// [`MAX_LAYERS`](crate::syntax::MAX_LAYERS) layers, and one with a level or a parameter
/// name that is not of plain characters, is refused without asking. The function that
/// comes back is the one that [`synthesize`] builds.
pub fn generate_function(
    closure: &WrappedBody,
    expressions: FormattedAttributes,
    result: bool,
) -> (generated: Result<ItemFn, SyntaxError>)
    ensures
        generated matches Ok(item) ==> item.deep_view() == synthesized(
            closure.deep_view(),
            expressions.deep_view(),
            result,
        ),
        refusal_owed(
            synthesized(closure.deep_view(), expressions.deep_view(), result).block.layers,
        ) ==> generated is Err,
        generated matches Err(error) ==> refusal_fits(
            error,
            synthesized(closure.deep_view(), expressions.deep_view(), result).block.layers,
        ),
{
    let item = synthesize(closure, expressions, result);
    let verdict = check_function(&item.block);
    settle(item, verdict)
}

} // verus!
