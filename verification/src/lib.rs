//! Logging wrappers for functions, worked out on plain values.
//!
//! An annotation on a function asks for log records around its calls: of its arguments
//! when it is entered, of what it returns when it is left. This crate turns the
//! annotation's arguments and the function into the function that does so.

pub mod async_closure;
pub mod attributes;
pub mod behavior;
pub mod error;
pub mod generate_function;
pub mod inputs;
pub mod item;
pub mod laws;
pub mod level;
pub mod meta;
pub mod non_async_closure;
pub mod options;
pub mod render;
pub mod syntax;
pub mod text;

use crate::attributes::{formatted, FormattedAttributes};
use crate::error::TransformError;
use crate::error::ConfigErrorView;
use crate::generate_function::{generate_function, synthesized};
use crate::inputs::{input_log, inputs_supported, log_fn_inputs};
use crate::item::{
    check_if_return_result, replace_function_headers, ItemFn, ItemFnView, Layer, LayerView,
    ReturnShape, WrappedBodyView,
};
use crate::meta::{NestedMeta, NestedMetaView};
use crate::options::{
    input_options, output_options, InputOptions, InputOptionsView, OutputOptionsView,
};
use crate::syntax::{plain_call, refusal_fits, refusal_owed, statement_refusal_fits};
use vstd::prelude::*;
use vstd::string::StringExecFns;

verus! {

/// How bodies are wrapped in this build. The choice is made once for a build, not for
/// each function.
#[derive(Clone, Copy, Debug, PartialEq, Eq, Structural)]
pub enum BodyWrapper {
    /// Every body becomes a closure; a function declared `async` cannot be wrapped.
    Direct,
    /// The body of a function declared `async` becomes an `async` block that is awaited,
    /// every other body a closure.
    Suspending,
}

/// The template of output logging where `fmt` gives none: the function's name, `() => `
/// and a placeholder.
pub open spec fn default_output_template(name: Seq<char>) -> Seq<char> {
    name + "() => {}"@
}

/// The body of a function, wrapped as the build wraps bodies.
pub open spec fn wrapped(item: ItemFnView, wrapper: BodyWrapper) -> WrappedBodyView {
    if item.sig.asyncness && wrapper == BodyWrapper::Suspending {
        WrappedBodyView::Suspending(item.block)
    } else {
        WrappedBodyView::Immediate(item.block)
    }
}

/// A function with output logging: the signature as it was, the body under a wrapper.
pub open spec fn output_logged(
    item: ItemFnView,
    options: OutputOptionsView,
    wrapper: BodyWrapper,
) -> ItemFnView {
    ItemFnView {
        sig: item.sig,
        block: synthesized(
            wrapped(item, wrapper),
            formatted(options, default_output_template(item.sig.ident)),
            item.sig.output.shape() == ReturnShape::OutcomeCarrying,
        ).block,
    }
}

/// A function with input logging: the signature as it was, the body behind a log
/// statement.
pub open spec fn input_logged(item: ItemFnView, options: InputOptionsView) -> ItemFnView {
    ItemFnView { sig: item.sig, block: item.block.under(LayerView::Log(input_log(item, options))) }
}

/// Whether what came back from output logging is what the configuration calls for.
pub open spec fn output_fits(
    outcome: Result<ItemFn, TransformError>,
    item: ItemFnView,
    wrapper: BodyWrapper,
    read: Result<OutputOptionsView, Seq<ConfigErrorView>>,
) -> bool {
    match read {
        Err(errors) => outcome matches Err(TransformError::Config(found)) && found.deep_view()
            == errors,
        Ok(options) => if item.sig.asyncness && wrapper == BodyWrapper::Direct {
            outcome matches Err(TransformError::AsyncDisabled)
        } else {
            let made = output_logged(item, options, wrapper);
            &&& outcome matches Ok(new_fn) ==> new_fn.deep_view() == made
            &&& refusal_owed(made.block.layers) ==> outcome is Err
            &&& outcome matches Err(error) ==> error matches TransformError::Syntax(refusal)
                && refusal_fits(refusal, made.block.layers)
        },
    }
}

/// Whether what came back from input logging is what the configuration calls for.
pub open spec fn input_fits(
    outcome: Result<ItemFn, TransformError>,
    item: ItemFnView,
    read: Result<InputOptionsView, Seq<ConfigErrorView>>,
) -> bool {
    match read {
        Err(errors) => outcome matches Err(TransformError::Config(found)) && found.deep_view()
            == errors,
        Ok(options) => {
            &&& outcome matches Ok(new_fn) ==> new_fn.deep_view() == input_logged(item, options)
            &&& !plain_call(input_log(item, options)) ==> outcome is Err
            &&& outcome matches Err(error) ==> error matches TransformError::Syntax(refusal)
                && statement_refusal_fits(refusal, input_log(item, options))
        },
    }
}

/// Makes a function log what it returns.
///
/// `attr` holds the arguments of the annotation, `original_fn` the annotated function.
/// The function that comes back has the signature of `original_fn`; its body runs the
/// body of `original_fn` as a closure, logs what that returns as the annotation asks, and
/// returns it unchanged.
///
/// Faulty arguments come back as [`TransformError::Config`]: exactly then, and with every
/// fault, for what `syn` answered about the strings among the levels. With well-formed
/// arguments, a function declared `async` is refused in a build without suspension,
/// exactly then. Any other function is transformed; `syn` is asked about the generated
/// code, and where it comes back, it is the function described by [`output_logged`].
pub fn logfn(attr: &[NestedMeta], original_fn: ItemFn, wrapper: BodyWrapper) -> (outcome: Result<
    ItemFn,
    TransformError,
>)
    ensures
        exists|readings: Seq<Option<Seq<char>>>|
            readings.len() == attr.len() && output_fits(
                outcome,
                original_fn.deep_view(),
                wrapper,
                #[trigger] output_options(attr.deep_view(), readings),
            ),
{
    let mut fmt_default = original_fn.sig.ident.clone();
    fmt_default.append("() => {}");
    let ghost default = fmt_default@;
    let parsed = FormattedAttributes::parse_attributes(attr, fmt_default);
    let ghost readings = choose|readings: Seq<Option<Seq<char>>>|
        readings.len() == attr.len() && crate::options::result_view(parsed)
            == crate::attributes::parsed_attributes(attr.deep_view(), readings, default);
    let parsed_attributes = match parsed {
        Ok(parsed) => parsed,
        Err(errors) => {
            let outcome = Err(TransformError::Config(errors));
            assert(output_fits(
                outcome,
                original_fn.deep_view(),
                wrapper,
                output_options(attr.deep_view(), readings),
            ));
            return outcome;
        },
    };
    let closure = match wrapper {
        BodyWrapper::Direct => {
            if original_fn.sig.asyncness {
                let outcome = Err(TransformError::AsyncDisabled);
                assert(output_fits(
                    outcome,
                    original_fn.deep_view(),
                    wrapper,
                    output_options(attr.deep_view(), readings),
                ));
                return outcome;
            }
            crate::non_async_closure::make_closure(&original_fn)
        },
        BodyWrapper::Suspending => crate::async_closure::make_closure(&original_fn),
    };
    let is_result = check_if_return_result(&original_fn);
    let ghost item = original_fn.deep_view();
    let mut new_fn = match generate_function(&closure, parsed_attributes, is_result) {
        Ok(generated) => generated,
        Err(error) => {
            let outcome = Err(TransformError::Syntax(error));
            assert(output_fits(outcome, item, wrapper, output_options(attr.deep_view(), readings)));
            return outcome;
        },
    };
    replace_function_headers(original_fn, &mut new_fn);
    let outcome = Ok(new_fn);
    assert(output_fits(outcome, item, wrapper, output_options(attr.deep_view(), readings)));
    outcome
}

/// Makes a function log its arguments.
///
/// `attr` holds the arguments of the annotation, `original_fn` the annotated function.
/// The function that comes back is `original_fn` with one log statement in front of its
/// body; neither its signature nor what it returns is touched.
///
/// Faulty arguments come back as [`TransformError::Config`], exactly then and with every
/// fault. With well-formed arguments `syn` is asked about the log statement, and where
/// the function comes back, it is the one described by [`input_logged`].
///
/// A parameter that is bound by a pattern other than a plain name cannot be logged: with
/// well-formed arguments, every parameter has to be the receiver or bound to a plain
/// name, which [`has_supported_inputs`](crate::inputs::has_supported_inputs) tells.
pub fn logfn_inputs(attr: &[NestedMeta], original_fn: ItemFn) -> (outcome: Result<
    ItemFn,
    TransformError,
>)
    requires
        input_options(attr.deep_view()) is Ok ==> inputs_supported(
            original_fn.deep_view().sig.inputs,
        ),
    ensures
        input_fits(outcome, original_fn.deep_view(), input_options(attr.deep_view())),
{
    let parsed_attributes = match InputOptions::from_list(attr) {
        Ok(parsed) => parsed,
        Err(errors) => {
            return Err(TransformError::Config(errors));
        },
    };
    let input_log = match log_fn_inputs(&original_fn, parsed_attributes) {
        Ok(call) => call,
        Err(error) => {
            return Err(TransformError::Syntax(error));
        },
    };
    let ItemFn { sig, block } = original_fn;
    Ok(ItemFn { sig, block: block.under(Layer::Log(input_log)) })
}

} // verus!
