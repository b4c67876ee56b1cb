//! Asking `syn` whether generated code is Rust.
//!
//! `syn` is asked about the code that this crate wrote, not about the statements of the
//! annotated function, which stand in the generated code as the single name `body`.
//! `syn` descends once for every construct inside another, without a limit. So it is
//! asked only about code of a known depth: at most [`MAX_LAYERS`] layers, with levels and
//! parameter names of plain characters, which cannot open a group, a literal or a comment
//! and so leave the template's literal and the brackets of the layers as they were
//! written.

use crate::item::{Block, BlockView, Layer, LayerView, LogArg, LogArgView, LogCall, LogCallView};
use crate::render::log_call_text;
use crate::text::{is_plain, plain};
use vstd::prelude::*;
use vstd::string::StringExecFns;

verus! {

/// The number of layers up to which `syn` is asked about a body.
pub const MAX_LAYERS: usize = 16;

/// Why generated code is refused.
#[derive(Debug, PartialEq, Eq)]
pub enum SyntaxError {
    /// The body has more than [`MAX_LAYERS`] layers.
    TooDeep,
    /// A level or the name of a parameter holds a character that is no letter, no digit
    /// and no underscore.
    NotPlain,
    /// `syn` does not read the code; the reason in `syn`'s own words.
    Refused(String),
}

/// Whether the name in an argument, if it holds one, is of plain characters.
pub open spec fn plain_arg(arg: LogArgView) -> bool {
    match arg {
        LogArgView::Input(name) => plain(name),
        _ => true,
    }
}

/// Whether the level and the parameter names of a log statement are of plain characters.
pub open spec fn plain_call(call: LogCallView) -> bool {
    plain(call.level) && forall|i: int| 0 <= i < call.args.len() ==> plain_arg(#[trigger] call.args[i])
}

/// Whether a log statement, where there is one, is plain.
pub open spec fn plain_expr(expr: Option<LogCallView>) -> bool {
    match expr {
        Some(call) => plain_call(call),
        None => true,
    }
}

/// Whether the log statements of a layer are plain.
pub open spec fn plain_layer(layer: LayerView) -> bool {
    match layer {
        LayerView::Log(call) => plain_call(call),
        LayerView::Wrap(wrapper) => plain_expr(wrapper.ok_expr) && plain_expr(wrapper.err_expr),
    }
}

/// Whether the log statements of all layers are plain.
pub open spec fn plain_layers(layers: Seq<LayerView>) -> bool {
    forall|i: int| 0 <= i < layers.len() ==> plain_layer(#[trigger] layers[i])
}

/// The generated function as it is handed to `syn`: under the name `temp`, with the name
/// `body` for the statements of the annotated function.
pub open spec fn scaffold_text(layers: Seq<LayerView>) -> Seq<char> {
    "fn temp() "@ + (BlockView { source: "body"@, layers }).text()
}

/// A log statement as it is handed to `syn`: the call and a semicolon.
pub open spec fn statement_text(call: LogCallView) -> Seq<char> {
    log_call_text(call) + ";"@
}

/// Whether layers are refused without asking `syn`.
pub open spec fn refusal_owed(layers: Seq<LayerView>) -> bool {
    layers.len() > MAX_LAYERS || !plain_layers(layers)
}

/// Whether a refusal is the one that the layers call for: that they are too many, else
/// that a name is not plain, else that `syn` refused.
pub open spec fn refusal_fits(error: SyntaxError, layers: Seq<LayerView>) -> bool {
    if layers.len() > MAX_LAYERS {
        error is TooDeep
    } else if !plain_layers(layers) {
        error is NotPlain
    } else {
        error is Refused
    }
}

/// Whether a refusal is the one that a log statement calls for: that a name is not plain,
/// else that `syn` refused.
pub open spec fn statement_refusal_fits(error: SyntaxError, call: LogCallView) -> bool {
    if !plain_call(call) {
        error is NotPlain
    } else {
        error is Refused
    }
}

/// Calls `syn::parse_str` for a `syn::ItemFn` and drops the function read; where `syn`
/// refuses the text, the error's message comes back. Nothing is claimed of the verdict.
/// The text has to be a generated function of at most [`MAX_LAYERS`] layers with plain
/// names: its groups are those of the layers, a fixed number for each layer.
#[verifier::external_body]
pub(crate) fn parse_item_fn(text: &str) -> (parsed: Result<(), SyntaxError>)
    requires
        exists|layers: Seq<LayerView>|
            layers.len() <= MAX_LAYERS && #[trigger] plain_layers(layers) && text@
                == scaffold_text(layers),
    ensures
        parsed matches Err(error) ==> error is Refused,
{
    match syn::parse_str::<syn::ItemFn>(text) {
        Ok(_) => Ok(()),
        Err(error) => Err(SyntaxError::Refused(error.to_string())),
    }
}

/// Calls `syn::parse_str` for a `syn::Stmt` and drops the statement read; where `syn`
/// refuses the text, the error's message comes back. Nothing is claimed of the verdict.
/// The text has to be a log statement with plain names: one call of a macro, whose
/// groups are those of the call and of its arguments' debug forms.
#[verifier::external_body]
pub(crate) fn parse_stmt(text: &str) -> (parsed: Result<(), SyntaxError>)
    requires
        exists|call: LogCallView| #[trigger] plain_call(call) && text@ == statement_text(call),
    ensures
        parsed matches Err(error) ==> error is Refused,
{
    match syn::parse_str::<syn::Stmt>(text) {
        Ok(_) => Ok(()),
        Err(error) => Err(SyntaxError::Refused(error.to_string())),
    }
}

/// Whether the level and the parameter names of a log statement are of plain characters.
pub fn is_plain_call(call: &LogCall) -> (all: bool)
    ensures
        all == plain_call(call.deep_view()),
{
    if !is_plain(call.level.as_str()) {
        return false;
    }
    let mut i: usize = 0;
    while i < call.args.len()
        invariant
            i <= call.args.len(),
            forall|j: int| 0 <= j < i ==> plain_arg(#[trigger] call.args.deep_view()[j]),
        decreases call.args.len() - i,
    {
        let all = match &call.args[i] {
            LogArg::Input(name) => is_plain(name.as_str()),
            _ => true,
        };
        if !all {
            assert(!plain_arg(call.deep_view().args[i as int]));
            return false;
        }
        i += 1;
    }
    true
}

fn is_plain_expr(expr: &Option<LogCall>) -> (all: bool)
    ensures
        all == plain_expr(expr.deep_view()),
{
    match expr {
        Some(call) => is_plain_call(call),
        None => true,
    }
}

/// Whether the log statements of all layers are plain.
pub fn is_plain_layers(layers: &Vec<Layer>) -> (all: bool)
    ensures
        all == plain_layers(layers.deep_view()),
{
    let mut i: usize = 0;
    while i < layers.len()
        invariant
            i <= layers.len(),
            forall|j: int| 0 <= j < i ==> plain_layer(#[trigger] layers.deep_view()[j]),
        decreases layers.len() - i,
    {
        let all = match &layers[i] {
            Layer::Log(call) => is_plain_call(call),
            Layer::Wrap(wrapper) => is_plain_expr(&wrapper.ok_expr) && is_plain_expr(
                &wrapper.err_expr,
            ),
        };
        if !all {
            assert(!plain_layer(layers.deep_view()[i as int]));
            return false;
        }
        i += 1;
    }
    true
}

/// What is handed out once the verdict on generated code is known: the code where it
/// was read, the refusal where it was not.
pub fn settle<T>(made: T, verdict: Result<(), SyntaxError>) -> (settled: Result<T, SyntaxError>)
    ensures
        verdict is Ok ==> settled == Ok::<T, SyntaxError>(made),
        verdict matches Err(error) ==> settled == Err::<T, SyntaxError>(error),
{
    match verdict {
        Ok(_) => Ok(made),
        Err(error) => Err(error),
    }
}

/// Asks `syn` whether the function generated for a body is Rust. More than [`MAX_LAYERS`]
/// layers and names that are not plain are refused without asking; of what `syn` answers
/// nothing is known but that a refusal is `syn`'s.
pub fn check_function(block: &Block) -> (verdict: Result<(), SyntaxError>)
    ensures
        refusal_owed(block.deep_view().layers) ==> verdict is Err,
        verdict matches Err(error) ==> refusal_fits(error, block.deep_view().layers),
{
    if block.layers.len() > MAX_LAYERS {
        return Err(SyntaxError::TooDeep);
    }
    if !is_plain_layers(&block.layers) {
        return Err(SyntaxError::NotPlain);
    }
    let scaffold = Block { source: String::from_str("body"), layers: block.clone().layers };
    let mut text = String::from_str("fn temp() ");
    let body = scaffold.render();
    text.append(body.as_str());
    assert(text@ == scaffold_text(block.deep_view().layers));
    parse_item_fn(text.as_str())
}

/// Asks `syn` whether a log statement is Rust. Names that are not plain are refused
/// without asking; of what `syn` answers nothing is known but that a refusal is `syn`'s.
pub fn check_statement(call: &LogCall) -> (verdict: Result<(), SyntaxError>)
    ensures
        !plain_call(call.deep_view()) ==> verdict is Err,
        verdict matches Err(error) ==> statement_refusal_fits(error, call.deep_view()),
{
    if !is_plain_call(call) {
        return Err(SyntaxError::NotPlain);
    }
    let mut text = call.render();
    text.append(";");
    assert(text@ == statement_text(call.deep_view()));
    parse_stmt(text.as_str())
}

} // verus!
