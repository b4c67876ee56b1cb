//! The source text of a body with its layers.
//!
//! A log statement is a call of the facade's `log!` macro. A wrapper binds the closure's
//! result to `result`, the time it took to `ts`, a success value to `result` again and a
//! failure value to `err`, and hands the result on.

use crate::item::{
    Block, BlockView, Layer, LayerView, LogArg, LogArgView, LogCall, LogCallView, Wrapper,
    WrapperView,
};
use crate::text::push_char;
use vstd::prelude::*;
use vstd::string::StringExecFns;

verus! {

/// How one character of a text stands inside a string literal.
pub open spec fn escaped_char(c: char) -> Seq<char> {
    if c == '"' {
        seq!['\\', '"']
    } else if c == '\\' {
        seq!['\\', '\\']
    } else if c == '\n' {
        seq!['\\', 'n']
    } else if c == '\r' {
        seq!['\\', 'r']
    } else if c == '\t' {
        seq!['\\', 't']
    } else {
        seq![c]
    }
}

/// A text as it stands between the quotes of a string literal.
pub open spec fn escaped(text: Seq<char>) -> Seq<char>
    decreases text.len(),
{
    if text.len() == 0 {
        Seq::empty()
    } else {
        escaped(text.drop_last()) + escaped_char(text.last())
    }
}

/// The string literal that denotes a text.
pub open spec fn string_literal(text: Seq<char>) -> Seq<char> {
    "\""@ + escaped(text) + "\""@
}

/// The name to which the value of an argument is bound where the log statement stands.
pub open spec fn arg_name(arg: LogArgView) -> Seq<char> {
    match arg {
        LogArgView::Value => "result"@,
        LogArgView::Failure => "err"@,
        LogArgView::Elapsed => "ts"@,
        LogArgView::Input(name) => name,
    }
}

/// The expression that shows a value in its debug form under any placeholder.
pub open spec fn debug_form(name: Seq<char>) -> Seq<char> {
    "format_args!(\"{:?}\", "@ + name + ")"@
}

/// The expression that hands an argument to the facade: the name it is bound to, or its
/// debug form. The elapsed time has no other form than the debug form.
pub open spec fn arg_text(arg: LogArgView, debug: bool) -> Seq<char> {
    if debug || arg == LogArgView::Elapsed {
        debug_form(arg_name(arg))
    } else {
        arg_name(arg)
    }
}

/// The arguments of a log statement, each after a comma.
pub open spec fn args_text(args: Seq<LogArgView>, debug: bool) -> Seq<char>
    decreases args.len(),
{
    if args.len() == 0 {
        Seq::empty()
    } else {
        args_text(args.drop_last(), debug) + ", "@ + arg_text(args.last(), debug)
    }
}

/// The call of the facade's macro.
pub open spec fn log_call_text(call: LogCallView) -> Seq<char> {
    "log::log!(log::Level::"@ + call.level + ", "@ + string_literal(call.fmt) + args_text(
        call.args,
        call.debug,
    ) + ")"@
}

/// What stands where an outcome is logged: the call, or `()` where nothing is logged.
pub open spec fn expr_text(expr: Option<LogCallView>) -> Seq<char> {
    match expr {
        Some(call) => log_call_text(call),
        None => "()"@,
    }
}

/// The statements `inner` as a closure that captures by value, invoked on the spot; or as
/// an `async` block that is awaited.
pub open spec fn invocation_text(suspending: bool, inner: Seq<char>) -> Seq<char> {
    if suspending {
        "async move { "@ + inner + " }.await"@
    } else {
        "(move || { "@ + inner + " })()"@
    }
}

/// What a wrapper does with the result: log it and hand it on, along the outcome's branch
/// where the outcomes are told apart.
pub open spec fn handling_text(wrapper: WrapperView) -> Seq<char> {
    if wrapper.branching {
        "result.map(|result| { "@ + expr_text(wrapper.ok_expr)
            + "; result }).map_err(|err| { "@ + expr_text(wrapper.err_expr) + "; err })"@
    } else {
        expr_text(wrapper.ok_expr) + "; result"@
    }
}

/// The statements of a wrapper around the statements `inner`.
pub open spec fn wrapper_text(wrapper: WrapperView, inner: Seq<char>) -> Seq<char> {
    if wrapper.timed {
        "let instant = std::time::Instant::now(); let result = "@ + invocation_text(
            wrapper.suspending,
            inner,
        ) + "; let ts = instant.elapsed(); "@ + handling_text(wrapper)
    } else {
        "let result = "@ + invocation_text(wrapper.suspending, inner) + "; "@ + handling_text(
            wrapper,
        )
    }
}

/// The statements of a layer around the statements `inner`.
pub open spec fn layer_text(layer: LayerView, inner: Seq<char>) -> Seq<char> {
    match layer {
        LayerView::Log(call) => log_call_text(call) + "; "@ + inner,
        LayerView::Wrap(wrapper) => wrapper_text(wrapper, inner),
    }
}

/// The statements of a body: its source under its layers, the innermost first.
pub open spec fn stmts_text(source: Seq<char>, layers: Seq<LayerView>) -> Seq<char>
    decreases layers.len(),
{
    if layers.len() == 0 {
        source
    } else {
        layer_text(layers.last(), stmts_text(source, layers.drop_last()))
    }
}

impl BlockView {
    /// The statements of the body.
    pub open spec fn stmts(self) -> Seq<char> {
        stmts_text(self.source, self.layers)
    }

    /// The body as a block: its statements in braces.
    pub open spec fn text(self) -> Seq<char> {
        "{ "@ + self.stmts() + " }"@
    }
}

fn escape(text: &str) -> (out: String)
    ensures
        out@ == escaped(text@),
{
    let len = text.unicode_len();
    let mut out = String::new();
    let mut i: usize = 0;
    while i < len
        invariant
            len == text@.len(),
            i <= len,
            out@ == escaped(text@.take(i as int)),
        decreases len - i,
    {
        let c = text.get_char(i);
        let ghost before = out@;
        assert(text@.take(i + 1).drop_last() =~= text@.take(i as int));
        assert(text@.take(i + 1).last() == c);
        if c == '"' {
            push_char(&mut out, '\\');
            push_char(&mut out, '"');
        } else if c == '\\' {
            push_char(&mut out, '\\');
            push_char(&mut out, '\\');
        } else if c == '\n' {
            push_char(&mut out, '\\');
            push_char(&mut out, 'n');
        } else if c == '\r' {
            push_char(&mut out, '\\');
            push_char(&mut out, 'r');
        } else if c == '\t' {
            push_char(&mut out, '\\');
            push_char(&mut out, 't');
        } else {
            push_char(&mut out, c);
        }
        assert(out@ =~= before + escaped_char(c));
        i += 1;
    }
    assert(text@.take(len as int) =~= text@);
    out
}

fn render_string_literal(text: &str) -> (out: String)
    ensures
        out@ == string_literal(text@),
{
    let mut out = String::from_str("\"");
    let body = escape(text);
    out.append(body.as_str());
    out.append("\"");
    out
}

fn render_arg(arg: &LogArg, debug: bool) -> (out: String)
    ensures
        out@ == arg_text(arg.deep_view(), debug),
{
    let (name, elapsed) = match arg {
        LogArg::Value => ("result", false),
        LogArg::Failure => ("err", false),
        LogArg::Elapsed => ("ts", true),
        LogArg::Input(name) => (name.as_str(), false),
    };
    if debug || elapsed {
        let mut out = String::from_str("format_args!(\"{:?}\", ");
        out.append(name);
        out.append(")");
        out
    } else {
        String::from_str(name)
    }
}

fn render_args(args: &Vec<LogArg>, debug: bool) -> (out: String)
    ensures
        out@ == args_text(args.deep_view(), debug),
{
    let mut out = String::new();
    let mut i: usize = 0;
    while i < args.len()
        invariant
            i <= args.len(),
            out@ == args_text(args.deep_view().take(i as int), debug),
        decreases args.len() - i,
    {
        let ghost next = args.deep_view().take(i + 1);
        assert(next.drop_last() =~= args.deep_view().take(i as int));
        assert(next.last() == args[i as int].deep_view());
        out.append(", ");
        let arg = render_arg(&args[i], debug);
        out.append(arg.as_str());
        i += 1;
    }
    assert(args.deep_view().take(i as int) =~= args.deep_view());
    out
}

impl LogCall {
    /// The call of the facade's macro, as source text.
    pub fn render(&self) -> (out: String)
        ensures
            out@ == log_call_text(self.deep_view()),
    {
        let mut out = String::from_str("log::log!(log::Level::");
        out.append(self.level.as_str());
        out.append(", ");
        let template = render_string_literal(self.fmt.as_str());
        out.append(template.as_str());
        let args = render_args(&self.args, self.debug);
        out.append(args.as_str());
        out.append(")");
        out
    }
}

fn render_expr(expr: &Option<LogCall>) -> (out: String)
    ensures
        out@ == expr_text(expr.deep_view()),
{
    match expr {
        Some(call) => call.render(),
        None => String::from_str("()"),
    }
}

fn render_invocation(suspending: bool, inner: &str) -> (out: String)
    ensures
        out@ == invocation_text(suspending, inner@),
{
    if suspending {
        let mut out = String::from_str("async move { ");
        out.append(inner);
        out.append(" }.await");
        out
    } else {
        let mut out = String::from_str("(move || { ");
        out.append(inner);
        out.append(" })()");
        out
    }
}

fn render_handling(wrapper: &Wrapper) -> (out: String)
    ensures
        out@ == handling_text(wrapper.deep_view()),
{
    let ok_expr = render_expr(&wrapper.ok_expr);
    if wrapper.branching {
        let err_expr = render_expr(&wrapper.err_expr);
        let mut out = String::from_str("result.map(|result| { ");
        out.append(ok_expr.as_str());
        out.append("; result }).map_err(|err| { ");
        out.append(err_expr.as_str());
        out.append("; err })");
        out
    } else {
        let mut out = ok_expr;
        out.append("; result");
        out
    }
}

fn render_wrapper(wrapper: &Wrapper, inner: &str) -> (out: String)
    ensures
        out@ == wrapper_text(wrapper.deep_view(), inner@),
{
    let invocation = render_invocation(wrapper.suspending, inner);
    let handling = render_handling(wrapper);
    if wrapper.timed {
        let mut out = String::from_str("let instant = std::time::Instant::now(); let result = ");
        out.append(invocation.as_str());
        out.append("; let ts = instant.elapsed(); ");
        out.append(handling.as_str());
        out
    } else {
        let mut out = String::from_str("let result = ");
        out.append(invocation.as_str());
        out.append("; ");
        out.append(handling.as_str());
        out
    }
}

fn render_layer(layer: &Layer, inner: &str) -> (out: String)
    ensures
        out@ == layer_text(layer.deep_view(), inner@),
{
    match layer {
        Layer::Log(call) => {
            let mut out = call.render();
            out.append("; ");
            out.append(inner);
            out
        },
        Layer::Wrap(wrapper) => render_wrapper(wrapper, inner),
    }
}

impl Block {
    /// The statements of the body, as source text.
    pub fn render_stmts(&self) -> (out: String)
        ensures
            out@ == self.deep_view().stmts(),
    {
        let mut out = self.source.clone();
        let mut i: usize = 0;
        assert(self.layers.deep_view().take(0) =~= Seq::empty());
        while i < self.layers.len()
            invariant
                i <= self.layers.len(),
                out@ == stmts_text(self.source@, self.layers.deep_view().take(i as int)),
            decreases self.layers.len() - i,
        {
            let ghost next = self.layers.deep_view().take(i + 1);
            assert(next.drop_last() =~= self.layers.deep_view().take(i as int));
            assert(next.last() == self.layers[i as int].deep_view());
            out = render_layer(&self.layers[i], out.as_str());
            i += 1;
        }
        assert(self.layers.deep_view().take(i as int) =~= self.layers.deep_view());
        out
    }

    /// The body as a block of source text: its statements in braces.
    pub fn render(&self) -> (out: String)
        ensures
            out@ == self.deep_view().text(),
    {
        let mut out = String::from_str("{ ");
        let stmts = self.render_stmts();
        out.append(stmts.as_str());
        out.append(" }");
        out
    }
}

} // verus!
