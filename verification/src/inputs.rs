//! The log statement for a function's arguments.

use crate::item::{FnArg, FnArgView, ItemFn, ItemFnView, LogArg, LogArgView, LogCall, LogCallView};
use crate::level::{get_logger_token, level_name};
use crate::options::{InputOptions, InputOptionsView};
use crate::syntax::{
    check_statement, plain_call, settle, statement_refusal_fits, SyntaxError,
};
use vstd::prelude::*;
use vstd::string::StringExecFns;

verus! {

/// The name under which a parameter is logged: `self` for the receiver, else the name it
/// is bound to.
pub open spec fn input_name(arg: FnArgView) -> Seq<char> {
    match arg {
        FnArgView::Receiver => "self"@,
        FnArgView::Ident(name) => name,
        FnArgView::Other => Seq::empty(),
    }
}

/// Whether every parameter is the receiver or bound to a plain name.
pub open spec fn inputs_supported(inputs: Seq<FnArgView>) -> bool {
    forall|i: int| 0 <= i < inputs.len() ==> !(#[trigger] inputs[i] is Other)
}

/// The parameters as the arguments of a log statement, in the order of their declaration.
pub open spec fn input_args(inputs: Seq<FnArgView>) -> Seq<LogArgView> {
    Seq::new(inputs.len(), |i: int| LogArgView::Input(input_name(inputs[i])))
}

/// The parameters' part of the default template: each name with a placeholder, the
/// parameters separated by a comma and a blank.
pub open spec fn inputs_template(inputs: Seq<FnArgView>) -> Seq<char>
    decreases inputs.len(),
{
    if inputs.len() == 0 {
        Seq::empty()
    } else if inputs.len() == 1 {
        input_name(inputs[0]) + ": {}"@
    } else {
        inputs_template(inputs.drop_last()) + ", "@ + input_name(inputs.last()) + ": {}"@
    }
}

/// The default template of input logging: the function's name, and in parentheses every
/// parameter's name with a placeholder.
pub open spec fn default_input_template(name: Seq<char>, inputs: Seq<FnArgView>) -> Seq<char> {
    name + "("@ + inputs_template(inputs) + ")"@
}

/// The log statement for the arguments of a function.
pub open spec fn input_log(func: ItemFnView, attr: InputOptionsView) -> LogCallView {
    LogCallView {
        level: level_name(attr.level),
        fmt: match attr.fmt {
            Some(fmt) => fmt,
            None => default_input_template(func.sig.ident, func.sig.inputs),
        },
        args: input_args(func.sig.inputs),
        debug: attr.fmt is None,
    }
}

fn name_of(arg: &FnArg) -> (name: String)
    ensures
        name@ == input_name(arg.deep_view()),
{
    match arg {
        FnArg::Receiver => String::from_str("self"),
        FnArg::Ident(name) => name.clone(),
        FnArg::Other => String::new(),
    }
}

fn collect_args(inputs: &Vec<FnArg>) -> (args: Vec<LogArg>)
    ensures
        args.deep_view() == input_args(inputs.deep_view()),
{
    let mut args: Vec<LogArg> = Vec::new();
    let mut i: usize = 0;
    while i < inputs.len()
        invariant
            i <= inputs.len(),
            args.deep_view() == input_args(inputs.deep_view()).take(i as int),
        decreases inputs.len() - i,
    {
        let arg = LogArg::Input(name_of(&inputs[i]));
        let ghost before = args.deep_view();
        args.push(arg);
        assert(args.deep_view() =~= before.push(arg.deep_view()));
        assert(args.deep_view() =~= input_args(inputs.deep_view()).take(i + 1));
        i += 1;
    }
    assert(input_args(inputs.deep_view()).take(i as int) =~= input_args(inputs.deep_view()));
    args
}

fn default_template(name: &String, inputs: &Vec<FnArg>) -> (fmt: String)
    ensures
        fmt@ == default_input_template(name@, inputs.deep_view()),
{
    let mut params = String::new();
    let mut i: usize = 0;
    while i < inputs.len()
        invariant
            i <= inputs.len(),
            params@ == inputs_template(inputs.deep_view().take(i as int)),
        decreases inputs.len() - i,
    {
        let ghost next = inputs.deep_view().take(i + 1);
        assert(next.drop_last() =~= inputs.deep_view().take(i as int));
        assert(next.last() == inputs[i as int].deep_view());
        if i > 0 {
            params.append(", ");
        }
        let input = name_of(&inputs[i]);
        params.append(input.as_str());
        params.append(": {}");
        assert(params@ =~= inputs_template(next));
        i += 1;
    }
    assert(inputs.deep_view().take(i as int) =~= inputs.deep_view());
    let mut fmt = name.clone();
    fmt.append("(");
    fmt.append(params.as_str());
    fmt.append(")");
    fmt
}

/// Whether every parameter is the receiver or bound to a plain name: whether the
/// function's arguments can be logged.
pub fn has_supported_inputs(func: &ItemFn) -> (supported: bool)
    ensures
        supported == inputs_supported(func.deep_view().sig.inputs),
{
    let mut i: usize = 0;
    while i < func.sig.inputs.len()
        invariant
            i <= func.sig.inputs.len(),
            forall|j: int| 0 <= j < i ==> !(#[trigger] func.sig.inputs.deep_view()[j] is Other),
        decreases func.sig.inputs.len() - i,
    {
        match &func.sig.inputs[i] {
            FnArg::Other => {
                assert(func.sig.inputs.deep_view()[i as int] is Other);
                return false;
            },
            _ => {},
        }
        i += 1;
    }
    true
}

/// Builds the log statement for the arguments of a function, unread by `syn`.
pub fn input_statement(func: &ItemFn, attr: InputOptions) -> (call: LogCall)
    requires
        inputs_supported(func.deep_view().sig.inputs),
    ensures
        call.deep_view() == input_log(func.deep_view(), attr.deep_view()),
{
    let args = collect_args(&func.sig.inputs);
    let level = get_logger_token(attr.level.as_str());
    let (fmt, debug) = match attr.fmt {
        Some(fmt) => (fmt, false),
        None => (default_template(&func.sig.ident, &func.sig.inputs), true),
    };
    LogCall { level, fmt, args, debug }
}

/// Makes the log statement for the arguments of a function: at the level of the
/// annotation, with its template or the default one, and with every parameter as an
/// argument, the receiver under the name `self`.
///
/// `syn` is asked whether the statement is Rust; its refusal comes back in its own words,
/// and nothing is promised of its verdict. A statement with a level or a parameter name
/// that is not of plain characters is refused without asking. The statement that comes
/// back is the one that [`input_statement`] builds.
///
/// A parameter that is bound by a pattern other than a plain name cannot be logged.
pub fn log_fn_inputs(func: &ItemFn, attr: InputOptions) -> (statement: Result<
    LogCall,
    SyntaxError,
>)
    requires
        inputs_supported(func.deep_view().sig.inputs),
    ensures
        statement matches Ok(call) ==> call.deep_view() == input_log(
            func.deep_view(),
            attr.deep_view(),
        ),
        !plain_call(input_log(func.deep_view(), attr.deep_view())) ==> statement is Err,
        statement matches Err(error) ==> statement_refusal_fits(
            error,
            input_log(func.deep_view(), attr.deep_view()),
        ),
{
    let call = input_statement(func, attr);
    let verdict = check_statement(&call);
    settle(call, verdict)
}

} // verus!
