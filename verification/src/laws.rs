//! What holds of every function that the transformation makes.

use crate::attributes::{formatted, outcome_args, template};
use crate::behavior::{lemma_events_under, wrapper_events, Event, Outcome};
use crate::generate_function::wrapper_for;
use crate::inputs::{default_input_template, input_log};
use crate::item::{
    FnArgView, ItemFnView, LayerView, LogArgView, LogCallView, ReturnShape, WrapperView,
};
use crate::level::{lemma_level_names, level_name};
use crate::options::{InputOptionsView, OutputOptionsView};
use crate::render::log_call_text;
use crate::{default_output_template, input_logged, output_logged, wrapped, BodyWrapper};
use vstd::prelude::*;

verus! {

/// The wrapper that output logging lays around a function.
pub open spec fn output_wrapper(
    item: ItemFnView,
    options: OutputOptionsView,
    wrapper: BodyWrapper,
) -> WrapperView {
    wrapper_for(
        wrapped(item, wrapper),
        formatted(options, default_output_template(item.sig.ident)),
        item.sig.output.shape() == ReturnShape::OutcomeCarrying,
    )
}

/// Output logging leaves the signature as it is and lays one wrapper around the body;
/// a call emits what the body emits, and then what the wrapper emits for the outcome.
pub proof fn lemma_output_logged(
    item: ItemFnView,
    options: OutputOptionsView,
    wrapper: BodyWrapper,
    outcome: Outcome,
)
    ensures
        output_logged(item, options, wrapper).sig == item.sig,
        output_logged(item, options, wrapper).block == item.block.under(
            LayerView::Wrap(output_wrapper(item, options, wrapper)),
        ),
        output_logged(item, options, wrapper).block.events(outcome) == item.block.events(outcome)
            + wrapper_events(output_wrapper(item, options, wrapper), outcome),
{
    lemma_events_under(
        item.block,
        LayerView::Wrap(output_wrapper(item, options, wrapper)),
        outcome,
    );
}

/// The outcomes are told apart exactly where the return type carries an outcome or the
/// configuration names a level for one of the outcomes; the time is measured exactly where
/// `log_ts` is set.
pub proof fn lemma_decision(item: ItemFnView, options: OutputOptionsView, wrapper: BodyWrapper)
    ensures
        output_wrapper(item, options, wrapper).branching == (item.sig.output.shape()
            == ReturnShape::OutcomeCarrying || options.named.ok is Some || options.named.err
            is Some),
        output_wrapper(item, options, wrapper).timed == options.log_ts(),
        output_wrapper(item, options, wrapper).suspending == (item.sig.asyncness && wrapper
            == BodyWrapper::Suspending),
{
}

/// In a build with suspension a function that is not declared `async` is transformed as in
/// a build without.
pub proof fn lemma_builds_agree(item: ItemFnView, options: OutputOptionsView)
    requires
        !item.sig.asyncness,
    ensures
        output_logged(item, options, BodyWrapper::Suspending) == output_logged(
            item,
            options,
            BodyWrapper::Direct,
        ),
{
}

/// A configuration without any level adds no log statement: the function made for it has
/// the signature of the annotated function, and a call of it emits what a call of the
/// annotated function emits, whatever its outcome.
pub proof fn lemma_silent_without_levels(
    item: ItemFnView,
    options: OutputOptionsView,
    wrapper: BodyWrapper,
    outcome: Outcome,
)
    requires
        options.leading_level is None,
        options.named.ok is None,
        options.named.err is None,
    ensures
        output_logged(item, options, wrapper).sig == item.sig,
        output_logged(item, options, wrapper).block.events(outcome) == item.block.events(outcome),
{
    lemma_output_logged(item, options, wrapper, outcome);
    assert(item.block.events(outcome) + Seq::<Event>::empty() =~= item.block.events(outcome));
}

/// With a level for the success, a successful call of a function that carries an outcome
/// emits, after what the body emits, exactly one log statement: at that level, with the
/// success value as its first argument and the elapsed time, where it is logged, as its
/// second and last. The level `info` is the facade's `Info`. The failure's statement is
/// not emitted.
pub proof fn lemma_success_logged_once(
    item: ItemFnView,
    options: OutputOptionsView,
    wrapper: BodyWrapper,
    level: Seq<char>,
)
    requires
        item.sig.output.shape() == ReturnShape::OutcomeCarrying,
        options.ok_log() == Some(level),
    ensures
        output_logged(item, options, wrapper).block.events(Outcome::Success)
            == item.block.events(Outcome::Success).push(
            Event::Log(
                LogCallView {
                    level: level_name(level),
                    fmt: template(options, default_output_template(item.sig.ident)),
                    args: outcome_args(LogArgView::Value, options.log_ts()),
                    debug: options.fmt() is None,
                },
            ),
        ),
        level == "info"@ ==> level_name(level) == "Info"@,
{
    lemma_output_logged(item, options, wrapper, Outcome::Success);
    lemma_level_names();
    let call = output_wrapper(item, options, wrapper).ok_expr->0;
    assert(item.block.events(Outcome::Success) + seq![Event::Log(call)] =~= item.block.events(
        Outcome::Success,
    ).push(Event::Log(call)));
}

/// With a level for the failure, a failing call of a function that carries an outcome
/// emits, after what the body emits, exactly one log statement: at that level, with the
/// failure value as its first argument and the elapsed time, where it is logged, as its
/// second and last. The level `error` is the facade's `Error`. The success's statement is
/// not emitted.
pub proof fn lemma_failure_logged_once(
    item: ItemFnView,
    options: OutputOptionsView,
    wrapper: BodyWrapper,
    level: Seq<char>,
)
    requires
        item.sig.output.shape() == ReturnShape::OutcomeCarrying,
        options.err_log() == Some(level),
    ensures
        output_logged(item, options, wrapper).block.events(Outcome::Failure)
            == item.block.events(Outcome::Failure).push(
            Event::Log(
                LogCallView {
                    level: level_name(level),
                    fmt: template(options, default_output_template(item.sig.ident)),
                    args: outcome_args(LogArgView::Failure, options.log_ts()),
                    debug: options.fmt() is None,
                },
            ),
        ),
        level == "error"@ ==> level_name(level) == "Error"@,
{
    lemma_output_logged(item, options, wrapper, Outcome::Failure);
    lemma_level_names();
    let call = output_wrapper(item, options, wrapper).err_expr->0;
    assert(item.block.events(Outcome::Failure) + seq![Event::Log(call)] =~= item.block.events(
        Outcome::Failure,
    ).push(Event::Log(call)));
}

/// Where the outcomes are told apart, a call emits the statement of its own outcome and
/// never that of the other: a success the one made for the success, a failure the one
/// made for the failure, and nothing where no level applies to the outcome. The outcomes
/// are told apart for every function that carries an outcome, and for every configuration
/// that names a level for one of them.
pub proof fn lemma_outcomes_exclusive(
    item: ItemFnView,
    options: OutputOptionsView,
    wrapper: BodyWrapper,
)
    requires
        item.sig.output.shape() == ReturnShape::OutcomeCarrying || options.contains_ok_or_err(),
    ensures
        output_wrapper(item, options, wrapper).branching,
        wrapper_events(output_wrapper(item, options, wrapper), Outcome::Success) == match formatted(
            options,
            default_output_template(item.sig.ident),
        ).ok_expr {
            Some(call) => seq![Event::Log(call)],
            None => Seq::empty(),
        },
        wrapper_events(output_wrapper(item, options, wrapper), Outcome::Failure) == match formatted(
            options,
            default_output_template(item.sig.ident),
        ).err_expr {
            Some(call) => seq![Event::Log(call)],
            None => Seq::empty(),
        },
{
}

/// The elapsed time stands in the log statements of both outcomes or in neither: it is
/// the second and last argument of each where `log_ts` is set, and no argument at all
/// where it is not. Both statements share one template: the given or the default one,
/// followed by the elapsed time's segment where `log_ts` is set and by nothing where it
/// is not.
pub proof fn lemma_elapsed_last(options: OutputOptionsView, fmt_default: Seq<char>)
    ensures
        ({
            let expressions = formatted(options, fmt_default);
            &&& expressions.log_ts == options.log_ts()
            &&& expressions.ok_expr matches Some(call) ==> {
                &&& call.args == outcome_args(LogArgView::Value, options.log_ts())
                &&& call.fmt == template(options, fmt_default)
            }
            &&& expressions.err_expr matches Some(call) ==> {
                &&& call.args == outcome_args(LogArgView::Failure, options.log_ts())
                &&& call.fmt == template(options, fmt_default)
            }
        }),
        forall|value: LogArgView|
            value != LogArgView::Elapsed ==> {
                let args = #[trigger] outcome_args(value, options.log_ts());
                &&& args[0] == value
                &&& options.log_ts() ==> args.len() == 2 && args.last() == LogArgView::Elapsed
                &&& !options.log_ts() ==> args.len() == 1
                &&& args.contains(LogArgView::Elapsed) == options.log_ts()
            },
        template(options, fmt_default) == match options.fmt() {
            Some(fmt) => fmt,
            None => fmt_default,
        } + if options.log_ts() {
            ", ts={}"@
        } else {
            Seq::empty()
        },
{
    assert forall|value: LogArgView| value != LogArgView::Elapsed implies {
        let args = #[trigger] outcome_args(value, options.log_ts());
        &&& args[0] == value
        &&& options.log_ts() ==> args.len() == 2 && args.last() == LogArgView::Elapsed
        &&& !options.log_ts() ==> args.len() == 1
        &&& args.contains(LogArgView::Elapsed) == options.log_ts()
    } by {
        let args = outcome_args(value, options.log_ts());
        if options.log_ts() {
            assert(args[1] == LogArgView::Elapsed);
        }
    }
    let base = match options.fmt() {
        Some(fmt) => fmt,
        None => fmt_default,
    };
    assert(base + Seq::<char>::empty() =~= base);
}

/// Without `fmt`, output logging uses the function's name, `() => ` and a placeholder as
/// the template of both outcomes; the elapsed time's segment follows where `log_ts` is
/// set.
pub proof fn lemma_default_output_template(
    item: ItemFnView,
    options: OutputOptionsView,
    wrapper: BodyWrapper,
)
    requires
        options.fmt() is None,
    ensures
        ({
            let made = output_wrapper(item, options, wrapper);
            let fmt = if options.log_ts() {
                item.sig.ident + "() => {}"@ + ", ts={}"@
            } else {
                item.sig.ident + "() => {}"@
            };
            &&& made.ok_expr matches Some(call) ==> call.fmt == fmt
            &&& made.err_expr matches Some(call) ==> call.fmt == fmt
        }),
{
}

/// Without a template of its own, input logging of a function `f(a, b)` uses the template
/// `f(a: {}, b: {})`, and hands over `a` and `b` in this order.
pub proof fn lemma_two_parameters(
    item: ItemFnView,
    options: InputOptionsView,
    a: Seq<char>,
    b: Seq<char>,
)
    requires
        options.fmt is None,
        item.sig.inputs == seq![FnArgView::Ident(a), FnArgView::Ident(b)],
    ensures
        input_log(item, options).fmt == item.sig.ident + "("@ + a + ": {}, "@ + b + ": {})"@,
        input_log(item, options).args == seq![LogArgView::Input(a), LogArgView::Input(b)],
        item.sig.ident == "f"@ && a == "a"@ && b == "b"@ ==> input_log(item, options).fmt
            == "f(a: {}, b: {})"@,
{
    reveal_strlit("(");
    reveal_strlit(")");
    reveal_strlit(": {}");
    reveal_strlit(", ");
    reveal_strlit(": {}, ");
    reveal_strlit(": {})");
    reveal_strlit("f");
    reveal_strlit("a");
    reveal_strlit("b");
    reveal_strlit("f(a: {}, b: {})");
    let inputs = item.sig.inputs;
    assert(inputs.drop_last() =~= seq![FnArgView::Ident(a)]);
    reveal_with_fuel(crate::inputs::inputs_template, 3);
    assert(crate::inputs::inputs_template(inputs) == a + ": {}"@ + ", "@ + b + ": {}"@);
    assert(default_input_template(item.sig.ident, inputs) =~= item.sig.ident + "("@ + a
        + ": {}, "@ + b + ": {})"@);
    assert(input_log(item, options).args =~= seq![LogArgView::Input(a), LogArgView::Input(b)]);
    if item.sig.ident == "f"@ && a == "a"@ && b == "b"@ {
        assert(input_log(item, options).fmt =~= "f(a: {}, b: {})"@);
    }
}

/// Input logging leaves the signature as it is and puts exactly one log statement in front
/// of the body, which stays as it is: a call emits this statement and then what the body
/// emits, and the source text starts with the statement and goes on with the body's.
pub proof fn lemma_input_logged(item: ItemFnView, options: InputOptionsView, outcome: Outcome)
    ensures
        input_logged(item, options).sig == item.sig,
        input_logged(item, options).block == item.block.under(
            LayerView::Log(input_log(item, options)),
        ),
        input_logged(item, options).block.events(outcome) == seq![
            Event::Log(input_log(item, options)),
        ] + item.block.events(outcome),
        input_logged(item, options).block.stmts() == log_call_text(input_log(item, options))
            + "; "@ + item.block.stmts(),
{
    lemma_events_under(item.block, LayerView::Log(input_log(item, options)), outcome);
    assert(input_logged(item, options).block.layers.drop_last() =~= item.block.layers);
}

/// Input logging and output logging on one function give two log statements that do not
/// touch each other, whichever annotation is worked off first: a call emits the input's
/// statement, then what the body emits, then the statement of the outcome.
pub proof fn lemma_stacked_order(
    item: ItemFnView,
    input: InputOptionsView,
    output: OutputOptionsView,
    wrapper: BodyWrapper,
    outcome: Outcome,
)
    ensures
        ({
            let inner_first = output_logged(input_logged(item, input), output, wrapper);
            let outer_first = input_logged(output_logged(item, output, wrapper), input);
            let expected = seq![Event::Log(input_log(item, input))] + item.block.events(outcome)
                + wrapper_events(output_wrapper(item, output, wrapper), outcome);
            &&& inner_first.sig == item.sig
            &&& outer_first.sig == item.sig
            &&& inner_first.block.events(outcome) == expected
            &&& outer_first.block.events(outcome) == expected
        }),
{
    let logged = input_logged(item, input);
    let wrapped = output_logged(item, output, wrapper);
    let inner_first = output_logged(logged, output, wrapper);
    let outer_first = input_logged(wrapped, input);
    let call = input_log(item, input);
    let layer = LayerView::Wrap(output_wrapper(item, output, wrapper));
    lemma_events_under(item.block, LayerView::Log(call), outcome);
    lemma_events_under(item.block, layer, outcome);
    lemma_events_under(logged.block, layer, outcome);
    lemma_events_under(wrapped.block, LayerView::Log(call), outcome);
    assert(inner_first.block == logged.block.under(layer));
    assert(outer_first.block == wrapped.block.under(LayerView::Log(call)));
    let expected = seq![Event::Log(call)] + item.block.events(outcome) + wrapper_events(
        output_wrapper(item, output, wrapper),
        outcome,
    );
    assert(inner_first.block.events(outcome) =~= expected);
    assert(outer_first.block.events(outcome) =~= expected);
}

} // verus!
