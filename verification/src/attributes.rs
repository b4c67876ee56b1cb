//! From a configuration to the log statements of the two outcomes.

use crate::error::{ConfigError, ConfigErrorView};
use crate::item::{LogArg, LogArgView, LogCall, LogCallView};
use crate::level::{get_logger_token, level_name};
use crate::meta::{NestedMeta, NestedMetaView};
use crate::options::{output_options, result_view, OutputOptions, OutputOptionsView};
use vstd::prelude::*;
use vstd::string::StringExecFns;

verus! {

/// What is logged for a success and for a failure, and how the wrapper is to be built.
#[derive(Debug, PartialEq, Eq)]
pub struct FormattedAttributes {
    /// The log statement for a success; `None` where nothing is logged.
    pub ok_expr: Option<LogCall>,
    /// The log statement for a failure; `None` where nothing is logged.
    pub err_expr: Option<LogCall>,
    /// Whether the elapsed time is measured and logged.
    pub log_ts: bool,
    /// Whether a level was given for one outcome by name.
    pub contained_ok_or_err: bool,
}

/// The mathematical value of a [`FormattedAttributes`].
pub struct FormattedAttributesView {
    pub ok_expr: Option<LogCallView>,
    pub err_expr: Option<LogCallView>,
    pub log_ts: bool,
    pub contained_ok_or_err: bool,
}

impl DeepView for FormattedAttributes {
    type V = FormattedAttributesView;

    open spec fn deep_view(&self) -> FormattedAttributesView {
        FormattedAttributesView {
            ok_expr: self.ok_expr.deep_view(),
            err_expr: self.err_expr.deep_view(),
            log_ts: self.log_ts,
            contained_ok_or_err: self.contained_ok_or_err,
        }
    }
}

/// The template of both outcomes: the one that `fmt` gives, else the default; with the
/// elapsed time's segment at its end where the time is logged.
pub open spec fn template(options: OutputOptionsView, fmt_default: Seq<char>) -> Seq<char> {
    let base = match options.fmt() {
        Some(fmt) => fmt,
        None => fmt_default,
    };
    if options.log_ts() {
        base + ", ts={}"@
    } else {
        base
    }
}

/// The arguments of an outcome's log statement: the outcome's value, then the elapsed time
/// where it is logged.
pub open spec fn outcome_args(value: LogArgView, log_ts: bool) -> Seq<LogArgView> {
    if log_ts {
        seq![value, LogArgView::Elapsed]
    } else {
        seq![value]
    }
}

/// The log statement of an outcome, where a level applies to it. With the template of the
/// annotation the arguments are handed over as they are, with the default template in
/// their debug form.
pub open spec fn outcome_expr(
    options: OutputOptionsView,
    fmt_default: Seq<char>,
    level: Option<Seq<char>>,
    value: LogArgView,
) -> Option<LogCallView> {
    match level {
        Some(level) => Some(
            LogCallView {
                level: level_name(level),
                fmt: template(options, fmt_default),
                args: outcome_args(value, options.log_ts()),
                debug: options.fmt() is None,
            },
        ),
        None => None,
    }
}

/// What a configuration asks to be logged.
pub open spec fn formatted(
    options: OutputOptionsView,
    fmt_default: Seq<char>,
) -> FormattedAttributesView {
    FormattedAttributesView {
        ok_expr: outcome_expr(options, fmt_default, options.ok_log(), LogArgView::Value),
        err_expr: outcome_expr(options, fmt_default, options.err_log(), LogArgView::Failure),
        log_ts: options.log_ts(),
        contained_ok_or_err: options.contains_ok_or_err(),
    }
}

/// What the arguments of an output-logging annotation ask to be logged, or every fault in
/// them, with what `syn` answered for the strings among the levels.
pub open spec fn parsed_attributes(
    attr: Seq<NestedMetaView>,
    readings: Seq<Option<Seq<char>>>,
    fmt_default: Seq<char>,
) -> Result<FormattedAttributesView, Seq<ConfigErrorView>> {
    match output_options(attr, readings) {
        Ok(options) => Ok(formatted(options, fmt_default)),
        Err(errors) => Err(errors),
    }
}

fn outcome_call(
    level: Option<&String>,
    fmt: String,
    value: LogArg,
    log_ts: bool,
    debug: bool,
) -> (expr: Option<LogCall>)
    ensures
        expr.deep_view() == match level.deep_view() {
            Some(level) => Some(
                LogCallView {
                    level: level_name(level),
                    fmt: fmt@,
                    args: outcome_args(value.deep_view(), log_ts),
                    debug,
                },
            ),
            None => None,
        },
{
    match level {
        Some(level) => {
            let mut args: Vec<LogArg> = Vec::new();
            args.push(value);
            if log_ts {
                args.push(LogArg::Elapsed);
            }
            assert(args.deep_view() =~= outcome_args(value.deep_view(), log_ts));
            Some(LogCall { level: get_logger_token(level.as_str()), fmt, args, debug })
        },
        None => None,
    }
}

impl FormattedAttributes {
    /// Reads the arguments of an output-logging annotation and works out what they ask to
    /// be logged. `fmt_default` is the template used where `fmt` gives none.
    pub fn parse_attributes(attr: &[NestedMeta], fmt_default: String) -> (parsed: Result<
        FormattedAttributes,
        Vec<ConfigError>,
    >)
        ensures
            exists|readings: Seq<Option<Seq<char>>>|
                readings.len() == attr.len() && result_view(parsed)
                    == #[trigger] parsed_attributes(attr.deep_view(), readings, fmt_default@),
    {
        let options = OutputOptions::from_list(attr);
        let ghost read = result_view(options);
        let ghost default = fmt_default@;
        let parsed = match options {
            Ok(options) => Ok(FormattedAttributes::get_ok_err_streams(options, fmt_default)),
            Err(errors) => Err(errors),
        };
        proof {
            let readings = choose|readings: Seq<Option<Seq<char>>>|
                readings.len() == attr.len() && read == output_options(
                    attr.deep_view(),
                    readings,
                );
            assert(result_view(parsed) == parsed_attributes(attr.deep_view(), readings, default));
        }
        parsed
    }

    /// Works out what a configuration asks to be logged. `fmt_default` is the template
    /// used where `fmt` gives none.
    pub fn get_ok_err_streams(att: OutputOptions, fmt_default: String) -> (expressions:
        FormattedAttributes)
        ensures
            expressions.deep_view() == formatted(att.deep_view(), fmt_default@),
    {
        let contained_ok_or_err = att.contains_ok_or_err();
        let log_ts = att.log_ts();
        let (mut fmt, debug) = match att.fmt() {
            Some(fmt) => (fmt, false),
            None => (fmt_default, true),
        };
        if log_ts {
            fmt.append(", ts={}");
        }
        let ok_expr = outcome_call(att.ok_log(), fmt.clone(), LogArg::Value, log_ts, debug);
        let err_expr = outcome_call(att.err_log(), fmt, LogArg::Failure, log_ts, debug);
        FormattedAttributes { ok_expr, err_expr, log_ts, contained_ok_or_err }
    }
}

} // verus!
