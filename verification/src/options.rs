//! The configuration that an annotation's arguments stand for.
//!
//! Output logging takes an optional leading level and the named options `ok`, `err`,
//! `fmt` and `log_ts`, each at most once. Input logging takes a level and, optionally, a
//! format template.
//!
//! A level that is given as a string is read by `syn`. What `syn` answers is no function
//! of the string that this crate could state, so the configuration is stated over the
//! readings: for each argument what `syn` answered for it, `None` where it was not asked
//! or did not read one identifier.

use crate::error::{ConfigError, ConfigErrorView, Field, Shape};
use crate::meta::{NestedMeta, NestedMetaView, PathView, Value, ValueView};
use crate::text::{has_opener, holds_opener};
use vstd::prelude::*;
use vstd::string::StringExecFns;

verus! {

/// The view of a result: the view of what it holds.
pub open spec fn result_view<T: DeepView, E: DeepView>(result: Result<T, E>) -> Result<
    T::V,
    E::V,
> {
    match result {
        Ok(value) => Ok(value.deep_view()),
        Err(error) => Err(error.deep_view()),
    }
}

/// Calls `syn::parse_str` for a `syn::Ident` and returns the identifier's text, or `None`
/// where `syn` does not read the text as exactly one identifier. Nothing is claimed of
/// the answer. A text without an opening bracket holds no group of tokens, so that
/// neither the lexer nor `syn`'s token buffer, which descends once for each group inside
/// a group, goes deeper than one level.
#[verifier::external_body]
fn parse_ident(text: &str) -> (ident: Option<String>)
    requires
        !has_opener(text@),
{
    match syn::parse_str::<syn::Ident>(text) {
        Ok(ident) => Some(ident.to_string()),
        Err(_) => None,
    }
}

/// The option that a name stands for.
pub open spec fn field_of(name: Seq<char>) -> Option<Field> {
    if name == "ok"@ {
        Some(Field::OkLevel)
    } else if name == "err"@ {
        Some(Field::ErrLevel)
    } else if name == "fmt"@ {
        Some(Field::Fmt)
    } else if name == "log_ts"@ {
        Some(Field::LogTs)
    } else {
        None
    }
}

/// The path that names an argument; a bare literal has none.
pub open spec fn item_path(item: NestedMetaView) -> Option<PathView> {
    match item {
        NestedMetaView::Path(path) => Some(path),
        NestedMetaView::List(path) => Some(path),
        NestedMetaView::NameValue(path, _) => Some(path),
        NestedMetaView::Lit(_) => None,
    }
}

/// The level that a string gives, by what `syn` read it as: the identifier, or the fault
/// that the string is no level.
pub open spec fn string_level(field: Field, text: Seq<char>, reading: Option<Seq<char>>) -> Result<
    Seq<char>,
    ConfigErrorView,
> {
    match reading {
        Some(name) => Ok(name),
        None => Err(ConfigErrorView::UnknownValue(field, text)),
    }
}

/// The level that an argument gives to `ok` or `err`: an identifier, or a string that
/// `syn` read as one. A string with an opening bracket is no level, and `syn` is not
/// asked about it.
pub open spec fn level_value(
    field: Field,
    item: NestedMetaView,
    reading: Option<Seq<char>>,
) -> Result<Seq<char>, ConfigErrorView> {
    match item {
        NestedMetaView::Path(_) => Err(ConfigErrorView::UnexpectedFormat(field, Shape::Word)),
        NestedMetaView::List(_) => Err(ConfigErrorView::UnexpectedFormat(field, Shape::List)),
        NestedMetaView::NameValue(_, value) => match value {
            ValueView::Ident(name) => Ok(name),
            ValueView::Str(text) => string_level(
                field,
                text,
                if has_opener(text) {
                    None
                } else {
                    reading
                },
            ),
            _ => Err(ConfigErrorView::UnexpectedType(field, value.kind())),
        },
        NestedMetaView::Lit(value) => Err(ConfigErrorView::UnexpectedLiteral(value.kind())),
    }
}

/// The template that an argument gives to `fmt`: a string.
pub open spec fn template_value(item: NestedMetaView) -> Result<Seq<char>, ConfigErrorView> {
    match item {
        NestedMetaView::Path(_) => Err(
            ConfigErrorView::UnexpectedFormat(Field::Fmt, Shape::Word),
        ),
        NestedMetaView::List(_) => Err(
            ConfigErrorView::UnexpectedFormat(Field::Fmt, Shape::List),
        ),
        NestedMetaView::NameValue(_, value) => match value {
            ValueView::Str(text) => Ok(text),
            _ => Err(ConfigErrorView::UnexpectedType(Field::Fmt, value.kind())),
        },
        NestedMetaView::Lit(value) => Err(ConfigErrorView::UnexpectedLiteral(value.kind())),
    }
}

/// The switch that an argument gives to `log_ts`: the name alone for `true`, a boolean, or
/// one of the strings `"true"` and `"false"`.
pub open spec fn flag_value(item: NestedMetaView) -> Result<bool, ConfigErrorView> {
    match item {
        NestedMetaView::Path(_) => Ok(true),
        NestedMetaView::List(_) => Err(
            ConfigErrorView::UnexpectedFormat(Field::LogTs, Shape::List),
        ),
        NestedMetaView::NameValue(_, value) => match value {
            ValueView::Bool(flag) => Ok(flag),
            ValueView::Str(text) => if text == "true"@ {
                Ok(true)
            } else if text == "false"@ {
                Ok(false)
            } else {
                Err(ConfigErrorView::UnknownValue(Field::LogTs, text))
            },
            _ => Err(ConfigErrorView::UnexpectedType(Field::LogTs, value.kind())),
        },
        NestedMetaView::Lit(value) => Err(ConfigErrorView::UnexpectedLiteral(value.kind())),
    }
}

/// The named options of the output-logging annotation, each absent until it is given.
#[derive(Debug, PartialEq, Eq)]
pub struct OutputNamedOptions {
    pub ok: Option<String>,
    pub err: Option<String>,
    pub fmt: Option<String>,
    pub log_ts: Option<bool>,
}

/// The mathematical value of an [`OutputNamedOptions`].
pub struct OutputNamedOptionsView {
    pub ok: Option<Seq<char>>,
    pub err: Option<Seq<char>>,
    pub fmt: Option<Seq<char>>,
    pub log_ts: Option<bool>,
}

impl DeepView for OutputNamedOptions {
    type V = OutputNamedOptionsView;

    open spec fn deep_view(&self) -> OutputNamedOptionsView {
        OutputNamedOptionsView {
            ok: self.ok.deep_view(),
            err: self.err.deep_view(),
            fmt: self.fmt.deep_view(),
            log_ts: self.log_ts,
        }
    }
}

/// What `syn` answered for the argument at `index`; `None` beyond the readings.
pub open spec fn reading_at(readings: Seq<Option<Seq<char>>>, index: int) -> Option<Seq<char>> {
    if 0 <= index < readings.len() {
        readings[index]
    } else {
        None
    }
}

/// Where the reading of the named options stands after some arguments: the values read,
/// the options met so far, and the faults found, in the order of the arguments.
pub struct Scan {
    pub named: OutputNamedOptionsView,
    pub seen_ok: bool,
    pub seen_err: bool,
    pub seen_fmt: bool,
    pub seen_log_ts: bool,
    pub errors: Seq<ConfigErrorView>,
}

impl Scan {
    /// Before any argument: nothing read, nothing met, no fault.
    pub open spec fn start() -> Scan {
        Scan {
            named: OutputNamedOptionsView { ok: None, err: None, fmt: None, log_ts: None },
            seen_ok: false,
            seen_err: false,
            seen_fmt: false,
            seen_log_ts: false,
            errors: Seq::empty(),
        }
    }

    /// Whether the option was met, with a value or with a fault.
    pub open spec fn seen(self, field: Field) -> bool {
        match field {
            Field::OkLevel => self.seen_ok,
            Field::ErrLevel => self.seen_err,
            Field::Fmt => self.seen_fmt,
            Field::LogTs => self.seen_log_ts,
        }
    }

    /// The same with one more fault.
    pub open spec fn fail(self, error: ConfigErrorView) -> Scan {
        Scan { errors: self.errors.push(error), ..self }
    }

    /// After an argument that names `field`, which was not met before.
    pub open spec fn read(
        self,
        field: Field,
        item: NestedMetaView,
        reading: Option<Seq<char>>,
    ) -> Scan {
        match field {
            Field::OkLevel => match level_value(field, item, reading) {
                Ok(level) => Scan {
                    named: OutputNamedOptionsView { ok: Some(level), ..self.named },
                    seen_ok: true,
                    ..self
                },
                Err(error) => Scan { seen_ok: true, ..self }.fail(error),
            },
            Field::ErrLevel => match level_value(field, item, reading) {
                Ok(level) => Scan {
                    named: OutputNamedOptionsView { err: Some(level), ..self.named },
                    seen_err: true,
                    ..self
                },
                Err(error) => Scan { seen_err: true, ..self }.fail(error),
            },
            Field::Fmt => match template_value(item) {
                Ok(template) => Scan {
                    named: OutputNamedOptionsView { fmt: Some(template), ..self.named },
                    seen_fmt: true,
                    ..self
                },
                Err(error) => Scan { seen_fmt: true, ..self }.fail(error),
            },
            Field::LogTs => match flag_value(item) {
                Ok(flag) => Scan {
                    named: OutputNamedOptionsView { log_ts: Some(flag), ..self.named },
                    seen_log_ts: true,
                    ..self
                },
                Err(error) => Scan { seen_log_ts: true, ..self }.fail(error),
            },
        }
    }

    /// After one more argument. A bare literal is a fault, and so is a name that no option
    /// has and an option that was met before; any other argument is read for its option.
    pub open spec fn step(self, item: NestedMetaView, reading: Option<Seq<char>>) -> Scan {
        match item {
            NestedMetaView::Lit(value) => self.fail(
                ConfigErrorView::UnexpectedLiteral(value.kind()),
            ),
            _ => {
                let name = item_path(item).unwrap().name();
                match field_of(name) {
                    None => self.fail(ConfigErrorView::UnknownField(name)),
                    Some(field) => if self.seen(field) {
                        self.fail(ConfigErrorView::DuplicateField(field))
                    } else {
                        self.read(field, item, reading)
                    },
                }
            },
        }
    }

    /// After all of `items`, read in order, with what `syn` answered for each.
    pub open spec fn of(items: Seq<NestedMetaView>, readings: Seq<Option<Seq<char>>>) -> Scan
        decreases items.len(),
    {
        if items.len() == 0 {
            Scan::start()
        } else {
            Scan::of(items.drop_last(), readings).step(
                items.last(),
                reading_at(readings, items.len() - 1),
            )
        }
    }
}

/// The named options that a list of arguments gives, or every fault in it. No argument
/// at all gives no option and is no fault.
pub open spec fn named_options(
    items: Seq<NestedMetaView>,
    readings: Seq<Option<Seq<char>>>,
) -> Result<OutputNamedOptionsView, Seq<ConfigErrorView>> {
    let scan = Scan::of(items, readings);
    if scan.errors.len() == 0 {
        Ok(scan.named)
    } else {
        Err(scan.errors)
    }
}

/// Only what `syn` answered for the arguments themselves counts: readings that agree on
/// every argument give the same reading of the arguments.
pub proof fn lemma_readings_agree(
    items: Seq<NestedMetaView>,
    a: Seq<Option<Seq<char>>>,
    b: Seq<Option<Seq<char>>>,
)
    requires
        forall|k: int| 0 <= k < items.len() ==> reading_at(a, k) == reading_at(b, k),
    ensures
        Scan::of(items, a) == Scan::of(items, b),
    decreases items.len(),
{
    if items.len() > 0 {
        lemma_readings_agree(items.drop_last(), a, b);
        assert(reading_at(a, items.len() - 1) == reading_at(b, items.len() - 1));
    }
}

struct Reader {
    named: OutputNamedOptions,
    seen_ok: bool,
    seen_err: bool,
    seen_fmt: bool,
    seen_log_ts: bool,
    errors: Vec<ConfigError>,
}

impl DeepView for Reader {
    type V = Scan;

    closed spec fn deep_view(&self) -> Scan {
        Scan {
            named: self.named.deep_view(),
            seen_ok: self.seen_ok,
            seen_err: self.seen_err,
            seen_fmt: self.seen_fmt,
            seen_log_ts: self.seen_log_ts,
            errors: self.errors.deep_view(),
        }
    }
}

fn find_field(name: &String) -> (field: Option<Field>)
    ensures
        field == field_of(name@),
{
    if *name == String::from_str("ok") {
        Some(Field::OkLevel)
    } else if *name == String::from_str("err") {
        Some(Field::ErrLevel)
    } else if *name == String::from_str("fmt") {
        Some(Field::Fmt)
    } else if *name == String::from_str("log_ts") {
        Some(Field::LogTs)
    } else {
        None
    }
}

/// The level that a string gives to `ok` or `err`, by what `syn` read the string as:
/// the identifier that `syn` read, or the fault that the string is no level.
pub fn level_from_reading(field: Field, text: &String, reading: Option<String>) -> (level: Result<
    String,
    ConfigError,
>)
    ensures
        result_view(level) == string_level(field, text@, reading.deep_view()),
{
    match reading {
        Some(name) => Ok(name),
        None => Err(ConfigError::UnknownValue(field, text.clone())),
    }
}

fn read_level(field: Field, item: &NestedMeta) -> (read: (
    Result<String, ConfigError>,
    Ghost<Option<Seq<char>>>,
))
    ensures
        result_view(read.0) == level_value(field, item.deep_view(), read.1@),
{
    match item {
        NestedMeta::Path(_) => (
            Err(ConfigError::UnexpectedFormat(field, Shape::Word)),
            Ghost(None),
        ),
        NestedMeta::List(_) => (
            Err(ConfigError::UnexpectedFormat(field, Shape::List)),
            Ghost(None),
        ),
        NestedMeta::NameValue(_, value) => match value {
            Value::Ident(name) => (Ok(name.clone()), Ghost(None)),
            Value::Str(text) => if holds_opener(text.as_str()) {
                (level_from_reading(field, text, None), Ghost(None))
            } else {
                let ident = parse_ident(text.as_str());
                let ghost reading = ident.deep_view();
                (level_from_reading(field, text, ident), Ghost(reading))
            },
            _ => (Err(ConfigError::UnexpectedType(field, value.kind())), Ghost(None)),
        },
        NestedMeta::Lit(value) => (
            Err(ConfigError::UnexpectedLiteral(value.kind())),
            Ghost(None),
        ),
    }
}

fn read_template(item: &NestedMeta) -> (template: Result<String, ConfigError>)
    ensures
        result_view(template) == template_value(item.deep_view()),
{
    match item {
        NestedMeta::Path(_) => Err(ConfigError::UnexpectedFormat(Field::Fmt, Shape::Word)),
        NestedMeta::List(_) => Err(ConfigError::UnexpectedFormat(Field::Fmt, Shape::List)),
        NestedMeta::NameValue(_, value) => match value {
            Value::Str(text) => Ok(text.clone()),
            _ => Err(ConfigError::UnexpectedType(Field::Fmt, value.kind())),
        },
        NestedMeta::Lit(value) => Err(ConfigError::UnexpectedLiteral(value.kind())),
    }
}

fn read_flag(item: &NestedMeta) -> (flag: Result<bool, ConfigError>)
    ensures
        result_view(flag) == flag_value(item.deep_view()),
{
    match item {
        NestedMeta::Path(_) => Ok(true),
        NestedMeta::List(_) => Err(ConfigError::UnexpectedFormat(Field::LogTs, Shape::List)),
        NestedMeta::NameValue(_, value) => match value {
            Value::Bool(flag) => Ok(*flag),
            Value::Str(text) => if *text == String::from_str("true") {
                Ok(true)
            } else if *text == String::from_str("false") {
                Ok(false)
            } else {
                Err(ConfigError::UnknownValue(Field::LogTs, text.clone()))
            },
            _ => Err(ConfigError::UnexpectedType(Field::LogTs, value.kind())),
        },
        NestedMeta::Lit(value) => Err(ConfigError::UnexpectedLiteral(value.kind())),
    }
}

impl Reader {
    fn new() -> (reader: Reader)
        ensures
            reader.deep_view() == Scan::start(),
    {
        let reader = Reader {
            named: OutputNamedOptions { ok: None, err: None, fmt: None, log_ts: None },
            seen_ok: false,
            seen_err: false,
            seen_fmt: false,
            seen_log_ts: false,
            errors: Vec::new(),
        };
        assert(reader.errors.deep_view() =~= Seq::empty());
        reader
    }

    fn fail(&mut self, error: ConfigError)
        ensures
            final(self).deep_view() == old(self).deep_view().fail(error.deep_view()),
    {
        let ghost pushed = old(self).errors.deep_view().push(error.deep_view());
        self.errors.push(error);
        assert(self.errors.deep_view() =~= pushed);
    }

    fn seen(&self, field: Field) -> (seen: bool)
        ensures
            seen == self.deep_view().seen(field),
    {
        match field {
            Field::OkLevel => self.seen_ok,
            Field::ErrLevel => self.seen_err,
            Field::Fmt => self.seen_fmt,
            Field::LogTs => self.seen_log_ts,
        }
    }

    fn read(&mut self, field: Field, item: &NestedMeta) -> (reading: Ghost<Option<Seq<char>>>)
        ensures
            final(self).deep_view() == old(self).deep_view().read(
                field,
                item.deep_view(),
                reading@,
            ),
    {
        match field {
            Field::OkLevel => {
                self.seen_ok = true;
                let (level, reading) = read_level(field, item);
                match level {
                    Ok(level) => {
                        self.named.ok = Some(level);
                    },
                    Err(error) => {
                        self.fail(error);
                    },
                }
                reading
            },
            Field::ErrLevel => {
                self.seen_err = true;
                let (level, reading) = read_level(field, item);
                match level {
                    Ok(level) => {
                        self.named.err = Some(level);
                    },
                    Err(error) => {
                        self.fail(error);
                    },
                }
                reading
            },
            Field::Fmt => {
                self.seen_fmt = true;
                match read_template(item) {
                    Ok(template) => {
                        self.named.fmt = Some(template);
                    },
                    Err(error) => {
                        self.fail(error);
                    },
                }
                Ghost(None)
            },
            Field::LogTs => {
                self.seen_log_ts = true;
                match read_flag(item) {
                    Ok(flag) => {
                        self.named.log_ts = Some(flag);
                    },
                    Err(error) => {
                        self.fail(error);
                    },
                }
                Ghost(None)
            },
        }
    }

    fn step(&mut self, item: &NestedMeta) -> (reading: Ghost<Option<Seq<char>>>)
        ensures
            final(self).deep_view() == old(self).deep_view().step(item.deep_view(), reading@),
    {
        let path = match item {
            NestedMeta::Path(path) => path,
            NestedMeta::List(path) => path,
            NestedMeta::NameValue(path, _) => path,
            NestedMeta::Lit(value) => {
                self.fail(ConfigError::UnexpectedLiteral(value.kind()));
                return Ghost(None);
            },
        };
        let name = path.name();
        match find_field(&name) {
            None => {
                self.fail(ConfigError::UnknownField(name));
                Ghost(None)
            },
            Some(field) => {
                if self.seen(field) {
                    self.fail(ConfigError::DuplicateField(field));
                    Ghost(None)
                } else {
                    self.read(field, item)
                }
            },
        }
    }
}

/// Reads the named options from the arguments at `start` and after.
fn read_named(items: &[NestedMeta], start: usize) -> (read: (
    Result<OutputNamedOptions, Vec<ConfigError>>,
    Ghost<Seq<Option<Seq<char>>>>,
))
    requires
        start <= items.len(),
    ensures
        read.1@.len() == items.len() - start,
        result_view(read.0) == named_options(items.deep_view().skip(start as int), read.1@),
{
    let ghost all = items.deep_view();
    let ghost mut readings: Seq<Option<Seq<char>>> = Seq::empty();
    let mut reader = Reader::new();
    let mut i: usize = start;
    assert(all.subrange(start as int, start as int) =~= Seq::empty());
    while i < items.len()
        invariant
            start <= i <= items.len(),
            all == items.deep_view(),
            readings.len() == i - start,
            reader.deep_view() == Scan::of(all.subrange(start as int, i as int), readings),
        decreases items.len() - i,
    {
        let ghost before = all.subrange(start as int, i as int);
        let ghost next = all.subrange(start as int, i + 1);
        assert(next.drop_last() =~= before);
        assert(next.last() == items[i as int].deep_view());
        let reading = reader.step(&items[i]);
        proof {
            let extended = readings.push(reading@);
            lemma_readings_agree(before, readings, extended);
            assert(reading_at(extended, next.len() - 1) == reading@);
            readings = extended;
        }
        i += 1;
    }
    assert(all.subrange(start as int, i as int) =~= all.skip(start as int));
    if reader.errors.len() == 0 {
        (Ok(reader.named), Ghost(readings))
    } else {
        (Err(reader.errors), Ghost(readings))
    }
}

impl OutputNamedOptions {
    /// Reads the named options. Every argument has to name one of `ok`, `err`, `fmt` and
    /// `log_ts`, each at most once; the faults of all arguments come back together, in
    /// the order of the arguments. What comes back is what the arguments give with some
    /// answers of `syn` for the strings among the levels.
    pub fn from_list(items: &[NestedMeta]) -> (named: Result<
        OutputNamedOptions,
        Vec<ConfigError>,
    >)
        ensures
            exists|readings: Seq<Option<Seq<char>>>|
                readings.len() == items.len() && result_view(named) == #[trigger] named_options(
                    items.deep_view(),
                    readings,
                ),
    {
        assert(items.deep_view().skip(0) =~= items.deep_view());
        let (named, readings) = read_named(items, 0);
        assert(result_view(named) == named_options(items.deep_view(), readings@));
        named
    }
}

/// The configuration of the output-logging annotation.
#[derive(Debug, PartialEq, Eq)]
pub struct OutputOptions {
    /// The level given as the first word of the annotation.
    pub leading_level: Option<String>,
    pub named: OutputNamedOptions,
}

/// The mathematical value of an [`OutputOptions`].
pub struct OutputOptionsView {
    pub leading_level: Option<Seq<char>>,
    pub named: OutputNamedOptionsView,
}

impl DeepView for OutputOptions {
    type V = OutputOptionsView;

    open spec fn deep_view(&self) -> OutputOptionsView {
        OutputOptionsView {
            leading_level: self.leading_level.deep_view(),
            named: self.named.deep_view(),
        }
    }
}

impl OutputOptionsView {
    /// The level at which a success is logged: `ok`, else the leading level, else none.
    pub open spec fn ok_log(self) -> Option<Seq<char>> {
        if self.named.ok is Some {
            self.named.ok
        } else {
            self.leading_level
        }
    }

    /// The level at which a failure is logged: `err`, else the leading level, else none.
    pub open spec fn err_log(self) -> Option<Seq<char>> {
        if self.named.err is Some {
            self.named.err
        } else {
            self.leading_level
        }
    }

    /// Whether a level is given for one outcome by name.
    pub open spec fn contains_ok_or_err(self) -> bool {
        self.named.ok is Some || self.named.err is Some
    }

    /// Whether the elapsed time is logged; it is not unless `log_ts` says so.
    pub open spec fn log_ts(self) -> bool {
        match self.named.log_ts {
            Some(flag) => flag,
            None => false,
        }
    }

    /// The format template, where `fmt` gives one.
    pub open spec fn fmt(self) -> Option<Seq<char>> {
        self.named.fmt
    }
}

/// The configuration that the arguments of an output-logging annotation give, or every
/// fault in them. The first argument is the leading level if it is a bare identifier;
/// the arguments after it, or all of them if it is not, are named options. No argument at
/// all is well-formed and gives neither a level nor an option.
pub open spec fn output_options(
    items: Seq<NestedMetaView>,
    readings: Seq<Option<Seq<char>>>,
) -> Result<OutputOptionsView, Seq<ConfigErrorView>> {
    let leading_level = if items.len() > 0 {
        items[0].bare_ident()
    } else {
        None
    };
    let named = if leading_level is Some {
        named_options(items.skip(1), readings.skip(1))
    } else {
        named_options(items, readings)
    };
    match named {
        Ok(named) => Ok(OutputOptionsView { leading_level, named }),
        Err(errors) => Err(errors),
    }
}

impl OutputOptions {
    /// Reads the configuration of an output-logging annotation from its arguments. What
    /// comes back is what the arguments give with some answers of `syn` for the strings
    /// among the levels.
    pub fn from_list(items: &[NestedMeta]) -> (options: Result<OutputOptions, Vec<ConfigError>>)
        ensures
            exists|readings: Seq<Option<Seq<char>>>|
                readings.len() == items.len() && result_view(options)
                    == #[trigger] output_options(items.deep_view(), readings),
    {
        let leading_level = if items.len() > 0 {
            match items[0].bare_ident() {
                Some(level) => Some(level.clone()),
                None => None,
            }
        } else {
            None
        };
        assert(items.deep_view().skip(0) =~= items.deep_view());
        let start: usize = if leading_level.is_some() {
            1
        } else {
            0
        };
        let (named, readings) = read_named(items, start);
        let options = match named {
            Ok(named) => Ok(OutputOptions { leading_level, named }),
            Err(errors) => Err(errors),
        };
        proof {
            let all = if start == 1 {
                seq![None::<Seq<char>>] + readings@
            } else {
                readings@
            };
            if start == 1 {
                assert(all.skip(1) =~= readings@);
            }
            assert(result_view(options) == output_options(items.deep_view(), all));
        }
        options
    }

    /// The level at which a success is logged: `ok`, else the leading level, else none.
    pub fn ok_log(&self) -> (level: Option<&String>)
        ensures
            level.deep_view() == self.deep_view().ok_log(),
    {
        match &self.named.ok {
            Some(level) => Some(level),
            None => self.leading_level.as_ref(),
        }
    }

    /// The level at which a failure is logged: `err`, else the leading level, else none.
    pub fn err_log(&self) -> (level: Option<&String>)
        ensures
            level.deep_view() == self.deep_view().err_log(),
    {
        match &self.named.err {
            Some(level) => Some(level),
            None => self.leading_level.as_ref(),
        }
    }

    /// Whether a level is given for one outcome by name.
    pub fn contains_ok_or_err(&self) -> (contains: bool)
        ensures
            contains == self.deep_view().contains_ok_or_err(),
    {
        self.named.ok.is_some() || self.named.err.is_some()
    }

    /// Whether the elapsed time is logged; it is not unless `log_ts` says so.
    pub fn log_ts(&self) -> (log_ts: bool)
        ensures
            log_ts == self.deep_view().log_ts(),
    {
        match self.named.log_ts {
            Some(flag) => flag,
            None => false,
        }
    }

    /// The format template, where `fmt` gives one.
    pub fn fmt(&self) -> (fmt: Option<String>)
        ensures
            fmt.deep_view() == self.deep_view().fmt(),
    {
        match &self.named.fmt {
            Some(template) => Some(template.clone()),
            None => None,
        }
    }
}

/// The configuration of the input-logging annotation.
#[derive(Debug, PartialEq, Eq)]
pub struct InputOptions {
    pub level: String,
    pub fmt: Option<String>,
}

/// The mathematical value of an [`InputOptions`].
pub struct InputOptionsView {
    pub level: Seq<char>,
    pub fmt: Option<Seq<char>>,
}

impl DeepView for InputOptions {
    type V = InputOptionsView;

    open spec fn deep_view(&self) -> InputOptionsView {
        InputOptionsView { level: self.level@, fmt: self.fmt.deep_view() }
    }
}

/// The string that an argument carries: a string literal, bare or as the value of a
/// `name = value` pair under whatever name.
pub open spec fn carried_string(item: NestedMetaView) -> Option<Seq<char>> {
    match item {
        NestedMetaView::Lit(ValueView::Str(text)) => Some(text),
        NestedMetaView::NameValue(_, ValueView::Str(text)) => Some(text),
        _ => None,
    }
}

/// What is wrong with an argument that stands where the level is expected: nothing if it
/// is a bare identifier.
pub open spec fn level_fault(item: NestedMetaView) -> Option<ConfigErrorView> {
    match item {
        NestedMetaView::Lit(value) => Some(ConfigErrorView::UnexpectedLiteral(value.kind())),
        _ => if item.bare_ident() is Some {
            None
        } else {
            Some(ConfigErrorView::ExpectedLevel)
        },
    }
}

/// What is wrong with an argument that stands where the template is expected: nothing if
/// it carries a string. A bare name and a nested list are of the wrong form, any value
/// but a string is of the wrong kind.
pub open spec fn template_fault(item: NestedMetaView) -> Option<ConfigErrorView> {
    match item {
        NestedMetaView::Path(_) => Some(
            ConfigErrorView::UnexpectedFormat(Field::Fmt, Shape::Word),
        ),
        NestedMetaView::List(_) => Some(
            ConfigErrorView::UnexpectedFormat(Field::Fmt, Shape::List),
        ),
        NestedMetaView::NameValue(_, value) => if value is Str {
            None
        } else {
            Some(ConfigErrorView::UnexpectedType(Field::Fmt, value.kind()))
        },
        NestedMetaView::Lit(value) => if value is Str {
            None
        } else {
            Some(ConfigErrorView::UnexpectedType(Field::Fmt, value.kind()))
        },
    }
}

/// The faults of one argument, none or one.
pub open spec fn fault_seq(fault: Option<ConfigErrorView>) -> Seq<ConfigErrorView> {
    match fault {
        Some(error) => seq![error],
        None => Seq::empty(),
    }
}

/// Every fault in the arguments of an input-logging annotation: that there is none at
/// all; else what is wrong with the first as a level, with the second as a template, and
/// that there are more than two.
pub open spec fn input_faults(items: Seq<NestedMetaView>) -> Seq<ConfigErrorView> {
    if items.len() == 0 {
        seq![ConfigErrorView::TooFewItems(1)]
    } else {
        fault_seq(level_fault(items[0])) + fault_seq(
            if items.len() > 1 {
                template_fault(items[1])
            } else {
                None
            },
        ) + fault_seq(
            if items.len() > 2 {
                Some(ConfigErrorView::TooManyItems(2))
            } else {
                None
            },
        )
    }
}

/// The configuration that the arguments of an input-logging annotation give, or every
/// fault in them. The first argument has to be the level, a bare identifier. A second
/// argument has to carry the template, a string; there may be no third.
pub open spec fn input_options(items: Seq<NestedMetaView>) -> Result<
    InputOptionsView,
    Seq<ConfigErrorView>,
> {
    if input_faults(items).len() > 0 {
        Err(input_faults(items))
    } else {
        Ok(
            InputOptionsView {
                level: items[0].bare_ident().unwrap(),
                fmt: if items.len() > 1 {
                    carried_string(items[1])
                } else {
                    None
                },
            },
        )
    }
}

fn string_of(item: &NestedMeta) -> (text: Option<String>)
    ensures
        text.deep_view() == carried_string(item.deep_view()),
{
    match item {
        NestedMeta::Lit(Value::Str(text)) => Some(text.clone()),
        NestedMeta::NameValue(_, Value::Str(text)) => Some(text.clone()),
        _ => None,
    }
}

fn fault_of_level(item: &NestedMeta) -> (fault: Option<ConfigError>)
    ensures
        fault.deep_view() == level_fault(item.deep_view()),
{
    match item {
        NestedMeta::Lit(value) => Some(ConfigError::UnexpectedLiteral(value.kind())),
        _ => if item.bare_ident().is_some() {
            None
        } else {
            Some(ConfigError::ExpectedLevel)
        },
    }
}

fn fault_of_template(item: &NestedMeta) -> (fault: Option<ConfigError>)
    ensures
        fault.deep_view() == template_fault(item.deep_view()),
{
    match item {
        NestedMeta::Path(_) => Some(ConfigError::UnexpectedFormat(Field::Fmt, Shape::Word)),
        NestedMeta::List(_) => Some(ConfigError::UnexpectedFormat(Field::Fmt, Shape::List)),
        NestedMeta::NameValue(_, value) => match value {
            Value::Str(_) => None,
            _ => Some(ConfigError::UnexpectedType(Field::Fmt, value.kind())),
        },
        NestedMeta::Lit(value) => match value {
            Value::Str(_) => None,
            _ => Some(ConfigError::UnexpectedType(Field::Fmt, value.kind())),
        },
    }
}

fn note(errors: &mut Vec<ConfigError>, fault: Option<ConfigError>)
    ensures
        final(errors).deep_view() == old(errors).deep_view() + fault_seq(fault.deep_view()),
{
    let ghost before = old(errors).deep_view();
    match fault {
        Some(error) => {
            let ghost pushed = before.push(error.deep_view());
            errors.push(error);
            assert(errors.deep_view() =~= pushed);
            assert(pushed =~= before + seq![error.deep_view()]);
        },
        None => {
            assert(before + Seq::<ConfigErrorView>::empty() =~= before);
        },
    }
}

impl InputOptions {
    /// Reads the configuration of an input-logging annotation from its arguments.
    pub fn from_list(items: &[NestedMeta]) -> (options: Result<InputOptions, Vec<ConfigError>>)
        ensures
            result_view(options) == input_options(items.deep_view()),
    {
        let mut errors: Vec<ConfigError> = Vec::new();
        assert(errors.deep_view() =~= Seq::empty());
        if items.len() == 0 {
            note(&mut errors, Some(ConfigError::TooFewItems(1)));
            assert(errors.deep_view() =~= seq![ConfigErrorView::TooFewItems(1)]);
            return Err(errors);
        }
        note(&mut errors, fault_of_level(&items[0]));
        note(
            &mut errors,
            if items.len() > 1 {
                fault_of_template(&items[1])
            } else {
                None
            },
        );
        note(
            &mut errors,
            if items.len() > 2 {
                Some(ConfigError::TooManyItems(2))
            } else {
                None
            },
        );
        assert(errors.deep_view() =~= input_faults(items.deep_view()));
        if errors.len() > 0 {
            return Err(errors);
        }
        let level = match items[0].bare_ident() {
            Some(level) => level.clone(),
            None => {
                assert(false);
                String::new()
            },
        };
        let fmt = if items.len() > 1 {
            string_of(&items[1])
        } else {
            None
        };
        Ok(InputOptions { level, fmt })
    }
}

/// Where arguments are refused, at least one fault says why; and no argument at all is
/// well-formed for output logging and a fault for input logging.
pub proof fn lemma_faults_exist(items: Seq<NestedMetaView>, readings: Seq<Option<Seq<char>>>)
    ensures
        named_options(items, readings) matches Err(errors) ==> errors.len() > 0,
        output_options(items, readings) matches Err(errors) ==> errors.len() > 0,
        input_options(items) matches Err(errors) ==> errors.len() > 0,
        output_options(Seq::empty(), readings) == Ok::<
            OutputOptionsView,
            Seq<ConfigErrorView>,
        >(
            OutputOptionsView {
                leading_level: None,
                named: OutputNamedOptionsView { ok: None, err: None, fmt: None, log_ts: None },
            },
        ),
        input_options(Seq::empty()) == Err::<InputOptionsView, Seq<ConfigErrorView>>(
            seq![ConfigErrorView::TooFewItems(1)],
        ),
{
}

/// Input logging takes a level and at most a template: a second argument that carries
/// no string is a fault, and so is every third argument.
pub proof fn lemma_input_arguments(items: Seq<NestedMetaView>)
    ensures
        items.len() > 1 && carried_string(items[1]) is None ==> input_options(items) is Err,
        items.len() > 2 ==> input_options(items) is Err && input_options(items)->Err_0.last()
            == ConfigErrorView::TooManyItems(2),
        input_options(items) matches Ok(options) ==> {
            &&& 1 <= items.len() <= 2
            &&& items[0].bare_ident() == Some(options.level)
            &&& items.len() == 1 ==> options.fmt is None
            &&& items.len() == 2 ==> options.fmt is Some && options.fmt == carried_string(
                items[1],
            )
        },
{
    if items.len() > 0 {
        let level = fault_seq(level_fault(items[0]));
        let template = fault_seq(
            if items.len() > 1 {
                template_fault(items[1])
            } else {
                None
            },
        );
        let many = fault_seq(
            if items.len() > 2 {
                Some(ConfigErrorView::TooManyItems(2))
            } else {
                None
            },
        );
        assert(input_faults(items) == level + template + many);
        assert(input_faults(items).len() == level.len() + template.len() + many.len());
        if items.len() > 2 {
            assert(many.len() == 1);
            assert(input_faults(items).last() == many[0]);
        }
    }
}

/// Without a string among the levels, what `syn` answers does not matter: the
/// configuration is decided by the arguments alone.
pub proof fn lemma_readings_unused(
    items: Seq<NestedMetaView>,
    a: Seq<Option<Seq<char>>>,
    b: Seq<Option<Seq<char>>>,
)
    requires
        forall|i: int|
            0 <= i < items.len() ==> !(#[trigger] items[i] matches NestedMetaView::NameValue(
                _,
                ValueView::Str(_),
            )),
    ensures
        Scan::of(items, a) == Scan::of(items, b),
        named_options(items, a) == named_options(items, b),
        output_options(items, a) == output_options(items, b),
    decreases items.len(),
{
    lemma_strings_decide(items, a, b);
    if items.len() > 0 {
        let rest = items.skip(1);
        assert forall|i: int| 0 <= i < rest.len() implies !(#[trigger] rest[i]
            matches NestedMetaView::NameValue(_, ValueView::Str(_))) by {
            assert(rest[i] == items[i + 1]);
        }
        lemma_strings_decide(rest, a.skip(1), b.skip(1));
    }
}

/// The readings are consulted for strings only.
proof fn lemma_strings_decide(
    items: Seq<NestedMetaView>,
    a: Seq<Option<Seq<char>>>,
    b: Seq<Option<Seq<char>>>,
)
    requires
        forall|i: int|
            0 <= i < items.len() ==> !(#[trigger] items[i] matches NestedMetaView::NameValue(
                _,
                ValueView::Str(_),
            )),
    ensures
        Scan::of(items, a) == Scan::of(items, b),
    decreases items.len(),
{
    if items.len() > 0 {
        assert forall|i: int| 0 <= i < items.drop_last().len() implies !(
        #[trigger] items.drop_last()[i] matches NestedMetaView::NameValue(_, ValueView::Str(_))) by {
            assert(items.drop_last()[i] == items[i]);
        }
        lemma_strings_decide(items.drop_last(), a, b);
        assert(!(items[items.len() - 1] matches NestedMetaView::NameValue(_, ValueView::Str(_))));
    }
}

/// Reading more arguments takes nothing back: a fault found after some arguments is
/// still there after all of them, and so is the mark of an option that was met.
pub proof fn lemma_scan_keeps(
    items: Seq<NestedMetaView>,
    readings: Seq<Option<Seq<char>>>,
    n: int,
)
    requires
        0 <= n <= items.len(),
    ensures
        forall|error: ConfigErrorView| #[trigger]
            Scan::of(items.take(n), readings).errors.contains(error) ==> Scan::of(
                items,
                readings,
            ).errors.contains(error),
        forall|field: Field| #[trigger]
            Scan::of(items.take(n), readings).seen(field) ==> Scan::of(items, readings).seen(
                field,
            ),
    decreases items.len() - n,
{
    if n == items.len() {
        assert(items.take(n) =~= items);
    } else {
        let before = Scan::of(items.take(n), readings);
        let after = Scan::of(items.take(n + 1), readings);
        assert(items.take(n + 1).drop_last() =~= items.take(n));
        assert(after == before.step(items[n], reading_at(readings, n)));
        assert forall|error: ConfigErrorView| #[trigger]
            before.errors.contains(error) implies after.errors.contains(error) by {
            let i = choose|i: int| 0 <= i < before.errors.len() && before.errors[i] == error;
            assert(after.errors[i] == error);
        }
        assert forall|field: Field| #[trigger] before.seen(field) implies after.seen(field) by {
        }
        lemma_scan_keeps(items, readings, n + 1);
    }
}

/// What the argument at `i` does to the reading.
pub open spec fn step_at(items: Seq<NestedMetaView>, readings: Seq<Option<Seq<char>>>, i: int) -> (
    Scan,
    Scan,
) {
    (Scan::of(items.take(i), readings), Scan::of(items.take(i + 1), readings))
}

/// The reading after the argument at `i` is the reading before it, one step on.
pub proof fn lemma_step_at(items: Seq<NestedMetaView>, readings: Seq<Option<Seq<char>>>, i: int)
    requires
        0 <= i < items.len(),
    ensures
        step_at(items, readings, i).1 == step_at(items, readings, i).0.step(
            items[i],
            reading_at(readings, i),
        ),
{
    assert(items.take(i + 1).drop_last() =~= items.take(i));
}

/// A fault that the argument at `i` adds is among the faults of all arguments, which
/// are refused.
pub proof fn lemma_fault_stays(
    items: Seq<NestedMetaView>,
    readings: Seq<Option<Seq<char>>>,
    i: int,
    error: ConfigErrorView,
)
    requires
        0 <= i < items.len(),
        step_at(items, readings, i).1.errors == step_at(items, readings, i).0.errors.push(error),
    ensures
        named_options(items, readings) is Err,
        named_options(items, readings)->Err_0.contains(error),
{
    let (before, after) = step_at(items, readings, i);
    assert(after.errors[before.errors.len() as int] == error);
    assert(after.errors.contains(error));
    lemma_scan_keeps(items, readings, i + 1);
    assert(Scan::of(items, readings).errors.contains(error));
}

/// An argument that names no option is a fault, wherever it stands among the named
/// options.
pub proof fn lemma_unknown_option_fails(
    items: Seq<NestedMetaView>,
    readings: Seq<Option<Seq<char>>>,
    i: int,
)
    requires
        0 <= i < items.len(),
        item_path(items[i]) is Some,
        field_of(item_path(items[i])->0.name()) is None,
    ensures
        named_options(items, readings) is Err,
        named_options(items, readings)->Err_0.contains(
            ConfigErrorView::UnknownField(item_path(items[i])->0.name()),
        ),
{
    lemma_step_at(items, readings, i);
    lemma_fault_stays(
        items,
        readings,
        i,
        ConfigErrorView::UnknownField(item_path(items[i])->0.name()),
    );
}

/// A bare literal among the named options is a fault.
pub proof fn lemma_literal_fails(
    items: Seq<NestedMetaView>,
    readings: Seq<Option<Seq<char>>>,
    i: int,
)
    requires
        0 <= i < items.len(),
        items[i] is Lit,
    ensures
        named_options(items, readings) is Err,
        named_options(items, readings)->Err_0.contains(
            ConfigErrorView::UnexpectedLiteral(items[i]->Lit_0.kind()),
        ),
{
    lemma_step_at(items, readings, i);
    lemma_fault_stays(
        items,
        readings,
        i,
        ConfigErrorView::UnexpectedLiteral(items[i]->Lit_0.kind()),
    );
}

/// An option may be given once: where two arguments name the same option, the second is a
/// fault.
pub proof fn lemma_option_twice_fails(
    items: Seq<NestedMetaView>,
    readings: Seq<Option<Seq<char>>>,
    i: int,
    j: int,
    field: Field,
)
    requires
        0 <= i < j < items.len(),
        names(items[i], field),
        names(items[j], field),
    ensures
        named_options(items, readings) is Err,
        named_options(items, readings)->Err_0.contains(ConfigErrorView::DuplicateField(field)),
{
    lemma_step_at(items, readings, i);
    assert(step_at(items, readings, i).1.seen(field));
    assert(items.take(j).take(i + 1) =~= items.take(i + 1));
    lemma_scan_keeps(items.take(j), readings, i + 1);
    lemma_step_at(items, readings, j);
    lemma_fault_stays(items, readings, j, ConfigErrorView::DuplicateField(field));
}

/// A nested list gives no option a value: where an argument is a nested list under an
/// option's name, the arguments are faulty.
pub proof fn lemma_nested_list_fails(
    items: Seq<NestedMetaView>,
    readings: Seq<Option<Seq<char>>>,
    i: int,
    field: Field,
)
    requires
        0 <= i < items.len(),
        items[i] is List,
        names(items[i], field),
    ensures
        named_options(items, readings) is Err,
        named_options(items, readings)->Err_0.contains(
            ConfigErrorView::UnexpectedFormat(field, Shape::List),
        ) || named_options(items, readings)->Err_0.contains(
            ConfigErrorView::DuplicateField(field),
        ),
{
    lemma_step_at(items, readings, i);
    let error = if step_at(items, readings, i).0.seen(field) {
        ConfigErrorView::DuplicateField(field)
    } else {
        ConfigErrorView::UnexpectedFormat(field, Shape::List)
    };
    lemma_fault_stays(items, readings, i, error);
}

/// Whether an argument names an option.
pub open spec fn names(item: NestedMetaView, field: Field) -> bool {
    item_path(item) matches Some(path) && field_of(path.name()) == Some(field)
}

/// Whether two states of reading hold the same value for an option.
pub open spec fn same_value(a: Scan, b: Scan, field: Field) -> bool {
    match field {
        Field::OkLevel => a.named.ok == b.named.ok,
        Field::ErrLevel => a.named.err == b.named.err,
        Field::Fmt => a.named.fmt == b.named.fmt,
        Field::LogTs => a.named.log_ts == b.named.log_ts,
    }
}

/// An option that no argument names stays absent.
pub proof fn lemma_absent_option(
    items: Seq<NestedMetaView>,
    readings: Seq<Option<Seq<char>>>,
    field: Field,
)
    requires
        forall|i: int| 0 <= i < items.len() ==> !names(#[trigger] items[i], field),
    ensures
        !Scan::of(items, readings).seen(field),
        same_value(Scan::of(items, readings), Scan::start(), field),
    decreases items.len(),
{
    if items.len() > 0 {
        assert(!names(items.last(), field));
        assert forall|i: int| 0 <= i < items.drop_last().len() implies !names(
            #[trigger] items.drop_last()[i],
            field,
        ) by {
            assert(items.drop_last()[i] == items[i]);
        }
        lemma_absent_option(items.drop_last(), readings, field);
    }
}

/// Once an option was met, its value is settled: no later argument changes it.
pub proof fn lemma_value_settled(
    items: Seq<NestedMetaView>,
    readings: Seq<Option<Seq<char>>>,
    n: int,
    field: Field,
)
    requires
        0 <= n <= items.len(),
        Scan::of(items.take(n), readings).seen(field),
    ensures
        same_value(Scan::of(items, readings), Scan::of(items.take(n), readings), field),
    decreases items.len() - n,
{
    if n == items.len() {
        assert(items.take(n) =~= items);
    } else {
        lemma_step_at(items, readings, n);
        lemma_value_settled(items, readings, n + 1, field);
    }
}

/// The first argument that names an option decides it: the option has the value that
/// this argument gives, or none if the argument gives none, whatever stands after it.
pub proof fn lemma_first_argument_decides(
    items: Seq<NestedMetaView>,
    readings: Seq<Option<Seq<char>>>,
    i: int,
    field: Field,
)
    requires
        0 <= i < items.len(),
        names(items[i], field),
        forall|j: int| 0 <= j < i ==> !names(#[trigger] items[j], field),
    ensures
        field == Field::OkLevel ==> Scan::of(items, readings).named.ok == match level_value(
            field,
            items[i],
            reading_at(readings, i),
        ) {
            Ok(level) => Some(level),
            Err(_) => None,
        },
        field == Field::ErrLevel ==> Scan::of(items, readings).named.err == match level_value(
            field,
            items[i],
            reading_at(readings, i),
        ) {
            Ok(level) => Some(level),
            Err(_) => None,
        },
        field == Field::Fmt ==> Scan::of(items, readings).named.fmt == match template_value(
            items[i],
        ) {
            Ok(template) => Some(template),
            Err(_) => None,
        },
        field == Field::LogTs ==> Scan::of(items, readings).named.log_ts == match flag_value(
            items[i],
        ) {
            Ok(flag) => Some(flag),
            Err(_) => None,
        },
{
    assert forall|j: int| 0 <= j < items.take(i).len() implies !names(
        #[trigger] items.take(i)[j],
        field,
    ) by {
        assert(items.take(i)[j] == items[j]);
    }
    lemma_absent_option(items.take(i), readings, field);
    lemma_step_at(items, readings, i);
    assert(step_at(items, readings, i).1.seen(field));
    lemma_value_settled(items, readings, i + 1, field);
}

} // verus!
