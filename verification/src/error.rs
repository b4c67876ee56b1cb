//! What can be wrong with an annotation, and with the code made for it.

use crate::meta::ValueKind;
use crate::syntax::SyntaxError;
use vstd::prelude::*;

verus! {

/// A named option of the output-logging annotation.
#[derive(Clone, Copy, Debug, PartialEq, Eq, Structural)]
pub enum Field {
    /// `ok`: the level for a success.
    OkLevel,
    /// `err`: the level for a failure.
    ErrLevel,
    /// `fmt`: the format template.
    Fmt,
    /// `log_ts`: whether the elapsed time is logged.
    LogTs,
}

/// The name of an option as it is written in an annotation.
pub open spec fn field_name(field: Field) -> Seq<char> {
    match field {
        Field::OkLevel => "ok"@,
        Field::ErrLevel => "err"@,
        Field::Fmt => "fmt"@,
        Field::LogTs => "log_ts"@,
    }
}

impl Field {
    /// The name of the option as it is written in an annotation.
    pub fn name(&self) -> (name: &'static str)
        ensures
            name@ == field_name(*self),
    {
        match self {
            Field::OkLevel => "ok",
            Field::ErrLevel => "err",
            Field::Fmt => "fmt",
            Field::LogTs => "log_ts",
        }
    }
}

/// A form of argument that carries no scalar value.
#[derive(Clone, Copy, Debug, PartialEq, Eq, Structural)]
pub enum Shape {
    /// The name alone, without a value.
    Word,
    /// A nested list `name(..)`.
    List,
}

/// One fault in the arguments of an annotation.
#[derive(Debug, PartialEq, Eq)]
pub enum ConfigError {
    /// The annotation has fewer arguments than the number given.
    TooFewItems(usize),
    /// The annotation has more arguments than the number given.
    TooManyItems(usize),
    /// The first argument should be a level: a bare identifier.
    ExpectedLevel,
    /// A bare literal of this kind stands where a level or a named option is expected.
    UnexpectedLiteral(ValueKind),
    /// No option has this name.
    UnknownField(String),
    /// The option is given a second time.
    DuplicateField(Field),
    /// The option is written in a form that carries no value for it.
    UnexpectedFormat(Field, Shape),
    /// The option's value is of a kind that the option does not take.
    UnexpectedType(Field, ValueKind),
    /// The option's value is a string that the option cannot read.
    UnknownValue(Field, String),
}

/// The mathematical value of a [`ConfigError`].
pub enum ConfigErrorView {
    TooFewItems(usize),
    TooManyItems(usize),
    ExpectedLevel,
    UnexpectedLiteral(ValueKind),
    UnknownField(Seq<char>),
    DuplicateField(Field),
    UnexpectedFormat(Field, Shape),
    UnexpectedType(Field, ValueKind),
    UnknownValue(Field, Seq<char>),
}

impl DeepView for ConfigError {
    type V = ConfigErrorView;

    open spec fn deep_view(&self) -> ConfigErrorView {
        match self {
            ConfigError::TooFewItems(min) => ConfigErrorView::TooFewItems(*min),
            ConfigError::TooManyItems(max) => ConfigErrorView::TooManyItems(*max),
            ConfigError::ExpectedLevel => ConfigErrorView::ExpectedLevel,
            ConfigError::UnexpectedLiteral(kind) => ConfigErrorView::UnexpectedLiteral(*kind),
            ConfigError::UnknownField(name) => ConfigErrorView::UnknownField(name@),
            ConfigError::DuplicateField(field) => ConfigErrorView::DuplicateField(*field),
            ConfigError::UnexpectedFormat(field, shape) => ConfigErrorView::UnexpectedFormat(
                *field,
                *shape,
            ),
            ConfigError::UnexpectedType(field, kind) => ConfigErrorView::UnexpectedType(
                *field,
                *kind,
            ),
            ConfigError::UnknownValue(field, text) => ConfigErrorView::UnknownValue(
                *field,
                text@,
            ),
        }
    }
}

impl ConfigErrorView {
    /// The option that the fault is about, where it is about a known one.
    pub open spec fn field(self) -> Option<Field> {
        match self {
            ConfigErrorView::DuplicateField(field) => Some(field),
            ConfigErrorView::UnexpectedFormat(field, _) => Some(field),
            ConfigErrorView::UnexpectedType(field, _) => Some(field),
            ConfigErrorView::UnknownValue(field, _) => Some(field),
            _ => None,
        }
    }
}

impl ConfigError {
    /// The option that the fault is about, where it is about a known one.
    pub fn field(&self) -> (field: Option<Field>)
        ensures
            field == self.deep_view().field(),
    {
        match self {
            ConfigError::DuplicateField(field) => Some(*field),
            ConfigError::UnexpectedFormat(field, _) => Some(*field),
            ConfigError::UnexpectedType(field, _) => Some(*field),
            ConfigError::UnknownValue(field, _) => Some(*field),
            _ => None,
        }
    }
}

/// Why an annotated function was not transformed.
#[derive(Debug, PartialEq, Eq)]
pub enum TransformError {
    /// The annotation's arguments are faulty: every fault, in the order of the arguments.
    Config(Vec<ConfigError>),
    /// The function is declared `async`, and the build is one without suspension.
    AsyncDisabled,
    /// The generated code is refused: by this crate before `syn` is asked, or by `syn`.
    Syntax(SyntaxError),
}

} // verus!
