//! The arguments of an annotation, as plain values.
//!
//! An annotation such as `logfn(INFO, fmt = "done: {}", log_ts = true)` carries an ordered
//! list of arguments. Each argument is a path (a bare identifier in the common case), a
//! `name = value` pair, a nested list `name(..)`, or a bare literal. The types here hold
//! exactly what the configuration parser reads of them.

use vstd::prelude::*;
use vstd::string::StringExecFns;

verus! {

/// A path of identifiers, such as `INFO` or `log::Level`.
#[derive(Debug, PartialEq, Eq)]
pub struct Path {
    /// Whether the path starts with `::`.
    pub leading_colon: bool,
    /// The identifiers of the path, in order.
    pub segments: Vec<String>,
}

/// The mathematical value of a [`Path`].
pub struct PathView {
    pub leading_colon: bool,
    pub segments: Seq<Seq<char>>,
}

impl DeepView for Path {
    type V = PathView;

    open spec fn deep_view(&self) -> PathView {
        PathView { leading_colon: self.leading_colon, segments: self.segments.deep_view() }
    }
}

/// The segments joined by `::`; the empty text for no segment.
pub open spec fn joined(segments: Seq<Seq<char>>) -> Seq<char>
    decreases segments.len(),
{
    if segments.len() == 0 {
        Seq::empty()
    } else if segments.len() == 1 {
        segments[0]
    } else {
        joined(segments.drop_last()) + "::"@ + segments.last()
    }
}

impl PathView {
    /// The identifier that the path consists of, if it is a single identifier without a
    /// leading `::`.
    pub open spec fn get_ident(self) -> Option<Seq<char>> {
        if !self.leading_colon && self.segments.len() == 1 {
            Some(self.segments[0])
        } else {
            None
        }
    }

    /// The name under which an option is looked up: the segments joined by `::`.
    pub open spec fn name(self) -> Seq<char> {
        joined(self.segments)
    }
}

impl Path {
    /// The identifier that the path consists of, if it is a single identifier without a
    /// leading `::`.
    pub fn get_ident(&self) -> (ident: Option<&String>)
        ensures
            ident.deep_view() == self.deep_view().get_ident(),
    {
        if !self.leading_colon && self.segments.len() == 1 {
            Some(&self.segments[0])
        } else {
            None
        }
    }

    /// The segments joined by `::`.
    pub fn name(&self) -> (name: String)
        ensures
            name@ == self.deep_view().name(),
    {
        let mut name = String::new();
        let mut i: usize = 0;
        while i < self.segments.len()
            invariant
                i <= self.segments.len(),
                name@ == joined(self.segments.deep_view().take(i as int)),
            decreases self.segments.len() - i,
        {
            let ghost before = self.segments.deep_view().take(i as int);
            let ghost after = self.segments.deep_view().take(i + 1);
            assert(after.drop_last() =~= before);
            assert(after.last() == self.segments[i as int]@);
            if i > 0 {
                name.append("::");
            }
            name.append(self.segments[i].as_str());
            assert(name@ =~= joined(after));
            i += 1;
        }
        assert(self.segments.deep_view().take(i as int) =~= self.segments.deep_view());
        name
    }
}

/// What kind of value stands in an argument.
#[derive(Clone, Copy, Debug, PartialEq, Eq, Structural)]
pub enum ValueKind {
    Ident,
    Str,
    Bool,
    ByteStr,
    Byte,
    Char,
    Int,
    Float,
    Verbatim,
}

/// The value of a `name = value` pair, or a bare literal argument.
///
/// Only an identifier, a string and a boolean are ever read; of every other literal the
/// kind alone is kept.
#[derive(Debug, PartialEq, Eq)]
pub enum Value {
    /// An identifier, as in `ok = info`.
    Ident(String),
    /// The content of a string literal, as in `ok = "info"`.
    Str(String),
    /// A boolean literal.
    Bool(bool),
    ByteStr,
    Byte,
    Char,
    Int,
    Float,
    Verbatim,
}

/// The mathematical value of a [`Value`].
pub enum ValueView {
    Ident(Seq<char>),
    Str(Seq<char>),
    Bool(bool),
    ByteStr,
    Byte,
    Char,
    Int,
    Float,
    Verbatim,
}

impl DeepView for Value {
    type V = ValueView;

    open spec fn deep_view(&self) -> ValueView {
        match self {
            Value::Ident(name) => ValueView::Ident(name@),
            Value::Str(text) => ValueView::Str(text@),
            Value::Bool(b) => ValueView::Bool(*b),
            Value::ByteStr => ValueView::ByteStr,
            Value::Byte => ValueView::Byte,
            Value::Char => ValueView::Char,
            Value::Int => ValueView::Int,
            Value::Float => ValueView::Float,
            Value::Verbatim => ValueView::Verbatim,
        }
    }
}

impl ValueView {
    pub open spec fn kind(self) -> ValueKind {
        match self {
            ValueView::Ident(_) => ValueKind::Ident,
            ValueView::Str(_) => ValueKind::Str,
            ValueView::Bool(_) => ValueKind::Bool,
            ValueView::ByteStr => ValueKind::ByteStr,
            ValueView::Byte => ValueKind::Byte,
            ValueView::Char => ValueKind::Char,
            ValueView::Int => ValueKind::Int,
            ValueView::Float => ValueKind::Float,
            ValueView::Verbatim => ValueKind::Verbatim,
        }
    }
}

impl Value {
    /// The kind of the value.
    pub fn kind(&self) -> (kind: ValueKind)
        ensures
            kind == self.deep_view().kind(),
    {
        match self {
            Value::Ident(_) => ValueKind::Ident,
            Value::Str(_) => ValueKind::Str,
            Value::Bool(_) => ValueKind::Bool,
            Value::ByteStr => ValueKind::ByteStr,
            Value::Byte => ValueKind::Byte,
            Value::Char => ValueKind::Char,
            Value::Int => ValueKind::Int,
            Value::Float => ValueKind::Float,
            Value::Verbatim => ValueKind::Verbatim,
        }
    }
}

/// One argument of an annotation.
#[derive(Debug, PartialEq, Eq)]
pub enum NestedMeta {
    /// A path alone, such as the bare identifier `INFO`.
    Path(Path),
    /// A nested list `name(..)`; what stands inside is never read.
    List(Path),
    /// A pair `name = value`.
    NameValue(Path, Value),
    /// A bare literal, such as `"called with {}"`.
    Lit(Value),
}

/// The mathematical value of a [`NestedMeta`].
pub enum NestedMetaView {
    Path(PathView),
    List(PathView),
    NameValue(PathView, ValueView),
    Lit(ValueView),
}

impl DeepView for NestedMeta {
    type V = NestedMetaView;

    open spec fn deep_view(&self) -> NestedMetaView {
        match self {
            NestedMeta::Path(path) => NestedMetaView::Path(path.deep_view()),
            NestedMeta::List(path) => NestedMetaView::List(path.deep_view()),
            NestedMeta::NameValue(path, value) => NestedMetaView::NameValue(
                path.deep_view(),
                value.deep_view(),
            ),
            NestedMeta::Lit(value) => NestedMetaView::Lit(value.deep_view()),
        }
    }
}

impl NestedMetaView {
    /// The bare identifier that the argument consists of, if it is one.
    pub open spec fn bare_ident(self) -> Option<Seq<char>> {
        match self {
            NestedMetaView::Path(path) => path.get_ident(),
            _ => None,
        }
    }
}

impl NestedMeta {
    /// The bare identifier that the argument consists of, if it is one.
    pub fn bare_ident(&self) -> (ident: Option<&String>)
        ensures
            ident.deep_view() == self.deep_view().bare_ident(),
    {
        match self {
            NestedMeta::Path(path) => path.get_ident(),
            _ => None,
        }
    }
}

} // verus!
