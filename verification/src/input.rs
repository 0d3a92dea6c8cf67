//! What a query site supplies: where the query text comes from, the
//! arguments in call order, and the shape that the rows are to take.

use vstd::prelude::*;
use crate::mapping::{TargetType, TargetTypeView};
use crate::span::SourceSpan;

verus! {

/// Where the text of a query comes from.
#[derive(Debug, PartialEq, Eq)]
pub enum QueryOrigin {
    /// The text stands at the query site.
    Literal(String),
    /// The text is kept in the file at this path.
    FileRef(String),
}

/// A query origin as a plain value.
pub enum QueryOriginView {
    Literal(Seq<char>),
    FileRef(Seq<char>),
}

impl View for QueryOrigin {
    type V = QueryOriginView;

    open spec fn view(&self) -> QueryOriginView {
        match *self {
            QueryOrigin::Literal(text) => QueryOriginView::Literal(text@),
            QueryOrigin::FileRef(path) => QueryOriginView::FileRef(path@),
        }
    }
}

impl Clone for QueryOrigin {
    fn clone(&self) -> (copy: QueryOrigin)
        ensures
            copy@ == self@,
    {
        match self {
            QueryOrigin::Literal(text) => QueryOrigin::Literal(text.clone()),
            QueryOrigin::FileRef(path) => QueryOrigin::FileRef(path.clone()),
        }
    }
}

/// What reading a query file gave.
#[derive(Debug, PartialEq, Eq)]
pub enum ReadOutcome {
    /// The file's text.
    Contents(String),
    /// There is no such file.
    NotFound,
    /// The file is there and could not be read; the text says why.
    Failed(String),
}

/// A read outcome as a plain value.
pub enum ReadOutcomeView {
    Contents(Seq<char>),
    NotFound,
    Failed(Seq<char>),
}

impl View for ReadOutcome {
    type V = ReadOutcomeView;

    open spec fn view(&self) -> ReadOutcomeView {
        match *self {
            ReadOutcome::Contents(text) => ReadOutcomeView::Contents(text@),
            ReadOutcome::NotFound => ReadOutcomeView::NotFound,
            ReadOutcome::Failed(message) => ReadOutcomeView::Failed(message@),
        }
    }
}

/// A query whose text is known.
#[derive(Debug, PartialEq, Eq)]
pub struct QuerySource {
    pub text: String,
    /// The query site; for a query kept in a file, the place that names the file.
    pub location: SourceSpan,
    pub origin: QueryOrigin,
}

/// A resolved query as a plain value.
pub struct QuerySourceView {
    pub text: Seq<char>,
    pub location: SourceSpan,
    pub origin: QueryOriginView,
}

impl View for QuerySource {
    type V = QuerySourceView;

    open spec fn view(&self) -> QuerySourceView {
        QuerySourceView { text: self.text@, location: self.location, origin: self.origin@ }
    }
}

/// One argument of the call site.
#[derive(Debug, PartialEq, Eq)]
pub struct ArgSpec {
    pub name: String,
    /// The place that the call site gives the argument.
    pub position: usize,
    /// The argument's expression, as written.
    pub expression: String,
}

/// An argument as a plain value.
pub struct ArgSpecView {
    pub name: Seq<char>,
    pub position: nat,
    pub expression: Seq<char>,
}

impl View for ArgSpec {
    type V = ArgSpecView;

    open spec fn view(&self) -> ArgSpecView {
        ArgSpecView { name: self.name@, position: self.position as nat, expression: self.expression@ }
    }
}

impl Clone for ArgSpec {
    fn clone(&self) -> (copy: ArgSpec)
        ensures
            copy@ == self@,
    {
        ArgSpec {
            name: self.name.clone(),
            position: self.position,
            expression: self.expression.clone(),
        }
    }
}

impl ArgSpec {
    /// The argument `name` at `position`, whose expression is the name itself.
    pub fn new(name: &str, position: usize) -> (arg: ArgSpec)
        ensures
            arg@ == (ArgSpecView { name: name@, position: position as nat, expression: name@ }),
    {
        ArgSpec { name: name.to_owned(), position, expression: name.to_owned() }
    }
}

/// The views of a sequence of arguments.
pub open spec fn arg_views(args: Seq<ArgSpec>) -> Seq<ArgSpecView> {
    args.map_values(|a: ArgSpec| a@)
}

/// The type that the user fixes for the column `column`.
#[derive(Debug, PartialEq, Eq)]
pub struct FieldOverride {
    pub column: String,
    pub target: TargetType,
}

/// A type override as a plain value.
pub struct FieldOverrideView {
    pub column: Seq<char>,
    pub target: TargetTypeView,
}

impl View for FieldOverride {
    type V = FieldOverrideView;

    open spec fn view(&self) -> FieldOverrideView {
        FieldOverrideView { column: self.column@, target: self.target@ }
    }
}

/// The views of a sequence of overrides.
pub open spec fn override_views(overrides: Seq<FieldOverride>) -> Seq<FieldOverrideView> {
    overrides.map_values(|o: FieldOverride| o@)
}

/// The views of a sequence of strings.
pub open spec fn string_views(strings: Seq<String>) -> Seq<Seq<char>> {
    strings.map_values(|s: String| s@)
}

/// A record type that rows are decoded into.
#[derive(Debug, PartialEq, Eq)]
pub struct RecordSpec {
    /// The record type, as the call site names it.
    pub type_reference: String,
    /// The names of the record's fields, in the order of their declaration.
    pub fields: Vec<String>,
    /// Where several overrides name one column, the first counts.
    pub field_overrides: Vec<FieldOverride>,
}

/// A record type as a plain value.
pub struct RecordSpecView {
    pub type_reference: Seq<char>,
    pub fields: Seq<Seq<char>>,
    pub field_overrides: Seq<FieldOverrideView>,
}

impl View for RecordSpec {
    type V = RecordSpecView;

    open spec fn view(&self) -> RecordSpecView {
        RecordSpecView {
            type_reference: self.type_reference@,
            fields: string_views(self.fields@),
            field_overrides: override_views(self.field_overrides@),
        }
    }
}

/// The shape that a query's rows take at the call site.
#[derive(Debug, PartialEq, Eq)]
pub enum OutputSpec {
    /// The query is run for its effect and nothing is decoded.
    NoOutput,
    /// One tuple element per column, in the order of the columns.
    Tuple,
    /// A record whose fields are filled from the columns of the same names.
    NamedRecord(RecordSpec),
}

/// An output shape as a plain value.
pub enum OutputSpecView {
    NoOutput,
    Tuple,
    NamedRecord(RecordSpecView),
}

impl View for OutputSpec {
    type V = OutputSpecView;

    open spec fn view(&self) -> OutputSpecView {
        match *self {
            OutputSpec::NoOutput => OutputSpecView::NoOutput,
            OutputSpec::Tuple => OutputSpecView::Tuple,
            OutputSpec::NamedRecord(record) => OutputSpecView::NamedRecord(record@),
        }
    }
}

/// A query site: the query, where it stands, and its arguments in call order.
#[derive(Debug, PartialEq, Eq)]
pub struct QueryMacroInput {
    pub src: QueryOrigin,
    pub src_span: SourceSpan,
    pub args: Vec<ArgSpec>,
}

/// A query site as a plain value.
pub struct QueryMacroInputView {
    pub src: QueryOriginView,
    pub src_span: SourceSpan,
    pub args: Seq<ArgSpecView>,
}

impl View for QueryMacroInput {
    type V = QueryMacroInputView;

    open spec fn view(&self) -> QueryMacroInputView {
        QueryMacroInputView { src: self.src@, src_span: self.src_span, args: arg_views(self.args@) }
    }
}

/// A query site whose rows are decoded into a record.
#[derive(Debug, PartialEq, Eq)]
pub struct QueryAsMacroInput {
    pub as_ty: RecordSpec,
    pub query_input: QueryMacroInput,
}

/// A record query site as a plain value.
pub struct QueryAsMacroInputView {
    pub as_ty: RecordSpecView,
    pub query_input: QueryMacroInputView,
}

impl View for QueryAsMacroInput {
    type V = QueryAsMacroInputView;

    open spec fn view(&self) -> QueryAsMacroInputView {
        QueryAsMacroInputView { as_ty: self.as_ty@, query_input: self.query_input@ }
    }
}

} // verus!
