//! What can go wrong while a binding is generated, and where.

use vstd::prelude::*;
use vstd::string::StringExecFns;
use crate::span::SourceSpan;
use crate::text::{append_decimal, decimal};

verus! {

/// The ways in which generation fails or warns.
#[derive(Debug, PartialEq, Eq)]
pub enum DiagnosticKind {
    /// The file that holds the query does not exist.
    FileNotFound { path: String },
    /// The file that holds the query could not be read.
    IoError { path: String, message: String },
    /// The database rejected the query or could not be asked; `message` is its own text.
    DescribeFailed { message: String },
    /// The call site passes `actual` arguments where the query takes `expected`.
    ArgCountMismatch { expected: usize, actual: usize },
    /// The query returns no column, yet a record was asked for.
    EmptyResultSet,
    /// A type override names a column that the query does not return.
    UnknownColumnOverride { name: String },
    /// The database cannot tell whether the column at index `column` may be null.
    UnknownNullability { column: usize },
    /// The type table has no entry for the database type.
    UnsupportedType { type_id: String },
    /// No column of the result carries the name of a declared field.
    FieldNotFound { field: String },
    /// A column that may be null is bound to a field whose type excludes null.
    NullabilityMismatch { field: String },
}

/// A diagnostic kind as a plain value.
pub enum DiagnosticKindView {
    FileNotFound { path: Seq<char> },
    IoError { path: Seq<char>, message: Seq<char> },
    DescribeFailed { message: Seq<char> },
    ArgCountMismatch { expected: nat, actual: nat },
    EmptyResultSet,
    UnknownColumnOverride { name: Seq<char> },
    UnknownNullability { column: nat },
    UnsupportedType { type_id: Seq<char> },
    FieldNotFound { field: Seq<char> },
    NullabilityMismatch { field: Seq<char> },
}

impl View for DiagnosticKind {
    type V = DiagnosticKindView;

    open spec fn view(&self) -> DiagnosticKindView {
        match *self {
            DiagnosticKind::FileNotFound { path } => DiagnosticKindView::FileNotFound { path: path@ },
            DiagnosticKind::IoError { path, message } => DiagnosticKindView::IoError {
                path: path@,
                message: message@,
            },
            DiagnosticKind::DescribeFailed { message } => DiagnosticKindView::DescribeFailed {
                message: message@,
            },
            DiagnosticKind::ArgCountMismatch { expected, actual } => {
                DiagnosticKindView::ArgCountMismatch { expected: expected as nat, actual: actual as nat }
            },
            DiagnosticKind::EmptyResultSet => DiagnosticKindView::EmptyResultSet,
            DiagnosticKind::UnknownColumnOverride { name } => {
                DiagnosticKindView::UnknownColumnOverride { name: name@ }
            },
            DiagnosticKind::UnknownNullability { column } => DiagnosticKindView::UnknownNullability {
                column: column as nat,
            },
            DiagnosticKind::UnsupportedType { type_id } => DiagnosticKindView::UnsupportedType {
                type_id: type_id@,
            },
            DiagnosticKind::FieldNotFound { field } => DiagnosticKindView::FieldNotFound { field: field@ },
            DiagnosticKind::NullabilityMismatch { field } => DiagnosticKindView::NullabilityMismatch {
                field: field@,
            },
        }
    }
}

/// The message that states a diagnostic of the given kind.
///
/// A failed describe request is stated in the database's own words, a wrong
/// argument count with both counts.
pub open spec fn spec_message(kind: DiagnosticKindView) -> Seq<char> {
    match kind {
        DiagnosticKindView::FileNotFound { path } => "query file not found: "@ + path,
        DiagnosticKindView::IoError { path, message } => "cannot read query file "@ + path + ": "@
            + message,
        DiagnosticKindView::DescribeFailed { message } => message,
        DiagnosticKindView::ArgCountMismatch { expected, actual } => "expected "@ + decimal(expected)
            + " parameters, got "@ + decimal(actual),
        DiagnosticKindView::EmptyResultSet => "query must output at least one column"@,
        DiagnosticKindView::UnknownColumnOverride { name } => "type override for unknown column "@
            + name,
        DiagnosticKindView::UnknownNullability { column } => "cannot tell if column "@ + decimal(
            column,
        ) + " may be null"@,
        DiagnosticKindView::UnsupportedType { type_id } => "unsupported type "@ + type_id,
        DiagnosticKindView::FieldNotFound { field } => "no column for field "@ + field,
        DiagnosticKindView::NullabilityMismatch { field } => "column may be null but field is not optional: "@
            + field,
    }
}

/// `head` followed by `tail`.
fn joined(head: &str, tail: &str) -> (text: String)
    ensures
        text@ == head@ + tail@,
{
    let mut text = String::from_str(head);
    text.append(tail);
    text
}

impl DiagnosticKind {
    /// The message that states the diagnostic.
    pub fn message(&self) -> (text: String)
        ensures
            text@ == spec_message(self@),
    {
        match self {
            DiagnosticKind::FileNotFound { path } => joined("query file not found: ", path.as_str()),
            DiagnosticKind::IoError { path, message } => {
                let mut text = joined("cannot read query file ", path.as_str());
                text.append(": ");
                text.append(message.as_str());
                text
            },
            DiagnosticKind::DescribeFailed { message } => message.clone(),
            DiagnosticKind::ArgCountMismatch { expected, actual } => {
                let mut text = String::from_str("expected ");
                append_decimal(&mut text, *expected);
                text.append(" parameters, got ");
                append_decimal(&mut text, *actual);
                text
            },
            DiagnosticKind::EmptyResultSet => String::from_str("query must output at least one column"),
            DiagnosticKind::UnknownColumnOverride { name } => joined(
                "type override for unknown column ",
                name.as_str(),
            ),
            DiagnosticKind::UnknownNullability { column } => {
                let mut text = String::from_str("cannot tell if column ");
                append_decimal(&mut text, *column);
                text.append(" may be null");
                text
            },
            DiagnosticKind::UnsupportedType { type_id } => joined("unsupported type ", type_id.as_str()),
            DiagnosticKind::FieldNotFound { field } => joined("no column for field ", field.as_str()),
            DiagnosticKind::NullabilityMismatch { field } => joined(
                "column may be null but field is not optional: ",
                field.as_str(),
            ),
        }
    }
}

impl Clone for DiagnosticKind {
    fn clone(&self) -> (copy: DiagnosticKind)
        ensures
            copy@ == self@,
    {
        match self {
            DiagnosticKind::FileNotFound { path } => DiagnosticKind::FileNotFound { path: path.clone() },
            DiagnosticKind::IoError { path, message } => DiagnosticKind::IoError {
                path: path.clone(),
                message: message.clone(),
            },
            DiagnosticKind::DescribeFailed { message } => DiagnosticKind::DescribeFailed {
                message: message.clone(),
            },
            DiagnosticKind::ArgCountMismatch { expected, actual } => {
                DiagnosticKind::ArgCountMismatch { expected: *expected, actual: *actual }
            },
            DiagnosticKind::EmptyResultSet => DiagnosticKind::EmptyResultSet,
            DiagnosticKind::UnknownColumnOverride { name } => DiagnosticKind::UnknownColumnOverride {
                name: name.clone(),
            },
            DiagnosticKind::UnknownNullability { column } => DiagnosticKind::UnknownNullability {
                column: *column,
            },
            DiagnosticKind::UnsupportedType { type_id } => DiagnosticKind::UnsupportedType {
                type_id: type_id.clone(),
            },
            DiagnosticKind::FieldNotFound { field } => DiagnosticKind::FieldNotFound {
                field: field.clone(),
            },
            DiagnosticKind::NullabilityMismatch { field } => DiagnosticKind::NullabilityMismatch {
                field: field.clone(),
            },
        }
    }
}

/// A failure or warning, with the query site it belongs to.
#[derive(Debug, PartialEq, Eq)]
pub struct Diagnostic {
    pub kind: DiagnosticKind,
    pub span: SourceSpan,
}

/// A diagnostic as a plain value.
pub struct DiagnosticView {
    pub kind: DiagnosticKindView,
    pub span: SourceSpan,
}

impl View for Diagnostic {
    type V = DiagnosticView;

    open spec fn view(&self) -> DiagnosticView {
        DiagnosticView { kind: self.kind@, span: self.span }
    }
}

/// The views of a sequence of diagnostics.
pub open spec fn diagnostic_views(diagnostics: Seq<Diagnostic>) -> Seq<DiagnosticView> {
    diagnostics.map_values(|d: Diagnostic| d@)
}

/// The diagnostic of kind `kind` at `span`.
pub open spec fn at(kind: DiagnosticKindView, span: SourceSpan) -> DiagnosticView {
    DiagnosticView { kind, span }
}

/// The diagnostics of the kinds `kinds`, all at `span`.
pub open spec fn all_at(kinds: Seq<DiagnosticKindView>, span: SourceSpan) -> Seq<DiagnosticView> {
    kinds.map_values(|k: DiagnosticKindView| at(k, span))
}

impl Diagnostic {
    /// The diagnostic of the given kind at `span`.
    pub fn new(kind: DiagnosticKind, span: SourceSpan) -> (d: Diagnostic)
        ensures
            d.kind == kind,
            d.span == span,
            d@ == at(kind@, span),
    {
        Diagnostic { kind, span }
    }

    /// The message that states the diagnostic.
    pub fn message(&self) -> (text: String)
        ensures
            text@ == spec_message(self@.kind),
    {
        self.kind.message()
    }
}

/// Gives each of `kinds` the place `span`.
pub fn attach_span(kinds: &Vec<DiagnosticKind>, span: SourceSpan) -> (placed: Vec<Diagnostic>)
    ensures
        diagnostic_views(placed@) == all_at(kinds@.map_values(|k: DiagnosticKind| k@), span),
{
    let mut placed: Vec<Diagnostic> = Vec::new();
    let mut i: usize = 0;
    while i < kinds.len()
        invariant
            i <= kinds.len(),
            placed.len() == i,
            forall|k: int| 0 <= k < i ==> (#[trigger] placed[k])@ == at(kinds[k]@, span),
        decreases kinds.len() - i,
    {
        placed.push(Diagnostic::new(kinds[i].clone(), span));
        i += 1;
    }
    assert(diagnostic_views(placed@) =~= all_at(kinds@.map_values(|k: DiagnosticKind| k@), span));
    placed
}

} // verus!
