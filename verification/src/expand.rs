//! From a query site and the database's answer to the binding unit.
//!
//! Nothing here reads a file or talks to a database. The caller does both
//! and hands over what came back: a [`ReadOutcome`] for a query kept in a
//! file, and the reply to the one describe request that a query is allowed.

use vstd::prelude::*;
use crate::args::{generate_arg_encoding, spec_arg_encoding, EncodeStepView, EncodingCode};
use crate::describe::{Describe, DescribeView};
use crate::diagnostic::{
    all_at, at, attach_span, diagnostic_views, Diagnostic, DiagnosticKind, DiagnosticKindView,
    DiagnosticView,
};
use crate::input::{
    arg_views, ArgSpec, ArgSpecView, OutputSpec, OutputSpecView, QueryAsMacroInput,
    QueryMacroInput, QueryMacroInputView, QueryOrigin, QueryOriginView, QuerySource,
    QuerySourceView, ReadOutcome, ReadOutcomeView, RecordSpecView,
};
use crate::mapping::{TypeMapping, TypeRuleView};
use crate::output::{
    generate_output_decoding, spec_output_decoding, DecodingCode, DecodingCodeView,
};
use crate::span::SourceSpan;
use crate::validate::{spec_validate, validate};

verus! {

/// What is generated for one query site.
#[derive(Debug, PartialEq, Eq)]
pub struct BindingUnit {
    pub arg_encoding_code: EncodingCode,
    pub output_decoding_code: DecodingCode,
    /// Warnings; none of them stopped the generation.
    pub diagnostics: Vec<Diagnostic>,
}

/// A binding unit as a plain value.
pub struct BindingUnitView {
    pub arg_encoding_code: Seq<EncodeStepView>,
    pub output_decoding_code: DecodingCodeView,
    pub diagnostics: Seq<DiagnosticView>,
}

impl View for BindingUnit {
    type V = BindingUnitView;

    open spec fn view(&self) -> BindingUnitView {
        BindingUnitView {
            arg_encoding_code: self.arg_encoding_code@,
            output_decoding_code: self.output_decoding_code@,
            diagnostics: diagnostic_views(self.diagnostics@),
        }
    }
}

/// The reply to a describe request: the description, or the database's own
/// words on why there is none.
pub open spec fn reply_view(reply: Result<Describe, String>) -> Result<DescribeView, Seq<char>> {
    match reply {
        Ok(describe) => Ok(describe@),
        Err(message) => Err(message@),
    }
}

/// The query that `origin` stands for, given what reading its file gave.
///
/// A literal is its own text and the file is not consulted. The location is
/// `span` either way.
pub open spec fn spec_resolve(origin: QueryOriginView, span: SourceSpan, read: ReadOutcomeView) -> Result<
    QuerySourceView,
    DiagnosticView,
> {
    match origin {
        QueryOriginView::Literal(text) => Ok(QuerySourceView { text, location: span, origin }),
        QueryOriginView::FileRef(path) => match read {
            ReadOutcomeView::Contents(text) => Ok(QuerySourceView { text, location: span, origin }),
            ReadOutcomeView::NotFound => Err(at(DiagnosticKindView::FileNotFound { path }, span)),
            ReadOutcomeView::Failed(message) => Err(
                at(DiagnosticKindView::IoError { path, message }, span),
            ),
        },
    }
}

/// The description that a query site with `arg_count` arguments goes on
/// with: the one the database gave, if it gave one and the counts agree.
pub open spec fn spec_describe_validate(
    arg_count: nat,
    span: SourceSpan,
    reply: Result<DescribeView, Seq<char>>,
) -> Result<DescribeView, DiagnosticView> {
    match reply {
        Err(message) => Err(at(DiagnosticKindView::DescribeFailed { message }, span)),
        Ok(describe) => if arg_count != describe.param_types.len() {
            Err(
                at(
                    DiagnosticKindView::ArgCountMismatch {
                        expected: describe.param_types.len(),
                        actual: arg_count,
                    },
                    span,
                ),
            )
        } else {
            Ok(describe)
        },
    }
}

/// The binding unit for a described query: validation first, then the
/// argument code, then the row code; the first failure ends it.
pub open spec fn spec_generate(
    describe: DescribeView,
    args: Seq<ArgSpecView>,
    output: OutputSpecView,
    table: Map<Seq<char>, TypeRuleView>,
    checked: bool,
    span: SourceSpan,
) -> Result<BindingUnitView, DiagnosticView> {
    match spec_validate(describe, args.len(), output, checked) {
        Err(kind) => Err(at(kind, span)),
        Ok(_) => match spec_arg_encoding(args, describe.param_types, table, checked) {
            Err(kind) => Err(at(kind, span)),
            Ok(encoding) => match spec_output_decoding(describe.result_columns, output, table, checked) {
                Err(kind) => Err(at(kind, span)),
                Ok(decoding) => Ok(
                    BindingUnitView {
                        arg_encoding_code: encoding,
                        output_decoding_code: decoding.code,
                        diagnostics: all_at(decoding.warnings, span),
                    },
                ),
            },
        },
    }
}

/// The shape of a query without a record type: a tuple of its columns, and
/// no output where it has none.
pub open spec fn spec_plain_output(describe: DescribeView) -> OutputSpecView {
    if describe.result_columns.len() == 0 {
        OutputSpecView::NoOutput
    } else {
        OutputSpecView::Tuple
    }
}

/// The binding unit of a query site without a record type.
pub open spec fn spec_expand_query(
    input: QueryMacroInputView,
    reply: Result<DescribeView, Seq<char>>,
    table: Map<Seq<char>, TypeRuleView>,
    checked: bool,
) -> Result<BindingUnitView, DiagnosticView> {
    match spec_describe_validate(input.args.len(), input.src_span, reply) {
        Err(e) => Err(e),
        Ok(describe) => spec_generate(
            describe,
            input.args,
            spec_plain_output(describe),
            table,
            checked,
            input.src_span,
        ),
    }
}

/// The binding unit of a query site whose rows become records of `as_ty`.
pub open spec fn spec_expand_query_as(
    input: QueryMacroInputView,
    as_ty: RecordSpecView,
    reply: Result<DescribeView, Seq<char>>,
    table: Map<Seq<char>, TypeRuleView>,
    checked: bool,
) -> Result<BindingUnitView, DiagnosticView> {
    match spec_describe_validate(input.args.len(), input.src_span, reply) {
        Err(e) => Err(e),
        Ok(describe) => spec_generate(
            describe,
            input.args,
            OutputSpecView::NamedRecord(as_ty),
            table,
            checked,
            input.src_span,
        ),
    }
}

/// Resolves the query of `origin`, written at `span`; `read` is what
/// reading the file gave, where the query is kept in one.
pub fn resolve(origin: &QueryOrigin, span: SourceSpan, read: ReadOutcome) -> (source: Result<
    QuerySource,
    Diagnostic,
>)
    ensures
        match source {
            Ok(s) => spec_resolve(origin@, span, read@) == Ok::<QuerySourceView, DiagnosticView>(s@),
            Err(e) => spec_resolve(origin@, span, read@) == Err::<QuerySourceView, DiagnosticView>(
                e@,
            ),
        },
{
    match origin {
        QueryOrigin::Literal(text) => Ok(
            QuerySource { text: text.clone(), location: span, origin: origin.clone() },
        ),
        QueryOrigin::FileRef(path) => match read {
            ReadOutcome::Contents(text) => Ok(
                QuerySource { text, location: span, origin: origin.clone() },
            ),
            ReadOutcome::NotFound => Err(
                Diagnostic::new(DiagnosticKind::FileNotFound { path: path.clone() }, span),
            ),
            ReadOutcome::Failed(message) => Err(
                Diagnostic::new(DiagnosticKind::IoError { path: path.clone(), message }, span),
            ),
        },
    }
}

/// Resolves the query of a query site.
pub fn expand_input(input: &QueryMacroInput, read: ReadOutcome) -> (source: Result<
    QuerySource,
    Diagnostic,
>)
    ensures
        match source {
            Ok(s) => spec_resolve(input@.src, input@.src_span, read@) == Ok::<
                QuerySourceView,
                DiagnosticView,
            >(s@),
            Err(e) => spec_resolve(input@.src, input@.src_span, read@) == Err::<
                QuerySourceView,
                DiagnosticView,
            >(e@),
        },
{
    resolve(&input.src, input.src_span, read)
}

/// Takes the reply to the describe request of the query written at `span`.
///
/// A description is handed on as it came, nothing reordered and nothing
/// left out. A failure becomes a diagnostic at `span` that keeps the
/// database's message; it is final, the request is not made again.
pub fn describe(span: SourceSpan, reply: Result<Describe, String>) -> (described: Result<
    Describe,
    Diagnostic,
>)
    ensures
        match described {
            Ok(d) => reply == Ok::<Describe, String>(d),
            Err(e) => reply matches Err(message) && e@ == at(
                DiagnosticKindView::DescribeFailed { message: message@ },
                span,
            ),
        },
{
    match reply {
        Ok(describe) => Ok(describe),
        Err(message) => Err(Diagnostic::new(DiagnosticKind::DescribeFailed { message }, span)),
    }
}

/// Takes the database's reply for the query of `input` and checks that the
/// query has as many parameters as the site passes arguments.
///
/// A reply that is a failure becomes a diagnostic that keeps the database's
/// message. A description that passes is handed on as it came.
pub fn describe_validate(input: &QueryMacroInput, reply: Result<Describe, String>) -> (described:
    Result<Describe, Diagnostic>)
    ensures
        match described {
            Ok(d) => reply == Ok::<Describe, String>(d) && spec_describe_validate(
                input@.args.len(),
                input@.src_span,
                reply_view(reply),
            ) == Ok::<DescribeView, DiagnosticView>(d@),
            Err(e) => spec_describe_validate(input@.args.len(), input@.src_span, reply_view(reply))
                == Err::<DescribeView, DiagnosticView>(e@),
        },
        described is Ok <==> (reply matches Ok(d) && d.param_types@.len() == input.args@.len()),
{
    let describe = match describe(input.src_span, reply) {
        Err(e) => {
            return Err(e);
        },
        Ok(describe) => describe,
    };
    if input.args.len() != describe.param_types.len() {
        Err(
            Diagnostic::new(
                DiagnosticKind::ArgCountMismatch {
                    expected: describe.param_types.len(),
                    actual: input.args.len(),
                },
                input.src_span,
            ),
        )
    } else {
        Ok(describe)
    }
}

/// Generates the binding unit for a described query: validates, then
/// generates the argument code and the row code.
pub fn generate_binding(
    describe: &Describe,
    args: &Vec<ArgSpec>,
    output: &OutputSpec,
    types: &TypeMapping,
    checked: bool,
    span: SourceSpan,
) -> (unit: Result<BindingUnit, Diagnostic>)
    ensures
        match unit {
            Ok(u) => spec_generate(describe@, arg_views(args@), output@, types@, checked, span)
                == Ok::<BindingUnitView, DiagnosticView>(u@),
            Err(e) => spec_generate(describe@, arg_views(args@), output@, types@, checked, span)
                == Err::<BindingUnitView, DiagnosticView>(e@),
        },
{
    match validate(describe, args, output, checked) {
        Err(kind) => {
            return Err(Diagnostic::new(kind, span));
        },
        Ok(_) => {},
    }
    let encoding = match generate_arg_encoding(args, &describe.param_types, types, checked) {
        Err(kind) => {
            return Err(Diagnostic::new(kind, span));
        },
        Ok(encoding) => encoding,
    };
    let decoding = match generate_output_decoding(&describe.result_columns, output, types, checked) {
        Err(kind) => {
            return Err(Diagnostic::new(kind, span));
        },
        Ok(decoding) => decoding,
    };
    let diagnostics = attach_span(&decoding.warnings, span);
    Ok(
        BindingUnit {
            arg_encoding_code: encoding,
            output_decoding_code: decoding.code,
            diagnostics,
        },
    )
}

/// Generates the binding unit of a query site without a record type, from
/// the database's reply for its query.
pub fn expand_query(
    input: &QueryMacroInput,
    reply: Result<Describe, String>,
    types: &TypeMapping,
    checked: bool,
) -> (unit: Result<BindingUnit, Diagnostic>)
    ensures
        match unit {
            Ok(u) => spec_expand_query(input@, reply_view(reply), types@, checked) == Ok::<
                BindingUnitView,
                DiagnosticView,
            >(u@),
            Err(e) => spec_expand_query(input@, reply_view(reply), types@, checked) == Err::<
                BindingUnitView,
                DiagnosticView,
            >(e@),
        },
{
    let describe = match describe_validate(input, reply) {
        Err(e) => {
            return Err(e);
        },
        Ok(describe) => describe,
    };
    let output = if describe.result_columns.len() == 0 {
        OutputSpec::NoOutput
    } else {
        OutputSpec::Tuple
    };
    generate_binding(&describe, &input.args, &output, types, checked, input.src_span)
}

/// Generates the binding unit of a query site whose rows become records,
/// from the database's reply for its query.
pub fn expand_query_as(
    input: QueryAsMacroInput,
    reply: Result<Describe, String>,
    types: &TypeMapping,
    checked: bool,
) -> (unit: Result<BindingUnit, Diagnostic>)
    ensures
        match unit {
            Ok(u) => spec_expand_query_as(
                input@.query_input,
                input@.as_ty,
                reply_view(reply),
                types@,
                checked,
            ) == Ok::<BindingUnitView, DiagnosticView>(u@),
            Err(e) => spec_expand_query_as(
                input@.query_input,
                input@.as_ty,
                reply_view(reply),
                types@,
                checked,
            ) == Err::<BindingUnitView, DiagnosticView>(e@),
        },
{
    let QueryAsMacroInput { as_ty, query_input } = input;
    let describe = match describe_validate(&query_input, reply) {
        Err(e) => {
            return Err(e);
        },
        Ok(describe) => describe,
    };
    let output = OutputSpec::NamedRecord(as_ty);
    generate_binding(&describe, &query_input.args, &output, types, checked, query_input.src_span)
}

/// As [`expand_query`], for a query kept in a file: `read` is what reading
/// the file gave. Where the query cannot be resolved, that is the failure
/// and `reply` is not looked at.
pub fn expand_query_file(
    input: &QueryMacroInput,
    read: ReadOutcome,
    reply: Result<Describe, String>,
    types: &TypeMapping,
    checked: bool,
) -> (unit: Result<BindingUnit, Diagnostic>)
    ensures
        match unit {
            Ok(u) => spec_resolve(input@.src, input@.src_span, read@) is Ok && spec_expand_query(
                input@,
                reply_view(reply),
                types@,
                checked,
            ) == Ok::<BindingUnitView, DiagnosticView>(u@),
            Err(e) => match spec_resolve(input@.src, input@.src_span, read@) {
                Err(unresolved) => e@ == unresolved,
                Ok(_) => spec_expand_query(input@, reply_view(reply), types@, checked) == Err::<
                    BindingUnitView,
                    DiagnosticView,
                >(e@),
            },
        },
{
    match expand_input(input, read) {
        Err(e) => Err(e),
        Ok(_) => expand_query(input, reply, types, checked),
    }
}

/// As [`expand_query_as`], for a query kept in a file: `read` is what
/// reading the file gave. Where the query cannot be resolved, that is the
/// failure and `reply` is not looked at.
pub fn expand_query_file_as(
    input: QueryAsMacroInput,
    read: ReadOutcome,
    reply: Result<Describe, String>,
    types: &TypeMapping,
    checked: bool,
) -> (unit: Result<BindingUnit, Diagnostic>)
    ensures
        match unit {
            Ok(u) => spec_resolve(input@.query_input.src, input@.query_input.src_span, read@) is Ok
                && spec_expand_query_as(
                input@.query_input,
                input@.as_ty,
                reply_view(reply),
                types@,
                checked,
            ) == Ok::<BindingUnitView, DiagnosticView>(u@),
            Err(e) => match spec_resolve(
                input@.query_input.src,
                input@.query_input.src_span,
                read@,
            ) {
                Err(unresolved) => e@ == unresolved,
                Ok(_) => spec_expand_query_as(
                    input@.query_input,
                    input@.as_ty,
                    reply_view(reply),
                    types@,
                    checked,
                ) == Err::<BindingUnitView, DiagnosticView>(e@),
            },
        },
{
    match expand_input(&input.query_input, read) {
        Err(e) => Err(e),
        Ok(_) => expand_query_as(input, reply, types, checked),
    }
}

} // verus!
