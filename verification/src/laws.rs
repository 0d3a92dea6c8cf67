//! Laws that hold of validation and generation on every input.

use vstd::prelude::*;
use crate::describe::{find_column, first_unknown_nullability, ColumnView, DescribeView};
use crate::diagnostic::{at, DiagnosticKindView, DiagnosticView};
use crate::expand::spec_describe_validate;
use crate::input::{FieldOverrideView, OutputSpecView, RecordSpecView};
use crate::mapping::{NullableRule, TypeRuleView};
use crate::output::{
    lemma_found_column_in_range, spec_column_step, spec_field_step, spec_record_prefix,
    spec_tuple_prefix, StepOutcome,
};
use crate::span::SourceSpan;
use crate::validate::spec_validate;

verus! {

/// A query site whose argument count differs from the query's parameter
/// count fails validation, and the failure carries both counts; a site that
/// passes validation has the right count.
pub proof fn lemma_arity_mismatch_is_reported(
    describe: DescribeView,
    arg_count: nat,
    output: OutputSpecView,
    checked: bool,
)
    ensures
        arg_count != describe.param_types.len() ==> spec_validate(
            describe,
            arg_count,
            output,
            checked,
        ) == Err::<(), DiagnosticKindView>(
            DiagnosticKindView::ArgCountMismatch {
                expected: describe.param_types.len(),
                actual: arg_count,
            },
        ),
        spec_validate(describe, arg_count, output, checked) is Ok ==> arg_count
            == describe.param_types.len(),
{
}

/// Where no other rule is broken, that is where the site would pass with the
/// right number of arguments, validation succeeds exactly if the number of
/// arguments is the number of parameters.
pub proof fn lemma_arity_decides(
    describe: DescribeView,
    arg_count: nat,
    output: OutputSpecView,
    checked: bool,
)
    requires
        spec_validate(describe, describe.param_types.len(), output, checked) is Ok,
    ensures
        spec_validate(describe, arg_count, output, checked) is Ok <==> arg_count
            == describe.param_types.len(),
{
}

/// The arity check that follows a describe request succeeds exactly if the
/// counts agree, and its failure carries both counts.
pub proof fn lemma_describe_validate_arity(arg_count: nat, span: SourceSpan, describe: DescribeView)
    ensures
        spec_describe_validate(arg_count, span, Ok(describe)) is Ok <==> arg_count
            == describe.param_types.len(),
        arg_count == describe.param_types.len() ==> spec_describe_validate(
            arg_count,
            span,
            Ok(describe),
        ) == Ok::<DescribeView, DiagnosticView>(describe),
        arg_count != describe.param_types.len() ==> spec_describe_validate(
            arg_count,
            span,
            Ok(describe),
        ) == Err::<DescribeView, DiagnosticView>(
            at(
                DiagnosticKindView::ArgCountMismatch {
                    expected: describe.param_types.len(),
                    actual: arg_count,
                },
                span,
            ),
        ),
{
}

/// A query without result columns never validates against a record, and
/// where the argument count is right the failure is the empty result set;
/// bound to no output, the same query validates exactly if the count is
/// right.
pub proof fn lemma_empty_result_rule(
    describe: DescribeView,
    arg_count: nat,
    record: RecordSpecView,
    checked: bool,
)
    requires
        describe.result_columns.len() == 0,
    ensures
        spec_validate(describe, arg_count, OutputSpecView::NamedRecord(record), checked) is Err,
        arg_count == describe.param_types.len() ==> spec_validate(
            describe,
            arg_count,
            OutputSpecView::NamedRecord(record),
            checked,
        ) == Err::<(), DiagnosticKindView>(DiagnosticKindView::EmptyResultSet),
        spec_validate(describe, arg_count, OutputSpecView::NoOutput, checked) is Ok <==> arg_count
            == describe.param_types.len(),
{
}

/// A site that validates in unchecked mode fails in checked mode exactly if
/// some column's nullability is unknown, and the failure names the first
/// such column.
pub proof fn lemma_checked_validation_is_strict(
    describe: DescribeView,
    arg_count: nat,
    output: OutputSpecView,
)
    requires
        spec_validate(describe, arg_count, output, false) is Ok,
    ensures
        match first_unknown_nullability(describe.result_columns, 0) {
            Some(c) => spec_validate(describe, arg_count, output, true) == Err::<
                (),
                DiagnosticKindView,
            >(DiagnosticKindView::UnknownNullability { column: c }),
            None => spec_validate(describe, arg_count, output, true) is Ok,
        },
{
}

/// A column of unknown nullability is refused in checked mode; in unchecked
/// mode it is decoded as the same column would be if it were known to hold
/// null, which never fails and gives an optional type unless the type's rule
/// keeps it bare.
pub proof fn lemma_unknown_nullability_by_mode(
    column: ColumnView,
    index: nat,
    field: Option<Seq<char>>,
    table: Map<Seq<char>, TypeRuleView>,
)
    requires
        column.nullable is None,
    ensures
        spec_column_step(column, index, field, table, true) == Err::<
            StepOutcome,
            DiagnosticKindView,
        >(DiagnosticKindView::UnknownNullability { column: index }),
        spec_column_step(column, index, field, table, false) == spec_column_step(
            ColumnView { nullable: Some(true), ..column },
            index,
            field,
            table,
            false,
        ),
        spec_column_step(column, index, field, table, false) matches Ok(made) && (
        made.step.target.optional <==> !(table.dom().contains(column.type_id)
            && table[column.type_id].nullable_rule == NullableRule::Bare)),
{
}

/// A record field is filled from a column that carries the field's name,
/// wherever that column stands, and generation fails with the missing field
/// exactly if no column carries the name.
pub proof fn lemma_field_decodes_by_name(
    field: Seq<char>,
    columns: Seq<ColumnView>,
    overrides: Seq<FieldOverrideView>,
    table: Map<Seq<char>, TypeRuleView>,
    checked: bool,
)
    ensures
        spec_field_step(field, columns, overrides, table, checked) matches Ok(made) ==> {
            &&& made.step.field == Some(field)
            &&& made.step.column < columns.len()
            &&& columns[made.step.column as int].name == Some(field)
        },
        spec_field_step(field, columns, overrides, table, checked) == Err::<
            StepOutcome,
            DiagnosticKindView,
        >(DiagnosticKindView::FieldNotFound { field }) <==> forall|i: int|
            0 <= i < columns.len() ==> (#[trigger] columns[i]).name != Some(field),
{
    lemma_found_column_in_range(columns, field, 0);
}

/// What a field is decoded as depends on the column of its name and not on
/// where the column stands: two results in which that column is the same,
/// at whatever indices, give the field the same type and the same warning,
/// and fail together.
pub proof fn lemma_column_position_does_not_matter(
    field: Seq<char>,
    here: Seq<ColumnView>,
    there: Seq<ColumnView>,
    overrides: Seq<FieldOverrideView>,
    table: Map<Seq<char>, TypeRuleView>,
    checked: bool,
)
    requires
        find_column(here, field, 0) matches Some(i) && find_column(there, field, 0) matches Some(j)
            && here[i as int] == there[j as int],
    ensures
        match spec_field_step(field, here, overrides, table, checked) {
            Ok(a) => spec_field_step(field, there, overrides, table, checked) matches Ok(b) && a.warning
                == b.warning && a.step.field == b.step.field && a.step.target == b.step.target,
            Err(_) => spec_field_step(field, there, overrides, table, checked) is Err,
        },
{
}

/// Adding a column at the end does not change which column a name finds,
/// where it found one.
proof fn lemma_find_column_ignores_later(
    columns: Seq<ColumnView>,
    extra: ColumnView,
    name: Seq<char>,
    from: nat,
)
    requires
        find_column(columns, name, from) is Some,
    ensures
        find_column(columns.push(extra), name, from) == find_column(columns, name, from),
    decreases columns.len() - from,
{
    if from < columns.len() && columns[from as int].name != Some(name) {
        lemma_find_column_ignores_later(columns, extra, name, from + 1);
    }
}

/// A column that no field asks for is ignored: where the record steps can
/// be made from a result, one more column at its end changes nothing.
pub proof fn lemma_extra_column_is_ignored(
    fields: Seq<Seq<char>>,
    columns: Seq<ColumnView>,
    extra: ColumnView,
    overrides: Seq<FieldOverrideView>,
    table: Map<Seq<char>, TypeRuleView>,
    checked: bool,
    n: nat,
)
    requires
        spec_record_prefix(fields, columns, overrides, table, checked, n) is Ok,
    ensures
        spec_record_prefix(fields, columns.push(extra), overrides, table, checked, n)
            == spec_record_prefix(fields, columns, overrides, table, checked, n),
    decreases n,
{
    if n > 0 {
        lemma_extra_column_is_ignored(
            fields,
            columns,
            extra,
            overrides,
            table,
            checked,
            (n - 1) as nat,
        );
        let field = fields[n - 1];
        lemma_found_column_in_range(columns, field, 0);
        lemma_find_column_ignores_later(columns, extra, field, 0);
    }
}

/// Record decoding has one step per declared field, whatever the number of
/// columns.
pub proof fn lemma_record_has_a_step_per_field(
    fields: Seq<Seq<char>>,
    columns: Seq<ColumnView>,
    overrides: Seq<FieldOverrideView>,
    table: Map<Seq<char>, TypeRuleView>,
    checked: bool,
    n: nat,
)
    ensures
        spec_record_prefix(fields, columns, overrides, table, checked, n) matches Ok(made)
            ==> made.steps.len() == n,
    decreases n,
{
    if n > 0 {
        lemma_record_has_a_step_per_field(fields, columns, overrides, table, checked, (n - 1) as nat);
    }
}

/// Tuple decoding has one step per column, and step `i` reads column `i`.
pub proof fn lemma_tuple_has_a_step_per_column(
    columns: Seq<ColumnView>,
    table: Map<Seq<char>, TypeRuleView>,
    checked: bool,
    n: nat,
)
    ensures
        spec_tuple_prefix(columns, table, checked, n) matches Ok(made) ==> {
            &&& made.steps.len() == n
            &&& forall|i: int| 0 <= i < n ==> (#[trigger] made.steps[i]).column == i
        },
    decreases n,
{
    if n > 0 {
        lemma_tuple_has_a_step_per_column(columns, table, checked, (n - 1) as nat);
    }
}

} // verus!
