//! Checks that what the database reports about a query fits the query site.

use vstd::prelude::*;
use crate::describe::{
    column_views, find_column, find_column_index, first_unknown_nullability, Column, ColumnView,
    Describe, DescribeView,
};
use crate::diagnostic::{DiagnosticKind, DiagnosticKindView};
use crate::input::{
    override_views, ArgSpec, FieldOverride, FieldOverrideView, OutputSpec, OutputSpecView,
};

verus! {

/// The index of the first override at or after `from` whose column the
/// result does not have.
pub open spec fn first_unknown_override(
    overrides: Seq<FieldOverrideView>,
    columns: Seq<ColumnView>,
    from: nat,
) -> Option<nat>
    decreases overrides.len() - from,
{
    if from >= overrides.len() {
        None
    } else if find_column(columns, overrides[from as int].column, 0) is None {
        Some(from)
    } else {
        first_unknown_override(overrides, columns, from + 1)
    }
}

/// The overrides that an output shape carries: those of a record, else none.
pub open spec fn overrides_of(output: OutputSpecView) -> Seq<FieldOverrideView> {
    match output {
        OutputSpecView::NamedRecord(record) => record.field_overrides,
        _ => Seq::empty(),
    }
}

/// The verdict on a query site that passes `arg_count` arguments.
///
/// The rules are tried in this order and the first one broken is reported:
/// the number of arguments is the number of parameters; a record needs at
/// least one column; every override names a column of the result; in checked
/// mode the nullability of every column is known.
pub open spec fn spec_validate(
    describe: DescribeView,
    arg_count: nat,
    output: OutputSpecView,
    checked: bool,
) -> Result<(), DiagnosticKindView> {
    if arg_count != describe.param_types.len() {
        Err(
            DiagnosticKindView::ArgCountMismatch {
                expected: describe.param_types.len(),
                actual: arg_count,
            },
        )
    } else if output is NamedRecord && describe.result_columns.len() == 0 {
        Err(DiagnosticKindView::EmptyResultSet)
    } else if first_unknown_override(overrides_of(output), describe.result_columns, 0) is Some {
        Err(
            DiagnosticKindView::UnknownColumnOverride {
                name: overrides_of(output)[first_unknown_override(
                    overrides_of(output),
                    describe.result_columns,
                    0,
                )->0 as int].column,
            },
        )
    } else if checked && first_unknown_nullability(describe.result_columns, 0) is Some {
        Err(
            DiagnosticKindView::UnknownNullability {
                column: first_unknown_nullability(describe.result_columns, 0)->0,
            },
        )
    } else {
        Ok(())
    }
}

/// Finds the first override whose column is not among `columns`.
fn find_unknown_override(overrides: &Vec<FieldOverride>, columns: &Vec<Column>) -> (found: Option<
    usize,
>)
    ensures
        match found {
            Some(i) => first_unknown_override(
                override_views(overrides@),
                column_views(columns@),
                0,
            ) == Some(i as nat) && i < overrides.len(),
            None => first_unknown_override(override_views(overrides@), column_views(columns@), 0)
                is None,
        },
{
    let mut i: usize = 0;
    while i < overrides.len()
        invariant
            i <= overrides.len(),
            first_unknown_override(override_views(overrides@), column_views(columns@), 0)
                == first_unknown_override(
                override_views(overrides@),
                column_views(columns@),
                i as nat,
            ),
        decreases overrides.len() - i,
    {
        if find_column_index(columns, &overrides[i].column).is_none() {
            return Some(i);
        }
        i += 1;
    }
    None
}

/// Finds the first column whose nullability is unknown.
pub fn find_unknown_nullability(columns: &Vec<Column>) -> (found: Option<usize>)
    ensures
        match found {
            Some(i) => first_unknown_nullability(column_views(columns@), 0) == Some(i as nat),
            None => first_unknown_nullability(column_views(columns@), 0) is None,
        },
{
    let mut i: usize = 0;
    while i < columns.len()
        invariant
            i <= columns.len(),
            first_unknown_nullability(column_views(columns@), 0) == first_unknown_nullability(
                column_views(columns@),
                i as nat,
            ),
        decreases columns.len() - i,
    {
        if columns[i].nullable.is_none() {
            return Some(i);
        }
        i += 1;
    }
    None
}

/// Checks `describe` against the arguments and the output shape of a query
/// site, and reports the first rule that is broken.
pub fn validate(describe: &Describe, args: &Vec<ArgSpec>, output: &OutputSpec, checked: bool) -> (verdict:
    Result<(), DiagnosticKind>)
    ensures
        match verdict {
            Ok(_) => spec_validate(describe@, args@.len(), output@, checked) is Ok,
            Err(e) => spec_validate(describe@, args@.len(), output@, checked) == Err::<
                (),
                DiagnosticKindView,
            >(e@),
        },
{
    if args.len() != describe.param_types.len() {
        return Err(
            DiagnosticKind::ArgCountMismatch {
                expected: describe.param_types.len(),
                actual: args.len(),
            },
        );
    }
    if let OutputSpec::NamedRecord(record) = output {
        if describe.result_columns.len() == 0 {
            return Err(DiagnosticKind::EmptyResultSet);
        }
        if let Some(i) = find_unknown_override(&record.field_overrides, &describe.result_columns) {
            return Err(
                DiagnosticKind::UnknownColumnOverride { name: record.field_overrides[i].column.clone() },
            );
        }
    }
    if checked {
        if let Some(c) = find_unknown_nullability(&describe.result_columns) {
            return Err(DiagnosticKind::UnknownNullability { column: c });
        }
    }
    Ok(())
}

} // verus!
