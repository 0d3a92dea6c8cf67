//! The code that decodes a row: one step per tuple element, or one per
//! record field, each field filled from the column that carries its name.

use vstd::prelude::*;
use crate::describe::{
    column_views, find_column, find_column_index, Column, ColumnView,
};
use crate::diagnostic::{DiagnosticKind, DiagnosticKindView};
use crate::input::{
    override_views, string_views, FieldOverride, FieldOverrideView, OutputSpec, OutputSpecView,
    RecordSpec,
};
use crate::mapping::{spec_map, TargetType, TargetTypeView, TypeMapping, TypeRuleView};

verus! {

/// One decoding: read the column at index `column` as `target`.
#[derive(Debug, PartialEq, Eq)]
pub struct DecodeStep {
    pub column: usize,
    /// The record field that takes the value; `None` for a tuple element.
    pub field: Option<String>,
    pub target: TargetType,
}

/// A decoding step as a plain value.
pub struct DecodeStepView {
    pub column: nat,
    pub field: Option<Seq<char>>,
    pub target: TargetTypeView,
}

impl View for DecodeStep {
    type V = DecodeStepView;

    open spec fn view(&self) -> DecodeStepView {
        DecodeStepView {
            column: self.column as nat,
            field: crate::describe::text_of(self.field),
            target: self.target@,
        }
    }
}

/// The views of a sequence of decoding steps.
pub open spec fn step_views(steps: Seq<DecodeStep>) -> Seq<DecodeStepView> {
    steps.map_values(|s: DecodeStep| s@)
}

/// The views of a sequence of diagnostic kinds.
pub open spec fn kind_views(kinds: Seq<DiagnosticKind>) -> Seq<DiagnosticKindView> {
    kinds.map_values(|k: DiagnosticKind| k@)
}

/// The code that decodes one row.
#[derive(Debug, PartialEq, Eq)]
pub enum DecodingCode {
    /// Nothing is decoded.
    NoOutput,
    /// A tuple with one element per step.
    Tuple(Vec<DecodeStep>),
    /// A value of the record type, with one field per step.
    Record { type_reference: String, steps: Vec<DecodeStep> },
}

/// Decoding code as a plain value.
pub enum DecodingCodeView {
    NoOutput,
    Tuple(Seq<DecodeStepView>),
    Record { type_reference: Seq<char>, steps: Seq<DecodeStepView> },
}

impl View for DecodingCode {
    type V = DecodingCodeView;

    open spec fn view(&self) -> DecodingCodeView {
        match *self {
            DecodingCode::NoOutput => DecodingCodeView::NoOutput,
            DecodingCode::Tuple(steps) => DecodingCodeView::Tuple(step_views(steps@)),
            DecodingCode::Record { type_reference, steps } => DecodingCodeView::Record {
                type_reference: type_reference@,
                steps: step_views(steps@),
            },
        }
    }
}

/// Decoding steps with the warnings that came up while they were made.
#[derive(Debug, PartialEq, Eq)]
pub struct DecodeSteps {
    pub steps: Vec<DecodeStep>,
    pub warnings: Vec<DiagnosticKind>,
}

/// Steps and warnings as a plain value.
pub struct DecodeStepsView {
    pub steps: Seq<DecodeStepView>,
    pub warnings: Seq<DiagnosticKindView>,
}

impl View for DecodeSteps {
    type V = DecodeStepsView;

    open spec fn view(&self) -> DecodeStepsView {
        DecodeStepsView { steps: step_views(self.steps@), warnings: kind_views(self.warnings@) }
    }
}

/// Decoding code with the warnings that came up while it was generated.
#[derive(Debug, PartialEq, Eq)]
pub struct Decoding {
    pub code: DecodingCode,
    pub warnings: Vec<DiagnosticKind>,
}

/// Generated decoding as a plain value.
pub struct DecodingView {
    pub code: DecodingCodeView,
    pub warnings: Seq<DiagnosticKindView>,
}

impl View for Decoding {
    type V = DecodingView;

    open spec fn view(&self) -> DecodingView {
        DecodingView { code: self.code@, warnings: kind_views(self.warnings@) }
    }
}

/// One step with the warning that making it raised, if any.
pub struct StepOutcome {
    pub step: DecodeStepView,
    pub warning: Option<DiagnosticKindView>,
}

/// Whether a column is taken to hold null: as the database says, and where
/// it cannot tell, yes.
pub open spec fn spec_effective_nullable(nullable: Option<bool>) -> bool {
    match nullable {
        Some(b) => b,
        None => true,
    }
}

/// The step that reads the column `column`, found at `index`, through the
/// type table.
///
/// Checked mode refuses a column whose nullability is unknown; unchecked
/// mode takes such a column to be nullable.
pub open spec fn spec_column_step(
    column: ColumnView,
    index: nat,
    field: Option<Seq<char>>,
    table: Map<Seq<char>, TypeRuleView>,
    checked: bool,
) -> Result<StepOutcome, DiagnosticKindView> {
    if checked && column.nullable is None {
        Err(DiagnosticKindView::UnknownNullability { column: index })
    } else {
        match spec_map(table, column.type_id, spec_effective_nullable(column.nullable), checked) {
            Ok(mapped) => Ok(
                StepOutcome {
                    step: DecodeStepView { column: index, field, target: mapped.target },
                    warning: mapped.warning,
                },
            ),
            Err(e) => Err(e),
        }
    }
}

/// The index of the first override at or after `from` for the column `name`.
pub open spec fn find_override(overrides: Seq<FieldOverrideView>, name: Seq<char>, from: nat) -> Option<
    nat,
>
    decreases overrides.len() - from,
{
    if from >= overrides.len() {
        None
    } else if overrides[from as int].column == name {
        Some(from)
    } else {
        find_override(overrides, name, from + 1)
    }
}

/// The step that fills the record field `field`.
///
/// The field takes the first column of its name. An override for that name
/// fixes the type and the table is not asked; in checked mode a column that
/// may be null is then refused unless the fixed type is optional.
pub open spec fn spec_field_step(
    field: Seq<char>,
    columns: Seq<ColumnView>,
    overrides: Seq<FieldOverrideView>,
    table: Map<Seq<char>, TypeRuleView>,
    checked: bool,
) -> Result<StepOutcome, DiagnosticKindView> {
    match find_column(columns, field, 0) {
        None => Err(DiagnosticKindView::FieldNotFound { field }),
        Some(c) => match find_override(overrides, field, 0) {
            None => spec_column_step(columns[c as int], c, Some(field), table, checked),
            Some(o) => if checked && columns[c as int].nullable is None {
                Err(DiagnosticKindView::UnknownNullability { column: c })
            } else if checked && spec_effective_nullable(columns[c as int].nullable)
                && !overrides[o as int].target.optional {
                Err(DiagnosticKindView::NullabilityMismatch { field })
            } else {
                Ok(
                    StepOutcome {
                        step: DecodeStepView {
                            column: c,
                            field: Some(field),
                            target: overrides[o as int].target,
                        },
                        warning: None,
                    },
                )
            },
        },
    }
}

/// `so_far` with one more step, and its warning if it has one.
pub open spec fn with_outcome(so_far: DecodeStepsView, outcome: StepOutcome) -> DecodeStepsView {
    DecodeStepsView {
        steps: so_far.steps.push(outcome.step),
        warnings: match outcome.warning {
            Some(w) => so_far.warnings.push(w),
            None => so_far.warnings,
        },
    }
}

/// The tuple steps for the first `n` columns, or the failure of the first
/// column that fails.
pub open spec fn spec_tuple_prefix(
    columns: Seq<ColumnView>,
    table: Map<Seq<char>, TypeRuleView>,
    checked: bool,
    n: nat,
) -> Result<DecodeStepsView, DiagnosticKindView>
    decreases n,
{
    if n == 0 {
        Ok(DecodeStepsView { steps: Seq::empty(), warnings: Seq::empty() })
    } else {
        match spec_tuple_prefix(columns, table, checked, (n - 1) as nat) {
            Err(e) => Err(e),
            Ok(so_far) => match spec_column_step(columns[n - 1], (n - 1) as nat, None, table, checked) {
                Ok(outcome) => Ok(with_outcome(so_far, outcome)),
                Err(e) => Err(e),
            },
        }
    }
}

/// The record steps for the first `n` fields, or the failure of the first
/// field that fails.
pub open spec fn spec_record_prefix(
    fields: Seq<Seq<char>>,
    columns: Seq<ColumnView>,
    overrides: Seq<FieldOverrideView>,
    table: Map<Seq<char>, TypeRuleView>,
    checked: bool,
    n: nat,
) -> Result<DecodeStepsView, DiagnosticKindView>
    decreases n,
{
    if n == 0 {
        Ok(DecodeStepsView { steps: Seq::empty(), warnings: Seq::empty() })
    } else {
        match spec_record_prefix(fields, columns, overrides, table, checked, (n - 1) as nat) {
            Err(e) => Err(e),
            Ok(so_far) => match spec_field_step(fields[n - 1], columns, overrides, table, checked) {
                Ok(outcome) => Ok(with_outcome(so_far, outcome)),
                Err(e) => Err(e),
            },
        }
    }
}

/// The decoding of rows with the columns `columns` into the shape `output`.
pub open spec fn spec_output_decoding(
    columns: Seq<ColumnView>,
    output: OutputSpecView,
    table: Map<Seq<char>, TypeRuleView>,
    checked: bool,
) -> Result<DecodingView, DiagnosticKindView> {
    match output {
        OutputSpecView::NoOutput => Ok(
            DecodingView { code: DecodingCodeView::NoOutput, warnings: Seq::empty() },
        ),
        OutputSpecView::Tuple => match spec_tuple_prefix(columns, table, checked, columns.len()) {
            Ok(made) => Ok(
                DecodingView { code: DecodingCodeView::Tuple(made.steps), warnings: made.warnings },
            ),
            Err(e) => Err(e),
        },
        OutputSpecView::NamedRecord(record) => match spec_record_prefix(
            record.fields,
            columns,
            record.field_overrides,
            table,
            checked,
            record.fields.len(),
        ) {
            Ok(made) => Ok(
                DecodingView {
                    code: DecodingCodeView::Record {
                        type_reference: record.type_reference,
                        steps: made.steps,
                    },
                    warnings: made.warnings,
                },
            ),
            Err(e) => Err(e),
        },
    }
}

/// A failure at some column is the failure of every longer prefix.
pub proof fn lemma_tuple_failure_persists(
    columns: Seq<ColumnView>,
    table: Map<Seq<char>, TypeRuleView>,
    checked: bool,
    k: nat,
    n: nat,
)
    requires
        k <= n,
        spec_tuple_prefix(columns, table, checked, k) is Err,
    ensures
        spec_tuple_prefix(columns, table, checked, n) == spec_tuple_prefix(columns, table, checked, k),
    decreases n,
{
    if k < n {
        lemma_tuple_failure_persists(columns, table, checked, k, (n - 1) as nat);
    }
}

/// A failure at some field is the failure of every longer prefix.
pub proof fn lemma_record_failure_persists(
    fields: Seq<Seq<char>>,
    columns: Seq<ColumnView>,
    overrides: Seq<FieldOverrideView>,
    table: Map<Seq<char>, TypeRuleView>,
    checked: bool,
    k: nat,
    n: nat,
)
    requires
        k <= n,
        spec_record_prefix(fields, columns, overrides, table, checked, k) is Err,
    ensures
        spec_record_prefix(fields, columns, overrides, table, checked, n) == spec_record_prefix(
            fields,
            columns,
            overrides,
            table,
            checked,
            k,
        ),
    decreases n,
{
    if k < n {
        lemma_record_failure_persists(fields, columns, overrides, table, checked, k, (n - 1) as nat);
    }
}

/// A step as generated, with its warning.
#[derive(Debug, PartialEq, Eq)]
pub struct MadeStep {
    pub step: DecodeStep,
    pub warning: Option<DiagnosticKind>,
}

impl View for MadeStep {
    type V = StepOutcome;

    open spec fn view(&self) -> StepOutcome {
        StepOutcome { step: self.step@, warning: crate::mapping::kind_view(self.warning) }
    }
}

/// Whether a column is taken to hold null.
pub fn effective_nullable(nullable: Option<bool>) -> (taken: bool)
    ensures
        taken == spec_effective_nullable(nullable),
{
    match nullable {
        Some(b) => b,
        None => true,
    }
}

/// Makes the step that reads `column`, which stands at `index`, for the
/// record field `field` or, without one, for a tuple element.
pub fn decode_column(
    column: &Column,
    index: usize,
    field: Option<String>,
    types: &TypeMapping,
    checked: bool,
) -> (made: Result<MadeStep, DiagnosticKind>)
    ensures
        match made {
            Ok(m) => spec_column_step(
                column@,
                index as nat,
                crate::describe::text_of(field),
                types@,
                checked,
            ) == Ok::<StepOutcome, DiagnosticKindView>(m@),
            Err(e) => spec_column_step(
                column@,
                index as nat,
                crate::describe::text_of(field),
                types@,
                checked,
            ) == Err::<StepOutcome, DiagnosticKindView>(e@),
        },
{
    if checked && column.nullable.is_none() {
        return Err(DiagnosticKind::UnknownNullability { column: index });
    }
    match types.map(&column.type_id, effective_nullable(column.nullable), checked) {
        Ok(mapped) => Ok(
            MadeStep {
                step: DecodeStep { column: index, field, target: mapped.target },
                warning: mapped.warning,
            },
        ),
        Err(e) => Err(e),
    }
}

/// Finds the first override for the column `name`.
pub fn find_override_index(overrides: &Vec<FieldOverride>, name: &String) -> (found: Option<usize>)
    ensures
        match found {
            Some(i) => find_override(override_views(overrides@), name@, 0) == Some(i as nat) && i
                < overrides.len(),
            None => find_override(override_views(overrides@), name@, 0) is None,
        },
{
    let mut i: usize = 0;
    while i < overrides.len()
        invariant
            i <= overrides.len(),
            find_override(override_views(overrides@), name@, 0) == find_override(
                override_views(overrides@),
                name@,
                i as nat,
            ),
        decreases overrides.len() - i,
    {
        if overrides[i].column == *name {
            return Some(i);
        }
        i += 1;
    }
    None
}

/// Makes the step that fills the record field `field` from `columns`.
pub fn decode_field(
    field: &String,
    columns: &Vec<Column>,
    overrides: &Vec<FieldOverride>,
    types: &TypeMapping,
    checked: bool,
) -> (made: Result<MadeStep, DiagnosticKind>)
    ensures
        match made {
            Ok(m) => spec_field_step(
                field@,
                column_views(columns@),
                override_views(overrides@),
                types@,
                checked,
            ) == Ok::<StepOutcome, DiagnosticKindView>(m@),
            Err(e) => spec_field_step(
                field@,
                column_views(columns@),
                override_views(overrides@),
                types@,
                checked,
            ) == Err::<StepOutcome, DiagnosticKindView>(e@),
        },
{
    let c = match find_column_index(columns, field) {
        Some(c) => c,
        None => {
            return Err(DiagnosticKind::FieldNotFound { field: field.clone() });
        },
    };
    proof {
        lemma_found_column_in_range(column_views(columns@), field@, 0);
    }
    match find_override_index(overrides, field) {
        None => decode_column(&columns[c], c, Some(field.clone()), types, checked),
        Some(o) => {
            if checked && columns[c].nullable.is_none() {
                Err(DiagnosticKind::UnknownNullability { column: c })
            } else if checked && effective_nullable(columns[c].nullable)
                && !overrides[o].target.optional {
                Err(DiagnosticKind::NullabilityMismatch { field: field.clone() })
            } else {
                Ok(
                    MadeStep {
                        step: DecodeStep {
                            column: c,
                            field: Some(field.clone()),
                            target: overrides[o].target.clone(),
                        },
                        warning: None,
                    },
                )
            }
        },
    }
}

/// A column that is found stands at or after the start of the search,
/// inside the sequence, and carries the name; no column before it does.
pub proof fn lemma_found_column_in_range(columns: Seq<ColumnView>, name: Seq<char>, from: nat)
    ensures
        find_column(columns, name, from) matches Some(c) ==> {
            &&& from <= c < columns.len()
            &&& columns[c as int].name == Some(name)
            &&& forall|j: int| from <= j < c ==> (#[trigger] columns[j]).name != Some(name)
        },
        find_column(columns, name, from) is None ==> forall|j: int|
            from <= j < columns.len() ==> (#[trigger] columns[j]).name != Some(name),
    decreases columns.len() - from,
{
    if from < columns.len() && columns[from as int].name != Some(name) {
        lemma_found_column_in_range(columns, name, from + 1);
    }
}

/// Appends a made step and its warning.
fn push_made(steps: &mut Vec<DecodeStep>, warnings: &mut Vec<DiagnosticKind>, made: MadeStep)
    ensures
        (DecodeStepsView { steps: step_views(final(steps)@), warnings: kind_views(final(warnings)@) })
            == with_outcome(
            DecodeStepsView { steps: step_views(old(steps)@), warnings: kind_views(old(warnings)@) },
            made@,
        ),
{
    let MadeStep { step, warning } = made;
    proof {
        assert(step_views(steps@.push(step)) =~= step_views(steps@).push(step@));
    }
    steps.push(step);
    match warning {
        Some(w) => {
            proof {
                assert(kind_views(warnings@.push(w)) =~= kind_views(warnings@).push(w@));
            }
            warnings.push(w);
        },
        None => {},
    }
}

/// Makes the tuple steps for `columns`: one per column, in their order.
pub fn columns_to_rust(columns: &Vec<Column>, types: &TypeMapping, checked: bool) -> (made: Result<
    DecodeSteps,
    DiagnosticKind,
>)
    ensures
        match made {
            Ok(m) => spec_tuple_prefix(column_views(columns@), types@, checked, columns@.len())
                == Ok::<DecodeStepsView, DiagnosticKindView>(m@),
            Err(e) => spec_tuple_prefix(column_views(columns@), types@, checked, columns@.len())
                == Err::<DecodeStepsView, DiagnosticKindView>(e@),
        },
{
    let ghost cols = column_views(columns@);
    let mut steps: Vec<DecodeStep> = Vec::new();
    let mut warnings: Vec<DiagnosticKind> = Vec::new();
    let mut i: usize = 0;
    assert(step_views(steps@) =~= Seq::<DecodeStepView>::empty());
    assert(kind_views(warnings@) =~= Seq::<DiagnosticKindView>::empty());
    while i < columns.len()
        invariant
            i <= columns.len(),
            cols == column_views(columns@),
            spec_tuple_prefix(cols, types@, checked, i as nat) == Ok::<
                DecodeStepsView,
                DiagnosticKindView,
            >(DecodeStepsView { steps: step_views(steps@), warnings: kind_views(warnings@) }),
        decreases columns.len() - i,
    {
        match decode_column(&columns[i], i, None, types, checked) {
            Ok(made) => {
                push_made(&mut steps, &mut warnings, made);
            },
            Err(e) => {
                proof {
                    lemma_tuple_failure_persists(
                        cols,
                        types@,
                        checked,
                        (i + 1) as nat,
                        columns.len() as nat,
                    );
                }
                return Err(e);
            },
        }
        i += 1;
    }
    Ok(DecodeSteps { steps, warnings })
}

/// Makes the record steps for `record`: one per declared field, in the
/// order of the declaration.
pub fn fields_to_rust(record: &RecordSpec, columns: &Vec<Column>, types: &TypeMapping, checked: bool) -> (made:
    Result<DecodeSteps, DiagnosticKind>)
    ensures
        match made {
            Ok(m) => spec_record_prefix(
                record@.fields,
                column_views(columns@),
                record@.field_overrides,
                types@,
                checked,
                record@.fields.len(),
            ) == Ok::<DecodeStepsView, DiagnosticKindView>(m@),
            Err(e) => spec_record_prefix(
                record@.fields,
                column_views(columns@),
                record@.field_overrides,
                types@,
                checked,
                record@.fields.len(),
            ) == Err::<DecodeStepsView, DiagnosticKindView>(e@),
        },
{
    let ghost fields = string_views(record.fields@);
    let ghost cols = column_views(columns@);
    let ghost overrides = override_views(record.field_overrides@);
    let mut steps: Vec<DecodeStep> = Vec::new();
    let mut warnings: Vec<DiagnosticKind> = Vec::new();
    let mut i: usize = 0;
    assert(step_views(steps@) =~= Seq::<DecodeStepView>::empty());
    assert(kind_views(warnings@) =~= Seq::<DiagnosticKindView>::empty());
    while i < record.fields.len()
        invariant
            i <= record.fields.len(),
            fields == string_views(record.fields@),
            cols == column_views(columns@),
            overrides == override_views(record.field_overrides@),
            spec_record_prefix(fields, cols, overrides, types@, checked, i as nat) == Ok::<
                DecodeStepsView,
                DiagnosticKindView,
            >(DecodeStepsView { steps: step_views(steps@), warnings: kind_views(warnings@) }),
        decreases record.fields.len() - i,
    {
        match decode_field(&record.fields[i], columns, &record.field_overrides, types, checked) {
            Ok(made) => {
                push_made(&mut steps, &mut warnings, made);
            },
            Err(e) => {
                proof {
                    lemma_record_failure_persists(
                        fields,
                        cols,
                        overrides,
                        types@,
                        checked,
                        (i + 1) as nat,
                        record.fields.len() as nat,
                    );
                }
                return Err(e);
            },
        }
        i += 1;
    }
    Ok(DecodeSteps { steps, warnings })
}

/// Generates the code that decodes rows with the columns `columns` into the
/// shape `output`.
pub fn generate_output_decoding(
    columns: &Vec<Column>,
    output: &OutputSpec,
    types: &TypeMapping,
    checked: bool,
) -> (decoding: Result<Decoding, DiagnosticKind>)
    ensures
        match decoding {
            Ok(d) => spec_output_decoding(column_views(columns@), output@, types@, checked) == Ok::<
                DecodingView,
                DiagnosticKindView,
            >(d@),
            Err(e) => spec_output_decoding(column_views(columns@), output@, types@, checked)
                == Err::<DecodingView, DiagnosticKindView>(e@),
        },
{
    match output {
        OutputSpec::NoOutput => {
            let warnings: Vec<DiagnosticKind> = Vec::new();
            assert(kind_views(warnings@) =~= Seq::<DiagnosticKindView>::empty());
            Ok(Decoding { code: DecodingCode::NoOutput, warnings })
        },
        OutputSpec::Tuple => match columns_to_rust(columns, types, checked) {
            Ok(made) => Ok(Decoding { code: DecodingCode::Tuple(made.steps), warnings: made.warnings }),
            Err(e) => Err(e),
        },
        OutputSpec::NamedRecord(record) => match fields_to_rust(record, columns, types, checked) {
            Ok(made) => Ok(
                Decoding {
                    code: DecodingCode::Record {
                        type_reference: record.type_reference.clone(),
                        steps: made.steps,
                    },
                    warnings: made.warnings,
                },
            ),
            Err(e) => Err(e),
        },
    }
}

} // verus!
