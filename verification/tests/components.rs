use query_macros::args::generate_arg_encoding;
use query_macros::describe::{find_column_index, Column, Describe, TypeId};
use query_macros::diagnostic::{attach_span, Diagnostic, DiagnosticKind};
use query_macros::input::{ArgSpec, FieldOverride, OutputSpec, RecordSpec};
use query_macros::mapping::{BaseType, Mapped, NullableRule, TargetType, TypeMapping};
use query_macros::output::{
    columns_to_rust, decode_column, decode_field, effective_nullable, fields_to_rust,
    find_override_index, generate_output_decoding, DecodeStep, DecodingCode,
};
use query_macros::span::SourceSpan;
use query_macros::text::{append_decimal, render_decimal};
use query_macros::validate::{find_unknown_nullability, validate};
use query_macros::generate_binding;

fn types() -> TypeMapping {
    let mut table = TypeMapping::new();
    table.register("INT4", "i32", NullableRule::Wrap);
    table.register("TEXT", "String", NullableRule::Wrap);
    table.register("JSON", "JsonValue", NullableRule::Bare);
    table
}

fn column(name: &str, type_id: &str, nullable: Option<bool>) -> Column {
    Column { name: Some(name.to_string()), type_id: TypeId::new(type_id), nullable }
}

fn describe_of(params: &[&str], columns: Vec<Column>) -> Describe {
    Describe {
        param_types: params.iter().map(|p| TypeId::new(p)).collect(),
        result_columns: columns,
    }
}

fn args_of(names: &[&str]) -> Vec<ArgSpec> {
    names.iter().enumerate().map(|(i, a)| ArgSpec::new(a, i)).collect()
}

fn record(fields: &[&str], overrides: Vec<FieldOverride>) -> RecordSpec {
    RecordSpec {
        type_reference: "Row".to_string(),
        fields: fields.iter().map(|f| f.to_string()).collect(),
        field_overrides: overrides,
    }
}

fn named(name: &str, optional: bool) -> TargetType {
    TargetType { base: BaseType::Named(name.to_string()), optional }
}

fn fixed(column: &str, target: TargetType) -> FieldOverride {
    FieldOverride { column: column.to_string(), target }
}

#[test]
fn validation_succeeds_exactly_when_the_counts_agree() {
    let names = ["a", "b", "c", "d", "e"];
    for n in 0..5usize {
        for m in 0..5usize {
            let params: Vec<&str> = (0..n).map(|_| "INT4").collect();
            let described = describe_of(&params, vec![column("id", "INT4", Some(false))]);
            let verdict = validate(&described, &args_of(&names[..m]), &OutputSpec::Tuple, true);
            if n == m {
                assert_eq!(verdict, Ok(()));
            } else {
                assert_eq!(
                    verdict,
                    Err(DiagnosticKind::ArgCountMismatch { expected: n, actual: m })
                );
            }
        }
    }
}

#[test]
fn empty_result_fails_for_a_record_and_passes_for_no_output() {
    let described = describe_of(&["INT4"], Vec::new());
    let args = args_of(&["a"]);
    assert_eq!(
        validate(&described, &args, &OutputSpec::NamedRecord(record(&["id"], Vec::new())), true),
        Err(DiagnosticKind::EmptyResultSet)
    );
    assert_eq!(
        validate(&described, &args, &OutputSpec::NamedRecord(record(&[], Vec::new())), false),
        Err(DiagnosticKind::EmptyResultSet)
    );
    assert_eq!(validate(&described, &args, &OutputSpec::NoOutput, true), Ok(()));
    assert_eq!(validate(&described, &args, &OutputSpec::Tuple, true), Ok(()));
}

#[test]
fn validation_reports_the_first_broken_rule() {
    let unknown = vec![column("id", "INT4", None)];
    let overrides = vec![fixed("ghost", named("u8", false))];
    let with_override = OutputSpec::NamedRecord(record(&["id"], overrides));
    assert_eq!(
        validate(&describe_of(&["INT4"], Vec::new()), &args_of(&[]), &with_override, true),
        Err(DiagnosticKind::ArgCountMismatch { expected: 1, actual: 0 })
    );
    assert_eq!(
        validate(&describe_of(&[], Vec::new()), &args_of(&[]), &with_override, true),
        Err(DiagnosticKind::EmptyResultSet)
    );
    assert_eq!(
        validate(&describe_of(&[], unknown), &args_of(&[]), &with_override, true),
        Err(DiagnosticKind::UnknownColumnOverride { name: "ghost".to_string() })
    );
    let unknown = vec![column("id", "INT4", Some(true)), column("n", "INT4", None)];
    assert_eq!(
        validate(
            &describe_of(&[], unknown),
            &args_of(&[]),
            &OutputSpec::NamedRecord(record(&["id"], Vec::new())),
            true
        ),
        Err(DiagnosticKind::UnknownNullability { column: 1 })
    );
}

#[test]
fn unknown_nullability_fails_checked_and_defaults_to_nullable_unchecked() {
    let described = describe_of(&[], vec![column("id", "INT4", None)]);
    assert_eq!(
        validate(&described, &args_of(&[]), &OutputSpec::Tuple, true),
        Err(DiagnosticKind::UnknownNullability { column: 0 })
    );
    assert_eq!(validate(&described, &args_of(&[]), &OutputSpec::Tuple, false), Ok(()));
    assert_eq!(find_unknown_nullability(&described.result_columns), Some(0));
    assert_eq!(
        generate_output_decoding(&described.result_columns, &OutputSpec::Tuple, &types(), true)
            .unwrap_err(),
        DiagnosticKind::UnknownNullability { column: 0 }
    );
    let unchecked =
        generate_output_decoding(&described.result_columns, &OutputSpec::Tuple, &types(), false)
            .unwrap();
    assert_eq!(
        unchecked.code,
        DecodingCode::Tuple(vec![DecodeStep { column: 0, field: None, target: named("i32", true) }])
    );
    assert!(unchecked.warnings.is_empty());
    assert!(effective_nullable(None));
    assert!(effective_nullable(Some(true)));
    assert!(!effective_nullable(Some(false)));
}

#[test]
fn encoding_follows_the_order_of_the_call() {
    let args = vec![
        ArgSpec { name: "c".to_string(), position: 2, expression: "c + 1".to_string() },
        ArgSpec { name: "a".to_string(), position: 0, expression: "a".to_string() },
        ArgSpec { name: "b".to_string(), position: 1, expression: "b.len()".to_string() },
    ];
    let params = vec![TypeId::new("TEXT"), TypeId::new("INT4"), TypeId::new("JSON")];
    let code = generate_arg_encoding(&args, &params, &types(), false).unwrap();
    assert_eq!(code.steps.len(), 3);
    for i in 0..3 {
        assert_eq!(code.steps[i].argument, args[i]);
        assert_eq!(code.steps[i].param_type, params[i]);
        assert_eq!(code.steps[i].constraint, None);
    }
    let checked = generate_arg_encoding(&args, &params, &types(), true).unwrap();
    assert_eq!(checked.steps[0].constraint, Some(named("String", false)));
    assert_eq!(checked.steps[1].constraint, Some(named("i32", false)));
    assert_eq!(checked.steps[2].constraint, Some(named("JsonValue", false)));
    assert_eq!(checked.steps[0].argument.expression, "c + 1");
}

#[test]
fn encoding_refuses_unequal_counts_and_unmapped_parameters() {
    let params = vec![TypeId::new("INT4"), TypeId::new("POINT")];
    assert_eq!(
        generate_arg_encoding(&args_of(&["a"]), &params, &types(), false).unwrap_err(),
        DiagnosticKind::ArgCountMismatch { expected: 2, actual: 1 }
    );
    assert_eq!(
        generate_arg_encoding(&args_of(&["a", "b"]), &params, &types(), true).unwrap_err(),
        DiagnosticKind::UnsupportedType { type_id: "POINT".to_string() }
    );
    let unchecked = generate_arg_encoding(&args_of(&["a", "b"]), &params, &types(), false).unwrap();
    assert_eq!(unchecked.steps.len(), 2);
    let none = generate_arg_encoding(&Vec::new(), &Vec::new(), &types(), true).unwrap();
    assert!(none.steps.is_empty());
}

#[test]
fn mapping_wraps_nullable_values_as_the_rule_says() {
    let table = types();
    assert_eq!(
        table.map(&TypeId::new("INT4"), false, true),
        Ok(Mapped { target: named("i32", false), warning: None })
    );
    assert_eq!(
        table.map(&TypeId::new("INT4"), true, true),
        Ok(Mapped { target: named("i32", true), warning: None })
    );
    assert_eq!(
        table.map(&TypeId::new("JSON"), true, false),
        Ok(Mapped { target: named("JsonValue", false), warning: None })
    );
    assert_eq!(
        table.map(&TypeId::new("UUID"), true, true),
        Err(DiagnosticKind::UnsupportedType { type_id: "UUID".to_string() })
    );
    assert_eq!(
        table.map(&TypeId::new("UUID"), false, false),
        Ok(Mapped {
            target: TargetType { base: BaseType::RawBytes, optional: false },
            warning: Some(DiagnosticKind::UnsupportedType { type_id: "UUID".to_string() }),
        })
    );
    assert_eq!(TargetType::named("i32"), named("i32", false));
    assert_eq!(TargetType::optional("i32"), named("i32", true));
}

#[test]
fn later_registration_replaces_an_earlier_one() {
    let mut table = TypeMapping::new();
    assert!(table.lookup(&TypeId::new("INT4")).is_none());
    table.register("INT4", "i32", NullableRule::Wrap);
    table.register("TEXT", "String", NullableRule::Wrap);
    table.register("INT4", "i64", NullableRule::Bare);
    let rule = table.lookup(&TypeId::new("INT4")).unwrap();
    assert_eq!(rule.target, "i64");
    assert_eq!(rule.nullable_rule, NullableRule::Bare);
    assert_eq!(table.lookup(&TypeId::new("TEXT")).unwrap().target, "String");
    assert!(table.lookup(&TypeId::new("int4")).is_none());
}

#[test]
fn record_field_takes_the_column_of_its_name_wherever_it_stands() {
    let first = vec![column("id", "INT4", Some(false)), column("name", "TEXT", Some(true))];
    let second = vec![column("name", "TEXT", Some(true)), column("id", "INT4", Some(false))];
    let spec = record(&["id"], Vec::new());
    let a = fields_to_rust(&spec, &first, &types(), true).unwrap();
    let b = fields_to_rust(&spec, &second, &types(), true).unwrap();
    assert_eq!(
        a.steps,
        vec![DecodeStep { column: 0, field: Some("id".to_string()), target: named("i32", false) }]
    );
    assert_eq!(
        b.steps,
        vec![DecodeStep { column: 1, field: Some("id".to_string()), target: named("i32", false) }]
    );
    assert_eq!(find_column_index(&second, &"id".to_string()), Some(1));
    assert_eq!(find_column_index(&second, &"age".to_string()), None);
}

#[test]
fn field_without_a_column_fails_and_extra_columns_are_ignored() {
    let columns = vec![column("id", "INT4", Some(false))];
    let failure = generate_output_decoding(
        &columns,
        &OutputSpec::NamedRecord(record(&["id", "name"], Vec::new())),
        &types(),
        true,
    )
    .unwrap_err();
    assert_eq!(failure, DiagnosticKind::FieldNotFound { field: "name".to_string() });
    assert_eq!(failure.message(), "no column for field name");
    let spec = record(&["id"], Vec::new());
    let without = fields_to_rust(&spec, &columns, &types(), true).unwrap();
    let more = vec![
        column("id", "INT4", Some(false)),
        column("extra", "POINT", None),
        Column { name: None, type_id: TypeId::new("TEXT"), nullable: Some(true) },
    ];
    let with = fields_to_rust(&spec, &more, &types(), true).unwrap();
    assert_eq!(with, without);
    assert_eq!(with.steps.len(), 1);
}

#[test]
fn first_of_two_columns_with_one_name_is_taken() {
    let columns = vec![column("v", "TEXT", Some(false)), column("v", "INT4", Some(false))];
    let made =
        decode_field(&"v".to_string(), &columns, &Vec::new(), &types(), true).unwrap();
    assert_eq!(made.step.column, 0);
    assert_eq!(made.step.target, named("String", false));
}

#[test]
fn override_wins_over_the_table() {
    let columns = vec![column("id", "POINT", Some(false)), column("note", "TEXT", Some(true))];
    let overrides = vec![
        fixed("id", named("UserId", false)),
        fixed("id", named("Ignored", false)),
        fixed("note", named("Note", false)),
    ];
    assert_eq!(find_override_index(&overrides, &"id".to_string()), Some(0));
    assert_eq!(find_override_index(&overrides, &"note".to_string()), Some(2));
    assert_eq!(find_override_index(&overrides, &"x".to_string()), None);
    let id = decode_field(&"id".to_string(), &columns, &overrides, &types(), true).unwrap();
    assert_eq!(id.step.target, named("UserId", false));
    assert_eq!(id.warning, None);
    let note = decode_field(&"note".to_string(), &columns, &overrides, &types(), true);
    assert_eq!(note.unwrap_err(), DiagnosticKind::NullabilityMismatch { field: "note".to_string() });
    let note = decode_field(&"note".to_string(), &columns, &overrides, &types(), false).unwrap();
    assert_eq!(note.step.target, named("Note", false));
    let optional = vec![fixed("note", named("Note", true))];
    let note = decode_field(&"note".to_string(), &columns, &optional, &types(), true).unwrap();
    assert_eq!(note.step.target, named("Note", true));
    let unknown = vec![column("note", "TEXT", None)];
    assert_eq!(
        decode_field(&"note".to_string(), &unknown, &optional, &types(), true).unwrap_err(),
        DiagnosticKind::UnknownNullability { column: 0 }
    );
}

#[test]
fn tuple_has_one_step_per_column_in_order() {
    let columns = vec![
        column("a", "TEXT", Some(true)),
        Column { name: None, type_id: TypeId::new("INT4"), nullable: Some(false) },
        column("c", "CIDR", None),
    ];
    let made = columns_to_rust(&columns, &types(), false).unwrap();
    assert_eq!(
        made.steps,
        vec![
            DecodeStep { column: 0, field: None, target: named("String", true) },
            DecodeStep { column: 1, field: None, target: named("i32", false) },
            DecodeStep {
                column: 2,
                field: None,
                target: TargetType { base: BaseType::RawBytes, optional: true }
            },
        ]
    );
    assert_eq!(made.warnings, vec![DiagnosticKind::UnsupportedType { type_id: "CIDR".to_string() }]);
    let empty = columns_to_rust(&Vec::new(), &types(), true).unwrap();
    assert!(empty.steps.is_empty());
    let one = decode_column(&columns[0], 7, Some("f".to_string()), &types(), true).unwrap();
    assert_eq!(
        one.step,
        DecodeStep { column: 7, field: Some("f".to_string()), target: named("String", true) }
    );
}

#[test]
fn no_output_decodes_nothing_whatever_the_columns() {
    let columns = vec![column("a", "POINT", None)];
    let decoding =
        generate_output_decoding(&columns, &OutputSpec::NoOutput, &types(), false).unwrap();
    assert_eq!(decoding.code, DecodingCode::NoOutput);
    assert!(decoding.warnings.is_empty());
}

#[test]
fn binding_stops_at_the_first_failing_stage() {
    let span = SourceSpan::new(4, 4);
    let described = describe_of(&["POINT"], vec![column("id", "UUID", Some(false))]);
    let failure =
        generate_binding(&described, &args_of(&["p"]), &OutputSpec::Tuple, &types(), true, span)
            .unwrap_err();
    assert_eq!(
        failure,
        Diagnostic::new(DiagnosticKind::UnsupportedType { type_id: "POINT".to_string() }, span)
    );
    let unit =
        generate_binding(&described, &args_of(&["p"]), &OutputSpec::Tuple, &types(), false, span)
            .unwrap();
    assert_eq!(
        unit.diagnostics,
        vec![Diagnostic::new(DiagnosticKind::UnsupportedType { type_id: "UUID".to_string() }, span)]
    );
    assert_eq!(
        attach_span(&vec![DiagnosticKind::EmptyResultSet], span),
        vec![Diagnostic::new(DiagnosticKind::EmptyResultSet, span)]
    );
}

#[test]
fn numbers_render_as_decimal_text() {
    assert_eq!(render_decimal(0), "0");
    assert_eq!(render_decimal(7), "7");
    assert_eq!(render_decimal(10), "10");
    assert_eq!(render_decimal(1234567890), "1234567890");
    assert_eq!(render_decimal(usize::MAX), format!("{}", usize::MAX));
    let mut text = "n=".to_string();
    append_decimal(&mut text, 405);
    assert_eq!(text, "n=405");
}

#[test]
fn every_kind_has_its_message() {
    assert_eq!(
        DiagnosticKind::ArgCountMismatch { expected: 12, actual: 0 }.message(),
        "expected 12 parameters, got 0"
    );
    assert_eq!(
        DiagnosticKind::UnknownNullability { column: 3 }.message(),
        "cannot tell if column 3 may be null"
    );
    assert_eq!(
        DiagnosticKind::NullabilityMismatch { field: "note".to_string() }.message(),
        "column may be null but field is not optional: note"
    );
    assert_eq!(
        DiagnosticKind::DescribeFailed { message: "".to_string() }.message(),
        ""
    );
    let kind = DiagnosticKind::UnknownColumnOverride { name: "x".to_string() };
    assert_eq!(kind.clone(), kind);
}
