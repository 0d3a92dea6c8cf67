use query_macros::describe::{Column, Describe, TypeId};
use query_macros::diagnostic::{Diagnostic, DiagnosticKind};
use query_macros::input::{
    ArgSpec, FieldOverride, QueryAsMacroInput, QueryMacroInput, QueryOrigin, ReadOutcome,
    RecordSpec,
};
use query_macros::mapping::{BaseType, NullableRule, TargetType, TypeMapping};
use query_macros::output::{DecodeStep, DecodingCode};
use query_macros::span::SourceSpan;
use query_macros::{
    describe_validate, expand_input, expand_query, expand_query_as, expand_query_file,
    expand_query_file_as, resolve,
};

fn types() -> TypeMapping {
    let mut table = TypeMapping::new();
    table.register("INT4", "i32", NullableRule::Wrap);
    table.register("TEXT", "String", NullableRule::Wrap);
    table
}

fn column(name: &str, type_id: &str, nullable: Option<bool>) -> Column {
    Column { name: Some(name.to_string()), type_id: TypeId::new(type_id), nullable }
}

fn describe_of(params: &[&str], columns: Vec<Column>) -> Describe {
    Describe {
        param_types: params.iter().map(|p| TypeId::new(p)).collect(),
        result_columns: columns,
    }
}

fn id_query() -> Describe {
    describe_of(&["INT4", "TEXT"], vec![column("id", "INT4", Some(false))])
}

fn site(args: &[&str]) -> QueryMacroInput {
    QueryMacroInput {
        src: QueryOrigin::Literal("select id from users where id = $1 and name = $2".to_string()),
        src_span: SourceSpan::new(12, 5),
        args: args.iter().enumerate().map(|(i, a)| ArgSpec::new(a, i)).collect(),
    }
}

fn file_site(args: &[&str]) -> QueryMacroInput {
    QueryMacroInput {
        src: QueryOrigin::FileRef("queries/user.sql".to_string()),
        src_span: SourceSpan::new(3, 9),
        args: args.iter().enumerate().map(|(i, a)| ArgSpec::new(a, i)).collect(),
    }
}

fn record(fields: &[&str]) -> RecordSpec {
    RecordSpec {
        type_reference: "User".to_string(),
        fields: fields.iter().map(|f| f.to_string()).collect(),
        field_overrides: Vec::new(),
    }
}

fn record_site(args: &[&str], fields: &[&str]) -> QueryAsMacroInput {
    QueryAsMacroInput { as_ty: record(fields), query_input: site(args) }
}

fn named(name: &str, optional: bool) -> TargetType {
    TargetType { base: BaseType::Named(name.to_string()), optional }
}

#[test]
fn tuple_binding_for_two_parameters_and_one_column() {
    let unit = expand_query(&site(&["id_val", "name_val"]), Ok(id_query()), &types(), true)
        .expect("the counts agree and every type is mapped");
    assert_eq!(
        unit.output_decoding_code,
        DecodingCode::Tuple(vec![DecodeStep { column: 0, field: None, target: named("i32", false) }])
    );
    assert_eq!(unit.arg_encoding_code.steps.len(), 2);
    assert_eq!(unit.arg_encoding_code.steps[0].argument, ArgSpec::new("id_val", 0));
    assert_eq!(unit.arg_encoding_code.steps[0].param_type, TypeId::new("INT4"));
    assert_eq!(unit.arg_encoding_code.steps[0].constraint, Some(named("i32", false)));
    assert_eq!(unit.arg_encoding_code.steps[1].argument, ArgSpec::new("name_val", 1));
    assert_eq!(unit.arg_encoding_code.steps[1].param_type, TypeId::new("TEXT"));
    assert_eq!(unit.arg_encoding_code.steps[1].constraint, Some(named("String", false)));
    assert!(unit.diagnostics.is_empty());
}

#[test]
fn one_argument_for_two_parameters_is_an_arity_mismatch() {
    let failure = expand_query(&site(&["id_val"]), Ok(id_query()), &types(), true).unwrap_err();
    assert_eq!(
        failure,
        Diagnostic::new(
            DiagnosticKind::ArgCountMismatch { expected: 2, actual: 1 },
            SourceSpan::new(12, 5)
        )
    );
    assert_eq!(failure.message(), "expected 2 parameters, got 1");
}

#[test]
fn record_from_a_query_without_columns_is_refused() {
    let failure = expand_query_as(
        record_site(&[], &["id"]),
        Ok(describe_of(&[], Vec::new())),
        &types(),
        true,
    )
    .unwrap_err();
    assert_eq!(failure.kind, DiagnosticKind::EmptyResultSet);
    assert_eq!(failure.span, SourceSpan::new(12, 5));
    assert_eq!(failure.message(), "query must output at least one column");
}

#[test]
fn plain_query_without_columns_decodes_nothing() {
    let unit = expand_query(&site(&["a"]), Ok(describe_of(&["INT4"], Vec::new())), &types(), true)
        .expect("a statement run for its effect needs no column");
    assert_eq!(unit.output_decoding_code, DecodingCode::NoOutput);
    assert_eq!(unit.arg_encoding_code.steps.len(), 1);
}

#[test]
fn record_binding_fills_fields_by_name() {
    let described = describe_of(
        &[],
        vec![
            column("name", "TEXT", Some(true)),
            column("unused", "INT4", Some(false)),
            column("id", "INT4", Some(false)),
        ],
    );
    let unit = expand_query_as(record_site(&[], &["id", "name"]), Ok(described), &types(), true)
        .expect("both fields have a column");
    assert_eq!(
        unit.output_decoding_code,
        DecodingCode::Record {
            type_reference: "User".to_string(),
            steps: vec![
                DecodeStep { column: 2, field: Some("id".to_string()), target: named("i32", false) },
                DecodeStep {
                    column: 0,
                    field: Some("name".to_string()),
                    target: named("String", true)
                },
            ],
        }
    );
}

#[test]
fn describe_failure_keeps_the_database_message() {
    let input = site(&["a"]);
    let failure =
        describe_validate(&input, Err("relation \"users\" does not exist".to_string())).unwrap_err();
    assert_eq!(
        failure.kind,
        DiagnosticKind::DescribeFailed { message: "relation \"users\" does not exist".to_string() }
    );
    assert_eq!(failure.span, SourceSpan::new(12, 5));
    assert_eq!(failure.message(), "relation \"users\" does not exist");
    let through = expand_query(&input, Err("syntax error".to_string()), &types(), false).unwrap_err();
    assert_eq!(through.kind, DiagnosticKind::DescribeFailed { message: "syntax error".to_string() });
}

#[test]
fn describe_reply_is_handed_on_or_wrapped() {
    let span = SourceSpan::new(8, 1);
    assert_eq!(query_macros::expand::describe(span, Ok(id_query())), Ok(id_query()));
    assert_eq!(
        query_macros::expand::describe(span, Err("connection reset".to_string())),
        Err(Diagnostic::new(
            DiagnosticKind::DescribeFailed { message: "connection reset".to_string() },
            span
        ))
    );
}

#[test]
fn describe_validate_hands_the_description_on_unchanged() {
    let described = describe_validate(&site(&["a", "b"]), Ok(id_query())).unwrap();
    assert_eq!(described, id_query());
}

#[test]
fn describe_validate_succeeds_exactly_when_the_counts_agree() {
    let names = ["a", "b", "c", "d"];
    for n in 0..4usize {
        for m in 0..4usize {
            let params: Vec<&str> = (0..n).map(|_| "INT4").collect();
            let outcome = describe_validate(&site(&names[..m]), Ok(describe_of(&params, Vec::new())));
            if n == m {
                assert!(outcome.is_ok());
            } else {
                assert_eq!(
                    outcome.unwrap_err().kind,
                    DiagnosticKind::ArgCountMismatch { expected: n, actual: m }
                );
            }
        }
    }
}

#[test]
fn literal_query_resolves_to_its_own_text() {
    let origin = QueryOrigin::Literal("select 1".to_string());
    let source = resolve(&origin, SourceSpan::new(1, 2), ReadOutcome::NotFound).unwrap();
    assert_eq!(source.text, "select 1");
    assert_eq!(source.location, SourceSpan::new(1, 2));
    assert_eq!(source.origin, origin);
}

#[test]
fn file_query_resolves_to_the_text_of_the_file() {
    let source =
        expand_input(&file_site(&[]), ReadOutcome::Contents("select 2".to_string())).unwrap();
    assert_eq!(source.text, "select 2");
    assert_eq!(source.location, SourceSpan::new(3, 9));
    assert_eq!(source.origin, QueryOrigin::FileRef("queries/user.sql".to_string()));
}

#[test]
fn missing_query_file_is_reported_at_the_site() {
    let failure = expand_input(&file_site(&[]), ReadOutcome::NotFound).unwrap_err();
    assert_eq!(
        failure,
        Diagnostic::new(
            DiagnosticKind::FileNotFound { path: "queries/user.sql".to_string() },
            SourceSpan::new(3, 9)
        )
    );
    assert_eq!(failure.message(), "query file not found: queries/user.sql");
}

#[test]
fn unreadable_query_file_is_reported_with_the_reason() {
    let failure =
        expand_input(&file_site(&[]), ReadOutcome::Failed("permission denied".to_string()))
            .unwrap_err();
    assert_eq!(
        failure.kind,
        DiagnosticKind::IoError {
            path: "queries/user.sql".to_string(),
            message: "permission denied".to_string()
        }
    );
    assert_eq!(failure.message(), "cannot read query file queries/user.sql: permission denied");
}

#[test]
fn file_query_that_cannot_be_read_fails_before_the_reply_counts() {
    let failure = expand_query_file(
        &file_site(&["a"]),
        ReadOutcome::NotFound,
        Ok(id_query()),
        &types(),
        true,
    )
    .unwrap_err();
    assert_eq!(failure.kind, DiagnosticKind::FileNotFound { path: "queries/user.sql".to_string() });
    let as_record = expand_query_file_as(
        QueryAsMacroInput { as_ty: record(&["id"]), query_input: file_site(&[]) },
        ReadOutcome::Failed("busy".to_string()),
        Err("never asked".to_string()),
        &types(),
        true,
    )
    .unwrap_err();
    assert_eq!(
        as_record.kind,
        DiagnosticKind::IoError { path: "queries/user.sql".to_string(), message: "busy".to_string() }
    );
}

#[test]
fn file_query_expands_as_the_literal_query_does() {
    let from_file = expand_query_file(
        &file_site(&["a", "b"]),
        ReadOutcome::Contents("select id from users".to_string()),
        Ok(id_query()),
        &types(),
        true,
    )
    .unwrap();
    let literal = expand_query(&file_site(&["a", "b"]), Ok(id_query()), &types(), true).unwrap();
    assert_eq!(from_file, literal);
    let record_from_file = expand_query_file_as(
        QueryAsMacroInput { as_ty: record(&["id"]), query_input: file_site(&["a", "b"]) },
        ReadOutcome::Contents("select id from users".to_string()),
        Ok(id_query()),
        &types(),
        true,
    )
    .unwrap();
    let record_literal = expand_query_as(
        QueryAsMacroInput { as_ty: record(&["id"]), query_input: file_site(&["a", "b"]) },
        Ok(id_query()),
        &types(),
        true,
    )
    .unwrap();
    assert_eq!(record_from_file, record_literal);
    assert_eq!(
        record_literal.output_decoding_code,
        DecodingCode::Record {
            type_reference: "User".to_string(),
            steps: vec![DecodeStep {
                column: 0,
                field: Some("id".to_string()),
                target: named("i32", false)
            }],
        }
    );
}

#[test]
fn unmapped_column_falls_back_to_raw_bytes_with_a_warning_when_unchecked() {
    let described = describe_of(&[], vec![column("shape", "POLYGON", Some(true))]);
    let unit = expand_query(&site(&[]), Ok(described), &types(), false).unwrap();
    assert_eq!(
        unit.output_decoding_code,
        DecodingCode::Tuple(vec![DecodeStep {
            column: 0,
            field: None,
            target: TargetType { base: BaseType::RawBytes, optional: true }
        }])
    );
    assert_eq!(
        unit.diagnostics,
        vec![Diagnostic::new(
            DiagnosticKind::UnsupportedType { type_id: "POLYGON".to_string() },
            SourceSpan::new(12, 5)
        )]
    );
    let described = describe_of(&[], vec![column("shape", "POLYGON", Some(true))]);
    let failure = expand_query(&site(&[]), Ok(described), &types(), true).unwrap_err();
    assert_eq!(failure.kind, DiagnosticKind::UnsupportedType { type_id: "POLYGON".to_string() });
    assert_eq!(failure.message(), "unsupported type POLYGON");
}

#[test]
fn override_for_a_missing_column_is_refused() {
    let mut input = record_site(&[], &["id"]);
    input.as_ty.field_overrides = vec![
        FieldOverride { column: "id".to_string(), target: named("UserId", false) },
        FieldOverride { column: "age".to_string(), target: named("u8", false) },
        FieldOverride { column: "size".to_string(), target: named("u8", false) },
    ];
    let described = describe_of(&[], vec![column("id", "INT4", Some(false))]);
    let failure = expand_query_as(input, Ok(described), &types(), true).unwrap_err();
    assert_eq!(failure.kind, DiagnosticKind::UnknownColumnOverride { name: "age".to_string() });
    assert_eq!(failure.message(), "type override for unknown column age");
}
