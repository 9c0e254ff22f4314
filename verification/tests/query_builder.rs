use query_builder::arg_type::{ArgScalarType, ArgType, Arity, DynamicArgType};
use query_builder::chunkable::{Chunkable, Filter, QueryArguments};
use query_builder::column_type::{extract_column_types, ColumnType};
use query_builder::db_query::{DbQuery, Fragment, PlaceholderFormat};
use query_builder::linkage::{ConditionalLink, RelationLinkage};
use query_builder::records::{CreateRecord, CreateRecordDefaultsQuery, Placeholder};
use query_builder::schema::{FieldArity, FieldSelection, RelationField, ScalarField, TypeIdentifier};

fn chunk(s: &str) -> Fragment {
    Fragment::StringChunk { chunk: s.to_string() }
}

fn template(fragments: Vec<Fragment>, args: Vec<i64>) -> DbQuery<i64> {
    DbQuery::TemplateSql {
        fragments,
        args,
        arg_types: vec![],
        placeholder_format: PlaceholderFormat { prefix: "?", has_numbering: false },
        chunkable: Chunkable::Yes,
        column_types: None,
    }
}

#[test]
fn column_type_scalar_mapping() {
    let cases = [
        (TypeIdentifier::String, ColumnType::Text),
        (TypeIdentifier::Int, ColumnType::Int32),
        (TypeIdentifier::BigInt, ColumnType::Int64),
        (TypeIdentifier::Float, ColumnType::Double),
        (TypeIdentifier::Decimal, ColumnType::Numeric),
        (TypeIdentifier::Boolean, ColumnType::Boolean),
        (TypeIdentifier::Enum(3), ColumnType::Enum),
        (TypeIdentifier::UUID, ColumnType::Uuid),
        (TypeIdentifier::Json, ColumnType::Json),
        (TypeIdentifier::DateTime, ColumnType::DateTime),
        (TypeIdentifier::Bytes, ColumnType::Bytes),
    ];
    for (type_id, expected) in cases {
        assert_eq!(ColumnType::from_type_identifier(&type_id, FieldArity::Required), Some(expected));
        assert_eq!(ColumnType::from_type_identifier(&type_id, FieldArity::Optional), Some(expected));
    }
}

#[test]
fn column_type_list_mapping() {
    let cases = [
        (TypeIdentifier::String, ColumnType::TextArray),
        (TypeIdentifier::Int, ColumnType::Int32Array),
        (TypeIdentifier::BigInt, ColumnType::Int64Array),
        (TypeIdentifier::Float, ColumnType::DoubleArray),
        (TypeIdentifier::Decimal, ColumnType::NumericArray),
        (TypeIdentifier::Boolean, ColumnType::BooleanArray),
        (TypeIdentifier::Enum(7), ColumnType::EnumArray),
        (TypeIdentifier::UUID, ColumnType::UuidArray),
        (TypeIdentifier::Json, ColumnType::JsonArray),
        (TypeIdentifier::DateTime, ColumnType::DateTimeArray),
        (TypeIdentifier::Bytes, ColumnType::BytesArray),
    ];
    for (type_id, expected) in cases {
        assert_eq!(ColumnType::from_type_identifier(&type_id, FieldArity::List), Some(expected));
    }
}

#[test]
fn column_type_unmapped_types() {
    for arity in [FieldArity::Required, FieldArity::Optional, FieldArity::List] {
        assert_eq!(ColumnType::from_type_identifier(&TypeIdentifier::Extension(1), arity), None);
        assert_eq!(ColumnType::from_type_identifier(&TypeIdentifier::Unsupported, arity), None);
    }
}

#[test]
fn column_type_codes() {
    assert_eq!(ColumnType::Int32.code(), 0);
    assert_eq!(ColumnType::Text.code(), 7);
    assert_eq!(ColumnType::SqlSet.code(), 14);
    assert_eq!(ColumnType::Uuid.code(), 15);
    assert_eq!(ColumnType::Int32Array.code(), 64);
    assert_eq!(ColumnType::UuidArray.code(), 78);
    assert_eq!(ColumnType::UnknownNumber.code(), 128);
}

#[test]
fn column_type_list_gets_array_code() {
    // The list form of each mapped type is an array type, with a code from 64.
    let types = [
        TypeIdentifier::String,
        TypeIdentifier::Int,
        TypeIdentifier::BigInt,
        TypeIdentifier::Float,
        TypeIdentifier::Decimal,
        TypeIdentifier::Boolean,
        TypeIdentifier::Enum(0),
        TypeIdentifier::UUID,
        TypeIdentifier::Json,
        TypeIdentifier::DateTime,
        TypeIdentifier::Bytes,
    ];
    for type_id in types {
        let scalar = ColumnType::from_type_identifier(&type_id, FieldArity::Required).unwrap();
        let list = ColumnType::from_type_identifier(&type_id, FieldArity::List).unwrap();
        assert!(scalar.code() < 64);
        assert!(list.code() >= 64 && list.code() < 128);
    }
}

#[test]
fn extract_column_types_in_order() {
    let selection = FieldSelection::new(vec![
        (TypeIdentifier::Int, FieldArity::Required),
        (TypeIdentifier::Unsupported, FieldArity::Optional),
        (TypeIdentifier::String, FieldArity::List),
    ]);
    let types = extract_column_types(&selection);
    assert_eq!(types, vec![Some(ColumnType::Int32), None, Some(ColumnType::TextArray)]);
    assert!(extract_column_types(&FieldSelection::new(vec![])).is_empty());
}

#[test]
fn params_of_both_kinds() {
    let raw: DbQuery<i64> = DbQuery::RawSql {
        sql: "SELECT 1".to_string(),
        args: vec![1, 2, 3],
        arg_types: vec![],
        column_types: None,
    };
    assert_eq!(raw.params(), &[1, 2, 3]);
    let tpl = template(vec![chunk("SELECT "), Fragment::Parameter], vec![42]);
    assert_eq!(tpl.params(), &[42]);
}

#[test]
fn raw_sql_is_shown_as_is() {
    let raw: DbQuery<i64> = DbQuery::RawSql {
        sql: "SELECT * FROM \"User\"".to_string(),
        args: vec![],
        arg_types: vec![],
        column_types: Some(vec![Some(ColumnType::Int32)]),
    };
    assert_eq!(raw.to_string(), "SELECT * FROM \"User\"");
}

#[test]
fn template_is_shown_with_numbered_placeholders() {
    let tpl = template(
        vec![
            chunk("SELECT * FROM t WHERE a = "),
            Fragment::Parameter,
            chunk(" AND b IN "),
            Fragment::ParameterTuple,
            chunk(" AND (c, d) IN "),
            Fragment::ParameterTupleList {
                item_prefix: "(".to_string(),
                item_separator: ",".to_string(),
                item_suffix: ")".to_string(),
                group_separator: ",".to_string(),
            },
        ],
        vec![],
    );
    assert_eq!(
        tpl.to_string(),
        "SELECT * FROM t WHERE a = $1 AND b IN [$2] AND (c, d) IN [($3)]"
    );
}

#[test]
fn template_numbering_reaches_two_digits() {
    let mut fragments = vec![];
    for _ in 0..12 {
        fragments.push(Fragment::Parameter);
        fragments.push(chunk(","));
    }
    let shown = template(fragments, vec![]).to_string();
    assert_eq!(shown, "$1,$2,$3,$4,$5,$6,$7,$8,$9,$10,$11,$12,");
}

#[test]
fn empty_template_is_shown_empty() {
    assert_eq!(template(vec![], vec![]).to_string(), "");
}

#[test]
fn placeholder_format_write() {
    let numbered = PlaceholderFormat { prefix: "$", has_numbering: true };
    let plain = PlaceholderFormat { prefix: "?", has_numbering: false };
    let mut out = String::from("x = ");
    let mut number: usize = 9;
    numbered.write(&mut out, &mut number);
    assert_eq!(out, "x = $9");
    assert_eq!(number, 10);
    plain.write(&mut out, &mut number);
    assert_eq!(out, "x = $9?");
    assert_eq!(number, 10);
    numbered.write(&mut out, &mut number);
    assert_eq!(out, "x = $9?$10");
    assert_eq!(number, 11);
}

#[test]
fn arg_type_new_keeps_fields() {
    let t = ArgType::new(Arity::List, ArgScalarType::BigInt, Some("bigint".to_string()));
    assert_eq!(t.arity, Arity::List);
    assert!(matches!(t.scalar_type, ArgScalarType::BigInt));
    assert_eq!(t.db_type.as_deref(), Some("bigint"));
    let single = DynamicArgType::Single { arg_type: ArgType::new(Arity::Scalar, ArgScalarType::Int, None) };
    assert!(matches!(single, DynamicArgType::Single { arg_type: ArgType { arity: Arity::Scalar, .. } }));
}

#[test]
fn chunkable_to_bool() {
    assert!(bool::from(Chunkable::Yes));
    assert!(!bool::from(Chunkable::No));
}

#[test]
fn chunkable_from_query_arguments() {
    let plain = QueryArguments {
        order_by_count: 0,
        has_cursor: false,
        has_unbatchable_filters: false,
        has_unbatchable_ordering: false,
    };
    assert_eq!(Chunkable::from(&plain), Chunkable::Yes);
    assert_eq!(Chunkable::from(&QueryArguments { order_by_count: 2, ..plain }), Chunkable::No);
    assert_eq!(Chunkable::from(&QueryArguments { has_cursor: true, ..plain }), Chunkable::No);
    assert_eq!(Chunkable::from(&QueryArguments { has_unbatchable_filters: true, ..plain }), Chunkable::No);
    assert_eq!(Chunkable::from(&QueryArguments { has_unbatchable_ordering: true, ..plain }), Chunkable::No);
}

#[test]
fn chunkable_from_filter() {
    assert_eq!(Chunkable::from(&Filter::new(true)), Chunkable::Yes);
    assert_eq!(Chunkable::from(&Filter::new(false)), Chunkable::No);
    assert!(bool::from(Chunkable::from(&Filter::new(true))));
    assert!(!bool::from(Chunkable::from(&Filter::new(false))));
}

#[test]
fn conditional_link_roundtrip() {
    let link = ConditionalLink::new(ScalarField::new(5), vec!["a", "b"]);
    assert_eq!(link.field(), &ScalarField::new(5));
    let (field, conditions) = link.into_field_and_conditions();
    assert_eq!(field, ScalarField::new(5));
    assert_eq!(conditions, vec!["a", "b"]);
}

fn posts_field() -> RelationField {
    RelationField::new("PostToUser".to_string(), "User".to_string())
}

#[test]
fn relation_linkage_orders_fields_and_last_link_wins() {
    let links = vec![
        ConditionalLink::new(ScalarField::new(9), vec!["x"]),
        ConditionalLink::new(ScalarField::new(2), vec!["y", "z"]),
        ConditionalLink::new(ScalarField::new(9), vec!["w"]),
    ];
    let linkage = RelationLinkage::new(posts_field(), links);
    assert_eq!(linkage.parent_field().model_name, "User");
    let (parent, conditions) = linkage.into_parent_field_and_conditions();
    assert_eq!(parent.relation_name, "PostToUser");
    assert_eq!(
        conditions,
        vec![(ScalarField::new(2), vec!["y", "z"]), (ScalarField::new(9), vec!["w"])]
    );
}

#[test]
fn relation_linkage_add_condition_appends() {
    let mut linkage = RelationLinkage::new(
        posts_field(),
        vec![ConditionalLink::new(ScalarField::new(4), vec![1])],
    );
    linkage.add_condition(ScalarField::new(4), 2);
    linkage.add_condition(ScalarField::new(1), 3);
    linkage.add_condition(ScalarField::new(4), 5);
    let (_, conditions) = linkage.into_parent_field_and_conditions();
    assert_eq!(conditions, vec![(ScalarField::new(1), vec![3]), (ScalarField::new(4), vec![1, 2, 5])]);
}

#[test]
fn relation_linkage_empty() {
    let linkage: RelationLinkage<u8> = RelationLinkage::new(posts_field(), vec![]);
    let (_, conditions) = linkage.into_parent_field_and_conditions();
    assert!(conditions.is_empty());
}

#[test]
fn relation_linkage_shown_as_relation_at_model() {
    let linkage: RelationLinkage<u8> = RelationLinkage::new(posts_field(), vec![]);
    assert_eq!(linkage.to_string(), "PostToUser@User");
}

#[test]
fn create_record_holds_its_parts() {
    let defaults = CreateRecordDefaultsQuery {
        query: template(vec![chunk("SELECT now()")], vec![]),
        field_placeholders: vec![(ScalarField::new(1), Placeholder { name: "created".to_string() })],
    };
    let record: CreateRecord<i64, &str> = CreateRecord {
        insert_query: template(vec![chunk("INSERT "), Fragment::Parameter], vec![7]),
        select_defaults: Some(defaults),
        last_insert_id_field: Some(ScalarField::new(0)),
        merge_values: vec![("id", 7)],
    };
    assert_eq!(record.insert_query.params(), &[7]);
    assert_eq!(record.select_defaults.unwrap().field_placeholders[0].1.name, "created");
}
