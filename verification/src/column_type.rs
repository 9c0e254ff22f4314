use vstd::prelude::*;

use crate::schema::{FieldArity, FieldSelection, TypeIdentifier};

verus! {

/// Column type information for driver adapters.
///
/// Each variant has a fixed numeric code (see [`ColumnType::code`]); drivers
/// receive the code, so it must not change. Scalar types take the codes from 0,
/// array types the codes from 64, and custom types the codes from 128.
#[derive(Debug, Clone, Copy, PartialEq, Eq, Structural)]
pub enum ColumnType {
    // Scalars
    Int32,
    Int64,
    Float,
    Double,
    Numeric,
    Boolean,
    Character,
    Text,
    Date,
    Time,
    DateTime,
    Json,
    Enum,
    Bytes,
    /// A column of the SQL `SET` type.
    SqlSet,
    Uuid,
    // Arrays
    Int32Array,
    Int64Array,
    FloatArray,
    DoubleArray,
    NumericArray,
    BooleanArray,
    CharacterArray,
    TextArray,
    DateArray,
    TimeArray,
    DateTimeArray,
    JsonArray,
    EnumArray,
    BytesArray,
    UuidArray,
    // Custom
    UnknownNumber,
}

/// The numeric code of a column type.
pub open spec fn column_type_code(c: ColumnType) -> u8 {
    match c {
        ColumnType::Int32 => 0,
        ColumnType::Int64 => 1,
        ColumnType::Float => 2,
        ColumnType::Double => 3,
        ColumnType::Numeric => 4,
        ColumnType::Boolean => 5,
        ColumnType::Character => 6,
        ColumnType::Text => 7,
        ColumnType::Date => 8,
        ColumnType::Time => 9,
        ColumnType::DateTime => 10,
        ColumnType::Json => 11,
        ColumnType::Enum => 12,
        ColumnType::Bytes => 13,
        ColumnType::SqlSet => 14,
        ColumnType::Uuid => 15,
        ColumnType::Int32Array => 64,
        ColumnType::Int64Array => 65,
        ColumnType::FloatArray => 66,
        ColumnType::DoubleArray => 67,
        ColumnType::NumericArray => 68,
        ColumnType::BooleanArray => 69,
        ColumnType::CharacterArray => 70,
        ColumnType::TextArray => 71,
        ColumnType::DateArray => 72,
        ColumnType::TimeArray => 73,
        ColumnType::DateTimeArray => 74,
        ColumnType::JsonArray => 75,
        ColumnType::EnumArray => 76,
        ColumnType::BytesArray => 77,
        ColumnType::UuidArray => 78,
        ColumnType::UnknownNumber => 128,
    }
}

/// The column type that a numeric code stands for, if any.
pub open spec fn column_type_of_code(code: u8) -> Option<ColumnType> {
    if code == 0 { Some(ColumnType::Int32) }
    else if code == 1 { Some(ColumnType::Int64) }
    else if code == 2 { Some(ColumnType::Float) }
    else if code == 3 { Some(ColumnType::Double) }
    else if code == 4 { Some(ColumnType::Numeric) }
    else if code == 5 { Some(ColumnType::Boolean) }
    else if code == 6 { Some(ColumnType::Character) }
    else if code == 7 { Some(ColumnType::Text) }
    else if code == 8 { Some(ColumnType::Date) }
    else if code == 9 { Some(ColumnType::Time) }
    else if code == 10 { Some(ColumnType::DateTime) }
    else if code == 11 { Some(ColumnType::Json) }
    else if code == 12 { Some(ColumnType::Enum) }
    else if code == 13 { Some(ColumnType::Bytes) }
    else if code == 14 { Some(ColumnType::SqlSet) }
    else if code == 15 { Some(ColumnType::Uuid) }
    else if code == 64 { Some(ColumnType::Int32Array) }
    else if code == 65 { Some(ColumnType::Int64Array) }
    else if code == 66 { Some(ColumnType::FloatArray) }
    else if code == 67 { Some(ColumnType::DoubleArray) }
    else if code == 68 { Some(ColumnType::NumericArray) }
    else if code == 69 { Some(ColumnType::BooleanArray) }
    else if code == 70 { Some(ColumnType::CharacterArray) }
    else if code == 71 { Some(ColumnType::TextArray) }
    else if code == 72 { Some(ColumnType::DateArray) }
    else if code == 73 { Some(ColumnType::TimeArray) }
    else if code == 74 { Some(ColumnType::DateTimeArray) }
    else if code == 75 { Some(ColumnType::JsonArray) }
    else if code == 76 { Some(ColumnType::EnumArray) }
    else if code == 77 { Some(ColumnType::BytesArray) }
    else if code == 78 { Some(ColumnType::UuidArray) }
    else if code == 128 { Some(ColumnType::UnknownNumber) }
    else { None }
}

/// Whether a column type holds a list of values.
pub open spec fn is_array_column(c: ColumnType) -> bool {
    match c {
        ColumnType::Int32Array | ColumnType::Int64Array | ColumnType::FloatArray
        | ColumnType::DoubleArray | ColumnType::NumericArray | ColumnType::BooleanArray
        | ColumnType::CharacterArray | ColumnType::TextArray | ColumnType::DateArray
        | ColumnType::TimeArray | ColumnType::DateTimeArray | ColumnType::JsonArray
        | ColumnType::EnumArray | ColumnType::BytesArray | ColumnType::UuidArray => true,
        _ => false,
    }
}

/// The array column type whose elements have the given scalar column type, where
/// there is one.
pub open spec fn array_column_of(c: ColumnType) -> Option<ColumnType> {
    match c {
        ColumnType::Int32 => Some(ColumnType::Int32Array),
        ColumnType::Int64 => Some(ColumnType::Int64Array),
        ColumnType::Float => Some(ColumnType::FloatArray),
        ColumnType::Double => Some(ColumnType::DoubleArray),
        ColumnType::Numeric => Some(ColumnType::NumericArray),
        ColumnType::Boolean => Some(ColumnType::BooleanArray),
        ColumnType::Character => Some(ColumnType::CharacterArray),
        ColumnType::Text => Some(ColumnType::TextArray),
        ColumnType::Date => Some(ColumnType::DateArray),
        ColumnType::Time => Some(ColumnType::TimeArray),
        ColumnType::DateTime => Some(ColumnType::DateTimeArray),
        ColumnType::Json => Some(ColumnType::JsonArray),
        ColumnType::Enum => Some(ColumnType::EnumArray),
        ColumnType::Bytes => Some(ColumnType::BytesArray),
        ColumnType::Uuid => Some(ColumnType::UuidArray),
        _ => None,
    }
}

/// The column type of a field with the given type identifier and arity.
pub open spec fn column_type_for(type_id: TypeIdentifier, arity: FieldArity) -> Option<ColumnType> {
    let list = arity.spec_is_list();
    match type_id {
        TypeIdentifier::String => Some(if list { ColumnType::TextArray } else { ColumnType::Text }),
        TypeIdentifier::Int => Some(if list { ColumnType::Int32Array } else { ColumnType::Int32 }),
        TypeIdentifier::BigInt => Some(if list { ColumnType::Int64Array } else { ColumnType::Int64 }),
        TypeIdentifier::Float => Some(if list { ColumnType::DoubleArray } else { ColumnType::Double }),
        TypeIdentifier::Decimal => Some(if list { ColumnType::NumericArray } else { ColumnType::Numeric }),
        TypeIdentifier::Boolean => Some(if list { ColumnType::BooleanArray } else { ColumnType::Boolean }),
        TypeIdentifier::Enum(_) => Some(if list { ColumnType::EnumArray } else { ColumnType::Enum }),
        TypeIdentifier::UUID => Some(if list { ColumnType::UuidArray } else { ColumnType::Uuid }),
        TypeIdentifier::Json => Some(if list { ColumnType::JsonArray } else { ColumnType::Json }),
        TypeIdentifier::DateTime => Some(if list { ColumnType::DateTimeArray } else { ColumnType::DateTime }),
        TypeIdentifier::Bytes => Some(if list { ColumnType::BytesArray } else { ColumnType::Bytes }),
        TypeIdentifier::Extension(_) => None,
        TypeIdentifier::Unsupported => None,
    }
}

impl ColumnType {
    /// The numeric code under which drivers know this column type.
    pub fn code(&self) -> (r: u8)
        ensures
            r == column_type_code(*self),
    {
        match self {
            ColumnType::Int32 => 0,
            ColumnType::Int64 => 1,
            ColumnType::Float => 2,
            ColumnType::Double => 3,
            ColumnType::Numeric => 4,
            ColumnType::Boolean => 5,
            ColumnType::Character => 6,
            ColumnType::Text => 7,
            ColumnType::Date => 8,
            ColumnType::Time => 9,
            ColumnType::DateTime => 10,
            ColumnType::Json => 11,
            ColumnType::Enum => 12,
            ColumnType::Bytes => 13,
            ColumnType::SqlSet => 14,
            ColumnType::Uuid => 15,
            ColumnType::Int32Array => 64,
            ColumnType::Int64Array => 65,
            ColumnType::FloatArray => 66,
            ColumnType::DoubleArray => 67,
            ColumnType::NumericArray => 68,
            ColumnType::BooleanArray => 69,
            ColumnType::CharacterArray => 70,
            ColumnType::TextArray => 71,
            ColumnType::DateArray => 72,
            ColumnType::TimeArray => 73,
            ColumnType::DateTimeArray => 74,
            ColumnType::JsonArray => 75,
            ColumnType::EnumArray => 76,
            ColumnType::BytesArray => 77,
            ColumnType::UuidArray => 78,
            ColumnType::UnknownNumber => 128,
        }
    }

    /// Convert a type identifier and arity to a column type.
    ///
    /// Returns `None` for types that have no direct mapping (extension and
    /// unsupported types).
    pub fn from_type_identifier(type_id: &TypeIdentifier, arity: FieldArity) -> (r: Option<Self>)
        ensures
            r == column_type_for(*type_id, arity),
            r is None <==> (type_id is Extension || type_id is Unsupported),
    {
        let is_list = arity.is_list();

        let column_type = match type_id {
            TypeIdentifier::String => {
                if is_list {
                    ColumnType::TextArray
                } else {
                    ColumnType::Text
                }
            },
            TypeIdentifier::Int => {
                if is_list {
                    ColumnType::Int32Array
                } else {
                    ColumnType::Int32
                }
            },
            TypeIdentifier::BigInt => {
                if is_list {
                    ColumnType::Int64Array
                } else {
                    ColumnType::Int64
                }
            },
            TypeIdentifier::Float => {
                if is_list {
                    ColumnType::DoubleArray
                } else {
                    ColumnType::Double
                }
            },
            TypeIdentifier::Decimal => {
                if is_list {
                    ColumnType::NumericArray
                } else {
                    ColumnType::Numeric
                }
            },
            TypeIdentifier::Boolean => {
                if is_list {
                    ColumnType::BooleanArray
                } else {
                    ColumnType::Boolean
                }
            },
            TypeIdentifier::Enum(_) => {
                if is_list {
                    ColumnType::EnumArray
                } else {
                    ColumnType::Enum
                }
            },
            TypeIdentifier::UUID => {
                if is_list {
                    ColumnType::UuidArray
                } else {
                    ColumnType::Uuid
                }
            },
            TypeIdentifier::Json => {
                if is_list {
                    ColumnType::JsonArray
                } else {
                    ColumnType::Json
                }
            },
            TypeIdentifier::DateTime => {
                if is_list {
                    ColumnType::DateTimeArray
                } else {
                    ColumnType::DateTime
                }
            },
            TypeIdentifier::Bytes => {
                if is_list {
                    ColumnType::BytesArray
                } else {
                    ColumnType::Bytes
                }
            },
            // Extension and unsupported types have no direct mapping.
            TypeIdentifier::Extension(_) | TypeIdentifier::Unsupported => return None,
        };

        Some(column_type)
    }
}

/// Extract the column type of each field of a selection, in order; `None` where
/// a field's type has no direct column type.
pub fn extract_column_types(field_selection: &FieldSelection) -> (r: Vec<Option<ColumnType>>)
    ensures
        r.len() == field_selection.fields.len(),
        forall|i: int|
            0 <= i < r.len() ==> #[trigger] r@[i] == column_type_for(
                field_selection.fields@[i].0,
                field_selection.fields@[i].1,
            ),
{
    let mut out: Vec<Option<ColumnType>> = Vec::new();
    let n = field_selection.fields.len();
    for i in 0..n
        invariant
            n == field_selection.fields.len(),
            out.len() == i,
            forall|j: int|
                0 <= j < i ==> #[trigger] out@[j] == column_type_for(
                    field_selection.fields@[j].0,
                    field_selection.fields@[j].1,
                ),
    {
        let (type_id, arity) = field_selection.fields[i];
        out.push(ColumnType::from_type_identifier(&type_id, arity));
    }
    out
}

/// A field of list arity gets the array column type of the column type that the
/// same field would get with a single value.
pub proof fn lemma_list_arity_gives_array_column(type_id: TypeIdentifier)
    ensures
        column_type_for(type_id, FieldArity::List) == (match column_type_for(type_id, FieldArity::Required) {
            Some(c) => array_column_of(c),
            None => None,
        }),
{
}

/// Only whether the arity is a list matters: required and optional fields get
/// the same column type.
pub proof fn lemma_optional_same_as_required(type_id: TypeIdentifier)
    ensures
        column_type_for(type_id, FieldArity::Optional) == column_type_for(type_id, FieldArity::Required),
{
}

/// A column type is an array type exactly when the arity that produced it is a
/// list.
pub proof fn lemma_array_exactly_for_lists(type_id: TypeIdentifier, arity: FieldArity)
    requires
        column_type_for(type_id, arity) is Some,
    ensures
        is_array_column(column_type_for(type_id, arity).unwrap()) <==> arity.spec_is_list(),
{
}

/// The numeric code determines the column type: no two column types share a
/// code.
pub proof fn lemma_code_identifies_column_type(a: ColumnType, b: ColumnType)
    ensures
        column_type_code(a) == column_type_code(b) <==> a == b,
{
    assert(column_type_of_code(column_type_code(a)) == Some(a));
    assert(column_type_of_code(column_type_code(b)) == Some(b));
}

/// Every column type has the fixed code that drivers know it by.
pub proof fn lemma_driver_codes()
    ensures
        column_type_code(ColumnType::Int32) == 0,
        column_type_code(ColumnType::Int64) == 1,
        column_type_code(ColumnType::Float) == 2,
        column_type_code(ColumnType::Double) == 3,
        column_type_code(ColumnType::Numeric) == 4,
        column_type_code(ColumnType::Boolean) == 5,
        column_type_code(ColumnType::Character) == 6,
        column_type_code(ColumnType::Text) == 7,
        column_type_code(ColumnType::Date) == 8,
        column_type_code(ColumnType::Time) == 9,
        column_type_code(ColumnType::DateTime) == 10,
        column_type_code(ColumnType::Json) == 11,
        column_type_code(ColumnType::Enum) == 12,
        column_type_code(ColumnType::Bytes) == 13,
        column_type_code(ColumnType::SqlSet) == 14,
        column_type_code(ColumnType::Uuid) == 15,
        column_type_code(ColumnType::Int32Array) == 64,
        column_type_code(ColumnType::Int64Array) == 65,
        column_type_code(ColumnType::FloatArray) == 66,
        column_type_code(ColumnType::DoubleArray) == 67,
        column_type_code(ColumnType::NumericArray) == 68,
        column_type_code(ColumnType::BooleanArray) == 69,
        column_type_code(ColumnType::CharacterArray) == 70,
        column_type_code(ColumnType::TextArray) == 71,
        column_type_code(ColumnType::DateArray) == 72,
        column_type_code(ColumnType::TimeArray) == 73,
        column_type_code(ColumnType::DateTimeArray) == 74,
        column_type_code(ColumnType::JsonArray) == 75,
        column_type_code(ColumnType::EnumArray) == 76,
        column_type_code(ColumnType::BytesArray) == 77,
        column_type_code(ColumnType::UuidArray) == 78,
        column_type_code(ColumnType::UnknownNumber) == 128,
{
}

/// Each kind of type identifier gets its own column type, whatever the enum or
/// extension it names: a single value gets the scalar column type and a list
/// the matching array column type.
pub proof fn lemma_column_type_by_kind(type_id: TypeIdentifier, arity: FieldArity)
    ensures
        ({
            let list = arity is List;
            let r = column_type_for(type_id, arity);
            &&& type_id is String ==> r == Some(if list { ColumnType::TextArray } else { ColumnType::Text })
            &&& type_id is Int ==> r == Some(if list { ColumnType::Int32Array } else { ColumnType::Int32 })
            &&& type_id is BigInt ==> r == Some(if list { ColumnType::Int64Array } else { ColumnType::Int64 })
            &&& type_id is Float ==> r == Some(if list { ColumnType::DoubleArray } else { ColumnType::Double })
            &&& type_id is Decimal ==> r == Some(if list { ColumnType::NumericArray } else { ColumnType::Numeric })
            &&& type_id is Boolean ==> r == Some(if list { ColumnType::BooleanArray } else { ColumnType::Boolean })
            &&& type_id is Enum ==> r == Some(if list { ColumnType::EnumArray } else { ColumnType::Enum })
            &&& type_id is UUID ==> r == Some(if list { ColumnType::UuidArray } else { ColumnType::Uuid })
            &&& type_id is Json ==> r == Some(if list { ColumnType::JsonArray } else { ColumnType::Json })
            &&& type_id is DateTime ==> r == Some(if list { ColumnType::DateTimeArray } else { ColumnType::DateTime })
            &&& type_id is Bytes ==> r == Some(if list { ColumnType::BytesArray } else { ColumnType::Bytes })
            &&& (type_id is Extension || type_id is Unsupported) ==> r == None::<ColumnType>
        }),
{
}

/// Fields of any two enums get the same column type, and so do fields of any
/// two extension types.
pub proof fn lemma_enum_id_irrelevant(a: u32, b: u32, arity: FieldArity)
    ensures
        column_type_for(TypeIdentifier::Enum(a), arity) == column_type_for(TypeIdentifier::Enum(b), arity),
        column_type_for(TypeIdentifier::Enum(a), arity) == Some(
            if arity is List { ColumnType::EnumArray } else { ColumnType::Enum },
        ),
        column_type_for(TypeIdentifier::Extension(a), arity) == column_type_for(TypeIdentifier::Extension(b), arity),
{
}

/// Array column types take the codes from 64 up to 127; all others take codes
/// below 64 or from 128.
pub proof fn lemma_array_code_range(c: ColumnType)
    ensures
        is_array_column(c) <==> 64 <= column_type_code(c) < 128,
{
}

} // verus!
