use vstd::prelude::*;

verus! {

/// Whether a query argument is a single value or a list of values.
#[derive(Debug, Clone, Copy, PartialEq, Eq, Structural)]
pub enum Arity {
    Scalar,
    List,
}

/// The scalar type of a query argument, as drivers know it.
#[derive(Debug, Clone, Copy, PartialEq, Eq, Structural)]
pub enum ArgScalarType {
    String,
    Int,
    BigInt,
    Float,
    Decimal,
    Boolean,
    Enum,
    Uuid,
    Json,
    DateTime,
    Bytes,
    Unknown,
}

/// The type of a query argument: its arity, its scalar type and, where known,
/// the database's own name for its type.
#[derive(Debug)]
pub struct ArgType {
    pub arity: Arity,
    pub scalar_type: ArgScalarType,
    pub db_type: Option<String>,
}

impl ArgType {
    pub fn new(arity: Arity, scalar_type: ArgScalarType, db_type: Option<String>) -> (r: Self)
        ensures
            r.arity == arity,
            r.scalar_type == scalar_type,
            r.db_type == db_type,
    {
        Self { arity, scalar_type, db_type }
    }
}

/// The type of a parameter of a query template: either one argument, or a tuple
/// of arguments that the template expands.
#[derive(Debug)]
pub enum DynamicArgType {
    Tuple { elements: Vec<ArgType> },
    Single { arg_type: ArgType },
}

} // verus!
