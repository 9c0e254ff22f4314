use vstd::prelude::*;

verus! {

/// The scalar type of a field in the data model.
#[derive(Debug, Clone, Copy, PartialEq, Eq, Structural)]
pub enum TypeIdentifier {
    String,
    Int,
    BigInt,
    Float,
    Decimal,
    Boolean,
    /// An enum of the schema, named by its id.
    Enum(u32),
    UUID,
    Json,
    DateTime,
    Bytes,
    /// A type provided by a database extension, named by its id.
    Extension(u32),
    Unsupported,
}

/// How many values a field holds.
#[derive(Debug, Clone, Copy, PartialEq, Eq, Structural)]
pub enum FieldArity {
    Required,
    Optional,
    List,
}

impl FieldArity {
    pub open spec fn spec_is_list(&self) -> bool {
        self is List
    }

    /// Whether the field holds a list of values.
    #[verifier::when_used_as_spec(spec_is_list)]
    pub fn is_list(&self) -> (r: bool)
        ensures
            r == self.spec_is_list(),
            r <==> *self == FieldArity::List,
    {
        match self {
            FieldArity::List => true,
            _ => false,
        }
    }
}

/// A scalar field of the data model, known by its id in the schema.
///
/// Fields are ordered and compared by that id alone.
#[derive(Debug, Clone, Copy, PartialEq, Eq, Structural)]
pub struct ScalarField {
    pub id: u64,
}

impl ScalarField {
    pub fn new(id: u64) -> (r: Self)
        ensures
            r.id == id,
    {
        ScalarField { id }
    }
}

/// A relation field of a model: what the query builder reads of it is the
/// name of its relation and the name of the model that holds it.
#[derive(Debug, Clone)]
pub struct RelationField {
    pub relation_name: String,
    pub model_name: String,
}

impl RelationField {
    pub fn new(relation_name: String, model_name: String) -> (r: Self)
        ensures
            r.relation_name@ == relation_name@,
            r.model_name@ == model_name@,
    {
        RelationField { relation_name, model_name }
    }
}

/// The type identifier and arity of each field of a selection, in order.
pub struct FieldSelection {
    pub fields: Vec<(TypeIdentifier, FieldArity)>,
}

impl FieldSelection {
    pub fn new(fields: Vec<(TypeIdentifier, FieldArity)>) -> (r: Self)
        ensures
            r.fields@ == fields@,
    {
        FieldSelection { fields }
    }
}

} // verus!
