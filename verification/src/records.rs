use vstd::prelude::*;

use crate::db_query::DbQuery;
use crate::schema::ScalarField;

verus! {

/// A named placeholder for a value that a query computes and a later query
/// reads.
#[derive(Debug, Clone)]
pub struct Placeholder {
    pub name: String,
}

/// A query that retrieves default values needed for an insert operation.
///
/// `V` is the type of the argument values.
#[derive(Debug)]
pub struct CreateRecordDefaultsQuery<V> {
    /// The query that returns the default values.
    pub query: DbQuery<V>,
    /// The fields that are selected in the query and their corresponding
    /// placeholders. These placeholders are referred to by the subsequent
    /// insert query.
    pub field_placeholders: Vec<(ScalarField, Placeholder)>,
}

/// An insertion operation for a record in the database.
///
/// `V` is the type of the argument values, `F` that of a selected field.
#[derive(Debug)]
pub struct CreateRecord<V, F> {
    /// The insert query to run in order to create the record.
    pub insert_query: DbQuery<V>,
    /// The query to run prior to the insert in order to create default column
    /// values, where the database does not return default values.
    pub select_defaults: Option<CreateRecordDefaultsQuery<V>>,
    /// The field of the record that corresponds to the last inserted id, if the
    /// database requires it.
    pub last_insert_id_field: Option<ScalarField>,
    /// The values to merge into the resulting record after insertion, inferred
    /// from the input arguments.
    pub merge_values: Vec<(F, V)>,
}

/// A query that retrieves related records through a many-to-many relation.
#[derive(Debug)]
pub struct GetRelatedRecordsQuery<V> {
    /// The query that retrieves the related records.
    pub query: DbQuery<V>,
    /// The alias used for the linking field in the query.
    pub linking_field_alias: String,
}

} // verus!
