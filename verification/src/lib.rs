//! Building blocks shared by the SQL query builders: the description of the
//! queries that a builder emits, the column and argument type information that
//! travels with them, and the conditions that link related records.

pub mod decimal;
pub mod schema;
pub mod column_type;
pub mod arg_type;
pub mod chunkable;
pub mod db_query;
pub mod linkage;
pub mod records;
