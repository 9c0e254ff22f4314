# query_builder

Verified building blocks for SQL query builders, written in Verus.

- `src/column_type.rs`: column types for driver adapters, their numeric codes,
  and the mapping from a field's type identifier and arity.
- `src/db_query.rs`: the queries a builder emits (raw SQL or templates), their
  parameters, and how a query is shown with numbered placeholders.
- `src/linkage.rs`: conditional links and relation linkages, which gather the
  conditions on scalar fields in field order.
- `src/chunkable.rs`: whether a query's parameters can be split into chunks.
- `src/arg_type.rs`, `src/records.rs`, `src/schema.rs`: argument types, insert
  descriptions, and the parts of the data model that the builders read.
- `src/decimal.rs`: decimal notation of numbers.
- `app/lib.rs`: serialisable forms of the query types, with conversions.
