//! Table-mapping code generation: from a record's field metadata to the SQL
//! text, the companion shapes and the parameter order of the five data-access
//! operations (insert, update, delete, fetch-by-key, stream-all).
pub mod generate;
pub mod laws;
pub mod metadata;
pub mod plan;
pub mod query;
pub mod runtime;
pub mod shape;
pub mod text;
