//! The query-construction core of a typed SQL toolkit: typed expression
//! nodes, a single AST walk that renders SQL text, collects bind values and
//! decides statement-cache safety, statement builders, per-backend query
//! builders, value codecs and row cursors.
pub mod query_builder;
pub mod value;
pub mod ast;
pub mod sql_types;
pub mod expression;
pub mod statement;
pub mod result;
pub mod codec;
pub mod sqlite;
pub mod migration;
pub mod row;
pub mod interval;
pub mod diagnostic;
pub mod mysql;
pub mod schema;
pub mod bind_collector;
