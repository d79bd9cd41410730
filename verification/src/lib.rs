//! Analysis and planning core of a SQL query engine: expression trees,
//! operator semantics, type inference, coercion and plan assembly.

pub mod types;
pub mod operators;
pub mod number;
pub mod definition;
pub mod ast;
pub mod errors;
pub mod untyped_tree;
pub mod typed_tree;
pub mod tree_builder;
pub mod type_inference;
pub mod type_coercion;
pub mod typed_queries;
pub mod query_plan;
pub mod query_planner;
pub mod query_analyzer;
pub mod definition_planner;
