//! The analysis of one expression from end to end: the untyped tree is
//! built, then typed.

use vstd::prelude::*;
use crate::ast::{Expr, Value};
use crate::definition::ColumnDef;
use crate::errors::AnalysisError;
use crate::tree_builder::{untyped_tree_of, DynamicTreeBuilder, StaticTreeBuilder};
use crate::type_inference::{typed_tree_of, TypeInference};
use crate::number::Number;
use crate::typed_tree::{TypedItem, TypedTree, TypedValue};
use crate::types::SqlTypeFamily;

verus! {

/// The typed tree of an expression, or the first error of building or of
/// typing. `columns` are those of the row, where there is one.
pub open spec fn typed_expression_of(expr: Expr, columns: Option<Seq<ColumnDef>>) -> Result<
    TypedTree,
    AnalysisError,
> {
    match untyped_tree_of(expr, columns) {
        Err(error) => Err(error),
        Ok(tree) => typed_tree_of(tree),
    }
}

/// Analyses an expression that the parser vouches for, where there is no
/// row.
pub fn analyze_static(expr: Expr) -> (typed: Result<TypedTree, AnalysisError>)
    requires
        expr.well_formed(),
    ensures
        typed == typed_expression_of(expr, None),
        typed matches Ok(tree) ==> tree.is_static(),
{
    match StaticTreeBuilder::build_from(expr) {
        Err(error) => Err(error),
        Ok(tree) => TypeInference.infer_static(tree),
    }
}

/// Analyses an expression that the parser vouches for, against the columns
/// of a row.
pub fn analyze_dynamic(expr: Expr, table_columns: &[ColumnDef]) -> (typed: Result<
    TypedTree,
    AnalysisError,
>)
    requires
        expr.well_formed(),
    ensures
        typed == typed_expression_of(expr, Some(table_columns@)),
{
    match DynamicTreeBuilder::build_from(expr, table_columns) {
        Err(error) => Err(error),
        Ok(tree) => TypeInference.infer_dynamic(tree),
    }
}

/// Analyses any expression where there is no row: `None` where the
/// expression is not what the parser guarantees.
pub fn try_analyze_static(expr: Expr) -> (typed: Option<Result<TypedTree, AnalysisError>>)
    ensures
        typed == if expr.well_formed() {
            Some(typed_expression_of(expr, None))
        } else {
            None
        },
{
    if expr.is_well_formed() {
        Some(analyze_static(expr))
    } else {
        None
    }
}

/// Analyses any expression against the columns of a row: `None` where the
/// expression is not what the parser guarantees.
pub fn try_analyze_dynamic(expr: Expr, table_columns: &[ColumnDef]) -> (typed: Option<
    Result<TypedTree, AnalysisError>,
>)
    ensures
        typed == if expr.well_formed() {
            Some(typed_expression_of(expr, Some(table_columns@)))
        } else {
            None
        },
{
    if expr.is_well_formed() {
        Some(analyze_dynamic(expr, table_columns))
    } else {
        None
    }
}

/// Analysis is a function of the expression and the columns alone: two
/// runs on equal expressions and equal columns give equal typed trees, or
/// equal errors.
pub proof fn lemma_analysis_is_deterministic(
    first: Expr,
    first_columns: Option<Seq<ColumnDef>>,
    second: Expr,
    second_columns: Option<Seq<ColumnDef>>,
)
    requires
        first == second,
        first_columns == second_columns,
    ensures
        untyped_tree_of(first, first_columns) == untyped_tree_of(second, second_columns),
        typed_expression_of(first, first_columns) == typed_expression_of(second, second_columns),
{
}

/// An integer literal is a `SmallInt` within the 16-bit signed range and an
/// `Integer` beyond it, with or without a row, and analysis keeps its value.
pub proof fn lemma_integer_literal_width(value: i32, columns: Option<Seq<ColumnDef>>)
    ensures
        typed_expression_of(Expr::Value(Value::Int(value)), columns) == Ok::<
            TypedTree,
            AnalysisError,
        >(
            TypedTree::Item(
                TypedItem::Const(
                    TypedValue::Num {
                        value: Number::Whole(value as i64),
                        type_family: if -32768 <= value <= 32767 {
                            SqlTypeFamily::SmallInt
                        } else {
                            SqlTypeFamily::Integer
                        },
                    },
                ),
            ),
        ),
{
}

/// Without a row, the analysis of a column reference of any name fails: the
/// error says that the column cannot be referenced, and names it.
pub proof fn lemma_static_column_is_not_analysed(name: String)
    ensures
        typed_expression_of(Expr::Column(name), None) == Err::<TypedTree, AnalysisError>(
            AnalysisError::ColumnCannotBeReferenced(name),
        ),
{
}

} // verus!
