//! Query plans: for each kind of statement a short, fixed pipeline of
//! stages over a table. A plan describes the work; it does not do it.

use vstd::prelude::*;
use crate::definition::{ColumnDef, FullTableName, Table};
use crate::typed_tree::TypedTree;
use crate::types::SqlType;

verus! {

/// The literal rows of an `INSERT`.
#[derive(Debug, PartialEq, Eq)]
pub struct StaticValues {
    pub rows: Vec<Vec<TypedTree>>,
}

impl StaticValues {
    pub fn from(rows: Vec<Vec<TypedTree>>) -> (values: StaticValues)
        ensures
            values == (StaticValues { rows }),
    {
        StaticValues { rows }
    }
}

/// Evaluates each expression of each literal row.
#[derive(Debug, PartialEq, Eq)]
pub struct StaticExpressionEval {
    pub source: StaticValues,
}

impl StaticExpressionEval {
    pub fn new(source: StaticValues) -> (eval: StaticExpressionEval)
        ensures
            eval == (StaticExpressionEval { source }),
    {
        StaticExpressionEval { source }
    }
}

/// Checks each value of each row of `source` against the column at its
/// position, in column order.
#[derive(Debug, PartialEq, Eq)]
pub struct ConstraintValidator<S> {
    pub source: S,
    pub columns: Vec<ColumnDef>,
}

impl<S> ConstraintValidator<S> {
    pub fn new(source: S, columns: Vec<ColumnDef>) -> (validator: ConstraintValidator<S>)
        ensures
            validator == (ConstraintValidator { source, columns }),
    {
        ConstraintValidator { source, columns }
    }
}

/// Every row of a table, in the catalog's order.
#[derive(Debug, PartialEq, Eq)]
pub struct FullTableScan {
    pub table: FullTableName,
}

impl FullTableScan {
    pub fn new(table: &Table) -> (scan: FullTableScan)
        ensures
            scan == (FullTableScan { table: table.full_table_name }),
    {
        FullTableScan { table: table.full_table_name.duplicate() }
    }
}

/// The key of each row of a scan.
#[derive(Debug, PartialEq, Eq)]
pub struct TableRecordKeys {
    pub source: FullTableScan,
}

impl TableRecordKeys {
    pub fn new(source: FullTableScan) -> (keys: TableRecordKeys)
        ensures
            keys == (TableRecordKeys { source }),
    {
        TableRecordKeys { source }
    }
}

/// Hands out the same assignments for each row.
#[derive(Debug, PartialEq, Eq)]
pub struct Repeater {
    pub source: Vec<Option<TypedTree>>,
}

impl Repeater {
    pub fn new(source: Vec<Option<TypedTree>>) -> (repeater: Repeater)
        ensures
            repeater == (Repeater { source }),
    {
        Repeater { source }
    }
}

/// Evaluates the assignments against each scanned row.
#[derive(Debug, PartialEq, Eq)]
pub struct DynamicValues {
    pub source: Repeater,
}

impl DynamicValues {
    pub fn new(source: Repeater) -> (values: DynamicValues)
        ensures
            values == (DynamicValues { source }),
    {
        DynamicValues { source }
    }
}

#[derive(Debug, PartialEq, Eq)]
pub struct InsertQueryPlan {
    pub source: ConstraintValidator<StaticExpressionEval>,
    pub table: Table,
}

impl InsertQueryPlan {
    pub fn new(source: ConstraintValidator<StaticExpressionEval>, table: Table) -> (plan:
        InsertQueryPlan)
        ensures
            plan == (InsertQueryPlan { source, table }),
    {
        InsertQueryPlan { source, table }
    }
}

#[derive(Debug, PartialEq, Eq)]
pub struct DeleteQueryPlan {
    pub source: TableRecordKeys,
    pub table: Table,
}

impl DeleteQueryPlan {
    pub fn new(source: TableRecordKeys, table: Table) -> (plan: DeleteQueryPlan)
        ensures
            plan == (DeleteQueryPlan { source, table }),
    {
        DeleteQueryPlan { source, table }
    }
}

#[derive(Debug, PartialEq, Eq)]
pub struct UpdateQueryPlan {
    pub values: ConstraintValidator<DynamicValues>,
    pub records: FullTableScan,
    pub table: Table,
}

impl UpdateQueryPlan {
    pub fn new(
        values: ConstraintValidator<DynamicValues>,
        records: FullTableScan,
        table: Table,
    ) -> (plan: UpdateQueryPlan)
        ensures
            plan == (UpdateQueryPlan { values, records, table }),
    {
        UpdateQueryPlan { values, records, table }
    }
}

#[derive(Debug, PartialEq, Eq)]
pub struct SelectQueryPlan {
    pub source: FullTableScan,
    /// The names of the projected columns, in the order of the projection.
    pub columns: Vec<String>,
    /// The name and type of each column of the table.
    pub column_types: Vec<(String, SqlType)>,
}

impl SelectQueryPlan {
    pub fn new(
        source: FullTableScan,
        columns: Vec<String>,
        column_types: Vec<(String, SqlType)>,
    ) -> (plan: SelectQueryPlan)
        ensures
            plan == (SelectQueryPlan { source, columns, column_types }),
    {
        SelectQueryPlan { source, columns, column_types }
    }
}

#[derive(Debug, PartialEq, Eq)]
pub enum QueryPlan {
    Insert(InsertQueryPlan),
    Delete(DeleteQueryPlan),
    Update(UpdateQueryPlan),
    Select(SelectQueryPlan),
}

} // verus!
