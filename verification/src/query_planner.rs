//! Assembles the plan of a typed statement over the table it names.

use vstd::prelude::*;
use std::sync::Arc;
use crate::definition::Table;
use crate::query_plan::{
    ConstraintValidator, DeleteQueryPlan, DynamicValues, FullTableScan, InsertQueryPlan, QueryPlan,
    Repeater, SelectQueryPlan, StaticExpressionEval, StaticValues, TableRecordKeys,
    UpdateQueryPlan,
};
use crate::typed_queries::{all_columns, is_column, TypedQuery};
use crate::typed_tree::{TypedItem, TypedTree};

verus! {

/// The name of the column that a projection is.
pub open spec fn projected_name(item: TypedTree) -> String
    recommends
        is_column(item),
{
    match item {
        TypedTree::Item(TypedItem::Column { name, sql_type, index }) => name,
        _ => arbitrary(),
    }
}

/// Whether `plan` is the plan of `query` over `table`. An `Insert` validates
/// its literal rows against the table's columns and has no scan. A `Delete`
/// takes the row keys of a full scan. An `Update` validates the assignments,
/// evaluated for each row of a full scan. A `Select` projects the named
/// columns from a full scan and carries the name and type of each column of
/// the table.
pub open spec fn is_plan_of(plan: QueryPlan, query: TypedQuery, table: Table) -> bool {
    match query {
        TypedQuery::Insert(insert) => {
            &&& plan matches QueryPlan::Insert(insert_plan)
            &&& insert_plan.source.source.source.rows == insert.values
            &&& insert_plan.source.columns@ == table.columns@
            &&& insert_plan.table == table
        },
        TypedQuery::Delete(delete) => {
            &&& plan matches QueryPlan::Delete(delete_plan)
            &&& delete_plan.source.source.table == table.full_table_name
            &&& delete_plan.table == table
        },
        TypedQuery::Update(update) => {
            &&& plan matches QueryPlan::Update(update_plan)
            &&& update_plan.values.source.source.source == update.assignments
            &&& update_plan.values.columns@ == table.columns@
            &&& update_plan.records.table == table.full_table_name
            &&& update_plan.table == table
        },
        TypedQuery::Select(select) => {
            &&& plan matches QueryPlan::Select(select_plan)
            &&& select_plan.source.table == table.full_table_name
            &&& select_plan.columns@ == select.projection_items@.map_values(
                |item: TypedTree| projected_name(item),
            )
            &&& select_plan.column_types@ == table.spec_columns_short()
        },
    }
}

/// Plans statements against the tables of a database. The database is kept
/// for the caller, who looks up the table that a statement names and hands
/// it to `plan`.
pub struct QueryPlanner<D> {
    database: Arc<D>,
}

impl<D> QueryPlanner<D> {
    pub closed spec fn spec_database(self) -> Arc<D> {
        self.database
    }

    pub fn new(database: Arc<D>) -> (planner: QueryPlanner<D>)
        ensures
            planner.spec_database() == database,
    {
        QueryPlanner { database }
    }

    pub fn database(&self) -> (database: &Arc<D>)
        ensures
            *database == self.spec_database(),
    {
        &self.database
    }

    /// The plan of `query` over `table`, the table that the query names.
    pub fn plan(&self, query: TypedQuery, table: Table) -> (plan: QueryPlan)
        requires
            query.plannable(),
        ensures
            is_plan_of(plan, query, table),
    {
        match query {
            TypedQuery::Insert(insert) => {
                let columns = table.columns();
                QueryPlan::Insert(
                    InsertQueryPlan::new(
                        ConstraintValidator::new(
                            StaticExpressionEval::new(StaticValues::from(insert.values)),
                            columns,
                        ),
                        table,
                    ),
                )
            },
            TypedQuery::Delete(delete) => {
                let scan = FullTableScan::new(&table);
                QueryPlan::Delete(DeleteQueryPlan::new(TableRecordKeys::new(scan), table))
            },
            TypedQuery::Update(update) => {
                let columns = table.columns();
                let scan = FullTableScan::new(&table);
                QueryPlan::Update(
                    UpdateQueryPlan::new(
                        ConstraintValidator::new(
                            DynamicValues::new(Repeater::new(update.assignments)),
                            columns,
                        ),
                        scan,
                        table,
                    ),
                )
            },
            TypedQuery::Select(select) => {
                let scan = FullTableScan::new(&table);
                let columns = projected_names(&select.projection_items);
                QueryPlan::Select(SelectQueryPlan::new(scan, columns, table.columns_short()))
            },
        }
    }
}

/// The names of the projected columns, in the order of the projection.
pub fn projected_names(items: &Vec<TypedTree>) -> (names: Vec<String>)
    requires
        all_columns(items@),
    ensures
        names@ == items@.map_values(|item: TypedTree| projected_name(item)),
{
    let mut names: Vec<String> = Vec::new();
    let mut i: usize = 0;
    while i < items.len()
        invariant
            i <= items@.len(),
            all_columns(items@),
            names@ == items@.map_values(|item: TypedTree| projected_name(item)).take(i as int),
        decreases items@.len() - i,
    {
        match &items[i] {
            TypedTree::Item(TypedItem::Column { name, sql_type, index }) => {
                names.push(name.clone());
            },
            _ => {
                assert(false);
            },
        }
        assert(names@ =~= items@.map_values(|item: TypedTree| projected_name(item)).take(i + 1));
        i += 1;
    }
    assert(names@ =~= items@.map_values(|item: TypedTree| projected_name(item)));
    names
}

} // verus!
