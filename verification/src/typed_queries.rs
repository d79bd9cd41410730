//! Statements whose expressions are typed, ready for planning.

use vstd::prelude::*;
use crate::definition::FullTableName;
use crate::typed_tree::{TypedItem, TypedTree};

verus! {

#[derive(Debug, PartialEq, Eq)]
pub struct TypedInsertQuery {
    pub full_table_name: FullTableName,
    /// The rows to insert, each a list of values in column order.
    pub values: Vec<Vec<TypedTree>>,
}

#[derive(Debug, PartialEq, Eq)]
pub struct TypedDeleteQuery {
    pub full_table_name: FullTableName,
}

#[derive(Debug, PartialEq, Eq)]
pub struct TypedUpdateQuery {
    pub full_table_name: FullTableName,
    /// For each column in order, the expression assigned to it, if any.
    pub assignments: Vec<Option<TypedTree>>,
}

#[derive(Debug, PartialEq, Eq)]
pub struct TypedSelectQuery {
    pub full_table_name: FullTableName,
    pub projection_items: Vec<TypedTree>,
}

#[derive(Debug, PartialEq, Eq)]
pub enum TypedQuery {
    Insert(TypedInsertQuery),
    Delete(TypedDeleteQuery),
    Update(TypedUpdateQuery),
    Select(TypedSelectQuery),
}

/// Whether a projection is a plain column.
pub open spec fn is_column(item: TypedTree) -> bool {
    item matches TypedTree::Item(TypedItem::Column { name, sql_type, index })
}

/// Whether every projection is a plain column.
pub open spec fn all_columns(items: Seq<TypedTree>) -> bool {
    forall|i: int| 0 <= i < items.len() ==> is_column(#[trigger] items[i])
}

/// Tests whether every projection is a plain column.
pub fn are_all_columns(items: &Vec<TypedTree>) -> (ok: bool)
    ensures
        ok == all_columns(items@),
{
    let mut i: usize = 0;
    while i < items.len()
        invariant
            i <= items@.len(),
            forall|j: int| 0 <= j < i ==> is_column(#[trigger] items@[j]),
        decreases items@.len() - i,
    {
        match &items[i] {
            TypedTree::Item(TypedItem::Column { name, sql_type, index }) => {},
            _ => {
                assert(!is_column(items@[i as int]));
                return false;
            },
        }
        i += 1;
    }
    true
}

impl TypedQuery {
    /// A query that can be planned: every projection of a `Select` is a
    /// plain column.
    pub open spec fn plannable(self) -> bool {
        match self {
            TypedQuery::Select(select) => all_columns(select.projection_items@),
            _ => true,
        }
    }

    /// The table that the query is about.
    pub open spec fn spec_full_table_name(self) -> FullTableName {
        match self {
            TypedQuery::Insert(insert) => insert.full_table_name,
            TypedQuery::Delete(delete) => delete.full_table_name,
            TypedQuery::Update(update) => update.full_table_name,
            TypedQuery::Select(select) => select.full_table_name,
        }
    }

    pub fn full_table_name(&self) -> (name: &FullTableName)
        ensures
            *name == self.spec_full_table_name(),
    {
        match self {
            TypedQuery::Insert(insert) => &insert.full_table_name,
            TypedQuery::Delete(delete) => &delete.full_table_name,
            TypedQuery::Update(update) => &update.full_table_name,
            TypedQuery::Select(select) => &select.full_table_name,
        }
    }

    pub fn is_plannable(&self) -> (ok: bool)
        ensures
            ok == self.plannable(),
    {
        match self {
            TypedQuery::Select(select) => are_all_columns(&select.projection_items),
            _ => true,
        }
    }
}

} // verus!
