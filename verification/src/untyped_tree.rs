//! Expression trees after column and operator resolution, before any type
//! family is assigned.

use vstd::prelude::*;
use crate::number::Number;
use crate::operators::{BiOperation, UnOperator};
use crate::types::SqlType;

verus! {

#[derive(Debug, PartialEq, Eq, Clone)]
pub enum UntypedValue {
    Number(Number),
    String(String),
    Bool(bool),
    Null,
}

#[derive(Debug, PartialEq, Eq, Clone)]
pub enum UntypedItem {
    Const(UntypedValue),
    /// A positional parameter, counted from 0.
    Param(usize),
    /// A column of the row: its declared name and type, and its offset in
    /// the row tuple.
    Column { name: String, sql_type: SqlType, index: usize },
}

#[derive(Debug, PartialEq, Eq)]
pub enum UntypedTree {
    Item(UntypedItem),
    BiOp { left: Box<UntypedTree>, op: BiOperation, right: Box<UntypedTree> },
    UnOp { op: UnOperator, item: Box<UntypedTree> },
}

/// A tree built without a row: it holds no column.
pub type StaticUntypedTree = UntypedTree;

/// A tree built against the columns of a row.
pub type DynamicUntypedTree = UntypedTree;

pub type StaticUntypedItem = UntypedItem;

pub type DynamicUntypedItem = UntypedItem;

impl UntypedValue {
    /// Every number in the value is well formed.
    pub open spec fn well_formed(self) -> bool {
        match self {
            UntypedValue::Number(number) => number.well_formed(),
            _ => true,
        }
    }
}

impl UntypedTree {
    /// No leaf of the tree is a column.
    pub open spec fn is_static(self) -> bool
        decreases self,
    {
        match self {
            UntypedTree::Item(UntypedItem::Column { name, sql_type, index }) => false,
            UntypedTree::Item(_) => true,
            UntypedTree::BiOp { left, op, right } => left.is_static() && right.is_static(),
            UntypedTree::UnOp { op, item } => item.is_static(),
        }
    }
}

} // verus!
