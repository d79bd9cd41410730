//! Expression trees in which every node carries its type family.

use vstd::prelude::*;
use crate::number::Number;
use crate::operators::{BiOperation, UnOperator};
use crate::types::{SqlType, SqlTypeFamily};

verus! {

#[derive(Debug, PartialEq, Eq, Clone)]
pub enum TypedValue {
    Num { value: Number, type_family: SqlTypeFamily },
    String(String),
    Bool(bool),
    Null,
}

#[derive(Debug, PartialEq, Eq, Clone)]
pub enum TypedItem {
    Const(TypedValue),
    /// A positional parameter, counted from 0. Its family is unconstrained.
    Param { index: usize },
    /// A column of the row: its declared name and type, and its offset in
    /// the row tuple.
    Column { name: String, sql_type: SqlType, index: usize },
}

#[derive(Debug, PartialEq, Eq)]
pub enum TypedTree {
    Item(TypedItem),
    BiOp {
        type_family: Option<SqlTypeFamily>,
        left: Box<TypedTree>,
        op: BiOperation,
        right: Box<TypedTree>,
    },
    UnOp { type_family: Option<SqlTypeFamily>, op: UnOperator, item: Box<TypedTree> },
}

/// A typed tree without a row: it holds no column.
pub type StaticTypedTree = TypedTree;

/// A typed tree over the columns of a row.
pub type DynamicTypedTree = TypedTree;

pub type StaticTypedItem = TypedItem;

pub type DynamicTypedItem = TypedItem;

impl TypedValue {
    /// The family of a constant; `None` for `NULL`.
    pub open spec fn spec_type_family(self) -> Option<SqlTypeFamily> {
        match self {
            TypedValue::Num { value, type_family } => Some(type_family),
            TypedValue::String(_) => Some(SqlTypeFamily::String),
            TypedValue::Bool(_) => Some(SqlTypeFamily::Bool),
            TypedValue::Null => None,
        }
    }

    pub fn type_family(&self) -> (family: Option<SqlTypeFamily>)
        ensures
            family == self.spec_type_family(),
    {
        match self {
            TypedValue::Num { value, type_family } => Some(*type_family),
            TypedValue::String(_) => Some(SqlTypeFamily::String),
            TypedValue::Bool(_) => Some(SqlTypeFamily::Bool),
            TypedValue::Null => None,
        }
    }
}

impl TypedItem {
    /// The family of a leaf; `None` where it is unconstrained.
    pub open spec fn spec_type_family(self) -> Option<SqlTypeFamily> {
        match self {
            TypedItem::Const(value) => value.spec_type_family(),
            TypedItem::Param { index } => None,
            TypedItem::Column { name, sql_type, index } => Some(sql_type.spec_family()),
        }
    }

    pub fn type_family(&self) -> (family: Option<SqlTypeFamily>)
        ensures
            family == self.spec_type_family(),
    {
        match self {
            TypedItem::Const(value) => value.type_family(),
            TypedItem::Param { index } => None,
            TypedItem::Column { name, sql_type, index } => Some(sql_type.family()),
        }
    }
}

impl TypedTree {
    /// The family that the node at the root carries; `None` where it is
    /// unconstrained.
    pub open spec fn spec_type_family(self) -> Option<SqlTypeFamily> {
        match self {
            TypedTree::Item(item) => item.spec_type_family(),
            TypedTree::BiOp { type_family, left, op, right } => type_family,
            TypedTree::UnOp { type_family, op, item } => type_family,
        }
    }

    pub fn type_family(&self) -> (family: Option<SqlTypeFamily>)
        ensures
            family == self.spec_type_family(),
    {
        match self {
            TypedTree::Item(item) => item.type_family(),
            TypedTree::BiOp { type_family, left, op, right } => *type_family,
            TypedTree::UnOp { type_family, op, item } => *type_family,
        }
    }

    /// No leaf of the tree is a column.
    pub open spec fn is_static(self) -> bool
        decreases self,
    {
        match self {
            TypedTree::Item(TypedItem::Column { name, sql_type, index }) => false,
            TypedTree::Item(_) => true,
            TypedTree::BiOp { type_family, left, op, right } => left.is_static()
                && right.is_static(),
            TypedTree::UnOp { type_family, op, item } => item.is_static(),
        }
    }
}

} // verus!
