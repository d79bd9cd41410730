//! The expression syntax tree that the parser hands over.

use vstd::prelude::*;
use crate::number::Number;

verus! {

#[derive(Debug, PartialEq, Eq, Clone)]
pub enum Value {
    Int(i32),
    /// A number in decimal text, as it was written.
    Number(String),
    String(String),
    Boolean(bool),
    Null,
}

#[derive(Debug, PartialEq, Eq, Structural, Clone, Copy)]
pub enum BinaryOperator {
    Plus,
    Minus,
    Multiply,
    Divide,
    Modulus,
    Exp,
    StringConcat,
    Gt,
    Lt,
    GtEq,
    LtEq,
    Eq,
    NotEq,
    And,
    Or,
    Like,
    NotLike,
    BitwiseOr,
    BitwiseAnd,
    BitwiseXor,
    BitwiseShiftLeft,
    BitwiseShiftRight,
}

#[derive(Debug, PartialEq, Eq, Structural, Clone, Copy)]
pub enum UnaryOperator {
    Minus,
    Plus,
    Not,
    BitwiseNot,
    Cbrt,
    Sqrt,
    Factorial,
    Abs,
}

#[derive(Debug, PartialEq, Eq, Structural, Clone, Copy)]
pub enum DataType {
    SmallInt,
    Int,
    BigInt,
    Char(u32),
    VarChar(Option<u32>),
    Real,
    Double,
    Bool,
}

#[derive(Debug, PartialEq, Eq)]
pub enum Expr {
    Value(Value),
    Column(String),
    BinaryOp { left: Box<Expr>, op: BinaryOperator, right: Box<Expr> },
    UnaryOp { op: UnaryOperator, expr: Box<Expr> },
    Cast { expr: Box<Expr>, data_type: DataType },
    /// A positional parameter `$n`, counted from 1.
    Param(u32),
}

impl Expr {
    /// The number of nodes of the tree.
    pub open spec fn size(self) -> nat
        decreases self,
    {
        match self {
            Expr::BinaryOp { left, op, right } => 1 + left.size() + right.size(),
            Expr::UnaryOp { op, expr } => 1 + expr.size(),
            Expr::Cast { expr, data_type } => 1 + expr.size(),
            _ => 1,
        }
    }

    /// What the parser guarantees of a tree: every number is the literal of
    /// a number and every parameter is counted from 1.
    pub open spec fn well_formed(self) -> bool
        decreases self,
    {
        match self {
            Expr::Value(Value::Number(text)) => Number::is_literal(text@),
            Expr::Value(_) => true,
            Expr::Column(_) => true,
            Expr::BinaryOp { left, op, right } => left.well_formed() && right.well_formed(),
            Expr::UnaryOp { op, expr } => expr.well_formed(),
            Expr::Cast { expr, data_type } => expr.well_formed(),
            Expr::Param(index) => index >= 1,
        }
    }

    /// Tests what the parser guarantees of a tree.
    pub fn is_well_formed(&self) -> (ok: bool)
        ensures
            ok == self.well_formed(),
        decreases self,
    {
        match self {
            Expr::Value(Value::Number(text)) => Number::is_valid_literal(text.as_str()),
            Expr::Value(_) => true,
            Expr::Column(_) => true,
            Expr::BinaryOp { left, op, right } => left.is_well_formed() && right.is_well_formed(),
            Expr::UnaryOp { op, expr } => expr.is_well_formed(),
            Expr::Cast { expr, data_type } => expr.is_well_formed(),
            Expr::Param(index) => *index >= 1,
        }
    }
}

} // verus!
