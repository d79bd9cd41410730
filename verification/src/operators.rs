//! The closed catalog of binary and unary operators, with the operand
//! families each binary category accepts and the families it can produce.

use vstd::prelude::*;
use crate::types::SqlTypeFamily;

verus! {

#[derive(Debug, PartialEq, Eq, Structural, Copy, Clone)]
pub enum BiArithmetic {
    Add,
    Sub,
    Mul,
    Div,
    Mod,
    Exp,
}

#[derive(Debug, PartialEq, Eq, Structural, Copy, Clone)]
pub enum Comparison {
    NotEq,
    Eq,
    LtEq,
    GtEq,
    Lt,
    Gt,
}

#[derive(Debug, PartialEq, Eq, Structural, Copy, Clone)]
pub enum Bitwise {
    ShiftRight,
    ShiftLeft,
    Xor,
    And,
    Or,
}

#[derive(Debug, PartialEq, Eq, Structural, Copy, Clone)]
pub enum BiLogical {
    Or,
    And,
}

#[derive(Debug, PartialEq, Eq, Structural, Copy, Clone)]
pub enum PatternMatching {
    Like,
    NotLike,
}

#[derive(Debug, PartialEq, Eq, Structural, Copy, Clone)]
pub enum StringOp {
    Concat,
}

#[derive(Debug, PartialEq, Eq, Structural, Copy, Clone)]
pub enum BiOperation {
    Arithmetic(BiArithmetic),
    Comparison(Comparison),
    Bitwise(Bitwise),
    Logical(BiLogical),
    PatternMatching(PatternMatching),
    StringOp(StringOp),
}

impl BiOperation {
    /// The families an operator of this category can ever produce, in the
    /// order in which they are preferred.
    pub open spec fn spec_resulted_types(self) -> Seq<SqlTypeFamily> {
        match self {
            BiOperation::Arithmetic(_) => seq![SqlTypeFamily::Integer, SqlTypeFamily::Real],
            BiOperation::Comparison(_) => seq![SqlTypeFamily::Bool],
            BiOperation::Bitwise(_) => seq![SqlTypeFamily::Integer],
            BiOperation::Logical(_) => seq![SqlTypeFamily::Bool],
            BiOperation::PatternMatching(_) => seq![SqlTypeFamily::Bool],
            BiOperation::StringOp(_) => seq![SqlTypeFamily::Bool],
        }
    }

    /// Whether the pair of operand families is legal for this operator. An
    /// unconstrained operand (`None`) is never part of a supported pair.
    pub open spec fn spec_supported_type_family(
        self,
        left: Option<SqlTypeFamily>,
        right: Option<SqlTypeFamily>,
    ) -> bool {
        match self {
            BiOperation::Arithmetic(_) => {
                &&& (left == Some(SqlTypeFamily::Integer) || left == Some(SqlTypeFamily::Real))
                &&& (right == Some(SqlTypeFamily::Integer) || right == Some(SqlTypeFamily::Real))
            },
            BiOperation::Comparison(_) => left.is_some() && left == right,
            BiOperation::Bitwise(_) => {
                left == Some(SqlTypeFamily::Integer) && right == Some(SqlTypeFamily::Integer)
            },
            BiOperation::Logical(_) => {
                left == Some(SqlTypeFamily::Bool) && right == Some(SqlTypeFamily::Bool)
            },
            BiOperation::PatternMatching(_) => {
                left == Some(SqlTypeFamily::String) && right == Some(SqlTypeFamily::String)
            },
            BiOperation::StringOp(_) => {
                left == Some(SqlTypeFamily::String) && right == Some(SqlTypeFamily::String)
            },
        }
    }

    pub fn resulted_types(&self) -> (families: Vec<SqlTypeFamily>)
        ensures
            families@ == self.spec_resulted_types(),
    {
        let families = match self {
            BiOperation::Arithmetic(_) => vec![SqlTypeFamily::Integer, SqlTypeFamily::Real],
            BiOperation::Comparison(_) => vec![SqlTypeFamily::Bool],
            BiOperation::Bitwise(_) => vec![SqlTypeFamily::Integer],
            BiOperation::Logical(_) => vec![SqlTypeFamily::Bool],
            BiOperation::PatternMatching(_) => vec![SqlTypeFamily::Bool],
            BiOperation::StringOp(_) => vec![SqlTypeFamily::Bool],
        };
        assert(families@ =~= self.spec_resulted_types());
        families
    }

    pub fn supported_type_family(
        &self,
        left: Option<SqlTypeFamily>,
        right: Option<SqlTypeFamily>,
    ) -> (supported: bool)
        ensures
            supported == self.spec_supported_type_family(left, right),
    {
        match self {
            BiOperation::Arithmetic(_) => is_family(left, SqlTypeFamily::Integer) && is_family(
                right,
                SqlTypeFamily::Integer,
            ) || is_family(left, SqlTypeFamily::Real) && is_family(right, SqlTypeFamily::Integer)
                || is_family(left, SqlTypeFamily::Integer) && is_family(right, SqlTypeFamily::Real)
                || is_family(left, SqlTypeFamily::Real) && is_family(right, SqlTypeFamily::Real),
            BiOperation::Comparison(_) => match (left, right) {
                (Some(l), Some(r)) => l == r,
                _ => false,
            },
            BiOperation::Bitwise(_) => is_family(left, SqlTypeFamily::Integer) && is_family(
                right,
                SqlTypeFamily::Integer,
            ),
            BiOperation::Logical(_) => is_family(left, SqlTypeFamily::Bool) && is_family(
                right,
                SqlTypeFamily::Bool,
            ),
            BiOperation::PatternMatching(_) => is_family(left, SqlTypeFamily::String) && is_family(
                right,
                SqlTypeFamily::String,
            ),
            BiOperation::StringOp(_) => is_family(left, SqlTypeFamily::String) && is_family(
                right,
                SqlTypeFamily::String,
            ),
        }
    }
}

/// Whether an operand's family is known and is `family`.
fn is_family(operand: Option<SqlTypeFamily>, family: SqlTypeFamily) -> (same: bool)
    ensures
        same == (operand == Some(family)),
{
    match operand {
        Some(known) => known == family,
        None => false,
    }
}

#[derive(Debug, PartialEq, Eq, Structural, Copy, Clone)]
pub enum UnArithmetic {
    Neg,
    Pos,
    SquareRoot,
    CubeRoot,
    Factorial,
    Abs,
}

impl UnArithmetic {
    /// The operator as SQL text writes it.
    pub open spec fn spec_symbol(self) -> &'static str {
        match self {
            UnArithmetic::Neg => "-",
            UnArithmetic::Pos => "+",
            UnArithmetic::SquareRoot => "|/",
            UnArithmetic::CubeRoot => "||/",
            UnArithmetic::Factorial => "!",
            UnArithmetic::Abs => "@",
        }
    }

    pub fn symbol(&self) -> (text: &'static str)
        ensures
            text == self.spec_symbol(),
    {
        match self {
            UnArithmetic::Neg => "-",
            UnArithmetic::Pos => "+",
            UnArithmetic::SquareRoot => "|/",
            UnArithmetic::CubeRoot => "||/",
            UnArithmetic::Factorial => "!",
            UnArithmetic::Abs => "@",
        }
    }

    /// The operator's symbol as an owned string.
    pub fn to_string(&self) -> (text: String)
        ensures
            text@ == self.spec_symbol()@,
    {
        self.symbol().to_owned()
    }
}

#[derive(Debug, PartialEq, Eq, Structural, Copy, Clone)]
pub enum UnOperator {
    Arithmetic(UnArithmetic),
    LogicalNot,
    BitwiseNot,
    /// A cast to the family of the requested type.
    Cast(SqlTypeFamily),
}

impl UnOperator {
    /// The operator as SQL text writes it.
    pub open spec fn spec_symbol(self) -> &'static str {
        match self {
            UnOperator::Arithmetic(op) => op.spec_symbol(),
            UnOperator::LogicalNot => "NOT",
            UnOperator::BitwiseNot => "~",
            UnOperator::Cast(_) => "::",
        }
    }

    pub fn symbol(&self) -> (text: &'static str)
        ensures
            text == self.spec_symbol(),
    {
        match self {
            UnOperator::Arithmetic(op) => op.symbol(),
            UnOperator::LogicalNot => "NOT",
            UnOperator::BitwiseNot => "~",
            UnOperator::Cast(_) => "::",
        }
    }

    /// The operator's symbol as an owned string.
    pub fn to_string(&self) -> (text: String)
        ensures
            text@ == self.spec_symbol()@,
    {
        self.symbol().to_owned()
    }
}

} // verus!
