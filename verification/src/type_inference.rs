//! Assigns a type family to every node of an untyped tree, bottom-up, and
//! checks each binary operator against the families of its operands.

use vstd::prelude::*;
use crate::errors::AnalysisError;
use crate::number::Number;
use crate::operators::{BiOperation, UnOperator};
use crate::typed_tree::{TypedItem, TypedTree, TypedValue};
use crate::types::SqlTypeFamily;
use crate::untyped_tree::{UntypedItem, UntypedTree, UntypedValue};

verus! {

/// The narrowest family that holds a number: `SmallInt`, `Integer` or
/// `BigInt` for a whole number within the 16-bit, 32-bit or 64-bit signed
/// range, and `Real` for every other number.
pub open spec fn spec_number_family(number: Number) -> SqlTypeFamily {
    match number.spec_whole() {
        Some(value) => if i16::MIN <= value <= i16::MAX {
            SqlTypeFamily::SmallInt
        } else if i32::MIN <= value <= i32::MAX {
            SqlTypeFamily::Integer
        } else {
            SqlTypeFamily::BigInt
        },
        None => SqlTypeFamily::Real,
    }
}

/// A constant with its natural family.
pub open spec fn typed_value_of(value: UntypedValue) -> TypedValue {
    match value {
        UntypedValue::Number(number) => TypedValue::Num {
            value: number,
            type_family: spec_number_family(number),
        },
        UntypedValue::String(string) => TypedValue::String(string),
        UntypedValue::Bool(boolean) => TypedValue::Bool(boolean),
        UntypedValue::Null => TypedValue::Null,
    }
}

/// A leaf with its family: a constant's natural family, a column's declared
/// type, and none for a parameter.
pub open spec fn typed_item_of(item: UntypedItem) -> TypedItem {
    match item {
        UntypedItem::Const(value) => TypedItem::Const(typed_value_of(value)),
        UntypedItem::Param(index) => TypedItem::Param { index },
        UntypedItem::Column { name, sql_type, index } => TypedItem::Column { name, sql_type, index },
    }
}

/// The family of a unary operator's result: that of the operand, but for a
/// cast, which gives the family it names.
pub open spec fn spec_unary_family(op: UnOperator, operand: Option<SqlTypeFamily>) -> Option<
    SqlTypeFamily,
> {
    match op {
        UnOperator::Cast(family) => Some(family),
        _ => operand,
    }
}

/// Whether a binary operator takes the two operands: always where the
/// family of either is unconstrained, else where the operator supports the
/// pair.
pub open spec fn spec_accepts(
    op: BiOperation,
    left: Option<SqlTypeFamily>,
    right: Option<SqlTypeFamily>,
) -> bool {
    left.is_none() || right.is_none() || op.spec_supported_type_family(left, right)
}

/// The family of a binary operator's result on operands that it accepts.
/// Arithmetic gives `Real` where either operand is `Real` and `Integer`
/// otherwise; with one operand unconstrained it gives the family of the
/// other, and with both, none. Bitwise operators give `Integer`; all others
/// give `Bool`.
pub open spec fn spec_binary_family(
    op: BiOperation,
    left: Option<SqlTypeFamily>,
    right: Option<SqlTypeFamily>,
) -> Option<SqlTypeFamily> {
    match op {
        BiOperation::Arithmetic(_) => match (left, right) {
            (Some(l), Some(r)) => if l == SqlTypeFamily::Real || r == SqlTypeFamily::Real {
                Some(SqlTypeFamily::Real)
            } else {
                Some(SqlTypeFamily::Integer)
            },
            (Some(l), None) => Some(l),
            (None, Some(r)) => Some(r),
            (None, None) => None,
        },
        BiOperation::Bitwise(_) => Some(SqlTypeFamily::Integer),
        BiOperation::Comparison(_) => Some(SqlTypeFamily::Bool),
        BiOperation::Logical(_) => Some(SqlTypeFamily::Bool),
        BiOperation::PatternMatching(_) => Some(SqlTypeFamily::Bool),
        BiOperation::StringOp(_) => Some(SqlTypeFamily::Bool),
    }
}

/// The node of a binary operator over two typed operands, or the error that
/// names the operator and the two families that it does not support.
pub open spec fn typed_binary_of(left: TypedTree, op: BiOperation, right: TypedTree) -> Result<
    TypedTree,
    AnalysisError,
> {
    let left_family = left.spec_type_family();
    let right_family = right.spec_type_family();
    if spec_accepts(op, left_family, right_family) {
        Ok(
            TypedTree::BiOp {
                type_family: spec_binary_family(op, left_family, right_family),
                left: Box::new(left),
                op,
                right: Box::new(right),
            },
        )
    } else {
        Err(
            AnalysisError::UnsupportedOperation {
                operator: op,
                left: left_family.unwrap(),
                right: right_family.unwrap(),
            },
        )
    }
}

/// The typed tree of an untyped one, or the first error met when operands
/// are taken from left to right and operators from the leaves up.
pub open spec fn typed_tree_of(tree: UntypedTree) -> Result<TypedTree, AnalysisError>
    decreases tree,
{
    match tree {
        UntypedTree::Item(item) => Ok(TypedTree::Item(typed_item_of(item))),
        UntypedTree::UnOp { op, item } => match typed_tree_of(*item) {
            Err(error) => Err(error),
            Ok(item) => Ok(
                TypedTree::UnOp {
                    type_family: spec_unary_family(op, item.spec_type_family()),
                    op,
                    item: Box::new(item),
                },
            ),
        },
        UntypedTree::BiOp { left, op, right } => match typed_tree_of(*left) {
            Err(error) => Err(error),
            Ok(left) => match typed_tree_of(*right) {
                Err(error) => Err(error),
                Ok(right) => typed_binary_of(left, op, right),
            },
        },
    }
}

pub fn number_family(number: &Number) -> (family: SqlTypeFamily)
    ensures
        family == spec_number_family(*number),
{
    match number.whole() {
        Some(value) => if -32768 <= value && value <= 32767 {
            SqlTypeFamily::SmallInt
        } else if -2147483648 <= value && value <= 2147483647 {
            SqlTypeFamily::Integer
        } else {
            SqlTypeFamily::BigInt
        },
        None => SqlTypeFamily::Real,
    }
}

pub fn unary_family(op: UnOperator, operand: Option<SqlTypeFamily>) -> (family: Option<
    SqlTypeFamily,
>)
    ensures
        family == spec_unary_family(op, operand),
{
    match op {
        UnOperator::Cast(family) => Some(family),
        _ => operand,
    }
}

pub fn binary_family(
    op: BiOperation,
    left: Option<SqlTypeFamily>,
    right: Option<SqlTypeFamily>,
) -> (family: Option<SqlTypeFamily>)
    ensures
        family == spec_binary_family(op, left, right),
{
    match op {
        BiOperation::Arithmetic(_) => match (left, right) {
            (Some(l), Some(r)) => if l == SqlTypeFamily::Real || r == SqlTypeFamily::Real {
                Some(SqlTypeFamily::Real)
            } else {
                Some(SqlTypeFamily::Integer)
            },
            (Some(l), None) => Some(l),
            (None, Some(r)) => Some(r),
            (None, None) => None,
        },
        BiOperation::Bitwise(_) => Some(SqlTypeFamily::Integer),
        BiOperation::Comparison(_) => Some(SqlTypeFamily::Bool),
        BiOperation::Logical(_) => Some(SqlTypeFamily::Bool),
        BiOperation::PatternMatching(_) => Some(SqlTypeFamily::Bool),
        BiOperation::StringOp(_) => Some(SqlTypeFamily::Bool),
    }
}

/// Puts a binary operator over two typed operands, where it takes them.
pub fn typed_binary(left: TypedTree, op: BiOperation, right: TypedTree) -> (tree: Result<
    TypedTree,
    AnalysisError,
>)
    ensures
        tree == typed_binary_of(left, op, right),
{
    let left_family = left.type_family();
    let right_family = right.type_family();
    match (left_family, right_family) {
        (Some(l), Some(r)) => {
            if !op.supported_type_family(left_family, right_family) {
                return Err(AnalysisError::unsupported_operation(op, l, r));
            }
        },
        _ => {},
    }
    Ok(
        TypedTree::BiOp {
            type_family: binary_family(op, left_family, right_family),
            left: Box::new(left),
            op,
            right: Box::new(right),
        },
    )
}

/// Infers the families of a tree's nodes.
pub struct TypeInference;

impl Default for TypeInference {
    fn default() -> (inference: TypeInference)
        ensures
            inference == TypeInference,
    {
        TypeInference
    }
}

impl TypeInference {
    /// Types a tree that holds no column; neither does the result.
    pub fn infer_static(&self, tree: UntypedTree) -> (typed: Result<TypedTree, AnalysisError>)
        requires
            tree.is_static(),
        ensures
            typed == typed_tree_of(tree),
            typed matches Ok(typed_tree) ==> typed_tree.is_static(),
    {
        proof {
            lemma_typing_keeps_static(tree);
        }
        self.infer(tree)
    }

    /// Types a tree over the columns of a row: a column keeps the type it
    /// was resolved with.
    pub fn infer_dynamic(&self, tree: UntypedTree) -> (typed: Result<TypedTree, AnalysisError>)
        ensures
            typed == typed_tree_of(tree),
    {
        self.infer(tree)
    }

    fn infer(&self, tree: UntypedTree) -> (typed: Result<TypedTree, AnalysisError>)
        ensures
            typed == typed_tree_of(tree),
        decreases tree,
    {
        match tree {
            UntypedTree::Item(UntypedItem::Const(UntypedValue::Number(number))) => {
                let type_family = number_family(&number);
                Ok(TypedTree::Item(TypedItem::Const(TypedValue::Num { value: number, type_family })))
            },
            UntypedTree::Item(UntypedItem::Const(UntypedValue::String(string))) => Ok(
                TypedTree::Item(TypedItem::Const(TypedValue::String(string))),
            ),
            UntypedTree::Item(UntypedItem::Const(UntypedValue::Bool(boolean))) => Ok(
                TypedTree::Item(TypedItem::Const(TypedValue::Bool(boolean))),
            ),
            UntypedTree::Item(UntypedItem::Const(UntypedValue::Null)) => Ok(
                TypedTree::Item(TypedItem::Const(TypedValue::Null)),
            ),
            UntypedTree::Item(UntypedItem::Param(index)) => Ok(
                TypedTree::Item(TypedItem::Param { index }),
            ),
            UntypedTree::Item(UntypedItem::Column { name, sql_type, index }) => Ok(
                TypedTree::Item(TypedItem::Column { name, sql_type, index }),
            ),
            UntypedTree::UnOp { op, item } => {
                match self.infer(*item) {
                    Err(error) => Err(error),
                    Ok(item) => Ok(
                        TypedTree::UnOp {
                            type_family: unary_family(op, item.type_family()),
                            op,
                            item: Box::new(item),
                        },
                    ),
                }
            },
            UntypedTree::BiOp { left, op, right } => {
                let left = match self.infer(*left) {
                    Err(error) => {
                        return Err(error);
                    },
                    Ok(typed) => typed,
                };
                let right = match self.infer(*right) {
                    Err(error) => {
                        return Err(error);
                    },
                    Ok(typed) => typed,
                };
                typed_binary(left, op, right)
            },
        }
    }
}

/// Typing adds no column: the typed tree of a tree without columns has none.
pub proof fn lemma_typing_keeps_static(tree: UntypedTree)
    requires
        tree.is_static(),
    ensures
        typed_tree_of(tree) matches Ok(typed) ==> typed.is_static(),
    decreases tree,
{
    match tree {
        UntypedTree::BiOp { left, op, right } => {
            lemma_typing_keeps_static(*left);
            lemma_typing_keeps_static(*right);
        },
        UntypedTree::UnOp { op, item } => {
            lemma_typing_keeps_static(*item);
        },
        _ => {},
    }
}

/// The width of a numeric constant: a whole number within the 16-bit range
/// is a `SmallInt`; beyond it and within the 32-bit range, an `Integer`;
/// beyond that and within the 64-bit range, a `BigInt`; a number with a
/// fractional part or beyond the 64-bit range is a `Real`. Typing keeps the
/// number itself.
pub proof fn lemma_number_width(number: Number)
    ensures
        typed_tree_of(UntypedTree::Item(UntypedItem::Const(UntypedValue::Number(number))))
            == Ok::<TypedTree, AnalysisError>(
            TypedTree::Item(
                TypedItem::Const(
                    TypedValue::Num { value: number, type_family: spec_number_family(number) },
                ),
            ),
        ),
        match number {
            Number::Whole(value) => {
                &&& -32768 <= value <= 32767 ==> spec_number_family(number)
                    == SqlTypeFamily::SmallInt
                &&& (-2147483648 <= value < -32768 || 32767 < value <= 2147483647)
                    ==> spec_number_family(number) == SqlTypeFamily::Integer
                &&& (value < -2147483648 || 2147483647 < value) ==> spec_number_family(number)
                    == SqlTypeFamily::BigInt
            },
            Number::Decimal(_) => spec_number_family(number) == SqlTypeFamily::Real,
        },
{
}

/// A binary operator over operands whose families are both known and not
/// a pair that it supports is refused, and the error names the operator and
/// the two families.
pub proof fn lemma_unsupported_pair_is_refused(
    left: UntypedTree,
    op: BiOperation,
    right: UntypedTree,
    left_family: SqlTypeFamily,
    right_family: SqlTypeFamily,
)
    requires
        typed_tree_of(left) matches Ok(typed) && typed.spec_type_family() == Some(left_family),
        typed_tree_of(right) matches Ok(typed) && typed.spec_type_family() == Some(right_family),
        !op.spec_supported_type_family(Some(left_family), Some(right_family)),
    ensures
        typed_tree_of(UntypedTree::BiOp { left: Box::new(left), op, right: Box::new(right) })
            == Err::<TypedTree, AnalysisError>(
            AnalysisError::UnsupportedOperation {
                operator: op,
                left: left_family,
                right: right_family,
            },
        ),
{
}

} // verus!
