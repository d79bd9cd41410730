//! Builds untyped expression trees from the parser's syntax trees, with or
//! without the columns of a row to resolve column names against.

use vstd::prelude::*;
use crate::ast::{BinaryOperator, DataType, Expr, UnaryOperator, Value};
use crate::definition::ColumnDef;
use crate::errors::AnalysisError;
use crate::number::Number;
use crate::operators::{
    BiArithmetic, BiLogical, BiOperation, Bitwise, Comparison, PatternMatching, StringOp,
    UnArithmetic, UnOperator,
};
use crate::types::SqlType;
use crate::untyped_tree::{UntypedItem, UntypedTree, UntypedValue};

verus! {

/// The text in lower case, as `str::to_lowercase` gives it.
pub uninterp spec fn lowercase(text: Seq<char>) -> Seq<char>;

/// Calls `str::to_lowercase`. Not proved: the result is only named, by
/// `lowercase`.
#[verifier::external_body]
fn to_lowercase(text: &str) -> (lower: String)
    ensures
        lower@ == lowercase(text@),
{
    text.to_lowercase()
}

/// The operator of the catalog that a binary operator of the syntax stands
/// for.
pub open spec fn spec_binary_operation(op: BinaryOperator) -> BiOperation {
    match op {
        BinaryOperator::Plus => BiOperation::Arithmetic(BiArithmetic::Add),
        BinaryOperator::Minus => BiOperation::Arithmetic(BiArithmetic::Sub),
        BinaryOperator::Multiply => BiOperation::Arithmetic(BiArithmetic::Mul),
        BinaryOperator::Divide => BiOperation::Arithmetic(BiArithmetic::Div),
        BinaryOperator::Modulus => BiOperation::Arithmetic(BiArithmetic::Mod),
        BinaryOperator::Exp => BiOperation::Arithmetic(BiArithmetic::Exp),
        BinaryOperator::StringConcat => BiOperation::StringOp(StringOp::Concat),
        BinaryOperator::Gt => BiOperation::Comparison(Comparison::Gt),
        BinaryOperator::Lt => BiOperation::Comparison(Comparison::Lt),
        BinaryOperator::GtEq => BiOperation::Comparison(Comparison::GtEq),
        BinaryOperator::LtEq => BiOperation::Comparison(Comparison::LtEq),
        BinaryOperator::Eq => BiOperation::Comparison(Comparison::Eq),
        BinaryOperator::NotEq => BiOperation::Comparison(Comparison::NotEq),
        BinaryOperator::And => BiOperation::Logical(BiLogical::And),
        BinaryOperator::Or => BiOperation::Logical(BiLogical::Or),
        BinaryOperator::Like => BiOperation::PatternMatching(PatternMatching::Like),
        BinaryOperator::NotLike => BiOperation::PatternMatching(PatternMatching::NotLike),
        BinaryOperator::BitwiseOr => BiOperation::Bitwise(Bitwise::Or),
        BinaryOperator::BitwiseAnd => BiOperation::Bitwise(Bitwise::And),
        BinaryOperator::BitwiseXor => BiOperation::Bitwise(Bitwise::Xor),
        BinaryOperator::BitwiseShiftLeft => BiOperation::Bitwise(Bitwise::ShiftLeft),
        BinaryOperator::BitwiseShiftRight => BiOperation::Bitwise(Bitwise::ShiftRight),
    }
}

pub fn binary_operation(op: BinaryOperator) -> (operation: BiOperation)
    ensures
        operation == spec_binary_operation(op),
{
    match op {
        BinaryOperator::Plus => BiOperation::Arithmetic(BiArithmetic::Add),
        BinaryOperator::Minus => BiOperation::Arithmetic(BiArithmetic::Sub),
        BinaryOperator::Multiply => BiOperation::Arithmetic(BiArithmetic::Mul),
        BinaryOperator::Divide => BiOperation::Arithmetic(BiArithmetic::Div),
        BinaryOperator::Modulus => BiOperation::Arithmetic(BiArithmetic::Mod),
        BinaryOperator::Exp => BiOperation::Arithmetic(BiArithmetic::Exp),
        BinaryOperator::StringConcat => BiOperation::StringOp(StringOp::Concat),
        BinaryOperator::Gt => BiOperation::Comparison(Comparison::Gt),
        BinaryOperator::Lt => BiOperation::Comparison(Comparison::Lt),
        BinaryOperator::GtEq => BiOperation::Comparison(Comparison::GtEq),
        BinaryOperator::LtEq => BiOperation::Comparison(Comparison::LtEq),
        BinaryOperator::Eq => BiOperation::Comparison(Comparison::Eq),
        BinaryOperator::NotEq => BiOperation::Comparison(Comparison::NotEq),
        BinaryOperator::And => BiOperation::Logical(BiLogical::And),
        BinaryOperator::Or => BiOperation::Logical(BiLogical::Or),
        BinaryOperator::Like => BiOperation::PatternMatching(PatternMatching::Like),
        BinaryOperator::NotLike => BiOperation::PatternMatching(PatternMatching::NotLike),
        BinaryOperator::BitwiseOr => BiOperation::Bitwise(Bitwise::Or),
        BinaryOperator::BitwiseAnd => BiOperation::Bitwise(Bitwise::And),
        BinaryOperator::BitwiseXor => BiOperation::Bitwise(Bitwise::Xor),
        BinaryOperator::BitwiseShiftLeft => BiOperation::Bitwise(Bitwise::ShiftLeft),
        BinaryOperator::BitwiseShiftRight => BiOperation::Bitwise(Bitwise::ShiftRight),
    }
}

/// The operator of the catalog that a unary operator of the syntax stands
/// for.
pub open spec fn spec_unary_operation(op: UnaryOperator) -> UnOperator {
    match op {
        UnaryOperator::Minus => UnOperator::Arithmetic(UnArithmetic::Neg),
        UnaryOperator::Plus => UnOperator::Arithmetic(UnArithmetic::Pos),
        UnaryOperator::Not => UnOperator::LogicalNot,
        UnaryOperator::BitwiseNot => UnOperator::BitwiseNot,
        UnaryOperator::Cbrt => UnOperator::Arithmetic(UnArithmetic::CubeRoot),
        UnaryOperator::Sqrt => UnOperator::Arithmetic(UnArithmetic::SquareRoot),
        UnaryOperator::Factorial => UnOperator::Arithmetic(UnArithmetic::Factorial),
        UnaryOperator::Abs => UnOperator::Arithmetic(UnArithmetic::Abs),
    }
}

pub fn unary_operation(op: UnaryOperator) -> (operation: UnOperator)
    ensures
        operation == spec_unary_operation(op),
{
    match op {
        UnaryOperator::Minus => UnOperator::Arithmetic(UnArithmetic::Neg),
        UnaryOperator::Plus => UnOperator::Arithmetic(UnArithmetic::Pos),
        UnaryOperator::Not => UnOperator::LogicalNot,
        UnaryOperator::BitwiseNot => UnOperator::BitwiseNot,
        UnaryOperator::Cbrt => UnOperator::Arithmetic(UnArithmetic::CubeRoot),
        UnaryOperator::Sqrt => UnOperator::Arithmetic(UnArithmetic::SquareRoot),
        UnaryOperator::Factorial => UnOperator::Arithmetic(UnArithmetic::Factorial),
        UnaryOperator::Abs => UnOperator::Arithmetic(UnArithmetic::Abs),
    }
}

/// The SQL type that a type of the syntax names. A `VARCHAR` without a
/// length gets the longest one.
pub open spec fn spec_sql_type(data_type: DataType) -> SqlType {
    match data_type {
        DataType::SmallInt => SqlType::SmallInt,
        DataType::Int => SqlType::Integer,
        DataType::BigInt => SqlType::BigInt,
        DataType::Char(len) => SqlType::Char(len as u64),
        DataType::VarChar(Some(len)) => SqlType::VarChar(len as u64),
        DataType::VarChar(None) => SqlType::VarChar(255),
        DataType::Real => SqlType::Real,
        DataType::Double => SqlType::DoublePrecision,
        DataType::Bool => SqlType::Bool,
    }
}

pub fn sql_type(data_type: DataType) -> (sql_type: SqlType)
    ensures
        sql_type == spec_sql_type(data_type),
{
    match data_type {
        DataType::SmallInt => SqlType::SmallInt,
        DataType::Int => SqlType::Integer,
        DataType::BigInt => SqlType::BigInt,
        DataType::Char(len) => SqlType::Char(len as u64),
        DataType::VarChar(Some(len)) => SqlType::VarChar(len as u64),
        DataType::VarChar(None) => SqlType::VarChar(255),
        DataType::Real => SqlType::Real,
        DataType::Double => SqlType::DoublePrecision,
        DataType::Bool => SqlType::Bool,
    }
}

/// The constant that a literal of the syntax denotes.
pub open spec fn constant_of(value: Value) -> UntypedValue {
    match value {
        Value::Int(num) => UntypedValue::Number(Number::Whole(num as i64)),
        Value::String(string) => UntypedValue::String(string),
        Value::Boolean(boolean) => UntypedValue::Bool(boolean),
        Value::Null => UntypedValue::Null,
        Value::Number(num) => UntypedValue::Number(Number::of_literal(num)),
    }
}

/// Whether a reference names the column, whatever the case of either.
pub open spec fn names_column(reference: Seq<char>, column: ColumnDef) -> bool {
    lowercase(column.name@) == lowercase(reference)
}

/// The position of the first column at or after `from` that the reference
/// names.
pub open spec fn column_position(reference: Seq<char>, columns: Seq<ColumnDef>, from: int) -> Option<
    int,
>
    decreases columns.len() - from,
{
    if from < 0 || from >= columns.len() {
        None
    } else if names_column(reference, columns[from]) {
        Some(from)
    } else {
        column_position(reference, columns, from + 1)
    }
}

/// The leaf that a column reference resolves to among the columns of a row.
pub open spec fn resolved_column(reference: String, columns: Seq<ColumnDef>) -> Result<
    UntypedTree,
    AnalysisError,
> {
    match column_position(reference@, columns, 0) {
        Some(index) => Ok(
            UntypedTree::Item(
                UntypedItem::Column {
                    name: columns[index].name,
                    sql_type: columns[index].sql_type,
                    index: index as usize,
                },
            ),
        ),
        None => Err(AnalysisError::ColumnNotFound(reference)),
    }
}

/// The untyped tree of a syntax tree, or the first error met when its
/// operands are taken from left to right. `columns` are those of the row,
/// where there is one.
pub open spec fn untyped_tree_of(expr: Expr, columns: Option<Seq<ColumnDef>>) -> Result<
    UntypedTree,
    AnalysisError,
>
    decreases expr,
{
    match expr {
        Expr::Value(value) => Ok(UntypedTree::Item(UntypedItem::Const(constant_of(value)))),
        Expr::Column(name) => match columns {
            None => Err(AnalysisError::ColumnCannotBeReferenced(name)),
            Some(columns) => resolved_column(name, columns),
        },
        Expr::BinaryOp { left, op, right } => match untyped_tree_of(*left, columns) {
            Err(error) => Err(error),
            Ok(left) => match untyped_tree_of(*right, columns) {
                Err(error) => Err(error),
                Ok(right) => Ok(
                    UntypedTree::BiOp {
                        left: Box::new(left),
                        op: spec_binary_operation(op),
                        right: Box::new(right),
                    },
                ),
            },
        },
        Expr::UnaryOp { op, expr } => match untyped_tree_of(*expr, columns) {
            Err(error) => Err(error),
            Ok(item) => Ok(
                UntypedTree::UnOp { op: spec_unary_operation(op), item: Box::new(item) },
            ),
        },
        Expr::Cast { expr, data_type } => match untyped_tree_of(*expr, columns) {
            Err(error) => Err(error),
            Ok(item) => Ok(
                UntypedTree::UnOp {
                    op: UnOperator::Cast(spec_sql_type(data_type).spec_family()),
                    item: Box::new(item),
                },
            ),
        },
        Expr::Param(index) => Ok(UntypedTree::Item(UntypedItem::Param((index - 1) as usize))),
    }
}

/// The columns of the row as a sequence, where there is a row.
pub open spec fn row_context(columns: Option<&[ColumnDef]>) -> Option<Seq<ColumnDef>> {
    match columns {
        Some(columns) => Some(columns@),
        None => None,
    }
}

/// The constant of a literal. A number has to be the literal of one: see
/// `Expr::well_formed`.
pub fn value(literal: Value) -> (constant: UntypedValue)
    requires
        Expr::Value(literal).well_formed(),
    ensures
        constant == constant_of(literal),
        constant.well_formed(),
{
    match literal {
        Value::Int(num) => UntypedValue::Number(Number::from_i64(num as i64)),
        Value::String(string) => UntypedValue::String(string),
        Value::Boolean(boolean) => UntypedValue::Bool(boolean),
        Value::Null => UntypedValue::Null,
        Value::Number(num) => UntypedValue::Number(Number::from_literal(num)),
    }
}

/// Resolves a column reference against the columns of a row: the first
/// column that has the name, whatever the case, with its declared name and
/// type and its position.
pub fn ident(reference: String, table_columns: &[ColumnDef]) -> (tree: Result<
    UntypedTree,
    AnalysisError,
>)
    ensures
        tree == resolved_column(reference, table_columns@),
{
    let wanted = to_lowercase(reference.as_str());
    let mut index: usize = 0;
    while index < table_columns.len()
        invariant
            index <= table_columns@.len(),
            wanted@ == lowercase(reference@),
            column_position(reference@, table_columns@, 0) == column_position(
                reference@,
                table_columns@,
                index as int,
            ),
        decreases table_columns@.len() - index,
    {
        let table_column = &table_columns[index];
        let column_name = to_lowercase(table_column.name());
        if column_name == wanted {
            return Ok(
                UntypedTree::Item(
                    UntypedItem::Column {
                        name: table_column.name.clone(),
                        sql_type: table_column.sql_type(),
                        index,
                    },
                ),
            );
        }
        index += 1;
    }
    Err(AnalysisError::column_not_found(reference))
}

/// Builds the tree of an expression; `table_columns` are the columns of the
/// row, where there is one.
pub fn inner_build(root_expr: Expr, table_columns: Option<&[ColumnDef]>) -> (tree: Result<
    UntypedTree,
    AnalysisError,
>)
    requires
        root_expr.well_formed(),
    ensures
        tree == untyped_tree_of(root_expr, row_context(table_columns)),
    decreases root_expr.size(), 1int,
{
    match root_expr {
        Expr::Value(literal) => Ok(UntypedTree::Item(UntypedItem::Const(value(literal)))),
        Expr::Column(name) => match table_columns {
            None => Err(AnalysisError::column_cant_be_referenced(name)),
            Some(columns) => ident(name, columns),
        },
        Expr::BinaryOp { left, op, right } => binary_op(op, *left, *right, table_columns),
        Expr::UnaryOp { op, expr } => {
            match inner_build(*expr, table_columns) {
                Err(error) => Err(error),
                Ok(item) => Ok(UntypedTree::UnOp { op: unary_operation(op), item: Box::new(item) }),
            }
        },
        Expr::Cast { expr, data_type } => {
            match inner_build(*expr, table_columns) {
                Err(error) => Err(error),
                Ok(item) => Ok(
                    UntypedTree::UnOp {
                        op: UnOperator::Cast(sql_type(data_type).family()),
                        item: Box::new(item),
                    },
                ),
            }
        },
        Expr::Param(index) => Ok(UntypedTree::Item(UntypedItem::Param((index - 1) as usize))),
    }
}

/// Builds the node of a binary operator: the left operand first, and the
/// right one only where the left one gave no error.
pub fn binary_op(
    operator: BinaryOperator,
    left: Expr,
    right: Expr,
    table_columns: Option<&[ColumnDef]>,
) -> (tree: Result<UntypedTree, AnalysisError>)
    requires
        left.well_formed(),
        right.well_formed(),
    ensures
        tree == untyped_tree_of(
            Expr::BinaryOp { left: Box::new(left), op: operator, right: Box::new(right) },
            row_context(table_columns),
        ),
    decreases 1 + left.size() + right.size(), 0int,
{
    let left = match inner_build(left, table_columns) {
        Err(error) => {
            return Err(error);
        },
        Ok(tree) => tree,
    };
    let right = match inner_build(right, table_columns) {
        Err(error) => {
            return Err(error);
        },
        Ok(tree) => tree,
    };
    Ok(UntypedTree::BiOp { left: Box::new(left), op: binary_operation(operator), right: Box::new(right) })
}

/// Builds trees where there is no row: a column cannot be referenced.
pub struct StaticTreeBuilder;

impl StaticTreeBuilder {
    /// The tree of an expression that the parser vouches for.
    pub fn build_from(root_expr: Expr) -> (tree: Result<UntypedTree, AnalysisError>)
        requires
            root_expr.well_formed(),
        ensures
            tree == untyped_tree_of(root_expr, None),
            tree matches Ok(built) ==> built.is_static(),
    {
        proof {
            lemma_static_tree_has_no_column(root_expr);
        }
        inner_build(root_expr, None)
    }

    /// The tree of any expression: `None` where the expression is not what
    /// the parser guarantees.
    pub fn try_build_from(root_expr: Expr) -> (tree: Option<Result<UntypedTree, AnalysisError>>)
        ensures
            tree == if root_expr.well_formed() {
                Some(untyped_tree_of(root_expr, None))
            } else {
                None
            },
    {
        if root_expr.is_well_formed() {
            Some(StaticTreeBuilder::build_from(root_expr))
        } else {
            None
        }
    }
}

/// Builds trees against the columns of a row.
pub struct DynamicTreeBuilder;

impl DynamicTreeBuilder {
    /// The tree of an expression that the parser vouches for.
    pub fn build_from(root_expr: Expr, table_columns: &[ColumnDef]) -> (tree: Result<
        UntypedTree,
        AnalysisError,
    >)
        requires
            root_expr.well_formed(),
        ensures
            tree == untyped_tree_of(root_expr, Some(table_columns@)),
    {
        inner_build(root_expr, Some(table_columns))
    }

    /// The tree of any expression: `None` where the expression is not what
    /// the parser guarantees.
    pub fn try_build_from(root_expr: Expr, table_columns: &[ColumnDef]) -> (tree: Option<
        Result<UntypedTree, AnalysisError>,
    >)
        ensures
            tree == if root_expr.well_formed() {
                Some(untyped_tree_of(root_expr, Some(table_columns@)))
            } else {
                None
            },
    {
        if root_expr.is_well_formed() {
            Some(DynamicTreeBuilder::build_from(root_expr, table_columns))
        } else {
            None
        }
    }
}

/// A tree built without a row holds no column.
pub proof fn lemma_static_tree_has_no_column(expr: Expr)
    ensures
        untyped_tree_of(expr, None) matches Ok(tree) ==> tree.is_static(),
    decreases expr,
{
    match expr {
        Expr::BinaryOp { left, op, right } => {
            lemma_static_tree_has_no_column(*left);
            lemma_static_tree_has_no_column(*right);
        },
        Expr::UnaryOp { op, expr } => {
            lemma_static_tree_has_no_column(*expr);
        },
        Expr::Cast { expr, data_type } => {
            lemma_static_tree_has_no_column(*expr);
        },
        _ => {},
    }
}

/// Without a row, a column reference of any name is refused, and the error
/// names it.
pub proof fn lemma_static_column_is_refused(name: String)
    ensures
        untyped_tree_of(Expr::Column(name), None) == Err::<UntypedTree, AnalysisError>(
            AnalysisError::ColumnCannotBeReferenced(name),
        ),
{
}

/// What `column_position` finds from `from` on is the first column there
/// that the reference names; it finds none only where there is none.
pub proof fn lemma_column_position(reference: Seq<char>, columns: Seq<ColumnDef>, from: int)
    requires
        0 <= from <= columns.len(),
    ensures
        match column_position(reference, columns, from) {
            Some(index) => {
                &&& from <= index < columns.len()
                &&& names_column(reference, columns[index])
                &&& forall|earlier: int|
                    from <= earlier < index ==> !names_column(reference, #[trigger] columns[earlier])
            },
            None => forall|index: int|
                from <= index < columns.len() ==> !names_column(reference, #[trigger] columns[index]),
        },
    decreases columns.len() - from,
{
    if from < columns.len() && !names_column(reference, columns[from]) {
        lemma_column_position(reference, columns, from + 1);
    }
}

/// A reference that differs from a column's name in case alone resolves:
/// to the declared name, type and position of the first column that it
/// names.
pub proof fn lemma_case_varied_reference_resolves(
    reference: String,
    columns: Seq<ColumnDef>,
    position: int,
)
    requires
        0 <= position < columns.len(),
        columns.len() <= usize::MAX,
        lowercase(reference@) == lowercase(columns[position].name@),
    ensures
        resolved_column(reference, columns) matches Ok(
            UntypedTree::Item(UntypedItem::Column { name, sql_type, index }),
        ) && index <= position && names_column(reference@, columns[index as int]) && name
            == columns[index as int].name && sql_type == columns[index as int].sql_type,
        (forall|earlier: int|
            0 <= earlier < position ==> !names_column(reference@, #[trigger] columns[earlier]))
            ==> resolved_column(reference, columns) == Ok::<UntypedTree, AnalysisError>(
            UntypedTree::Item(
                UntypedItem::Column {
                    name: columns[position].name,
                    sql_type: columns[position].sql_type,
                    index: position as usize,
                },
            ),
        ),
{
    lemma_column_position(reference@, columns, 0);
}

} // verus!
