use sql_engine::ast::{BinaryOperator, DataType, Expr, UnaryOperator, Value};
use sql_engine::definition::ColumnDef;
use sql_engine::errors::AnalysisError;
use sql_engine::number::Number;
use sql_engine::operators::{BiArithmetic, BiOperation, Comparison, UnArithmetic, UnOperator};
use sql_engine::tree_builder::{DynamicTreeBuilder, StaticTreeBuilder};
use sql_engine::types::{SqlType, SqlTypeFamily};
use sql_engine::untyped_tree::{UntypedItem, UntypedTree, UntypedValue};

fn columns() -> Vec<ColumnDef> {
    vec![
        ColumnDef::new("id".to_owned(), SqlType::Integer),
        ColumnDef::new("Col".to_owned(), SqlType::Bool),
        ColumnDef::new("col".to_owned(), SqlType::SmallInt),
    ]
}

fn constant(value: UntypedValue) -> UntypedTree {
    UntypedTree::Item(UntypedItem::Const(value))
}

#[test]
fn static_column_cannot_be_referenced() {
    assert_eq!(
        StaticTreeBuilder::build_from(Expr::Column("col".to_owned())),
        Err(AnalysisError::ColumnCannotBeReferenced("col".to_owned()))
    );
    assert_eq!(
        StaticTreeBuilder::build_from(Expr::Column("".to_owned())),
        Err(AnalysisError::ColumnCannotBeReferenced("".to_owned()))
    );
}

#[test]
fn static_column_inside_an_operation_cannot_be_referenced() {
    let expr = Expr::BinaryOp {
        left: Box::new(Expr::Value(Value::Int(1))),
        op: BinaryOperator::Plus,
        right: Box::new(Expr::UnaryOp { op: UnaryOperator::Minus, expr: Box::new(Expr::Column("x".to_owned())) }),
    };
    assert_eq!(
        StaticTreeBuilder::build_from(expr),
        Err(AnalysisError::ColumnCannotBeReferenced("x".to_owned()))
    );
}

#[test]
fn case_varied_reference_resolves_to_declared_column() {
    assert_eq!(
        DynamicTreeBuilder::build_from(Expr::Column("COL".to_owned()), &columns()),
        Ok(UntypedTree::Item(UntypedItem::Column {
            name: "Col".to_owned(),
            sql_type: SqlType::Bool,
            index: 1
        }))
    );
    assert_eq!(
        DynamicTreeBuilder::build_from(Expr::Column("Id".to_owned()), &columns()),
        Ok(UntypedTree::Item(UntypedItem::Column {
            name: "id".to_owned(),
            sql_type: SqlType::Integer,
            index: 0
        }))
    );
}

#[test]
fn first_matching_column_wins() {
    assert_eq!(
        DynamicTreeBuilder::build_from(Expr::Column("col".to_owned()), &columns()),
        Ok(UntypedTree::Item(UntypedItem::Column {
            name: "Col".to_owned(),
            sql_type: SqlType::Bool,
            index: 1
        }))
    );
}

#[test]
fn unknown_column_is_not_found() {
    assert_eq!(
        DynamicTreeBuilder::build_from(Expr::Column("Missing".to_owned()), &columns()),
        Err(AnalysisError::ColumnNotFound("Missing".to_owned()))
    );
    assert_eq!(
        DynamicTreeBuilder::build_from(Expr::Column("col".to_owned()), &[]),
        Err(AnalysisError::ColumnNotFound("col".to_owned()))
    );
}

#[test]
fn literals_become_constants() {
    assert_eq!(
        StaticTreeBuilder::build_from(Expr::Value(Value::Int(5))),
        Ok(constant(UntypedValue::Number(Number::Whole(5))))
    );
    assert_eq!(
        StaticTreeBuilder::build_from(Expr::Value(Value::Number("2.50".to_owned()))),
        Ok(constant(UntypedValue::Number(Number::Decimal("2.50".to_owned()))))
    );
    assert_eq!(
        StaticTreeBuilder::build_from(Expr::Value(Value::Number("40000".to_owned()))),
        Ok(constant(UntypedValue::Number(Number::Whole(40000))))
    );
    assert_eq!(
        StaticTreeBuilder::build_from(Expr::Value(Value::String("abc".to_owned()))),
        Ok(constant(UntypedValue::String("abc".to_owned())))
    );
    assert_eq!(
        DynamicTreeBuilder::build_from(Expr::Value(Value::Boolean(true)), &columns()),
        Ok(constant(UntypedValue::Bool(true)))
    );
    assert_eq!(
        DynamicTreeBuilder::build_from(Expr::Value(Value::Null), &columns()),
        Ok(constant(UntypedValue::Null))
    );
}

#[test]
fn parameters_are_counted_from_zero() {
    assert_eq!(
        StaticTreeBuilder::build_from(Expr::Param(1)),
        Ok(UntypedTree::Item(UntypedItem::Param(0)))
    );
    assert_eq!(
        DynamicTreeBuilder::build_from(Expr::Param(4), &columns()),
        Ok(UntypedTree::Item(UntypedItem::Param(3)))
    );
}

#[test]
fn operators_are_translated() {
    let expr = Expr::BinaryOp {
        left: Box::new(Expr::UnaryOp { op: UnaryOperator::Sqrt, expr: Box::new(Expr::Param(2)) }),
        op: BinaryOperator::LtEq,
        right: Box::new(Expr::BinaryOp {
            left: Box::new(Expr::Column("ID".to_owned())),
            op: BinaryOperator::Multiply,
            right: Box::new(Expr::Value(Value::Int(2))),
        }),
    };
    assert_eq!(
        DynamicTreeBuilder::build_from(expr, &columns()),
        Ok(UntypedTree::BiOp {
            left: Box::new(UntypedTree::UnOp {
                op: UnOperator::Arithmetic(UnArithmetic::SquareRoot),
                item: Box::new(UntypedTree::Item(UntypedItem::Param(1)))
            }),
            op: BiOperation::Comparison(Comparison::LtEq),
            right: Box::new(UntypedTree::BiOp {
                left: Box::new(UntypedTree::Item(UntypedItem::Column {
                    name: "id".to_owned(),
                    sql_type: SqlType::Integer,
                    index: 0
                })),
                op: BiOperation::Arithmetic(BiArithmetic::Mul),
                right: Box::new(constant(UntypedValue::Number(Number::Whole(2))))
            })
        })
    );
}

#[test]
fn cast_names_the_family_of_its_type() {
    let expr = Expr::Cast { expr: Box::new(Expr::Value(Value::String("1".to_owned()))), data_type: DataType::VarChar(None) };
    assert_eq!(
        StaticTreeBuilder::build_from(expr),
        Ok(UntypedTree::UnOp {
            op: UnOperator::Cast(SqlTypeFamily::String),
            item: Box::new(constant(UntypedValue::String("1".to_owned())))
        })
    );
    let expr = Expr::Cast { expr: Box::new(Expr::Value(Value::Null)), data_type: DataType::Double };
    assert_eq!(
        StaticTreeBuilder::build_from(expr),
        Ok(UntypedTree::UnOp { op: UnOperator::Cast(SqlTypeFamily::Real), item: Box::new(constant(UntypedValue::Null)) })
    );
}

#[test]
fn the_left_operand_fails_first() {
    let expr = Expr::BinaryOp {
        left: Box::new(Expr::Column("first".to_owned())),
        op: BinaryOperator::And,
        right: Box::new(Expr::Column("second".to_owned())),
    };
    assert_eq!(
        DynamicTreeBuilder::build_from(expr, &columns()),
        Err(AnalysisError::ColumnNotFound("first".to_owned()))
    );
}

#[test]
fn malformed_trees_are_not_built() {
    assert_eq!(StaticTreeBuilder::try_build_from(Expr::Value(Value::Number("1x".to_owned()))), None);
    assert_eq!(StaticTreeBuilder::try_build_from(Expr::Param(0)), None);
    assert_eq!(DynamicTreeBuilder::try_build_from(Expr::Param(0), &columns()), None);
    assert!(!Expr::UnaryOp { op: UnaryOperator::Not, expr: Box::new(Expr::Param(0)) }.is_well_formed());
    assert_eq!(
        StaticTreeBuilder::try_build_from(Expr::Column("c".to_owned())),
        Some(Err(AnalysisError::ColumnCannotBeReferenced("c".to_owned())))
    );
    assert_eq!(
        DynamicTreeBuilder::try_build_from(Expr::Value(Value::Number("7".to_owned())), &[]),
        Some(Ok(constant(UntypedValue::Number(Number::Whole(7)))))
    );
}
