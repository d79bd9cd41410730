use sql_engine::ast::{BinaryOperator, Expr, Value};
use sql_engine::definition::ColumnDef;
use sql_engine::errors::AnalysisError;
use sql_engine::number::Number;
use sql_engine::operators::{
    BiArithmetic, BiLogical, BiOperation, Bitwise, Comparison, StringOp, UnArithmetic, UnOperator,
};
use sql_engine::query_analyzer::{analyze_dynamic, analyze_static, try_analyze_dynamic, try_analyze_static};
use sql_engine::type_coercion::TypeCoercion;
use sql_engine::type_inference::{binary_family, number_family, unary_family, TypeInference};
use sql_engine::typed_tree::{TypedItem, TypedTree, TypedValue};
use sql_engine::types::{SqlType, SqlTypeFamily};
use sql_engine::untyped_tree::{UntypedItem, UntypedTree, UntypedValue};

fn column(name: &str, sql_type: SqlType, index: usize) -> UntypedTree {
    UntypedTree::Item(UntypedItem::Column { name: name.to_owned(), sql_type, index })
}

fn typed_column(name: &str, sql_type: SqlType, index: usize) -> TypedTree {
    TypedTree::Item(TypedItem::Column { name: name.to_owned(), sql_type, index })
}

fn bi_op(left: UntypedTree, op: BiOperation, right: UntypedTree) -> UntypedTree {
    UntypedTree::BiOp { left: Box::new(left), op, right: Box::new(right) }
}

#[test]
fn constants_have_their_natural_family() {
    let type_inference = TypeInference::default();
    assert_eq!(
        type_inference.infer_static(UntypedTree::Item(UntypedItem::Const(UntypedValue::Bool(true)))),
        Ok(TypedTree::Item(TypedItem::Const(TypedValue::Bool(true))))
    );
    assert_eq!(
        type_inference.infer_static(UntypedTree::Item(UntypedItem::Const(UntypedValue::Null))),
        Ok(TypedTree::Item(TypedItem::Const(TypedValue::Null)))
    );
    assert_eq!(TypedValue::Bool(false).type_family(), Some(SqlTypeFamily::Bool));
    assert_eq!(TypedValue::String("s".to_owned()).type_family(), Some(SqlTypeFamily::String));
    assert_eq!(TypedValue::Null.type_family(), None);
    assert_eq!(number_family(&Number::Decimal("1.5".to_owned())), SqlTypeFamily::Real);
    assert_eq!(number_family(&Number::Whole(70000)), SqlTypeFamily::Integer);
}

#[test]
fn parameters_are_unconstrained() {
    let type_inference = TypeInference::default();
    let typed = type_inference.infer_static(UntypedTree::Item(UntypedItem::Param(2))).unwrap();
    assert_eq!(typed, TypedTree::Item(TypedItem::Param { index: 2 }));
    assert_eq!(typed.type_family(), None);
}

#[test]
fn columns_keep_their_declared_type() {
    let type_inference = TypeInference::default();
    let typed = type_inference.infer_dynamic(column("c", SqlType::VarChar(10), 3)).unwrap();
    assert_eq!(typed, typed_column("c", SqlType::VarChar(10), 3));
    assert_eq!(typed.type_family(), Some(SqlTypeFamily::String));
}

#[test]
fn unsupported_pair_names_operator_and_families() {
    let type_inference = TypeInference::default();
    let op = BiOperation::Arithmetic(BiArithmetic::Add);
    assert_eq!(
        type_inference.infer_dynamic(bi_op(column("a", SqlType::Bool, 0), op, column("b", SqlType::Integer, 1))),
        Err(AnalysisError::UnsupportedOperation { operator: op, left: SqlTypeFamily::Bool, right: SqlTypeFamily::Integer })
    );
    let op = BiOperation::Comparison(Comparison::Eq);
    assert_eq!(
        type_inference.infer_dynamic(bi_op(column("a", SqlType::Integer, 0), op, column("b", SqlType::BigInt, 1))),
        Err(AnalysisError::UnsupportedOperation { operator: op, left: SqlTypeFamily::Integer, right: SqlTypeFamily::BigInt })
    );
    let op = BiOperation::Logical(BiLogical::Or);
    assert_eq!(
        type_inference.infer_static(bi_op(
            UntypedTree::Item(UntypedItem::Const(UntypedValue::Bool(true))),
            op,
            UntypedTree::Item(UntypedItem::Const(UntypedValue::String("x".to_owned())))
        )),
        Err(AnalysisError::UnsupportedOperation { operator: op, left: SqlTypeFamily::Bool, right: SqlTypeFamily::String })
    );
}

#[test]
fn small_integer_literals_are_no_arithmetic_operands() {
    let type_inference = TypeInference::default();
    let op = BiOperation::Arithmetic(BiArithmetic::Mul);
    assert_eq!(
        type_inference.infer_static(bi_op(
            UntypedTree::Item(UntypedItem::Const(UntypedValue::Number(Number::Whole(1)))),
            op,
            UntypedTree::Item(UntypedItem::Const(UntypedValue::Number(Number::Whole(2))))
        )),
        Err(AnalysisError::UnsupportedOperation {
            operator: op,
            left: SqlTypeFamily::SmallInt,
            right: SqlTypeFamily::SmallInt
        })
    );
}

#[test]
fn supported_operations_carry_their_result_family() {
    let type_inference = TypeInference::default();
    let op = BiOperation::Arithmetic(BiArithmetic::Sub);
    assert_eq!(
        type_inference.infer_dynamic(bi_op(column("a", SqlType::Integer, 0), op, column("b", SqlType::Real, 1))),
        Ok(TypedTree::BiOp {
            type_family: Some(SqlTypeFamily::Real),
            left: Box::new(typed_column("a", SqlType::Integer, 0)),
            op,
            right: Box::new(typed_column("b", SqlType::Real, 1))
        })
    );
    assert_eq!(
        type_inference
            .infer_dynamic(bi_op(column("a", SqlType::Integer, 0), op, column("b", SqlType::Integer, 1)))
            .unwrap()
            .type_family(),
        Some(SqlTypeFamily::Integer)
    );
    let op = BiOperation::Comparison(Comparison::Lt);
    assert_eq!(
        type_inference
            .infer_dynamic(bi_op(column("a", SqlType::Char(1), 0), op, column("b", SqlType::VarChar(5), 1)))
            .unwrap()
            .type_family(),
        Some(SqlTypeFamily::Bool)
    );
    let op = BiOperation::Bitwise(Bitwise::And);
    assert_eq!(
        type_inference
            .infer_dynamic(bi_op(column("a", SqlType::Integer, 0), op, column("b", SqlType::Integer, 1)))
            .unwrap()
            .type_family(),
        Some(SqlTypeFamily::Integer)
    );
    let op = BiOperation::StringOp(StringOp::Concat);
    assert_eq!(
        type_inference
            .infer_dynamic(bi_op(column("a", SqlType::Char(1), 0), op, column("b", SqlType::Char(1), 1)))
            .unwrap()
            .type_family(),
        Some(SqlTypeFamily::Bool)
    );
}

#[test]
fn an_unconstrained_operand_is_accepted() {
    let type_inference = TypeInference::default();
    let op = BiOperation::Arithmetic(BiArithmetic::Add);
    assert_eq!(
        type_inference.infer_dynamic(bi_op(UntypedTree::Item(UntypedItem::Param(0)), op, column("b", SqlType::BigInt, 1))),
        Ok(TypedTree::BiOp {
            type_family: Some(SqlTypeFamily::BigInt),
            left: Box::new(TypedTree::Item(TypedItem::Param { index: 0 })),
            op,
            right: Box::new(typed_column("b", SqlType::BigInt, 1))
        })
    );
    assert_eq!(binary_family(op, Some(SqlTypeFamily::Real), None), Some(SqlTypeFamily::Real));
    assert_eq!(binary_family(op, None, None), None);
    assert_eq!(
        binary_family(BiOperation::Logical(BiLogical::And), None, Some(SqlTypeFamily::Bool)),
        Some(SqlTypeFamily::Bool)
    );
    assert_eq!(binary_family(BiOperation::Bitwise(Bitwise::Or), None, None), Some(SqlTypeFamily::Integer));
}

#[test]
fn unary_operators_keep_the_family_and_casts_set_it() {
    let type_inference = TypeInference::default();
    let tree = UntypedTree::UnOp {
        op: UnOperator::Arithmetic(UnArithmetic::Neg),
        item: Box::new(column("a", SqlType::Real, 0)),
    };
    assert_eq!(
        type_inference.infer_dynamic(tree),
        Ok(TypedTree::UnOp {
            type_family: Some(SqlTypeFamily::Real),
            op: UnOperator::Arithmetic(UnArithmetic::Neg),
            item: Box::new(typed_column("a", SqlType::Real, 0))
        })
    );
    let tree = UntypedTree::UnOp {
        op: UnOperator::Cast(SqlTypeFamily::Integer),
        item: Box::new(UntypedTree::Item(UntypedItem::Const(UntypedValue::String("1".to_owned())))),
    };
    assert_eq!(type_inference.infer_static(tree).unwrap().type_family(), Some(SqlTypeFamily::Integer));
    assert_eq!(unary_family(UnOperator::LogicalNot, None), None);
    assert_eq!(unary_family(UnOperator::Cast(SqlTypeFamily::Bool), None), Some(SqlTypeFamily::Bool));
}

#[test]
fn errors_come_from_the_leftmost_innermost_operation() {
    let type_inference = TypeInference::default();
    let plus = BiOperation::Arithmetic(BiArithmetic::Add);
    let and = BiOperation::Logical(BiLogical::And);
    let bad_left = bi_op(column("a", SqlType::Bool, 0), plus, column("b", SqlType::Bool, 1));
    let bad_right = bi_op(column("c", SqlType::Integer, 2), and, column("d", SqlType::Integer, 3));
    assert_eq!(
        type_inference.infer_dynamic(bi_op(bad_left, and, bad_right)),
        Err(AnalysisError::UnsupportedOperation { operator: plus, left: SqlTypeFamily::Bool, right: SqlTypeFamily::Bool })
    );
}

#[test]
fn analysis_twice_gives_equal_trees() {
    let columns = vec![ColumnDef::new("Col".to_owned(), SqlType::Real)];
    let expr = || Expr::BinaryOp {
        left: Box::new(Expr::Column("COL".to_owned())),
        op: BinaryOperator::Plus,
        right: Box::new(Expr::Param(1)),
    };
    let first = analyze_dynamic(expr(), &columns);
    let second = analyze_dynamic(expr(), &columns);
    assert_eq!(first, second);
    assert_eq!(
        first,
        Ok(TypedTree::BiOp {
            type_family: Some(SqlTypeFamily::Real),
            left: Box::new(typed_column("Col", SqlType::Real, 0)),
            op: BiOperation::Arithmetic(BiArithmetic::Add),
            right: Box::new(TypedTree::Item(TypedItem::Param { index: 0 }))
        })
    );
    assert_eq!(analyze_static(Expr::Value(Value::Int(3))), analyze_static(Expr::Value(Value::Int(3))));
}

#[test]
fn analysis_reports_building_and_typing_errors() {
    assert_eq!(
        analyze_static(Expr::Column("c".to_owned())),
        Err(AnalysisError::ColumnCannotBeReferenced("c".to_owned()))
    );
    assert_eq!(
        analyze_static(Expr::Value(Value::Number("3.8".to_owned()))),
        Ok(TypedTree::Item(TypedItem::Const(TypedValue::Num {
            value: Number::Decimal("3.8".to_owned()),
            type_family: SqlTypeFamily::Real
        })))
    );
    let expr = Expr::BinaryOp {
        left: Box::new(Expr::Value(Value::Boolean(true))),
        op: BinaryOperator::Like,
        right: Box::new(Expr::Value(Value::String("%".to_owned()))),
    };
    assert_eq!(
        try_analyze_static(expr),
        Some(Err(AnalysisError::UnsupportedOperation {
            operator: BiOperation::PatternMatching(sql_engine::operators::PatternMatching::Like),
            left: SqlTypeFamily::Bool,
            right: SqlTypeFamily::String
        }))
    );
    assert_eq!(try_analyze_static(Expr::Value(Value::Number("..".to_owned()))), None);
    assert_eq!(try_analyze_dynamic(Expr::Param(0), &[]), None);
    assert_eq!(
        try_analyze_dynamic(Expr::Column("x".to_owned()), &[]),
        Some(Err(AnalysisError::ColumnNotFound("x".to_owned())))
    );
}

#[test]
fn coercion_hands_the_tree_back() {
    let coercion = TypeCoercion;
    let tree = || TypedTree::Item(TypedItem::Const(TypedValue::Num { value: Number::Whole(70000), type_family: SqlTypeFamily::Integer }));
    assert_eq!(coercion.coerce_static(tree(), SqlType::SmallInt), tree());
    assert_eq!(coercion.coerce_dynamic(typed_column("c", SqlType::Bool, 0)), typed_column("c", SqlType::Bool, 0));
}
