use bigdecimal::{BigDecimal, FromPrimitive};
use sql_engine::number::Number;
use sql_engine::type_inference::TypeInference;
use sql_engine::typed_tree::{StaticTypedItem, StaticTypedTree, TypedValue};
use sql_engine::types::SqlTypeFamily;
use sql_engine::untyped_tree::{StaticUntypedItem, StaticUntypedTree, UntypedValue};
use std::str::FromStr;

fn number(num: BigDecimal) -> Number {
    Number::parse(num.normalized().to_string()).unwrap()
}

fn untyped_number(num: BigDecimal) -> StaticUntypedTree {
    StaticUntypedTree::Item(StaticUntypedItem::Const(UntypedValue::Number(number(num))))
}

fn untyped_string(value: String) -> StaticUntypedTree {
    StaticUntypedTree::Item(StaticUntypedItem::Const(UntypedValue::String(value)))
}

#[test]
fn smallint() {
    let type_inference = TypeInference::default();
    let untyped_tree = untyped_number(BigDecimal::from(0));

    assert_eq!(
        type_inference.infer_static(untyped_tree),
        Ok(StaticTypedTree::Item(StaticTypedItem::Const(TypedValue::Num {
            value: number(BigDecimal::from(0)),
            type_family: SqlTypeFamily::SmallInt
        })))
    );
}

#[test]
fn integer() {
    let type_inference = TypeInference::default();
    let untyped_tree = untyped_number(BigDecimal::from(i32::MAX - i16::MAX as i32));

    assert_eq!(
        type_inference.infer_static(untyped_tree),
        Ok(StaticTypedTree::Item(StaticTypedItem::Const(TypedValue::Num {
            value: number(BigDecimal::from(i32::MAX - i16::MAX as i32)),
            type_family: SqlTypeFamily::Integer
        })))
    );
}

#[test]
fn bigint() {
    let type_inference = TypeInference::default();
    let tree = untyped_number(BigDecimal::from(i64::MAX - i32::MAX as i64));

    assert_eq!(
        type_inference.infer_static(tree),
        Ok(StaticTypedTree::Item(StaticTypedItem::Const(TypedValue::Num {
            value: number(BigDecimal::from(i64::MAX - i32::MAX as i64)),
            type_family: SqlTypeFamily::BigInt
        })))
    );
}

#[test]
fn real_constant() {
    let type_inference = TypeInference::default();
    let tree = untyped_number(BigDecimal::from_f32(3.8).unwrap());

    assert_eq!(
        type_inference.infer_static(tree),
        Ok(StaticTypedTree::Item(StaticTypedItem::Const(TypedValue::Num {
            value: number(BigDecimal::from_str("3.8").unwrap()),
            type_family: SqlTypeFamily::Real
        })))
    );
}

#[test]
fn string() {
    let type_inference = TypeInference::default();
    let tree = untyped_string("str".to_owned());

    assert_eq!(
        type_inference.infer_static(tree),
        Ok(StaticTypedTree::Item(StaticTypedItem::Const(TypedValue::String("str".to_owned()))))
    );
}

#[test]
fn real_keeps_its_decimal_text() {
    assert_eq!(number(BigDecimal::from_str("3.8").unwrap()), Number::Decimal("3.8".to_owned()));
}

#[test]
fn whole_numbers_are_held_as_integers() {
    assert_eq!(number(BigDecimal::from(0)), Number::Whole(0));
    assert_eq!(Number::from_i64(-7), Number::Whole(-7));
    assert_eq!(Number::parse("32767".to_owned()), Some(Number::Whole(32767)));
    assert_eq!(Number::parse("12.00".to_owned()), Some(Number::Whole(12)));
    assert_eq!(Number::parse("1e3".to_owned()), Some(Number::Whole(1000)));
    assert_eq!(Number::parse("-9223372036854775808".to_owned()), Some(Number::Whole(i64::MIN)));
}

#[test]
fn numbers_beyond_the_64_bit_range_keep_their_text() {
    assert_eq!(
        Number::parse("9223372036854775808".to_owned()),
        Some(Number::Decimal("9223372036854775808".to_owned()))
    );
    assert_eq!(Number::parse("0.5".to_owned()), Some(Number::Decimal("0.5".to_owned())));
}

#[test]
fn malformed_decimal_text_is_no_number() {
    assert_eq!(Number::parse("abc".to_owned()), None);
    assert_eq!(Number::parse("".to_owned()), None);
    assert_eq!(Number::parse("1.2.3".to_owned()), None);
    assert!(!Number::is_valid_literal("12a"));
    assert!(Number::is_valid_literal("12.5"));
}

#[test]
fn width_boundaries() {
    let type_inference = TypeInference::default();
    let cases: Vec<(i64, SqlTypeFamily)> = vec![
        (i16::MIN as i64, SqlTypeFamily::SmallInt),
        (i16::MAX as i64, SqlTypeFamily::SmallInt),
        (i16::MIN as i64 - 1, SqlTypeFamily::Integer),
        (i16::MAX as i64 + 1, SqlTypeFamily::Integer),
        (i32::MIN as i64, SqlTypeFamily::Integer),
        (i32::MAX as i64, SqlTypeFamily::Integer),
        (i32::MIN as i64 - 1, SqlTypeFamily::BigInt),
        (i32::MAX as i64 + 1, SqlTypeFamily::BigInt),
        (i64::MIN, SqlTypeFamily::BigInt),
        (i64::MAX, SqlTypeFamily::BigInt),
    ];
    for (value, family) in cases {
        assert_eq!(
            type_inference.infer_static(untyped_number(BigDecimal::from(value))),
            Ok(StaticTypedTree::Item(StaticTypedItem::Const(TypedValue::Num {
                value: Number::Whole(value),
                type_family: family
            })))
        );
    }
}

#[test]
fn number_beyond_bigint_is_real() {
    let type_inference = TypeInference::default();
    let tree = untyped_number(BigDecimal::from_str("9223372036854775808").unwrap());
    assert_eq!(
        type_inference.infer_static(tree),
        Ok(StaticTypedTree::Item(StaticTypedItem::Const(TypedValue::Num {
            value: Number::Decimal("9223372036854775808".to_owned()),
            type_family: SqlTypeFamily::Real
        })))
    );
}

#[test]
fn exponents_are_read_while_they_are_short() {
    assert_eq!(Number::parse("2E2".to_owned()), Some(Number::Whole(200)));
    assert_eq!(Number::parse("5e-7".to_owned()), Some(Number::Decimal("5e-7".to_owned())));
    assert_eq!(Number::parse("1e-99999".to_owned()), Some(Number::Decimal("1e-99999".to_owned())));
    assert_eq!(Number::parse("1e1000000".to_owned()), None);
    assert_eq!(Number::parse("1e-9223372036854775808".to_owned()), None);
    assert!(!Number::is_valid_literal("10e00000001"));
    assert!(sql_engine::number::exponent_is_short("e123456"));
    assert!(!sql_engine::number::exponent_is_short("e1234567"));
    assert!(sql_engine::number::exponent_is_short(""));
}

#[test]
fn number_of_its_parts() {
    assert_eq!(Number::from_parts("12".to_owned(), true, Some(12)), Number::Whole(12));
    assert_eq!(Number::from_parts("1e30".to_owned(), true, None), Number::Decimal("1e30".to_owned()));
    assert_eq!(Number::from_parts("3.8".to_owned(), false, Some(3)), Number::Decimal("3.8".to_owned()));
    assert_eq!(Number::from_parts("x".to_owned(), false, None), Number::Decimal("x".to_owned()));
    assert_eq!(Number::Whole(9).whole(), Some(9));
    assert_eq!(Number::Decimal("0.1".to_owned()).whole(), None);
}
