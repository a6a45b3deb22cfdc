use xquery::errors::{ErrorCode, ErrorInfo};
use xquery::eval::comparison::{
    comparison_of_items, deep_eq, general_comparison, is_numeric, is_untyped, object_to_qname_if_qname, to_type, type_in_range,
    value_comparison, value_ordering_of, Comparison, ComparisonType, OperatorComparison, ValueOrdering,
};
use xquery::eval::environment::Environment;
use xquery::qname::QName;
use xquery::value::{Node, Object, Type};

fn integer(n: i128) -> Object {
    Object::Atomic(Type::Integer(n))
}

fn text_node(seq: isize, s: &str) -> Object {
    Object::Node(Node::NodeText { sequence: seq, content: s.to_string() })
}

fn general(l: &Object, r: &Object) -> Result<bool, ErrorInfo> {
    let env = Environment::create();
    general_comparison(&OperatorComparison::GeneralEquals, (&env, l), (&env, r))
}

#[test]
fn general_comparison_of_items() {
    assert_eq!(general(&integer(1), &integer(1)).unwrap(), true);
    assert_eq!(general(&integer(1), &integer(2)).unwrap(), false);
    assert_eq!(general(&Object::Empty, &integer(1)).unwrap(), false);
    assert_eq!(general(&integer(1), &Object::Empty).unwrap(), false);
    assert_eq!(general(&integer(3), &Object::Range { min: 1, max: 5 }).unwrap(), true);
    assert_eq!(general(&integer(3), &Object::Range { min: 5, max: 1 }).unwrap(), true);
    assert_eq!(general(&integer(9), &Object::Range { min: 1, max: 5 }).unwrap(), false);
    assert_eq!(general(&Object::Range { min: 1, max: 3 }, &Object::Range { min: 6, max: 3 }).unwrap(), true);
    assert_eq!(general(&Object::Range { min: 1, max: 2 }, &Object::Range { min: 3, max: 4 }).unwrap(), false);
    assert_eq!(general(&Object::Sequence(vec![integer(1), integer(2)]), &integer(2)).unwrap(), true);
    assert_eq!(general(&Object::Sequence(vec![integer(1), integer(2)]), &Object::Sequence(vec![integer(5), integer(2)])).unwrap(), true);
    assert_eq!(general(&Object::Sequence(vec![integer(1), integer(2)]), &Object::Sequence(vec![integer(5), integer(6)])).unwrap(), false);
    assert_eq!(general(&Object::Atomic(Type::String("ab".to_string())), &text_node(1, "ab")).unwrap(), true);
    let x = Object::Atomic(Type::String("x".to_string()));
    assert_eq!(general(&x, &Object::Sequence(vec![text_node(2, "y"), Object::Atomic(Type::String("x".to_string()))])).unwrap(), true);
    assert_eq!(general(&integer(1), &Object::Sequence(vec![text_node(2, "x"), integer(1)])).unwrap_err().0, ErrorCode::FORG0001);
    assert_eq!(general(&text_node(3, "a"), &text_node(3, "b")).unwrap(), true);
    assert_eq!(general(&text_node(3, "a"), &text_node(4, "a")).unwrap(), true);
    assert_eq!(general(&text_node(3, "a"), &text_node(4, "b")).unwrap(), false);
}

#[test]
fn general_comparison_errors_stop_the_search() {
    let e = general(&Object::Sequence(vec![integer(1), Object::Atomic(Type::Boolean(true))]), &integer(2)).unwrap_err();
    assert_eq!(e.0, ErrorCode::XPTY0004);
    assert_eq!(general(&Object::Sequence(vec![integer(2), Object::Atomic(Type::Boolean(true))]), &integer(2)).unwrap(), true);
}

#[test]
fn type_in_range_reads_the_integer() {
    assert_eq!(type_in_range(&Type::Integer(2), &1, &3).unwrap(), true);
    assert_eq!(type_in_range(&Type::Boolean(true), &1, &3).unwrap(), false);
}

fn deep(l: &Object, r: &Object) -> Result<bool, ErrorInfo> {
    let env = Environment::create();
    deep_eq((&env, l), (&env, r))
}

#[test]
fn deep_equality() {
    assert_eq!(deep(&integer(1), &integer(1)).unwrap(), true);
    assert_eq!(deep(&integer(1), &integer(2)).unwrap(), false);
    assert_eq!(deep(&Object::Sequence(vec![integer(1), integer(2)]), &Object::Sequence(vec![integer(1), integer(2)])).unwrap(), true);
    assert_eq!(deep(&Object::Sequence(vec![integer(1), integer(2)]), &Object::Sequence(vec![integer(1)])).unwrap(), false);
    // item by item, an equal pair answers false and no equal pair answers true
    assert_eq!(deep(&Object::Sequence(vec![integer(1), integer(2)]), &Object::Sequence(vec![integer(1), integer(3)])).unwrap(), false);
    assert_eq!(deep(&Object::Sequence(vec![integer(1), integer(2)]), &Object::Sequence(vec![integer(3), integer(4)])).unwrap(), true);
    assert_eq!(deep(&Object::Range { min: 1, max: 2 }, &Object::Range { min: 1, max: 2 }).unwrap(), true);
    assert_eq!(deep(&Object::Range { min: 1, max: 2 }, &Object::Range { min: 2, max: 1 }).unwrap(), false);
    assert_eq!(deep(&Object::Range { min: 1, max: 2 }, &Object::Sequence(vec![integer(5), integer(6)])).unwrap(), true);
    assert_eq!(deep(&Object::Range { min: 1, max: 2 }, &Object::Sequence(vec![integer(1), integer(6)])).unwrap(), false);
    assert_eq!(deep(&Object::Sequence(vec![integer(5)]), &Object::Range { min: 1, max: 2 }).unwrap(), false);
    assert_eq!(deep(&text_node(4, "a"), &text_node(4, "b")).unwrap(), true);
    assert_eq!(deep(&text_node(4, "a"), &integer(1)).unwrap(), false);
}

fn value(op: OperatorComparison, l: &Object, r: &Object) -> Result<Object, ErrorInfo> {
    let env = Environment::create();
    value_comparison(&op, (&env, l), (&env, r))
}

#[test]
fn value_comparisons() {
    assert!(matches!(value(OperatorComparison::ValueLessThan, &integer(1), &integer(2)), Ok(Object::Atomic(Type::Boolean(true)))));
    assert!(matches!(value(OperatorComparison::ValueGreaterThan, &integer(1), &integer(2)), Ok(Object::Atomic(Type::Boolean(false)))));
    assert!(matches!(value(OperatorComparison::ValueNotEquals, &integer(1), &integer(1)), Ok(Object::Atomic(Type::Boolean(false)))));
    assert!(matches!(value(OperatorComparison::ValueEquals, &Object::Empty, &integer(1)), Ok(Object::Empty)));
    assert!(matches!(value(OperatorComparison::ValueEquals, &integer(1), &Object::Empty), Ok(Object::Empty)));
    assert!(matches!(
        value(OperatorComparison::ValueLessOrEquals, &Object::Atomic(Type::Boolean(true)), &Object::Atomic(Type::Boolean(true))),
        Ok(Object::Atomic(Type::Boolean(true)))
    ));
    let e = value(OperatorComparison::ValueLessThan, &integer(1), &Object::Atomic(Type::Boolean(true))).unwrap_err();
    assert_eq!(e.0, ErrorCode::XPTY0004);
}

#[test]
fn operator_kinds() {
    assert_eq!(to_type(&OperatorComparison::GeneralLessThan), ComparisonType::General);
    assert_eq!(to_type(&OperatorComparison::ValueEquals), ComparisonType::Value);
    assert_eq!(to_type(&OperatorComparison::NodePrecedes), ComparisonType::Node);
    assert_eq!(OperatorComparison::GeneralGreaterOrEquals.to_comparison(), Comparison::GreaterOrEquals);
    assert_eq!(Comparison::LessOrEquals.is_it(ValueOrdering::Equal).unwrap(), true);
    assert_eq!(value_ordering_of(1.cmp(&2)), ValueOrdering::Less);
    assert_eq!(value_ordering_of(2.cmp(&2)), ValueOrdering::Equal);
    assert_eq!(Comparison::NotEquals.is_it(ValueOrdering::Equal).unwrap(), false);
    assert!(is_untyped(&Type::Untyped("x".to_string())));
    assert!(is_numeric(&Type::Integer(1)));
    assert!(!is_numeric(&Type::String("1".to_string())));
    let q = object_to_qname_if_qname(&Object::QName { prefix: "p".to_string(), url: "u".to_string(), local_part: "l".to_string() });
    let q: QName = q.unwrap();
    assert_eq!(q.local_part, "l");
    assert!(object_to_qname_if_qname(&integer(1)).is_none());
}

fn items(op: OperatorComparison, l: &Object, r: &Object) -> Result<Object, ErrorInfo> {
    let env = Environment::create();
    comparison_of_items(&op, (&env, l), (&env, r))
}

#[test]
fn comparison_of_items_by_operator_kind() {
    assert!(matches!(items(OperatorComparison::GeneralEquals, &Object::Sequence(vec![integer(1), integer(2)]), &integer(2)), Ok(Object::Atomic(Type::Boolean(true)))));
    assert!(matches!(items(OperatorComparison::GeneralEquals, &Object::Empty, &integer(2)), Ok(Object::Atomic(Type::Boolean(false)))));
    assert!(matches!(items(OperatorComparison::ValueLessThan, &integer(1), &integer(2)), Ok(Object::Atomic(Type::Boolean(true)))));
    assert!(matches!(items(OperatorComparison::ValueEquals, &Object::Empty, &integer(2)), Ok(Object::Empty)));
    let e = items(OperatorComparison::GeneralEquals, &integer(1), &Object::Atomic(Type::Boolean(true))).unwrap_err();
    assert_eq!(e.0, ErrorCode::XPTY0004);
}
