use xquery::errors::ErrorCode;
use xquery::eval::atomic::{general_comparison_for_types, type_order, type_to_i128, value_comparison_for_types};
use xquery::eval::comparison::{general_comparison, Comparison, OperatorComparison, ValueOrdering};
use xquery::eval::environment::Environment;
use xquery::value::{Dec, NumberCase, Object, Type};

fn num(n: i128) -> Object {
    Object::Atomic(Type::Integer(n))
}

fn s(t: &str) -> Type {
    Type::String(t.to_string())
}

#[test]
fn atomic_values_order() {
    assert_eq!(type_order(&Type::Integer(2), &Type::Integer(2)).unwrap(), ValueOrdering::Equal);
    assert_eq!(type_order(&Type::Integer(1), &Type::Integer(2)).unwrap(), ValueOrdering::Less);
    assert_eq!(type_order(&s("b"), &s("a")).unwrap(), ValueOrdering::Greater);
    assert_eq!(type_order(&s("ab"), &Type::Untyped("abc".to_string())).unwrap(), ValueOrdering::Less);
    assert_eq!(type_order(&Type::Boolean(false), &Type::Boolean(true)).unwrap(), ValueOrdering::Less);
    let half = Type::Decimal { number: Some(Dec { mantissa: 5, scale: 1 }), case: NumberCase::Normal };
    assert_eq!(type_order(&half, &Type::Integer(1)).unwrap(), ValueOrdering::Less);
    let two = Type::Double { number: Some(Dec { mantissa: 20, scale: 1 }), case: NumberCase::Normal };
    assert_eq!(type_order(&two, &Type::Integer(2)).unwrap(), ValueOrdering::Equal);
    assert_eq!(type_order(&Type::Integer(1), &s("1")).unwrap_err().0, ErrorCode::XPTY0004);
}

#[test]
fn untyped_meets_number_as_double() {
    assert_eq!(general_comparison_for_types(&OperatorComparison::GeneralEquals, &Type::Untyped("2".to_string()), &Type::Integer(2)).unwrap(), true);
    assert_eq!(general_comparison_for_types(&OperatorComparison::GeneralLessThan, &Type::Integer(1), &Type::Untyped("1.5".to_string())).unwrap(), true);
    assert_eq!(general_comparison_for_types(&OperatorComparison::GeneralEquals, &Type::Untyped("x".to_string()), &Type::Integer(2)).unwrap_err().0, ErrorCode::FORG0001);
    assert_eq!(general_comparison_for_types(&OperatorComparison::GeneralEquals, &Type::Untyped("a".to_string()), &s("a")).unwrap(), true);
    assert_eq!(type_to_i128(&Type::Untyped("7".to_string())), Some(7));
    assert_eq!(type_to_i128(&Type::Boolean(true)), None);
}

#[test]
fn general_comparison_of_values() {
    let env = Environment::create();
    let eq = |l: &Object, r: &Object| general_comparison(&OperatorComparison::GeneralEquals, (&env, l), (&env, r));
    assert_eq!(eq(&num(2), &num(2)).unwrap(), true);
    assert_eq!(eq(&num(2), &num(3)).unwrap(), false);
    assert_eq!(eq(&Object::Sequence(vec![num(1), num(2)]), &num(2)).unwrap(), true);
    assert_eq!(eq(&num(3), &Object::Sequence(vec![num(1), num(2)])).unwrap(), false);
    assert_eq!(eq(&num(2), &Object::Range { min: 1, max: 3 }).unwrap(), true);
    assert_eq!(eq(&Object::Empty, &num(1)).unwrap(), false);
    let lt = general_comparison(&OperatorComparison::GeneralLessThan, (&env, &num(1)), (&env, &num(2)));
    assert_eq!(lt.unwrap(), true);
    let e = eq(&num(1), &Object::Atomic(Type::Boolean(true)));
    assert_eq!(e.unwrap_err().0, ErrorCode::XPTY0004);
}
