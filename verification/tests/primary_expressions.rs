use xquery::errors::ErrorCode;
use xquery::eval::environment::{Environment, EvalResult};
use xquery::eval::primary::{
    curly_array_of, range_of_bounds, sequence_of_value, Boolean, ContextItem, Integer, SequenceEmpty, StringExpr,
};
use xquery::eval::DynamicContext;
use xquery::value::{Node, Object, Type};

fn num(n: i128) -> Object {
    Object::Atomic(Type::Integer(n))
}

fn value_of(r: EvalResult) -> Object {
    match r {
        Ok((_, o)) => o,
        Err((code, msg)) => panic!("{:?} {}", code, msg),
    }
}

fn code_of_error(r: EvalResult) -> ErrorCode {
    match r {
        Err((code, _)) => code,
        Ok((_, o)) => panic!("no error: {:?}", o),
    }
}

fn pick(pos: i128, value: Object) -> Object {
    value_of(Integer { number: pos }.predicate(Environment::create(), &DynamicContext::nothing(), value))
}

#[test]
fn literals_evaluate_to_themselves() {
    let ctx = DynamicContext::nothing();
    assert!(matches!(value_of(Boolean { bool: true }.eval(Environment::create(), &ctx)), Object::Atomic(Type::Boolean(true))));
    assert!(matches!(value_of(Integer { number: -4 }.eval(Environment::create(), &ctx)), Object::Atomic(Type::Integer(-4))));
    let s = value_of(StringExpr { string: "abc".to_string() }.eval(Environment::create(), &ctx));
    assert!(matches!(s, Object::Atomic(Type::String(ref t)) if t == "abc"));
    assert!(matches!(value_of(SequenceEmpty {}.eval(Environment::create(), &ctx)), Object::Empty));
    let mut ctx = DynamicContext::nothing();
    ctx.item = num(8);
    assert!(matches!(value_of(ContextItem {}.eval(Environment::create(), &ctx)), Object::Atomic(Type::Integer(8))));
}

#[test]
fn integer_predicates_select_by_position() {
    assert!(matches!(pick(0, num(1)), Object::Empty));
    assert!(matches!(pick(-1, num(1)), Object::Empty));
    assert!(matches!(pick(1, num(5)), Object::Atomic(Type::Integer(5))));
    assert!(matches!(pick(2, num(5)), Object::Empty));
    assert!(matches!(pick(1, Object::Empty), Object::Empty));
    assert!(matches!(pick(3, Object::Range { min: 10, max: 20 }), Object::Atomic(Type::Integer(12))));
    assert!(matches!(pick(11, Object::Range { min: 10, max: 20 }), Object::Atomic(Type::Integer(20))));
    assert!(matches!(pick(12, Object::Range { min: 10, max: 20 }), Object::Empty));
    let seq = || Object::Sequence(vec![num(7), num(8), num(9)]);
    assert!(matches!(pick(2, seq()), Object::Atomic(Type::Integer(8))));
    assert!(matches!(pick(4, seq()), Object::Empty));
    assert!(matches!(pick(1, Object::Array(vec![num(3)])), Object::Atomic(Type::Integer(3))));
    let text = Object::Node(Node::NodeText { sequence: 1, content: "t".to_string() });
    assert!(matches!(pick(1, text), Object::Node(_)));
}

#[test]
fn ranges_from_bounds() {
    let range = |a: Object, b: Object| range_of_bounds(Environment::create(), a, b);
    assert!(matches!(value_of(range(num(1), num(5))), Object::Range { min: 1, max: 5 }));
    assert!(matches!(value_of(range(num(3), num(3))), Object::Atomic(Type::Integer(3))));
    assert!(matches!(value_of(range(num(5), num(1))), Object::Empty));
    assert!(matches!(value_of(range(Object::Empty, num(1))), Object::Empty));
    assert!(matches!(value_of(range(num(1), Object::Empty)), Object::Empty));
    assert!(matches!(value_of(range(Object::Atomic(Type::Untyped("2".to_string())), num(4))), Object::Range { min: 2, max: 4 }));
    assert_eq!(code_of_error(range(Object::Atomic(Type::Boolean(true)), num(4))), ErrorCode::XPTY0004);
    assert_eq!(code_of_error(range(num(1), Object::Atomic(Type::Untyped("x".to_string())))), ErrorCode::XPTY0004);
}

#[test]
fn sequence_and_array_constructors() {
    let nested = Object::Sequence(vec![num(1), Object::Empty, Object::Sequence(vec![num(2), num(3)])]);
    match value_of(sequence_of_value(Environment::create(), nested)) {
        Object::Sequence(items) => {
            assert_eq!(items.len(), 3);
            assert!(matches!(items[2], Object::Atomic(Type::Integer(3))));
        },
        other => panic!("{:?}", other),
    }
    assert!(matches!(value_of(sequence_of_value(Environment::create(), Object::Sequence(vec![num(4)]))), Object::Atomic(Type::Integer(4))));
    assert!(matches!(value_of(sequence_of_value(Environment::create(), Object::Empty)), Object::Empty));
    assert!(matches!(value_of(sequence_of_value(Environment::create(), Object::Range { min: 1, max: 9 })), Object::Range { min: 1, max: 9 }));

    assert!(matches!(value_of(curly_array_of(Environment::create(), Object::Empty)), Object::Array(ref v) if v.is_empty()));
    assert!(matches!(value_of(curly_array_of(Environment::create(), Object::Sequence(vec![num(1), num(2)]))), Object::Array(ref v) if v.len() == 2));
    assert!(matches!(value_of(curly_array_of(Environment::create(), Object::Range { min: 1, max: 3 })), Object::Array(ref v) if v.len() == 1));
}

#[test]
fn positional_predicate_agrees_with_listing() {
    let listed = xquery::eval::range_to_sequence(Object::Range { min: -2, max: 4 });
    for pos in 1..=7i128 {
        let picked = pick(pos, Object::Range { min: -2, max: 4 });
        match (&picked, &listed[(pos - 1) as usize]) {
            (Object::Atomic(Type::Integer(a)), Object::Atomic(Type::Integer(b))) => assert_eq!(a, b),
            other => panic!("{:?}", other),
        }
    }
    // a descending range selects nothing by position
    assert!(matches!(pick(1, Object::Range { min: 3, max: 1 }), Object::Empty));
}
