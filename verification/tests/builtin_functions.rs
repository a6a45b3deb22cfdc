use xquery::errors::ErrorCode;
use xquery::eval::environment::{Environment, EvalResult};
use xquery::eval::DynamicContext;
use xquery::fns::aggregates::fn_count;
use xquery::fns::array::{array_append, array_size};
use xquery::fns::boolean::{fn_false, fn_true};
use xquery::fns::comparison::fn_deep_equal;
use xquery::fns::context::fn_static_base_uri;
use xquery::fns::sequences::{
    fn_data, fn_empty, fn_exactly_one, fn_exists, fn_last, fn_one_or_more, fn_position, fn_remove, fn_reverse,
    fn_zero_or_one,
};
use xquery::qname::QName;
use xquery::value::{Node, Object, Type};

fn int_item(n: i128) -> Object {
    Object::Atomic(Type::Integer(n))
}

fn boolean_of(r: Object) -> bool {
    match r {
        Object::Atomic(Type::Boolean(b)) => b,
        other => panic!("not a boolean: {:?}", other),
    }
}

fn integer_result(r: Object) -> i128 {
    match r {
        Object::Atomic(Type::Integer(n)) => n,
        other => panic!("not an integer: {:?}", other),
    }
}

fn error_code(r: EvalResult) -> ErrorCode {
    match r {
        Err((code, _)) => code,
        Ok((_, o)) => panic!("no error: {:?}", o),
    }
}

fn ctx() -> DynamicContext {
    DynamicContext::nothing()
}

#[test]
fn data_atomizes_nodes_and_flattens() {
    let element = Node::Node {
        sequence: 1,
        name: QName { prefix: None, url: None, local_part: "a".to_string() },
        attributes: vec![],
        children: vec![Node::NodeText { sequence: 2, content: "he".to_string() }, Node::NodeText { sequence: 3, content: "llo".to_string() }],
    };
    let (_, r) = fn_data(Environment::create(), vec![Object::Node(element)], &ctx()).unwrap();
    assert!(matches!(r, Object::Atomic(Type::Untyped(ref s)) if s == "hello"));

    let nested = Object::Sequence(vec![int_item(1), Object::Array(vec![int_item(2), int_item(3)])]);
    let (_, r) = fn_data(Environment::create(), vec![nested], &ctx()).unwrap();
    match r {
        Object::Sequence(items) => {
            assert_eq!(items.len(), 3);
            assert!(matches!(items[2], Object::Atomic(Type::Integer(3))));
        },
        other => panic!("{:?}", other),
    }
    let (_, r) = fn_data(Environment::create(), vec![Object::Sequence(vec![])], &ctx()).unwrap();
    assert!(matches!(r, Object::Empty));

    let mut context = ctx();
    context.item = int_item(7);
    let (_, r) = fn_data(Environment::create(), vec![], &context).unwrap();
    assert!(matches!(r, Object::Atomic(Type::Integer(7))));
}

#[test]
fn empty_and_exists() {
    let (_, r) = fn_empty(Environment::create(), vec![Object::Empty], &ctx()).unwrap();
    assert!(boolean_of(r));
    let (_, r) = fn_empty(Environment::create(), vec![Object::Range { min: 3, max: 3 }], &ctx()).unwrap();
    assert!(boolean_of(r));
    let (_, r) = fn_empty(Environment::create(), vec![Object::Range { min: 3, max: 4 }], &ctx()).unwrap();
    assert!(!boolean_of(r));
    let (_, r) = fn_empty(Environment::create(), vec![int_item(1)], &ctx()).unwrap();
    assert!(!boolean_of(r));
    let (_, r) = fn_exists(Environment::create(), vec![Object::Empty], &ctx()).unwrap();
    assert!(!boolean_of(r));
    let (_, r) = fn_exists(Environment::create(), vec![int_item(1)], &ctx()).unwrap();
    assert!(boolean_of(r));
    // exists is the negation of empty, but for a range from an integer to itself
    for arg in [Object::Sequence(vec![int_item(1)]), Object::Range { min: 1, max: 2 }, Object::Empty] {
        let e = boolean_of(fn_empty(Environment::create(), vec![arg.duplicate()], &ctx()).unwrap().1);
        let x = boolean_of(fn_exists(Environment::create(), vec![arg], &ctx()).unwrap().1);
        assert_eq!(x, !e);
    }
    let e = boolean_of(fn_empty(Environment::create(), vec![Object::Range { min: 3, max: 3 }], &ctx()).unwrap().1);
    let x = boolean_of(fn_exists(Environment::create(), vec![Object::Range { min: 3, max: 3 }], &ctx()).unwrap().1);
    assert!(e && x);
}

#[test]
fn remove_by_position() {
    let s = || Object::Sequence(vec![int_item(10), int_item(20), int_item(30)]);
    let (_, r) = fn_remove(Environment::create(), vec![s(), int_item(2)], &ctx()).unwrap();
    match r {
        Object::Sequence(items) => {
            assert_eq!(items.len(), 2);
            assert!(matches!(items[1], Object::Atomic(Type::Integer(30))));
        },
        other => panic!("{:?}", other),
    }
    let (_, r) = fn_remove(Environment::create(), vec![s(), int_item(0)], &ctx()).unwrap();
    assert!(matches!(r, Object::Sequence(ref items) if items.len() == 3));
    let (_, r) = fn_remove(Environment::create(), vec![s(), int_item(4)], &ctx()).unwrap();
    assert!(matches!(r, Object::Sequence(ref items) if items.len() == 3));
    let (_, r) = fn_remove(Environment::create(), vec![Object::Empty, int_item(1)], &ctx()).unwrap();
    assert!(matches!(r, Object::Empty));
}

#[test]
fn reverse_exchanges_range_bounds() {
    let (_, r) = fn_reverse(Environment::create(), vec![Object::Range { min: 1, max: 5 }], &ctx()).unwrap();
    assert!(matches!(r, Object::Range { min: 5, max: 1 }));
    let (_, r) = fn_reverse(Environment::create(), vec![Object::Empty], &ctx()).unwrap();
    assert!(matches!(r, Object::Empty));
}

#[test]
fn position_and_last_of_the_context() {
    let mut context = ctx();
    assert_eq!(error_code(fn_position(Environment::create(), vec![], &context)), ErrorCode::XPDY0002);
    assert_eq!(error_code(fn_last(Environment::create(), vec![], &context)), ErrorCode::XPDY0002);
    context.position = Some(2);
    context.last = Some(9);
    let (_, r) = fn_position(Environment::create(), vec![], &context).unwrap();
    assert_eq!(integer_result(r), 2);
    let (_, r) = fn_last(Environment::create(), vec![], &context).unwrap();
    assert_eq!(integer_result(r), 9);
}

#[test]
fn cardinality_checks() {
    let two = || Object::Sequence(vec![int_item(1), int_item(2)]);
    let one = || Object::Sequence(vec![int_item(1)]);
    let none = || Object::Sequence(vec![]);
    let range = || Object::Range { min: 1, max: 3 };

    assert!(matches!(fn_zero_or_one(Environment::create(), vec![Object::Empty], &ctx()).unwrap().1, Object::Empty));
    assert!(matches!(fn_zero_or_one(Environment::create(), vec![int_item(4)], &ctx()).unwrap().1, Object::Atomic(Type::Integer(4))));
    assert!(matches!(fn_zero_or_one(Environment::create(), vec![one()], &ctx()).unwrap().1, Object::Sequence(_)));
    assert_eq!(error_code(fn_zero_or_one(Environment::create(), vec![two()], &ctx())), ErrorCode::FORG0003);
    assert_eq!(error_code(fn_zero_or_one(Environment::create(), vec![range()], &ctx())), ErrorCode::FORG0003);

    assert_eq!(error_code(fn_one_or_more(Environment::create(), vec![Object::Empty], &ctx())), ErrorCode::FORG0004);
    assert_eq!(error_code(fn_one_or_more(Environment::create(), vec![none()], &ctx())), ErrorCode::FORG0004);
    assert!(matches!(fn_one_or_more(Environment::create(), vec![two()], &ctx()).unwrap().1, Object::Sequence(_)));
    assert!(matches!(fn_one_or_more(Environment::create(), vec![range()], &ctx()).unwrap().1, Object::Range { min: 1, max: 3 }));

    assert_eq!(error_code(fn_exactly_one(Environment::create(), vec![Object::Empty], &ctx())), ErrorCode::FORG0005);
    assert_eq!(error_code(fn_exactly_one(Environment::create(), vec![two()], &ctx())), ErrorCode::FORG0005);
    assert!(matches!(fn_exactly_one(Environment::create(), vec![one()], &ctx()).unwrap().1, Object::Sequence(_)));
    assert!(matches!(fn_exactly_one(Environment::create(), vec![int_item(3)], &ctx()).unwrap().1, Object::Atomic(Type::Integer(3))));
    // a range passes whatever it holds
    assert!(matches!(fn_exactly_one(Environment::create(), vec![range()], &ctx()).unwrap().1, Object::Range { .. }));
}

#[test]
fn boolean_constants_and_base_uri() {
    assert!(boolean_of(fn_true(Environment::create(), vec![], &ctx()).unwrap().1));
    assert!(!boolean_of(fn_false(Environment::create(), vec![], &ctx()).unwrap().1));
    let (_, r) = fn_static_base_uri(Environment::create(), vec![], &ctx()).unwrap();
    assert!(matches!(r, Object::Empty));
    let mut env = Environment::create();
    env.static_base_uri = Some("http://example.com/".to_string());
    let (_, r) = fn_static_base_uri(env, vec![], &ctx()).unwrap();
    assert!(matches!(r, Object::Atomic(Type::AnyURI(ref u)) if u == "http://example.com/"));
}

#[test]
fn count_of_values() {
    let count = |o: Object| integer_result(fn_count(Environment::create(), vec![o], &ctx()).unwrap().1);
    assert_eq!(count(Object::Empty), 0);
    assert_eq!(count(int_item(5)), 1);
    assert_eq!(count(Object::Range { min: 1, max: 10 }), 10);
    assert_eq!(count(Object::Range { min: 10, max: 1 }), 10);
    assert_eq!(count(Object::Sequence(vec![int_item(1), Object::Range { min: 1, max: 3 }, Object::Range { min: 5, max: 4 }])), 6);
    assert_eq!(count(Object::Sequence(vec![])), 0);
    assert_eq!(count(Object::Node(Node::NodeText { sequence: 1, content: "x".to_string() })), 1);
}

#[test]
fn array_size_and_append() {
    let a = Object::Array(vec![int_item(1), int_item(2)]);
    assert_eq!(integer_result(array_size(Environment::create(), vec![a], &ctx()).unwrap().1), 2);
    let a = Object::Array(vec![int_item(1)]);
    let (_, r) = array_append(Environment::create(), vec![a, int_item(9)], &ctx()).unwrap();
    match r {
        Object::Array(items) => {
            assert_eq!(items.len(), 2);
            assert!(matches!(items[1], Object::Atomic(Type::Integer(9))));
        },
        other => panic!("{:?}", other),
    }
}

#[test]
fn deep_equal_function() {
    let (_, r) = fn_deep_equal(Environment::create(), vec![int_item(1), int_item(1)], &ctx()).unwrap();
    assert!(boolean_of(r));
    let (_, r) = fn_deep_equal(Environment::create(), vec![int_item(1), int_item(2)], &ctx()).unwrap();
    assert!(!boolean_of(r));
    let e = fn_deep_equal(
        Environment::create(),
        vec![int_item(1), Object::Atomic(Type::Boolean(true))],
        &ctx(),
    );
    assert_eq!(error_code(e), ErrorCode::XPTY0004);
}

#[test]
fn count_of_a_range_matches_its_listing() {
    for (min, max) in [(1i128, 10i128), (10, 1), (-3, 3), (7, 7)] {
        let listed = xquery::eval::range_to_sequence(Object::Range { min, max }).len() as i128;
        let counted = integer_result(fn_count(Environment::create(), vec![Object::Range { min, max }], &ctx()).unwrap().1);
        assert_eq!(counted, listed);
    }
}
