use xquery::errors::ErrorCode;
use xquery::qname::{QName, QNameResolved};
use xquery::value::{
    atomization, atomization_of_vec, node_to_number, node_typed_value, object_eq, object_to_qname,
    string_to_double, string_to_number, type_eq, type_to_int, typed_value_of_node, zero_or_one, Dec, Node,
    NumberCase, Object, Type,
};

fn qn(local: &str) -> QName {
    QName { prefix: None, url: None, local_part: local.to_string() }
}

fn text(seq: isize, s: &str) -> Node {
    Node::NodeText { sequence: seq, content: s.to_string() }
}

fn sample_tree() -> Node {
    Node::Node {
        sequence: 1,
        name: qn("a"),
        attributes: vec![Node::Attribute { sequence: 2, name: qn("x"), value: "attr".to_string() }],
        children: vec![
            text(3, "he"),
            Node::Node { sequence: 4, name: qn("b"), attributes: vec![], children: vec![text(5, "ll")] },
            Node::NodeComment { sequence: 6, content: "o".to_string() },
        ],
    }
}

fn integer(n: i128) -> Object {
    Object::Atomic(Type::Integer(n))
}

#[test]
fn string_to_number_reads_specials_and_decimals() {
    assert!(matches!(string_to_number(&"INF".to_string()), Ok((None, NumberCase::PlusInfinity))));
    assert!(matches!(string_to_number(&"-INF".to_string()), Ok((None, NumberCase::MinusInfinity))));
    assert!(matches!(string_to_number(&"NaN".to_string()), Ok((None, NumberCase::NaN))));
    match string_to_number(&"1.50".to_string()) {
        Ok((Some(Dec { mantissa, scale }), NumberCase::Normal)) => {
            assert_eq!(mantissa, 150);
            assert_eq!(scale, 2);
        },
        other => panic!("unexpected {:?}", other),
    }
    match string_to_number(&"1.2e3".to_string()) {
        Ok((Some(d), NumberCase::Normal)) => {
            assert_eq!(d.mantissa, 1200);
            assert_eq!(d.scale, 0);
        },
        other => panic!("unexpected {:?}", other),
    }
    assert!(matches!(string_to_number(&"abc".to_string()), Err(ErrorCode::FORG0001)));
    assert!(matches!(string_to_number(&"1e".to_string()), Err(ErrorCode::FORG0001)));
}

#[test]
fn string_to_double_wraps_the_number() {
    match string_to_double(&"-INF".to_string()) {
        Ok(Object::Atomic(Type::Double { number: None, case: NumberCase::MinusInfinity })) => {},
        other => panic!("unexpected {:?}", other),
    }
    assert!(matches!(string_to_double(&"x1".to_string()), Err(ErrorCode::FORG0001)));
}

#[test]
fn decimals_compare_by_value() {
    let a = Type::Decimal { number: Some(Dec { mantissa: 10, scale: 1 }), case: NumberCase::Normal };
    let b = Type::Decimal { number: Some(Dec { mantissa: 100, scale: 2 }), case: NumberCase::Normal };
    let c = Type::Decimal { number: Some(Dec { mantissa: 11, scale: 1 }), case: NumberCase::Normal };
    assert!(type_eq(&a, &b));
    assert!(!type_eq(&a, &c));
    assert!(!type_eq(&a, &Type::Integer(1)));
}

#[test]
fn typed_value_of_a_node_joins_its_texts() {
    let tree = sample_tree();
    let mut parts = vec![];
    typed_value_of_node(&tree, &mut parts);
    assert_eq!(parts, vec!["he".to_string(), "ll".to_string(), "o".to_string()]);
    assert_eq!(node_typed_value(&tree), "hello");
    assert_eq!(node_typed_value(&Node::Attribute { sequence: 9, name: qn("y"), value: "v".to_string() }), "v");
    assert_eq!(node_to_number(&tree), 1);
}

#[test]
fn atomization_of_values() {
    match atomization(Object::Node(sample_tree())) {
        Ok(Object::Atomic(Type::Untyped(s))) => assert_eq!(s, "hello"),
        other => panic!("unexpected {:?}", other),
    }
    assert!(matches!(atomization(integer(5)), Ok(Object::Atomic(Type::Integer(5)))));
    assert!(matches!(atomization(Object::Sequence(vec![])), Ok(Object::Empty)));
    assert!(matches!(atomization(Object::Sequence(vec![integer(3), integer(3)])), Ok(Object::Atomic(Type::Integer(3)))));
    assert!(matches!(atomization(Object::Array(vec![integer(3), integer(4)])), Err(ErrorCode::XPTY0004)));
    assert!(matches!(
        atomization_of_vec(vec![Object::Sequence(vec![integer(7)]), integer(7)]),
        Ok(Object::Atomic(Type::Integer(7)))
    ));
}

#[test]
fn zero_or_one_keeps_the_first_of_equal_values() {
    let one_point_zero = Object::Atomic(Type::Decimal { number: Some(Dec { mantissa: 10, scale: 1 }), case: NumberCase::Normal });
    let one = Object::Atomic(Type::Decimal { number: Some(Dec { mantissa: 1, scale: 0 }), case: NumberCase::Normal });
    match zero_or_one(vec![one_point_zero, one]) {
        Ok(Object::Atomic(Type::Decimal { number: Some(d), .. })) => {
            assert_eq!(d.mantissa, 10);
            assert_eq!(d.scale, 1);
        },
        other => panic!("unexpected {:?}", other),
    }
    assert!(matches!(zero_or_one(vec![]), Ok(Object::Empty)));
    assert!(matches!(zero_or_one(vec![integer(1), integer(2)]), Err(ErrorCode::XPTY0004)));
}

#[test]
fn object_equality() {
    assert!(object_eq(&Object::Sequence(vec![integer(1), integer(2)]), &Object::Sequence(vec![integer(1), integer(2)])));
    assert!(!object_eq(&Object::Sequence(vec![integer(1), integer(2)]), &Object::Array(vec![integer(1), integer(2)])));
    assert!(object_eq(&Object::Range { min: 1, max: 3 }, &Object::Range { min: 1, max: 3 }));
    assert!(!object_eq(&Object::Empty, &Object::Nothing));
    let n = QNameResolved { url: "u".to_string(), local_part: "l".to_string() };
    let m = QNameResolved { url: "u".to_string(), local_part: "l".to_string() };
    assert!(object_eq(&Object::FunctionRef { name: n, arity: 1 }, &Object::FunctionRef { name: m, arity: 1 }));
}

#[test]
fn small_conversions() {
    assert_eq!(type_to_int(Type::Integer(-4)), -4);
    let q = object_to_qname(Object::QName { prefix: "p".to_string(), url: "u".to_string(), local_part: "l".to_string() });
    assert_eq!(q.prefix, Some("p".to_string()));
    assert_eq!(q.url, Some("u".to_string()));
    assert_eq!(q.local_part, "l");
}

#[test]
fn maps_are_equal_whatever_the_order_of_entries() {
    let key = |s: &str| Type::String(s.to_string());
    let a = Object::MapValue(vec![(key("a"), integer(1)), (key("b"), integer(2))]);
    let b = Object::MapValue(vec![(key("b"), integer(2)), (key("a"), integer(1))]);
    assert!(object_eq(&a, &b));
    assert!(object_eq(&a, &a.duplicate()));
    let c = Object::MapValue(vec![(key("b"), integer(3)), (key("a"), integer(1))]);
    assert!(!object_eq(&a, &c));
    let d = Object::MapValue(vec![(key("a"), integer(1))]);
    assert!(!object_eq(&a, &d));
    assert!(!object_eq(&a, &Object::Array(vec![integer(1), integer(2)])));
}
