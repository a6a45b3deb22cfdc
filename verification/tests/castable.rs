use xquery::errors::{ErrorCode, ErrorInfo};
use xquery::eval::castable::Types;
use xquery::eval::environment::Environment;
use xquery::eval::sequence_type::{xs_name, ItemType, OccurrenceIndicator, SequenceType};
use xquery::value::{Node, NumberCase, Object, Type};

fn text_converts(t: &Type, ty: Types) -> bool {
    match (t, ty) {
        (Type::String(s) | Type::Untyped(s), Types::Integer) => s.parse::<i128>().is_ok(),
        (_, Types::String) | (_, Types::Untyped) => true,
        _ => false,
    }
}

fn convert_text(t: &Type, ty: Types) -> Result<Type, ErrorInfo> {
    match (t, ty) {
        (Type::String(s) | Type::Untyped(s), Types::Integer) => match s.parse::<i128>() {
            Ok(n) => Ok(Type::Integer(n)),
            Err(_) => Err((ErrorCode::FORG0001, "not an integer".to_string())),
        },
        (Type::String(s) | Type::Untyped(s), Types::String) => Ok(Type::String(s.clone())),
        _ => Err((ErrorCode::XPTY0004, "no conversion".to_string())),
    }
}

fn st(item_type: ItemType, occurrence_indicator: OccurrenceIndicator) -> SequenceType {
    SequenceType { item_type, occurrence_indicator }
}

fn xs(local: &str) -> ItemType {
    ItemType::AtomicOrUnionType(xs_name(local))
}

fn integer_item(n: i128) -> Object {
    Object::Atomic(Type::Integer(n))
}

#[test]
fn castable_by_occurrence_and_type() {
    let env = Environment::create();
    let item_one = st(ItemType::Item, OccurrenceIndicator::ExactlyOne);
    assert_eq!(item_one.is_castable(&env, &Object::Empty, &text_converts).unwrap(), false);
    assert_eq!(st(ItemType::Item, OccurrenceIndicator::ZeroOrOne).is_castable(&env, &Object::Empty, &text_converts).unwrap(), true);
    assert_eq!(item_one.is_castable(&env, &Object::Range { min: 1, max: 2 }, &text_converts).unwrap(), false);
    assert_eq!(item_one.is_castable(&env, &Object::Sequence(vec![integer_item(1), integer_item(2)]), &text_converts).unwrap(), false);
    assert_eq!(st(ItemType::Item, OccurrenceIndicator::OneOrMore).is_castable(&env, &Object::Sequence(vec![integer_item(1), integer_item(2)]), &text_converts).unwrap(), true);

    let integer = st(xs("integer"), OccurrenceIndicator::ExactlyOne);
    assert_eq!(integer.is_castable(&env, &integer_item(3), &text_converts).unwrap(), true);
    assert_eq!(integer.is_castable(&env, &Object::Atomic(Type::String("12".to_string())), &text_converts).unwrap(), true);
    assert_eq!(integer.is_castable(&env, &Object::Atomic(Type::String("x".to_string())), &text_converts).unwrap(), false);
    assert_eq!(integer.is_castable(&env, &Object::Atomic(Type::AnyURI("u".to_string())), &text_converts).unwrap(), false);
    let inf = Object::Atomic(Type::Double { number: None, case: NumberCase::PlusInfinity });
    assert_eq!(integer.is_castable(&env, &inf, &text_converts).unwrap(), false);
    assert_eq!(st(xs("double"), OccurrenceIndicator::ExactlyOne).is_castable(&env, &inf, &text_converts).unwrap(), true);
    let many = st(xs("integer"), OccurrenceIndicator::ZeroOrMore);
    assert_eq!(many.is_castable(&env, &Object::Sequence(vec![integer_item(1), Object::Atomic(Type::String("7".to_string()))]), &text_converts).unwrap(), true);
    assert_eq!(many.is_castable(&env, &Object::Sequence(vec![integer_item(1), Object::Atomic(Type::Boolean(true)), Object::Atomic(Type::AnyURI("u".to_string()))]), &text_converts).unwrap(), false);
    assert_eq!(integer.is_castable(&env, &Object::Sequence(vec![integer_item(1)]), &text_converts).unwrap(), false);
    let node = Object::Node(Node::NodeText { sequence: 1, content: "42".to_string() });
    assert_eq!(integer.is_castable(&env, &node, &text_converts).unwrap(), true);
    let e = st(xs("anyAtomicType"), OccurrenceIndicator::ExactlyOne).is_castable(&env, &integer_item(1), &text_converts).unwrap_err();
    assert_eq!(e.0, ErrorCode::XPST0080);
    let hex = st(xs("hexBinary"), OccurrenceIndicator::ExactlyOne);
    assert_eq!(hex.is_castable(&env, &Object::Atomic(Type::String("0aFF".to_string())), &text_converts).unwrap(), true);
    assert_eq!(hex.is_castable(&env, &Object::Atomic(Type::String("0aF".to_string())), &text_converts).unwrap(), false);
    let b64 = st(xs("base64Binary"), OccurrenceIndicator::ExactlyOne);
    assert_eq!(b64.is_castable(&env, &Object::Atomic(Type::String("ab+/".to_string())), &text_converts).unwrap(), true);
    assert_eq!(b64.is_castable(&env, &Object::Atomic(Type::String("a b".to_string())), &text_converts).unwrap(), false);
    let array = st(ItemType::Array(Some(Box::new(st(xs("integer"), OccurrenceIndicator::ExactlyOne)))), OccurrenceIndicator::ExactlyOne);
    assert_eq!(array.is_castable(&env, &Object::Array(vec![integer_item(1), integer_item(2)]), &text_converts).unwrap(), true);
    assert_eq!(array.is_castable(&env, &integer_item(1), &text_converts).unwrap(), false);
}

#[test]
fn cascade_converts_to_the_named_type() {
    let env = Environment::create();
    let integer = st(xs("integer"), OccurrenceIndicator::ExactlyOne);
    let r = integer.cascade(&env, Object::Atomic(Type::String("12".to_string())), &convert_text).ok().unwrap();
    assert!(matches!(r, Object::Atomic(Type::Integer(12))));
    let e = integer.cascade(&env, Object::Atomic(Type::String("x".to_string())), &convert_text);
    assert!(matches!(e, Err((ErrorCode::FORG0001, _))));
    let many = st(xs("integer"), OccurrenceIndicator::ZeroOrMore);
    let r = many.cascade(&env, Object::Sequence(vec![Object::Atomic(Type::Untyped("1".to_string())), Object::Atomic(Type::String("2".to_string()))]), &convert_text).ok().unwrap();
    match r {
        Object::Sequence(items) => assert!(matches!(items[1], Object::Atomic(Type::Integer(2)))),
        other => panic!("{:?}", other),
    }
    let item = st(ItemType::Item, OccurrenceIndicator::ZeroOrMore);
    assert!(matches!(item.cascade(&env, Object::Range { min: 1, max: 3 }, &convert_text).ok().unwrap(), Object::Range { min: 1, max: 3 }));
    let node = Object::Node(Node::NodeText { sequence: 1, content: "5".to_string() });
    assert!(matches!(integer.cascade(&env, node, &convert_text).ok().unwrap(), Object::Atomic(Type::Integer(5))));
    let e = st(xs("NOTATION"), OccurrenceIndicator::ExactlyOne).cascade(&env, integer_item(1), &convert_text);
    assert!(matches!(e, Err((ErrorCode::XPST0080, _))));
}

fn text(s: &str) -> Type {
    Type::String(s.to_string())
}

#[test]
fn maps_fit_item_and_map_types() {
    let env = Environment::create();
    let one = OccurrenceIndicator::ExactlyOne;
    let m = Object::MapValue(vec![(text("a"), integer_item(1)), (text("b"), integer_item(2))]);
    assert_eq!(st(ItemType::Item, one).is_castable(&env, &m, &text_converts).unwrap(), true);
    assert_eq!(st(xs("integer"), one).is_castable(&env, &m, &text_converts).unwrap_err().0, ErrorCode::FOTY0013);
    let map_of = |k: SequenceType, v: SequenceType| st(ItemType::MapType(Some((Box::new(k), Box::new(v)))), one);
    assert_eq!(map_of(st(xs("string"), one), st(xs("integer"), one)).is_castable(&env, &m, &text_converts).unwrap(), true);
    // keys are checked against the key type where it admits exactly one item
    assert_eq!(map_of(st(xs("integer"), one), st(xs("integer"), one)).is_castable(&env, &m, &text_converts).unwrap(), false);
    assert_eq!(
        map_of(st(xs("integer"), OccurrenceIndicator::ZeroOrMore), st(xs("integer"), one)).is_castable(&env, &m, &text_converts).unwrap(),
        true
    );
    // values are checked against the value type
    assert_eq!(map_of(st(xs("string"), one), st(xs("anyURI"), one)).is_castable(&env, &m, &text_converts).unwrap(), false);
    assert_eq!(st(ItemType::MapType(None), one).is_castable(&env, &m, &text_converts).unwrap(), true);
    assert_eq!(st(ItemType::MapType(None), one).is_castable(&env, &integer_item(1), &text_converts).unwrap(), false);
    let kept = st(ItemType::Item, one).cascade(&env, Object::MapValue(vec![(text("k"), integer_item(3))]), &convert_text).ok().unwrap();
    assert!(matches!(kept, Object::MapValue(ref e) if e.len() == 1));
    let e = st(xs("integer"), one).cascade(&env, Object::MapValue(vec![]), &convert_text);
    assert_eq!(e.err().unwrap().0, ErrorCode::FOTY0013);
}

#[test]
fn function_references_fit_by_signature() {
    let env = Environment::create();
    let one = OccurrenceIndicator::ExactlyOne;
    let count = Object::FunctionRef {
        name: xquery::qname::QNameResolved {
            url: "http://www.w3.org/2005/xpath-functions".to_string(),
            local_part: "count".to_string(),
        },
        arity: 1,
    };
    let fun = |args: Option<Vec<SequenceType>>, res: Option<Box<SequenceType>>| st(ItemType::Function { args, st: res }, one);
    let exact = fun(Some(vec![st(ItemType::Item, OccurrenceIndicator::ZeroOrMore)]), Some(Box::new(st(xs("integer"), one))));
    assert_eq!(exact.is_castable(&env, &count, &text_converts).unwrap(), true);
    assert_eq!(fun(Some(vec![st(ItemType::Item, one)]), None).is_castable(&env, &count, &text_converts).unwrap(), false);
    assert_eq!(fun(None, Some(Box::new(st(xs("string"), one)))).is_castable(&env, &count, &text_converts).unwrap(), false);
    assert_eq!(fun(Some(vec![]), None).is_castable(&env, &count, &text_converts).unwrap(), false);
    assert_eq!(fun(None, None).is_castable(&env, &count, &text_converts).unwrap(), true);
    let kept = exact.cascade(&env, count, &convert_text).ok().unwrap();
    assert!(matches!(kept, Object::FunctionRef { arity: 1, .. }));
}
