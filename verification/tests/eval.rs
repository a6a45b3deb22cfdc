use xquery::errors::ErrorCode;
use xquery::eval::environment::Environment;
use xquery::eval::helpers::{join_sequences, process_items, relax, relax_sequences};
use xquery::eval::prolog::{
    BoundarySpace, ConstructionMode, DecimalFormatPropertyName, DeclareBoundarySpace, DeclareDecimalFormat, DeclareConstruction, DeclareCopyNamespaces,
    DeclareDefaultCollation, DeclareEmptyOrder, DeclareOrderingMode, EmptyOrderMode, EntityRef, EscapeApos,
    EscapeQuot, InheritMode, OrderingMode, PreserveMode, VersionDecl,
};
use xquery::eval::{
    object_owned_to_sequence, object_to_integer, object_to_iterator, range_to_sequence, DynamicContext,
    RangeIterator,
};
use xquery::qname::{QName, QNameResolved};
use xquery::value::{Node, Object, Type};

fn integer(n: i128) -> Object {
    Object::Atomic(Type::Integer(n))
}

fn ints(o: &[Object]) -> Vec<i128> {
    o.iter()
        .map(|x| match x {
            Object::Atomic(Type::Integer(n)) => *n,
            other => panic!("not an integer: {:?}", other),
        })
        .collect()
}

fn node(seq: isize) -> Object {
    Object::Node(Node::NodeText { sequence: seq, content: format!("t{}", seq) })
}

fn var(name: &str) -> QNameResolved {
    QNameResolved { url: String::new(), local_part: name.to_string() }
}

#[test]
fn relax_gives_empty_item_or_sequence() {
    let (_, o) = relax(Environment::create(), vec![]).unwrap();
    assert!(matches!(o, Object::Empty));
    let (_, o) = relax(Environment::create(), vec![integer(4)]).unwrap();
    assert!(matches!(o, Object::Atomic(Type::Integer(4))));
    let (_, o) = relax(Environment::create(), vec![integer(4), integer(5)]).unwrap();
    match o {
        Object::Sequence(items) => assert_eq!(ints(&items), vec![4, 5]),
        other => panic!("unexpected {:?}", other),
    }
}

#[test]
fn relax_sequences_flattens() {
    let mut out = vec![integer(0)];
    relax_sequences(
        &mut out,
        vec![Object::Empty, integer(1), Object::Sequence(vec![integer(2), Object::Nothing, Object::Sequence(vec![integer(3)])]), integer(4)],
    );
    assert_eq!(ints(&out), vec![0, 1, 2, 3, 4]);
}

#[test]
fn join_sequences_keeps_nodes() {
    let mut out = vec![];
    join_sequences(&mut out, vec![node(1), Object::Empty, Object::Sequence(vec![node(2), node(3)])]);
    assert_eq!(out.len(), 3);
    assert!(matches!(out[2], Object::Node(Node::NodeText { sequence: 3, .. })));
}

#[test]
fn range_iterator_counts_up_and_down() {
    let (mut it, count) = RangeIterator::create(3, 5);
    assert_eq!(count, 0);
    let mut seen = vec![];
    while let Some(o) = it.next() {
        seen.push(o);
    }
    assert_eq!(ints(&seen), vec![3, 4, 5]);
    let (mut it, _) = RangeIterator::create(2, 0);
    assert!(matches!(it.next(), Some(Object::Atomic(Type::Integer(2)))));
    assert!(matches!(it.next(), Some(Object::Atomic(Type::Integer(1)))));
    assert!(matches!(it.next(), Some(Object::Atomic(Type::Integer(0)))));
    assert!(it.next().is_none());
}

#[test]
fn range_to_sequence_lists_the_integers() {
    assert_eq!(ints(&range_to_sequence(Object::Range { min: 1, max: 4 })), vec![1, 2, 3, 4]);
    assert_eq!(ints(&range_to_sequence(Object::Range { min: 4, max: 2 })), vec![4, 3, 2]);
    assert_eq!(ints(&range_to_sequence(Object::Range { min: 7, max: 7 })), vec![7]);
    assert_eq!(range_to_sequence(Object::Empty).len(), 0);
    assert_eq!(ints(&range_to_sequence(Object::Sequence(vec![integer(9), integer(8)]))), vec![9, 8]);
}

#[test]
fn object_to_iterator_and_owned_sequence() {
    assert_eq!(ints(&object_to_iterator(&Object::Range { min: -1, max: 1 })), vec![-1, 0, 1]);
    assert_eq!(ints(&object_to_iterator(&integer(5))), vec![5]);
    let owned = object_owned_to_sequence(Object::Range { min: 1, max: 3 });
    assert_eq!(owned.len(), 1);
    assert!(matches!(owned[0], Object::Range { min: 1, max: 3 }));
}

#[test]
fn object_to_integer_reads_integers() {
    let env = Environment::create();
    assert_eq!(object_to_integer(&env, integer(12)).unwrap(), 12);
    assert_eq!(object_to_integer(&env, Object::Atomic(Type::Untyped("-42".to_string()))).unwrap(), -42);
    assert_eq!(object_to_integer(&env, Object::Atomic(Type::Untyped("+7".to_string()))).unwrap(), 7);
    let e = object_to_integer(&env, Object::Atomic(Type::Untyped("4x".to_string()))).unwrap_err();
    assert_eq!(e.0, ErrorCode::XPTY0004);
    let e = object_to_integer(&env, Object::Atomic(Type::Boolean(true))).unwrap_err();
    assert_eq!(e.0, ErrorCode::XPTY0004);
    assert_eq!(object_to_integer(&env, node_with_text("31")).unwrap(), 31);
    let e = object_to_integer(&env, Object::Empty).unwrap_err();
    assert_eq!(e.0, ErrorCode::XPTY0004);
}

fn node_with_text(s: &str) -> Object {
    Object::Node(Node::Node {
        sequence: 1,
        name: QName { prefix: None, url: None, local_part: "n".to_string() },
        attributes: vec![],
        children: vec![Node::NodeText { sequence: 2, content: s.to_string() }],
    })
}

#[test]
fn variables_are_found_from_inner_scopes() {
    let mut env = Environment::create();
    env.set_variable(var("x"), integer(1));
    env.set_variable(var("y"), integer(2));
    env.set_variable(var("x"), integer(3));
    assert!(matches!(env.get_variable(&var("x")), Some(Object::Atomic(Type::Integer(3)))));
    let mut inner = env.next();
    assert!(matches!(inner.get_variable(&var("y")), Some(Object::Atomic(Type::Integer(2)))));
    inner.set_variable(var("y"), integer(20));
    assert!(matches!(inner.get_variable(&var("y")), Some(Object::Atomic(Type::Integer(20)))));
    assert!(inner.get_variable(&var("z")).is_none());
    let outer = inner.prev();
    assert!(matches!(outer.get_variable(&var("y")), Some(Object::Atomic(Type::Integer(2)))));
}

#[test]
fn identifiers_come_from_the_outermost_scope() {
    let env = Environment::create();
    assert_eq!(env.sequence, 1);
    let mut inner = env.next();
    assert_eq!(inner.prev.as_ref().unwrap().sequence, 2);
    assert_eq!(inner.next_id(), 3);
    assert_eq!(inner.next_id(), 4);
    assert_eq!(inner.sequence, 0);
    assert_eq!(inner.default_namespace_for_function(), "http://www.w3.org/2005/xpath-functions");
    assert_eq!(inner.default_namespace_for_element(), "");
}

#[test]
fn prolog_settings_are_declared_once() {
    let ctx = DynamicContext::nothing();
    let env = Environment::create();
    let (env, o) = DeclareBoundarySpace::boxed(BoundarySpace::Strip).eval(env, &ctx).unwrap();
    assert!(matches!(o, Object::Nothing));
    assert_eq!(env.boundary_space, Some(BoundarySpace::Strip));
    let e = DeclareBoundarySpace::boxed(BoundarySpace::Preserve).eval(env, &ctx).err().unwrap();
    assert_eq!(e.0, ErrorCode::XQST0068);

    let env = Environment::create();
    let (env, _) = DeclareConstruction::boxed(ConstructionMode::Preserve).eval(env, &ctx).unwrap();
    assert_eq!(DeclareConstruction::boxed(ConstructionMode::Strip).eval(env, &ctx).err().unwrap().0, ErrorCode::XQST0067);

    let env = Environment::create();
    let (env, _) = DeclareOrderingMode::boxed(OrderingMode::Unordered).eval(env, &ctx).unwrap();
    assert_eq!(env.ordering_mode, Some(OrderingMode::Unordered));
    assert_eq!(DeclareOrderingMode::boxed(OrderingMode::Ordered).eval(env, &ctx).err().unwrap().0, ErrorCode::XQST0065);

    let env = Environment::create();
    let (env, _) = DeclareEmptyOrder::boxed(EmptyOrderMode::Least).eval(env, &ctx).unwrap();
    assert_eq!(DeclareEmptyOrder::boxed(EmptyOrderMode::Greatest).eval(env, &ctx).err().unwrap().0, ErrorCode::XQST0069);

    let env = Environment::create();
    let (env, _) = DeclareDefaultCollation::boxed("urn:c".to_string()).eval(env, &ctx).unwrap();
    assert_eq!(env.default_collation, Some("urn:c".to_string()));
    assert_eq!(
        DeclareDefaultCollation::boxed("urn:d".to_string()).eval(env, &ctx).err().unwrap().0,
        ErrorCode::XQST0038
    );

    let env = Environment::create();
    let (env, _) = DeclareCopyNamespaces::boxed(PreserveMode::NoPreserve, InheritMode::Inherit).eval(env, &ctx).unwrap();
    assert_eq!(env.copy_namespaces, Some((PreserveMode::NoPreserve, InheritMode::Inherit)));
    assert_eq!(
        DeclareCopyNamespaces::boxed(PreserveMode::Preserve, InheritMode::NoInherit).eval(env, &ctx).err().unwrap().0,
        ErrorCode::XQST0055
    );
}

#[test]
fn version_declarations_are_checked() {
    assert!(VersionDecl::boxed(Some("utf-8".to_string()), Some("3.1".to_string())).is_ok());
    assert!(VersionDecl::boxed(Some("us&#x2d;ascii".to_string()), None).is_ok());
    assert!(VersionDecl::boxed(None, None).is_ok());
    let e = VersionDecl::boxed(None, Some("2.0".to_string())).err().unwrap();
    assert_eq!(e.0, ErrorCode::XQST0031);
    assert_eq!(e.1, "unsupported version 2.0");
    let e = VersionDecl::boxed(Some("latin-9".to_string()), Some("1.0".to_string())).err().unwrap();
    assert_eq!(e.0, ErrorCode::XQST0087);
    assert_eq!(e.1, "unsupported encoding latin-9");
    let e = VersionDecl::boxed(Some("latin-9".to_string()), Some("4.0".to_string())).err().unwrap();
    assert_eq!(e.0, ErrorCode::XQST0031);
}

#[test]
fn literal_expressions() {
    let ctx = DynamicContext::nothing();
    let (_, o) = EntityRef::boxed("amp").eval(Environment::create(), &ctx).unwrap();
    assert!(matches!(o, Object::EntityRef(ref s) if s == "amp"));
    let (_, o) = EscapeQuot {}.eval(Environment::create(), &ctx).unwrap();
    assert!(matches!(o, Object::Atomic(Type::String(ref s)) if s == "\""));
    let (_, o) = EscapeApos {}.eval(Environment::create(), &ctx).unwrap();
    assert!(matches!(o, Object::Atomic(Type::String(ref s)) if s == "'"));
}

fn doubled(env: Box<Environment>, item: Object) -> xquery::eval::environment::EvalResult {
    match item {
        Object::Atomic(Type::Integer(n)) if n.abs() < 1000 => Ok((env, Object::Atomic(Type::Integer(2 * n)))),
        _ => Err((ErrorCode::XPTY0004, "not a small integer".to_string())),
    }
}

#[test]
fn process_items_maps_each_item() {
    let (_, r) = process_items(Environment::create(), Object::Sequence(vec![Object::Atomic(Type::Integer(1)), Object::Atomic(Type::Integer(5))]), doubled).ok().unwrap();
    match r {
        Object::Sequence(items) => {
            assert_eq!(items.len(), 2);
            assert!(matches!(items[1], Object::Atomic(Type::Integer(10))));
        },
        other => panic!("{:?}", other),
    }
    let (_, r) = process_items(Environment::create(), Object::Atomic(Type::Integer(4)), doubled).ok().unwrap();
    assert!(matches!(r, Object::Atomic(Type::Integer(8))));
    let (_, r) = process_items(Environment::create(), Object::Empty, doubled).ok().unwrap();
    assert!(matches!(r, Object::Empty));
    let e = process_items(Environment::create(), Object::Sequence(vec![Object::Atomic(Type::Integer(1)), Object::Atomic(Type::Boolean(true))]), doubled);
    assert!(matches!(e, Err((ErrorCode::XPTY0004, _))));
}

#[test]
fn decimal_formats_are_declared_by_name() {
    let ctx = DynamicContext::nothing();
    let env = Environment::create();
    assert!(env.decimal_formats.is_none());
    let default = DeclareDecimalFormat::boxed(None, vec![(DecimalFormatPropertyName::ZeroDigit, "0".to_string())]);
    let (env, o) = default.eval(env, &ctx).unwrap();
    assert!(matches!(o, Object::Nothing));
    let name = QName { prefix: Some("p".to_string()), url: Some("urn:p".to_string()), local_part: "f".to_string() };
    let named = DeclareDecimalFormat::boxed(Some(name), vec![(DecimalFormatPropertyName::MinusSign, "~".to_string())]);
    let (env, _) = named.eval(env, &ctx).unwrap();
    let formats = env.decimal_formats.as_ref().unwrap();
    assert_eq!(formats.len(), 2);
    assert!(formats[0].name.is_none());
    assert_eq!(formats[0].properties[0].1, "0");
    assert_eq!(formats[1].name.as_ref().unwrap().local_part, "f");
    assert!(matches!(formats[1].properties[0].0, DecimalFormatPropertyName::MinusSign));
    assert!(env.boundary_space.is_none());
}
