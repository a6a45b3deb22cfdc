use xquery::eval::environment::Environment;
use xquery::eval::sequence_type::{
    xs_name, AnyKindTest, AttributeTest, CommentTest, ElementTest, ItemType, NameTest, NodeTest,
    OccurrenceIndicator, SequenceType, TextTest, FN_ARRAY,
};
use xquery::namespaces::{schema, NS};
use xquery::qname::QName;
use xquery::value::Node;

fn qn(prefix: Option<&str>, url: Option<&str>, local: &str) -> QName {
    QName { prefix: prefix.map(|s| s.to_string()), url: url.map(|s| s.to_string()), local_part: local.to_string() }
}

#[test]
fn atomic_types_compare_by_resolved_name() {
    let env = Environment::create();
    let a = SequenceType::exactly_one(ItemType::AtomicOrUnionType(qn(Some("xs"), None, "integer")));
    let b = SequenceType::exactly_one(ItemType::AtomicOrUnionType(xs_name("integer")));
    let c = SequenceType::zero_or_one(ItemType::AtomicOrUnionType(xs_name("integer")));
    let d = SequenceType::exactly_one(ItemType::AtomicOrUnionType(xs_name("string")));
    assert!(a.is_same(&env, &b));
    assert!(b.is_same(&env, &a));
    assert!(!a.is_same(&env, &c));
    assert!(a.is_not_same(&env, &d));
    assert!(a.item_type.is_same(&env, &c.item_type));
}

#[test]
fn kinds_and_occurrences() {
    let env = Environment::create();
    assert!(SequenceType::zero_or_more(ItemType::Item).is_same(&env, &SequenceType::zero_or_more(ItemType::Item)));
    assert!(!SequenceType::zero_or_more(ItemType::Item).is_same(&env, &SequenceType::one_or_more(ItemType::Item)));
    assert!(!SequenceType::none().is_same(&env, &SequenceType::exactly_one(ItemType::AnyKind)));
    assert!(SequenceType::none().is_same(&env, &SequenceType::none()));
    let arr_int = ItemType::Array(Some(Box::new(SequenceType::exactly_one(ItemType::AtomicOrUnionType(xs_name("integer"))))));
    let arr_str = ItemType::Array(Some(Box::new(SequenceType::exactly_one(ItemType::AtomicOrUnionType(xs_name("string"))))));
    assert!(!arr_int.is_same(&env, &arr_str));
    assert!(!ItemType::Array(None).is_same(&env, &arr_str));
    assert!(ItemType::Array(None).is_same(&env, &ItemType::Array(None)));
    assert!(SequenceType::exactly_one(arr_int).is_same(&env, &SequenceType::exactly_one(arr_str)));
    let map_a = ItemType::MapType(Some((
        Box::new(SequenceType::exactly_one(ItemType::AtomicOrUnionType(xs_name("string")))),
        Box::new(SequenceType::zero_or_more(ItemType::Item)),
    )));
    let map_b = ItemType::MapType(Some((
        Box::new(SequenceType::exactly_one(ItemType::AtomicOrUnionType(xs_name("string")))),
        Box::new(SequenceType::zero_or_more(ItemType::Item)),
    )));
    assert!(map_a.is_same(&env, &map_b));
    assert!(!map_a.is_same(&env, &ItemType::MapType(None)));
}

#[test]
fn fn_array_signature() {
    let (args, result) = FN_ARRAY();
    assert_eq!(args.len(), 1);
    assert_eq!(args[0].occurrence_indicator, OccurrenceIndicator::ExactlyOne);
    match &args[0].item_type {
        ItemType::AtomicOrUnionType(n) => {
            assert_eq!(n.local_part, "integer");
            assert_eq!(n.url, Some("http://www.w3.org/2001/XMLSchema".to_string()));
        },
        _ => panic!("wrong type"),
    }
    assert!(matches!(result.item_type, ItemType::Item));
    assert_eq!(result.occurrence_indicator, OccurrenceIndicator::ZeroOrMore);
}

#[test]
fn item_type_constructors() {
    assert!(matches!(ItemType::node(), ItemType::Node(t) if matches!(*t, NodeTest::AnyKind(_))));
    match ItemType::element_ns(&NS::new("p", "urn:p"), "e".to_string()) {
        ItemType::Node(t) => match *t {
            NodeTest::Element(e) => {
                let n = e.name.unwrap();
                assert_eq!(n.prefix, Some("p".to_string()));
                assert_eq!(n.url, Some("urn:p".to_string()));
                assert_eq!(n.local_part, "e");
            },
            _ => panic!("not an element test"),
        },
        _ => panic!("not a node type"),
    }
    assert!(matches!(ItemType::element(), ItemType::Node(t) if matches!(*t, NodeTest::Element(_))));
    assert_eq!(xs_name("date").prefix, Some("xs".to_string()));
    let _ = schema();
}

#[test]
fn node_tests() {
    let text = Node::NodeText { sequence: 1, content: "t".to_string() };
    let comment = Node::NodeComment { sequence: 2, content: "c".to_string() };
    let attr = Node::Attribute { sequence: 3, name: qn(None, Some("urn:a"), "id"), value: "v".to_string() };
    let elem = Node::Node { sequence: 4, name: qn(None, Some("urn:a"), "item"), attributes: vec![], children: vec![] };
    assert!(AnyKindTest::boxed().test_node(&comment));
    assert!(TextTest::boxed().test_node(&text));
    assert!(!TextTest::boxed().test_node(&comment));
    assert!(CommentTest::boxed().test_node(&comment));
    assert!(AttributeTest::boxed(Some(qn(None, None, "other")), None).test_node(&attr));
    assert!(!AttributeTest::boxed(None, None).test_node(&elem));
    assert!(NameTest::boxed(qn(None, Some("urn:a"), "item")).test_node(&elem));
    assert!(NameTest::boxed(qn(None, Some("*"), "id")).test_node(&attr));
    assert!(NameTest::boxed(qn(None, Some("urn:a"), "*")).test_node(&elem));
    assert!(!NameTest::boxed(qn(None, Some("urn:b"), "item")).test_node(&elem));
    assert!(!NameTest::boxed(qn(None, Some("*"), "*")).test_node(&text));
    assert!(matches!(*ElementTest::boxed(None, None), NodeTest::Element(_)));
}
