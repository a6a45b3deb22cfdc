use xquery::eval::sequence_type::{ItemType, OccurrenceIndicator, SequenceType};
use xquery::fns::register::{BuiltIn, FunctionsRegister};
use xquery::qname::QNameResolved;

fn name(url: &str, local: &str) -> QNameResolved {
    QNameResolved { url: url.to_string(), local_part: local.to_string() }
}

#[test]
fn register_finds_built_ins_by_name_and_arity() {
    let r = FunctionsRegister::new();
    let f = "http://www.w3.org/2005/xpath-functions";
    assert_eq!(r.get(&name(f, "count"), 1).map(|e| e.fun), Some(BuiltIn::Count));
    assert_eq!(r.get(&name(f, "data"), 0).map(|e| e.fun), Some(BuiltIn::Data0));
    assert_eq!(r.get(&name(f, "data"), 1).map(|e| e.fun), Some(BuiltIn::Data1));
    assert_eq!(r.get(&name(f, "count"), 2).map(|e| e.fun), None);
    assert_eq!(r.get(&name("http://www.w3.org/2001/XMLSchema", "string"), 1).map(|e| e.fun), Some(BuiltIn::XsString));
    assert_eq!(r.get(&name(f, "no-such-function"), 1).map(|e| e.fun), None);
    assert_eq!(r.get(&name("http://www.w3.org/2005/xpath-functions/array", "join"), usize::MAX).map(|e| e.fun), Some(BuiltIn::ArrayJoin));
}

#[test]
fn a_later_registration_replaces_an_earlier_one() {
    let mut r = FunctionsRegister::new();
    let f = "http://www.w3.org/2005/xpath-functions";
    r.register(f, "count", 1, BuiltIn::Data1, vec![], SequenceType::exactly_one(ItemType::Item));
    assert_eq!(r.get(&name(f, "count"), 1).map(|e| e.fun), Some(BuiltIn::Data1));
}

#[test]
fn scopes_find_functions_from_the_innermost_out() {
    let f = "http://www.w3.org/2005/xpath-functions";
    let mut outer = xquery::eval::environment::Environment::create();
    assert_eq!(outer.get_function(&name(f, "count"), 1).map(|e| e.fun), Some(BuiltIn::Count));
    assert_eq!(outer.get_function(&name(f, "count"), 3).map(|e| e.fun), None);
    outer.functions.register("urn:x", "f", 2, BuiltIn::Data0, vec![], SequenceType::exactly_one(ItemType::Item));
    let mut inner = outer.next();
    assert_eq!(inner.get_function(&name("urn:x", "f"), 2).map(|e| e.fun), Some(BuiltIn::Data0));
    inner.functions.register(f, "count", 1, BuiltIn::Data1, vec![], SequenceType::exactly_one(ItemType::Item));
    assert_eq!(inner.get_function(&name(f, "count"), 1).map(|e| e.fun), Some(BuiltIn::Data1));
    let outer = inner.prev();
    assert_eq!(outer.get_function(&name(f, "count"), 1).map(|e| e.fun), Some(BuiltIn::Count));
}

#[test]
fn built_ins_carry_their_signatures() {
    let r = FunctionsRegister::new();
    let f = "http://www.w3.org/2005/xpath-functions";
    let count = r.get(&name(f, "count"), 1).unwrap();
    assert_eq!(count.params.len(), 1);
    assert!(matches!(count.params[0].item_type, ItemType::Item));
    assert_eq!(count.params[0].occurrence_indicator, OccurrenceIndicator::ZeroOrMore);
    match &count.result.item_type {
        ItemType::AtomicOrUnionType(q) => assert_eq!(q.local_part, "integer"),
        _ => panic!("xs:integer expected"),
    }
    assert_eq!(count.result.occurrence_indicator, OccurrenceIndicator::ExactlyOne);
    let t = r.get(&name(f, "true"), 0).unwrap();
    assert!(t.params.is_empty());
    let filter = r.get(&name(f, "filter"), 2).unwrap();
    match &filter.params[1].item_type {
        ItemType::Function { args: Some(a), st: Some(s) } => {
            assert_eq!(a.len(), 1);
            assert!(matches!(s.item_type, ItemType::AtomicOrUnionType(_)));
        },
        _ => panic!("function type expected"),
    }
}
