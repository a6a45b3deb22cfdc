use xquery::namespaces::{xml, xpath_functions, Namespace, Namespaces, NS_heap, NS};
use xquery::qname::QName;

fn name(prefix: Option<&str>, url: Option<&str>, local: &str) -> QName {
    QName {
        prefix: prefix.map(|p| p.to_string()),
        url: url.map(|u| u.to_string()),
        local_part: local.to_string(),
    }
}

#[test]
fn new_binds_the_standard_prefixes() {
    let ns = Namespaces::new();
    assert_eq!(ns.by_prefix("fn").unwrap().uri, "http://www.w3.org/2005/xpath-functions");
    assert_eq!(ns.by_prefix("xs").unwrap().uri, "http://www.w3.org/2001/XMLSchema");
    assert_eq!(ns.by_prefix("local").unwrap().uri, "http://www.w3.org/2005/xquery-local-functions");
    assert!(ns.by_prefix("err").is_none());
    assert!(ns.by_prefix("nope").is_none());
    assert_eq!(ns.default_for_element(), "");
    assert_eq!(ns.default_for_function(), "http://www.w3.org/2005/xpath-functions");
}

#[test]
fn add_then_by_prefix_gives_the_binding() {
    let mut ns = Namespaces::new();
    ns.add(&NS_heap::new("my".to_string(), "urn:mine".to_string()));
    let b = ns.by_prefix("my").unwrap();
    assert_eq!(b.prefix, "my");
    assert_eq!(b.uri, "urn:mine");
    ns.add(&NS::new("my", "urn:other"));
    assert_eq!(ns.by_prefix("my").unwrap().uri, "urn:other");
    assert_eq!(ns.by_prefix("xml").unwrap().uri, "http://www.w3.org/XML/1998/namespace");
}

#[test]
fn resolve_uses_url_then_prefix_then_nothing() {
    let mut ns = Namespaces::new();
    ns.add(&NS::new("p", "urn:p"));
    let r = ns.resolve(&name(Some("p"), None, "a"));
    assert_eq!(r.url, "urn:p");
    assert_eq!(r.local_part, "a");
    let r = ns.resolve(&name(Some("p"), Some("urn:own"), "b"));
    assert_eq!(r.url, "urn:own");
    let r = ns.resolve(&name(None, None, "c"));
    assert_eq!(r.url, "");
    assert_eq!(r.local_part, "c");
}

#[test]
fn namespace_constants_and_to_heap() {
    assert_eq!(xml().prefix(), "xml");
    assert_eq!(xpath_functions().uri(), "http://www.w3.org/2005/xpath-functions");
    let h = NS::new("a", "urn:a").to_heap();
    assert_eq!(h.prefix, "a");
    assert_eq!(h.uri, "urn:a");
}
