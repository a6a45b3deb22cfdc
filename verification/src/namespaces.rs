use vstd::prelude::*;
use crate::qname::{QName, QNameResolved, QNameView};
use crate::xqts::text::str_eq;

verus! {

/// A namespace binding: a prefix and the URI it stands for.
pub trait Namespace {
    spec fn prefix_view(&self) -> Seq<char>;

    spec fn uri_view(&self) -> Seq<char>;

    fn prefix(&self) -> (r: String)
        ensures
            r@ == self.prefix_view(),
    ;

    fn uri(&self) -> (r: String)
        ensures
            r@ == self.uri_view(),
    ;

    /// The binding, owned.
    fn to_heap(&self) -> (r: NS_heap)
        ensures
            r.prefix@ == self.prefix_view(),
            r.uri@ == self.uri_view(),
    {
        NS_heap { prefix: self.prefix(), uri: self.uri() }
    }
}

/// A namespace binding that owns its strings.
#[allow(non_camel_case_types)]
pub struct NS_heap {
    pub prefix: String,
    pub uri: String,
}

impl NS_heap {
    pub fn new(prefix: String, uri: String) -> (r: NS_heap)
        ensures
            r.prefix@ == prefix@,
            r.uri@ == uri@,
    {
        NS_heap { prefix, uri }
    }
}

impl Namespace for NS_heap {
    open spec fn prefix_view(&self) -> Seq<char> {
        self.prefix@
    }

    open spec fn uri_view(&self) -> Seq<char> {
        self.uri@
    }

    fn prefix(&self) -> (r: String) {
        self.prefix.clone()
    }

    fn uri(&self) -> (r: String) {
        self.uri.clone()
    }
}

/// A namespace binding over borrowed strings.
pub struct NS<'a> {
    pub prefix: &'a str,
    pub uri: &'a str,
}

impl<'a> NS<'a> {
    pub fn new(prefix: &'a str, uri: &'a str) -> (r: NS<'a>)
        ensures
            r.prefix@ == prefix@,
            r.uri@ == uri@,
    {
        NS { prefix, uri }
    }
}

impl<'a> Namespace for NS<'a> {
    open spec fn prefix_view(&self) -> Seq<char> {
        self.prefix@
    }

    open spec fn uri_view(&self) -> Seq<char> {
        self.uri@
    }

    fn prefix(&self) -> (r: String) {
        self.prefix.to_owned()
    }

    fn uri(&self) -> (r: String) {
        self.uri.to_owned()
    }
}

/// The XML namespace.
pub fn xml() -> (r: NS<'static>)
    ensures
        r.prefix@ == "xml"@,
        r.uri@ == "http://www.w3.org/XML/1998/namespace"@,
{
    NS::new("xml", "http://www.w3.org/XML/1998/namespace")
}

/// XML Schema.
pub fn schema() -> (r: NS<'static>)
    ensures
        r.prefix@ == "xs"@,
        r.uri@ == "http://www.w3.org/2001/XMLSchema"@,
{
    NS::new("xs", "http://www.w3.org/2001/XMLSchema")
}

/// XML Schema instances.
pub fn schema_instance() -> (r: NS<'static>)
    ensures
        r.prefix@ == "xsi"@,
        r.uri@ == "http://www.w3.org/2001/XMLSchema-instance"@,
{
    NS::new("xsi", "http://www.w3.org/2001/XMLSchema-instance")
}

/// The XPath functions.
pub fn xpath_functions() -> (r: NS<'static>)
    ensures
        r.prefix@ == "fn"@,
        r.uri@ == "http://www.w3.org/2005/xpath-functions"@,
{
    NS::new("fn", "http://www.w3.org/2005/xpath-functions")
}

/// The XPath map functions.
pub fn xpath_map() -> (r: NS<'static>)
    ensures
        r.prefix@ == "map"@,
        r.uri@ == "http://www.w3.org/2005/xpath-functions/map"@,
{
    NS::new("map", "http://www.w3.org/2005/xpath-functions/map")
}

/// The XPath array functions.
pub fn xpath_array() -> (r: NS<'static>)
    ensures
        r.prefix@ == "array"@,
        r.uri@ == "http://www.w3.org/2005/xpath-functions/array"@,
{
    NS::new("array", "http://www.w3.org/2005/xpath-functions/array")
}

/// The XPath math functions.
pub fn xpath_math() -> (r: NS<'static>)
    ensures
        r.prefix@ == "math"@,
        r.uri@ == "http://www.w3.org/2005/xpath-functions/math"@,
{
    NS::new("math", "http://www.w3.org/2005/xpath-functions/math")
}

/// Local functions of XQuery.
pub fn xquery_local() -> (r: NS<'static>)
    ensures
        r.prefix@ == "local"@,
        r.uri@ == "http://www.w3.org/2005/xquery-local-functions"@,
{
    NS::new("local", "http://www.w3.org/2005/xquery-local-functions")
}

/// The error codes of XQuery and XPath.
pub fn xqt_error() -> (r: NS<'static>)
    ensures
        r.prefix@ == "err"@,
        r.uri@ == "http://www.w3.org/2005/xqt-errors"@,
{
    NS::new("err", "http://www.w3.org/2005/xqt-errors")
}

/// The prefixes bound in a new set of namespaces, to their URIs.
pub open spec fn standard_prefixes() -> Map<Seq<char>, Seq<char>> {
    Map::empty()
        .insert("xml"@, "http://www.w3.org/XML/1998/namespace"@)
        .insert("xs"@, "http://www.w3.org/2001/XMLSchema"@)
        .insert("xsi"@, "http://www.w3.org/2001/XMLSchema-instance"@)
        .insert("fn"@, "http://www.w3.org/2005/xpath-functions"@)
        .insert("map"@, "http://www.w3.org/2005/xpath-functions/map"@)
        .insert("array"@, "http://www.w3.org/2005/xpath-functions/array"@)
        .insert("math"@, "http://www.w3.org/2005/xpath-functions/math"@)
        .insert("local"@, "http://www.w3.org/2005/xquery-local-functions"@)
}

/// The namespaces in scope: prefix bindings and the default namespaces of
/// element and function names.
pub struct Namespaces {
    pub prefixes: Vec<NS_heap>,
    pub default_for_element: String,
    pub default_for_function: String,
}

pub open spec fn bindings_map(v: Seq<NS_heap>) -> Map<Seq<char>, Seq<char>>
    decreases v.len(),
{
    if v.len() == 0 {
        Map::empty()
    } else {
        bindings_map(v.drop_last()).insert(v.last().prefix@, v.last().uri@)
    }
}

/// What a name stands for in the given prefix bindings: its own URI if it
/// has one, else the URI bound to its prefix, else no namespace.
pub open spec fn spec_resolve(bindings: Map<Seq<char>, Seq<char>>, name: QNameView) -> (Seq<char>, Seq<char>) {
    match name.url {
        Some(url) => (url, name.local_part),
        None => match name.prefix {
            Some(prefix) => (bindings[prefix], name.local_part),
            None => (seq![], name.local_part),
        },
    }
}

/// A name can be resolved unless its prefix is bound to nothing.
pub open spec fn resolvable(bindings: Map<Seq<char>, Seq<char>>, name: QNameView) -> bool {
    name.url is None && name.prefix is Some ==> bindings.dom().contains(name.prefix->0)
}

proof fn lemma_bindings_suffix(v: Seq<NS_heap>, i: int, key: Seq<char>)
    requires
        0 <= i <= v.len(),
        forall|j: int| i <= j < v.len() ==> v[j].prefix@ != key,
    ensures
        bindings_map(v).dom().contains(key) == bindings_map(v.subrange(0, i)).dom().contains(key),
        bindings_map(v).dom().contains(key) ==> bindings_map(v)[key] == bindings_map(v.subrange(0, i))[key],
    decreases v.len() - i,
{
    if i < v.len() {
        assert(v.drop_last() =~= v.subrange(0, v.len() - 1));
        lemma_bindings_suffix(v.drop_last(), i, key);
        assert(v.drop_last().subrange(0, i) =~= v.subrange(0, i));
    } else {
        assert(v.subrange(0, i) =~= v);
    }
}

impl View for Namespaces {
    type V = Map<Seq<char>, Seq<char>>;

    open spec fn view(&self) -> Map<Seq<char>, Seq<char>> {
        bindings_map(self.prefixes@)
    }
}

impl Namespaces {
    /// The standard prefixes bound, no default element namespace, and the
    /// XPath functions as default function namespace.
    pub fn new() -> (r: Namespaces)
        ensures
            r@ == standard_prefixes(),
            r.default_for_element@ == Seq::<char>::empty(),
            r.default_for_function@ == "http://www.w3.org/2005/xpath-functions"@,
    {
        let mut instance = Namespaces {
            prefixes: Vec::new(),
            default_for_element: String::new(),
            default_for_function: String::from_str("http://www.w3.org/2005/xpath-functions"),
        };
        instance.add(&xml());
        instance.add(&schema());
        instance.add(&schema_instance());
        instance.add(&xpath_functions());
        instance.add(&xpath_map());
        instance.add(&xpath_array());
        instance.add(&xpath_math());
        instance.add(&xquery_local());
        instance
    }

    /// The namespace URI and local part that a name stands for.
    pub fn resolve(&self, name: &QName) -> (r: QNameResolved)
        requires
            resolvable(self@, name@),
        ensures
            r@ == spec_resolve(self@, name@),
    {
        let url = match &name.url {
            Some(url) => url.clone(),
            None => match &name.prefix {
                Some(prefix) => match self.by_prefix(prefix.as_str()) {
                    Some(ns) => ns.uri.clone(),
                    None => String::new(),
                },
                None => String::new(),
            },
        };
        QNameResolved { url, local_part: name.local_part.clone() }
    }

    pub fn default_for_element(&self) -> (r: String)
        ensures
            r@ == self.default_for_element@,
    {
        self.default_for_element.clone()
    }

    pub fn default_for_function(&self) -> (r: String)
        ensures
            r@ == self.default_for_function@,
    {
        self.default_for_function.clone()
    }

    /// Binds the prefix of `ns` to its URI, replacing an earlier binding.
    pub fn add<T: Namespace>(&mut self, ns: &T)
        ensures
            final(self)@ == old(self)@.insert(ns.prefix_view(), ns.uri_view()),
            final(self).default_for_element == old(self).default_for_element,
            final(self).default_for_function == old(self).default_for_function,
    {
        let h = ns.to_heap();
        self.prefixes.push(h);
        assert(self.prefixes@.drop_last() =~= old(self).prefixes@);
    }

    /// The binding of `prefix`, if any.
    pub fn by_prefix(&self, prefix: &str) -> (r: Option<&NS_heap>)
        ensures
            match r {
                Some(ns) => self@.dom().contains(prefix@) && ns.prefix@ == prefix@ && ns.uri@ == self@[prefix@],
                None => !self@.dom().contains(prefix@),
            },
    {
        let mut i: usize = self.prefixes.len();
        while i > 0
            invariant
                i <= self.prefixes@.len(),
                forall|j: int| i <= j < self.prefixes@.len() ==> self.prefixes@[j].prefix@ != prefix@,
            decreases i,
        {
            if str_eq(self.prefixes[i - 1].prefix.as_str(), prefix) {
                proof {
                    lemma_bindings_suffix(self.prefixes@, i as int, prefix@);
                    let pre = self.prefixes@.subrange(0, i as int);
                    assert(pre.drop_last() =~= self.prefixes@.subrange(0, i - 1));
                }
                return Some(&self.prefixes[i - 1]);
            }
            i = i - 1;
        }
        proof {
            lemma_bindings_suffix(self.prefixes@, 0, prefix@);
            assert(self.prefixes@.subrange(0, 0) =~= Seq::<NS_heap>::empty());
        }
        None
    }
}


/// After `add` binds a prefix, `by_prefix` finds the prefix bound to the URI
/// added, and every other prefix keeps its binding.
pub proof fn law_add_then_by_prefix(
    before: Map<Seq<char>, Seq<char>>,
    prefix: Seq<char>,
    uri: Seq<char>,
    other: Seq<char>,
)
    requires
        other != prefix,
    ensures
        before.insert(prefix, uri).dom().contains(prefix),
        before.insert(prefix, uri)[prefix] == uri,
        before.insert(prefix, uri).dom().contains(other) == before.dom().contains(other),
        before.dom().contains(other) ==> before.insert(prefix, uri)[other] == before[other],
{
}

/// A name written with a prefix that `add` bound, and no URI of its own,
/// resolves to the URI added and its own local part.
pub proof fn law_resolve_added_prefix(
    before: Map<Seq<char>, Seq<char>>,
    prefix: Seq<char>,
    uri: Seq<char>,
    name: QNameView,
)
    requires
        name.url is None,
        name.prefix == Some(prefix),
    ensures
        resolvable(before.insert(prefix, uri), name),
        spec_resolve(before.insert(prefix, uri), name) == (uri, name.local_part),
{
}

/// A name with a URI of its own resolves to that URI, whatever is bound.
pub proof fn law_resolve_own_url(bindings: Map<Seq<char>, Seq<char>>, name: QNameView)
    requires
        name.url is Some,
    ensures
        resolvable(bindings, name),
        spec_resolve(bindings, name) == (name.url->0, name.local_part),
{
}

/// The bindings after adding the namespaces `adds`, in order, to `m`.
pub open spec fn after_adds(m: Map<Seq<char>, Seq<char>>, adds: Seq<(Seq<char>, Seq<char>)>) -> Map<Seq<char>, Seq<char>>
    decreases adds.len(),
{
    if adds.len() == 0 {
        m
    } else {
        after_adds(m, adds.drop_last()).insert(adds.last().0, adds.last().1)
    }
}

/// The URI of the latest addition of prefix `p` in `adds`, if any.
pub open spec fn latest_added(adds: Seq<(Seq<char>, Seq<char>)>, p: Seq<char>) -> Option<Seq<char>>
    decreases adds.len(),
{
    if adds.len() == 0 {
        None
    } else if adds.last().0 == p {
        Some(adds.last().1)
    } else {
        latest_added(adds.drop_last(), p)
    }
}

/// After `new` and any sequence of `add`s, a prefix is bound exactly when
/// it is one of the standard prefixes or was added, and then to the URI
/// of its latest addition, or to its standard URI if it was never added.
pub proof fn law_bound_after_adds(adds: Seq<(Seq<char>, Seq<char>)>, p: Seq<char>)
    ensures
        after_adds(standard_prefixes(), adds).dom().contains(p) <==> (standard_prefixes().dom().contains(p)
            || exists|i: int| 0 <= i < adds.len() && #[trigger] adds[i].0 == p),
        after_adds(standard_prefixes(), adds).dom().contains(p) ==> after_adds(standard_prefixes(), adds)[p]
            == match latest_added(adds, p) {
            Some(u) => u,
            None => standard_prefixes()[p],
        },
    decreases adds.len(),
{
    if adds.len() > 0 {
        let rest = adds.drop_last();
        law_bound_after_adds(rest, p);
        let n = adds.len() - 1;
        if exists|i: int| 0 <= i < rest.len() && #[trigger] rest[i].0 == p {
            let i0 = choose|i: int| 0 <= i < rest.len() && #[trigger] rest[i].0 == p;
            assert(adds[i0].0 == p);
        }
        if exists|i: int| 0 <= i < adds.len() && #[trigger] adds[i].0 == p {
            let i0 = choose|i: int| 0 <= i < adds.len() && #[trigger] adds[i].0 == p;
            if i0 < n {
                assert(rest[i0].0 == p);
            }
        }
    }
}

} // verus!
