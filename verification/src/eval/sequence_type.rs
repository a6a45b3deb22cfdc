use vstd::prelude::*;
use crate::eval::environment::Environment;
use crate::namespaces::{resolvable, schema, spec_resolve, Namespace};
use crate::qname::{QName, QNameView};
use crate::value::{Node, NodeV};
use crate::xqts::text::str_eq;
use crate::xqts::model::opt_view;

verus! {

/// How many items a sequence type admits.
#[derive(PartialEq, Eq, Structural, Clone, Copy, Debug)]
pub enum OccurrenceIndicator {
    ExactlyOne,
    ZeroOrOne,
    ZeroOrMore,
    OneOrMore,
}

/// A test that a node passes or fails.
pub enum NodeTest {
    AnyKind(AnyKindTest),
    Document(DocumentTest),
    Text(TextTest),
    Comment(CommentTest),
    NamespaceNode(NamespaceNodeTest),
    PI(PITest),
    Element(ElementTest),
    Attribute(AttributeTest),
    SchemaElement(SchemaElementTest),
    SchemaAttribute(SchemaAttributeTest),
    Name(NameTest),
}

/// Passes any node.
pub struct AnyKindTest {}

/// Passes a document node, whose element passes the inner test if given.
pub struct DocumentTest {
    pub child: Option<Box<NodeTest>>,
}

/// Passes a text node.
pub struct TextTest {}

/// Passes a comment node.
pub struct CommentTest {}

/// Passes a namespace node.
pub struct NamespaceNodeTest {}

/// Passes a processing instruction.
pub struct PITest {}

/// Passes an element of the given name and type, if given.
pub struct ElementTest {
    pub name: Option<QName>,
    pub type_annotation: Option<QName>,
}

/// Passes an attribute of the given name and type, if given.
pub struct AttributeTest {
    pub name: Option<QName>,
    pub type_annotation: Option<QName>,
}

/// Passes an element declared in the schema under the name.
pub struct SchemaElementTest {
    pub name: QName,
}

/// Passes an attribute declared in the schema under the name.
pub struct SchemaAttributeTest {
    pub name: QName,
}

/// Passes an element or attribute of the given name; `*` as local part or
/// as URI stands for any.
pub struct NameTest {
    pub name: QName,
}

impl AnyKindTest {
    pub fn boxed() -> (r: Box<NodeTest>)
        ensures
            *r is AnyKind,
    {
        Box::new(NodeTest::AnyKind(AnyKindTest {}))
    }
}

impl DocumentTest {
    pub fn boxed(child: Option<Box<NodeTest>>) -> (r: Box<NodeTest>)
        ensures
            *r matches NodeTest::Document(t) && t.child == child,
    {
        Box::new(NodeTest::Document(DocumentTest { child }))
    }
}

impl TextTest {
    pub fn boxed() -> (r: Box<NodeTest>)
        ensures
            *r is Text,
    {
        Box::new(NodeTest::Text(TextTest {}))
    }
}

impl CommentTest {
    pub fn boxed() -> (r: Box<NodeTest>)
        ensures
            *r is Comment,
    {
        Box::new(NodeTest::Comment(CommentTest {}))
    }
}

impl NamespaceNodeTest {
    pub fn boxed() -> (r: Box<NodeTest>)
        ensures
            *r is NamespaceNode,
    {
        Box::new(NodeTest::NamespaceNode(NamespaceNodeTest {}))
    }
}

impl PITest {
    pub fn boxed() -> (r: Box<NodeTest>)
        ensures
            *r is PI,
    {
        Box::new(NodeTest::PI(PITest {}))
    }
}

impl ElementTest {
    pub fn boxed(name: Option<QName>, type_annotation: Option<QName>) -> (r: Box<NodeTest>)
        ensures
            *r matches NodeTest::Element(t) && t.name == name && t.type_annotation == type_annotation,
    {
        Box::new(NodeTest::Element(ElementTest { name, type_annotation }))
    }
}

impl AttributeTest {
    /// An attribute test. The name and type given are not kept: the test
    /// passes any attribute.
    pub fn boxed(name: Option<QName>, type_annotation: Option<QName>) -> (r: Box<NodeTest>)
        ensures
            *r matches NodeTest::Attribute(t) && t.name is None && t.type_annotation is None,
    {
        Box::new(NodeTest::Attribute(AttributeTest { name: None, type_annotation: None }))
    }
}

impl SchemaElementTest {
    pub fn boxed(name: QName) -> (r: Box<NodeTest>)
        ensures
            *r matches NodeTest::SchemaElement(t) && t.name == name,
    {
        Box::new(NodeTest::SchemaElement(SchemaElementTest { name }))
    }
}

impl SchemaAttributeTest {
    pub fn boxed(name: QName) -> (r: Box<NodeTest>)
        ensures
            *r matches NodeTest::SchemaAttribute(t) && t.name == name,
    {
        Box::new(NodeTest::SchemaAttribute(SchemaAttributeTest { name }))
    }
}

impl NameTest {
    pub fn boxed(name: QName) -> (r: Box<NodeTest>)
        ensures
            *r matches NodeTest::Name(t) && t.name == name,
    {
        Box::new(NodeTest::Name(NameTest { name }))
    }
}

/// The name of an element or an attribute; other nodes have none.
pub open spec fn node_name(n: NodeV) -> Option<QNameView> {
    match n {
        NodeV::Node { name, .. } => Some(name),
        NodeV::Attribute { name, .. } => Some(name),
        _ => None,
    }
}

/// Whether a test can be applied: tests that need a schema, or that look
/// into documents, elements or processing instructions, cannot.
pub open spec fn node_test_defined(t: NodeTest) -> bool {
    match t {
        NodeTest::AnyKind(_) | NodeTest::Text(_) | NodeTest::Comment(_) | NodeTest::NamespaceNode(_)
        | NodeTest::Name(_) => true,
        NodeTest::Attribute(a) => a.type_annotation is None,
        _ => false,
    }
}

/// Whether a node passes a test.
pub open spec fn spec_test_node(t: NodeTest, n: NodeV) -> bool {
    match t {
        NodeTest::AnyKind(_) => true,
        NodeTest::Text(_) => n is NodeText,
        NodeTest::Comment(_) => n is NodeComment,
        NodeTest::NamespaceNode(_) => false,
        NodeTest::Attribute(a) => n is Attribute && match a.name {
            Some(name) => name@ == n->Attribute_name,
            None => true,
        },
        NodeTest::Name(nt) => match node_name(n) {
            Some(name) => (nt.name.local_part@ == "*"@ || nt.name.local_part@ == name.local_part)
                && (opt_view(nt.name.url) == Some("*"@) || opt_view(nt.name.url) == name.url),
            None => false,
        },
        _ => false,
    }
}

impl NodeTest {
    /// Whether the node passes the test.
    pub fn test_node(&self, rf: &Node) -> (r: bool)
        requires
            node_test_defined(*self),
        ensures
            r == spec_test_node(*self, rf@),
    {
        match self {
            NodeTest::AnyKind(_) => true,
            NodeTest::Text(_) => match rf {
                Node::NodeText { .. } => true,
                _ => false,
            },
            NodeTest::Comment(_) => match rf {
                Node::NodeComment { .. } => true,
                _ => false,
            },
            NodeTest::NamespaceNode(_) => false,
            NodeTest::Attribute(a) => match rf {
                Node::Attribute { name: rf_name, .. } => match &a.name {
                    Some(name) => rf_name.same(name),
                    None => true,
                },
                _ => false,
            },
            NodeTest::Name(nt) => {
                let name = match rf {
                    Node::Node { name, .. } => name,
                    Node::Attribute { name, .. } => name,
                    _ => {
                        return false;
                    },
                };
                let star_url = match &nt.name.url {
                    Some(u) => str_eq(u.as_str(), "*"),
                    None => false,
                };
                (str_eq(nt.name.local_part.as_str(), "*") || str_eq(
                    nt.name.local_part.as_str(),
                    name.local_part.as_str(),
                )) && (star_url || crate::qname::opt_str_eq(&nt.name.url, &name.url))
            },
            _ => false,
        }
    }
}


/// The type of an item.
pub enum ItemType {
    NoneType,
    SequenceEmpty,
    Item,
    AnyAtomicType,
    AtomicOrUnionType(QName),
    AnyKind,
    Array(Option<Box<SequenceType>>),
    MapType(Option<(Box<SequenceType>, Box<SequenceType>)>),
    Node(Box<NodeTest>),
    SchemaAttribute(QName),
    Function { args: Option<Vec<SequenceType>>, st: Option<Box<SequenceType>> },
}

/// The type of a sequence: the type of its items and how many there are.
pub struct SequenceType {
    pub item_type: ItemType,
    pub occurrence_indicator: OccurrenceIndicator,
}

/// A node test with its names as character sequences.
#[verifier::ext_equal]
pub enum NodeTestV {
    AnyKind,
    Document(Option<Box<NodeTestV>>),
    Text,
    Comment,
    NamespaceNode,
    PI,
    Element { name: Option<QNameView>, type_annotation: Option<QNameView> },
    Attribute { name: Option<QNameView>, type_annotation: Option<QNameView> },
    SchemaElement(QNameView),
    SchemaAttribute(QNameView),
    Name(QNameView),
}

/// An item type with its names as character sequences.
#[verifier::ext_equal]
pub enum ItemTypeV {
    NoneType,
    SequenceEmpty,
    Item,
    AnyAtomicType,
    AtomicOrUnionType(QNameView),
    AnyKind,
    Array(Option<Box<SequenceTypeV>>),
    MapType(Option<(Box<SequenceTypeV>, Box<SequenceTypeV>)>),
    Node(Box<NodeTestV>),
    SchemaAttribute(QNameView),
    Function { args: Option<Seq<SequenceTypeV>>, st: Option<Box<SequenceTypeV>> },
}

/// A sequence type with its names as character sequences.
#[verifier::ext_equal]
pub struct SequenceTypeV {
    pub item_type: ItemTypeV,
    pub occurrence_indicator: OccurrenceIndicator,
}

pub open spec fn opt_qname_view(q: Option<QName>) -> Option<QNameView> {
    match q {
        Some(n) => Some(n@),
        None => None,
    }
}

pub open spec fn node_test_view(t: NodeTest) -> NodeTestV
    decreases t,
{
    match t {
        NodeTest::AnyKind(_) => NodeTestV::AnyKind,
        NodeTest::Document(d) => NodeTestV::Document(
            match d.child {
                Some(c) => Some(Box::new(node_test_view(*c))),
                None => None,
            },
        ),
        NodeTest::Text(_) => NodeTestV::Text,
        NodeTest::Comment(_) => NodeTestV::Comment,
        NodeTest::NamespaceNode(_) => NodeTestV::NamespaceNode,
        NodeTest::PI(_) => NodeTestV::PI,
        NodeTest::Element(e) => NodeTestV::Element {
            name: opt_qname_view(e.name),
            type_annotation: opt_qname_view(e.type_annotation),
        },
        NodeTest::Attribute(a) => NodeTestV::Attribute {
            name: opt_qname_view(a.name),
            type_annotation: opt_qname_view(a.type_annotation),
        },
        NodeTest::SchemaElement(e) => NodeTestV::SchemaElement(e.name@),
        NodeTest::SchemaAttribute(a) => NodeTestV::SchemaAttribute(a.name@),
        NodeTest::Name(n) => NodeTestV::Name(n.name@),
    }
}

pub open spec fn item_type_view(t: ItemType) -> ItemTypeV
    decreases t,
{
    match t {
        ItemType::NoneType => ItemTypeV::NoneType,
        ItemType::SequenceEmpty => ItemTypeV::SequenceEmpty,
        ItemType::Item => ItemTypeV::Item,
        ItemType::AnyAtomicType => ItemTypeV::AnyAtomicType,
        ItemType::AtomicOrUnionType(q) => ItemTypeV::AtomicOrUnionType(q@),
        ItemType::AnyKind => ItemTypeV::AnyKind,
        ItemType::Array(inner) => ItemTypeV::Array(
            match inner {
                Some(st) => Some(Box::new(seq_type_view(*st))),
                None => None,
            },
        ),
        ItemType::MapType(kv) => ItemTypeV::MapType(
            match kv {
                Some((k, v)) => Some((Box::new(seq_type_view(*k)), Box::new(seq_type_view(*v)))),
                None => None,
            },
        ),
        ItemType::Node(nt) => ItemTypeV::Node(Box::new(node_test_view(*nt))),
        ItemType::SchemaAttribute(q) => ItemTypeV::SchemaAttribute(q@),
        ItemType::Function { args, st } => ItemTypeV::Function {
            args: match args {
                Some(a) => Some(seq_types_view(a@)),
                None => None,
            },
            st: match st {
                Some(s) => Some(Box::new(seq_type_view(*s))),
                None => None,
            },
        },
    }
}

pub open spec fn seq_type_view(s: SequenceType) -> SequenceTypeV
    decreases s,
{
    SequenceTypeV { item_type: item_type_view(s.item_type), occurrence_indicator: s.occurrence_indicator }
}

pub open spec fn seq_types_view(s: Seq<SequenceType>) -> Seq<SequenceTypeV>
    decreases s,
{
    if s.len() == 0 {
        Seq::empty()
    } else {
        seq_types_view(s.subrange(0, s.len() - 1)).push(seq_type_view(s[s.len() - 1]))
    }
}

impl View for SequenceType {
    type V = SequenceTypeV;

    open spec fn view(&self) -> SequenceTypeV {
        seq_type_view(*self)
    }
}

/// The name `xs:<local>` as a view.
pub open spec fn xs_qname_view(local: Seq<char>) -> QNameView {
    QNameView { prefix: Some("xs"@), url: Some("http://www.w3.org/2001/XMLSchema"@), local_part: local }
}

/// The name `xs:<local>` of XML Schema.
pub fn xs_name(local: &str) -> (r: QName)
    ensures
        r.prefix matches Some(p) && p@ == "xs"@,
        r.url matches Some(u) && u@ == "http://www.w3.org/2001/XMLSchema"@,
        r.local_part@ == local@,
        r@ == xs_qname_view(local@),
{
    let ns = schema();
    QName { prefix: Some(ns.prefix()), url: Some(ns.uri()), local_part: local.to_owned() }
}

/// The signature of array access: one `xs:integer` argument, any result.
#[allow(non_snake_case)]
pub fn FN_ARRAY() -> (r: (Vec<SequenceType>, SequenceType))
    ensures
        r.0@.len() == 1,
        r.0@[0].occurrence_indicator == OccurrenceIndicator::ExactlyOne,
        r.0@[0].item_type matches ItemType::AtomicOrUnionType(n) && n.local_part@ == "integer"@
            && opt_view(n.url) == Some("http://www.w3.org/2001/XMLSchema"@),
        r.1.item_type is Item,
        r.1.occurrence_indicator == OccurrenceIndicator::ZeroOrMore,
{
    let mut args = Vec::new();
    args.push(SequenceType::exactly_one(ItemType::AtomicOrUnionType(xs_name("integer"))));
    (args, SequenceType::zero_or_more(ItemType::Item))
}

impl ItemType {
    /// Any node.
    pub fn node() -> (r: ItemType)
        ensures
            r matches ItemType::Node(t) && *t is AnyKind,
    {
        ItemType::Node(AnyKindTest::boxed())
    }

    /// Any element.
    pub fn element() -> (r: ItemType)
        ensures
            r matches ItemType::Node(t) && (*t matches NodeTest::Element(e) && e.name is None
                && e.type_annotation is None),
    {
        ItemType::Node(ElementTest::boxed(None, None))
    }

    /// An element of the given name in the namespace `nc`.
    pub fn element_ns<N: Namespace>(nc: &N, local_part: String) -> (r: ItemType)
        ensures
            r matches ItemType::Node(t) && (*t matches NodeTest::Element(e) && e.type_annotation is None
                && (e.name matches Some(n) && opt_view(n.prefix) == Some(nc.prefix_view())
                && opt_view(n.url) == Some(nc.uri_view()) && n.local_part@ == local_part@)),
    {
        ItemType::Node(
            ElementTest::boxed(
                Some(QName { prefix: Some(nc.prefix()), url: Some(nc.uri()), local_part }),
                None,
            ),
        )
    }
}

impl SequenceType {
    pub fn none() -> (r: SequenceType)
        ensures
            r.item_type is NoneType,
            r.occurrence_indicator == OccurrenceIndicator::ExactlyOne,
    {
        SequenceType { item_type: ItemType::NoneType, occurrence_indicator: OccurrenceIndicator::ExactlyOne }
    }

    pub fn exactly_one(item_type: ItemType) -> (r: SequenceType)
        ensures
            r.item_type == item_type,
            r.occurrence_indicator == OccurrenceIndicator::ExactlyOne,
    {
        SequenceType { item_type, occurrence_indicator: OccurrenceIndicator::ExactlyOne }
    }

    pub fn zero_or_one(item_type: ItemType) -> (r: SequenceType)
        ensures
            r.item_type == item_type,
            r.occurrence_indicator == OccurrenceIndicator::ZeroOrOne,
    {
        SequenceType { item_type, occurrence_indicator: OccurrenceIndicator::ZeroOrOne }
    }

    pub fn zero_or_more(item_type: ItemType) -> (r: SequenceType)
        ensures
            r.item_type == item_type,
            r.occurrence_indicator == OccurrenceIndicator::ZeroOrMore,
    {
        SequenceType { item_type, occurrence_indicator: OccurrenceIndicator::ZeroOrMore }
    }

    pub fn one_or_more(item_type: ItemType) -> (r: SequenceType)
        ensures
            r.item_type == item_type,
            r.occurrence_indicator == OccurrenceIndicator::OneOrMore,
    {
        SequenceType { item_type, occurrence_indicator: OccurrenceIndicator::OneOrMore }
    }
}

/// Whether two names stand for the same namespace URI and local part.
pub open spec fn same_name(b: Map<Seq<char>, Seq<char>>, l: QName, r: QName) -> bool {
    spec_resolve(b, l@) == spec_resolve(b, r@)
}

/// Whether two item types are the same: the same kind, names that resolve
/// alike, and the same inner sequence types of arrays and maps.
pub open spec fn item_is_same(b: Map<Seq<char>, Seq<char>>, l: ItemType, r: ItemType) -> bool
    decreases l,
{
    match (l, r) {
        (ItemType::NoneType, ItemType::NoneType) => true,
        (ItemType::SequenceEmpty, ItemType::SequenceEmpty) => true,
        (ItemType::Item, ItemType::Item) => true,
        (ItemType::AnyAtomicType, ItemType::AnyAtomicType) => true,
        (ItemType::AtomicOrUnionType(ln), ItemType::AtomicOrUnionType(rn)) => same_name(b, ln, rn),
        (ItemType::AnyKind, ItemType::AnyKind) => true,
        (ItemType::Array(ls), ItemType::Array(rs)) => match (ls, rs) {
            (Some(lst), Some(rst)) => seq_is_same(b, *lst, *rst),
            (Some(_), None) => false,
            (None, _) => rs is None,
        },
        (ItemType::MapType(ls), ItemType::MapType(rs)) => match (ls, rs) {
            (Some((lk, lv)), Some((rk, rv))) => seq_is_same(b, *lk, *rk) && seq_is_same(b, *lv, *rv),
            (Some(_), None) => false,
            (None, _) => rs is None,
        },
        _ => false,
    }
}

/// Whether the comparison of two item types is defined: node tests,
/// schema attributes and function types are not compared, and names
/// compared must resolve.
pub open spec fn item_is_same_defined(b: Map<Seq<char>, Seq<char>>, l: ItemType, r: ItemType) -> bool
    decreases l,
{
    match (l, r) {
        (ItemType::AtomicOrUnionType(ln), ItemType::AtomicOrUnionType(rn)) => resolvable(b, ln@) && resolvable(b, rn@),
        (ItemType::Array(Some(lst)), ItemType::Array(Some(rst))) => seq_is_same_defined(b, *lst, *rst),
        (ItemType::MapType(Some((lk, lv))), ItemType::MapType(Some((rk, rv)))) => seq_is_same_defined(b, *lk, *rk)
            && (seq_is_same(b, *lk, *rk) ==> seq_is_same_defined(b, *lv, *rv)),
        (ItemType::Node(_), ItemType::Node(_)) => false,
        (ItemType::SchemaAttribute(_), ItemType::SchemaAttribute(_)) => false,
        (ItemType::Function { .. }, ItemType::Function { .. }) => false,
        _ => true,
    }
}

/// Whether two sequence types are the same: the same kind of items with the
/// same occurrence; names must resolve alike, and maps must have the same
/// key and value types. Arrays are compared by occurrence alone.
pub open spec fn seq_is_same(b: Map<Seq<char>, Seq<char>>, l: SequenceType, r: SequenceType) -> bool
    decreases l,
{
    let occ = l.occurrence_indicator == r.occurrence_indicator;
    match (l.item_type, r.item_type) {
        (ItemType::NoneType, ItemType::NoneType) => occ,
        (ItemType::AnyAtomicType, ItemType::AnyAtomicType) => occ,
        (ItemType::SequenceEmpty, ItemType::SequenceEmpty) => occ,
        (ItemType::Item, ItemType::Item) => occ,
        (ItemType::AtomicOrUnionType(ln), ItemType::AtomicOrUnionType(rn)) => same_name(b, ln, rn) && occ,
        (ItemType::AnyKind, ItemType::AnyKind) => occ,
        (ItemType::MapType(ls), ItemType::MapType(rs)) => occ && match (ls, rs) {
            (Some((lk, lv)), Some((rk, rv))) => seq_is_same(b, *lk, *rk) && seq_is_same(b, *lv, *rv),
            (Some(_), None) => false,
            (None, _) => rs is None,
        },
        (ItemType::Array(_), ItemType::Array(_)) => occ,
        (ItemType::SchemaAttribute(ln), ItemType::SchemaAttribute(rn)) => same_name(b, ln, rn) && occ,
        _ => false,
    }
}

/// Whether the comparison of two sequence types is defined: node tests and
/// function types are not compared, and names compared must resolve.
pub open spec fn seq_is_same_defined(b: Map<Seq<char>, Seq<char>>, l: SequenceType, r: SequenceType) -> bool
    decreases l,
{
    let occ = l.occurrence_indicator == r.occurrence_indicator;
    match (l.item_type, r.item_type) {
        (ItemType::AtomicOrUnionType(ln), ItemType::AtomicOrUnionType(rn)) => resolvable(b, ln@) && resolvable(b, rn@),
        (ItemType::SchemaAttribute(ln), ItemType::SchemaAttribute(rn)) => resolvable(b, ln@) && resolvable(b, rn@),
        (ItemType::MapType(Some((lk, lv))), ItemType::MapType(Some((rk, rv)))) => occ ==> (seq_is_same_defined(b, *lk, *rk)
            && (seq_is_same(b, *lk, *rk) ==> seq_is_same_defined(b, *lv, *rv))),
        (ItemType::Node(_), ItemType::Node(_)) => false,
        (ItemType::Function { .. }, ItemType::Function { .. }) => false,
        _ => true,
    }
}

impl ItemType {
    /// Whether two item types are the same (see `item_is_same`).
    pub fn is_same(&self, env: &Environment, right: &ItemType) -> (r: bool)
        requires
            item_is_same_defined(env.namespaces@, *self, *right),
        ensures
            r == item_is_same(env.namespaces@, *self, *right),
        decreases self,
    {
        match self {
            ItemType::NoneType => match right {
                ItemType::NoneType => true,
                _ => false,
            },
            ItemType::SequenceEmpty => match right {
                ItemType::SequenceEmpty => true,
                _ => false,
            },
            ItemType::Item => match right {
                ItemType::Item => true,
                _ => false,
            },
            ItemType::AnyAtomicType => match right {
                ItemType::AnyAtomicType => true,
                _ => false,
            },
            ItemType::AtomicOrUnionType(l_name) => match right {
                ItemType::AtomicOrUnionType(r_name) => {
                    let l_name = env.namespaces.resolve(l_name);
                    let r_name = env.namespaces.resolve(r_name);
                    l_name.same(&r_name)
                },
                _ => false,
            },
            ItemType::AnyKind => match right {
                ItemType::AnyKind => true,
                _ => false,
            },
            ItemType::Array(l_st) => match right {
                ItemType::Array(r_st) => {
                    if let Some(l_st) = l_st {
                        if let Some(r_st) = r_st {
                            l_st.is_same(env, r_st)
                        } else {
                            false
                        }
                    } else {
                        r_st.is_none()
                    }
                },
                _ => false,
            },
            ItemType::MapType(l_st) => match right {
                ItemType::MapType(r_st) => {
                    if let Some((l_k, l_v)) = l_st {
                        if let Some((r_k, r_v)) = r_st {
                            l_k.is_same(env, r_k) && l_v.is_same(env, r_v)
                        } else {
                            false
                        }
                    } else {
                        r_st.is_none()
                    }
                },
                _ => false,
            },
            ItemType::Node(_) => match right {
                ItemType::Node(_) => false,
                _ => false,
            },
            ItemType::SchemaAttribute(_) => match right {
                ItemType::SchemaAttribute(_) => false,
                _ => false,
            },
            ItemType::Function { .. } => match right {
                ItemType::Function { .. } => false,
                _ => false,
            },
        }
    }
}

impl SequenceType {
    /// Whether two sequence types are the same (see `seq_is_same`).
    pub fn is_same(&self, env: &Environment, other: &SequenceType) -> (r: bool)
        requires
            seq_is_same_defined(env.namespaces@, *self, *other),
        ensures
            r == seq_is_same(env.namespaces@, *self, *other),
        decreases self,
    {
        let occ = self.occurrence_indicator == other.occurrence_indicator;
        match &self.item_type {
            ItemType::NoneType => match &other.item_type {
                ItemType::NoneType => occ,
                _ => false,
            },
            ItemType::AnyAtomicType => match &other.item_type {
                ItemType::AnyAtomicType => occ,
                _ => false,
            },
            ItemType::SequenceEmpty => match &other.item_type {
                ItemType::SequenceEmpty => occ,
                _ => false,
            },
            ItemType::Item => match &other.item_type {
                ItemType::Item => occ,
                _ => false,
            },
            ItemType::AtomicOrUnionType(l_name) => match &other.item_type {
                ItemType::AtomicOrUnionType(r_name) => {
                    env.namespaces.resolve(l_name).same(&env.namespaces.resolve(r_name)) && occ
                },
                _ => false,
            },
            ItemType::AnyKind => match &other.item_type {
                ItemType::AnyKind => occ,
                _ => false,
            },
            ItemType::MapType(l_st) => match &other.item_type {
                ItemType::MapType(r_st) => {
                    if occ {
                        if let Some((l_k, l_v)) = l_st {
                            if let Some((r_k, r_v)) = r_st {
                                l_k.is_same(env, r_k) && l_v.is_same(env, r_v)
                            } else {
                                false
                            }
                        } else {
                            r_st.is_none()
                        }
                    } else {
                        false
                    }
                },
                _ => false,
            },
            ItemType::Array(_) => match &other.item_type {
                ItemType::Array(_) => occ,
                _ => false,
            },
            ItemType::Node(_) => match &other.item_type {
                ItemType::Node(_) => false,
                _ => false,
            },
            ItemType::SchemaAttribute(l_name) => match &other.item_type {
                ItemType::SchemaAttribute(r_name) => {
                    env.namespaces.resolve(l_name).same(&env.namespaces.resolve(r_name)) && occ
                },
                _ => false,
            },
            ItemType::Function { .. } => match &other.item_type {
                ItemType::Function { .. } => false,
                _ => false,
            },
        }
    }

    /// Whether two sequence types differ.
    pub fn is_not_same(&self, env: &Environment, other: &SequenceType) -> (r: bool)
        requires
            seq_is_same_defined(env.namespaces@, *self, *other),
        ensures
            r == !seq_is_same(env.namespaces@, *self, *other),
    {
        !self.is_same(env, other)
    }
}


/// Whether two item types are the same does not depend on their order.
pub proof fn lemma_item_is_same_symmetric(b: Map<Seq<char>, Seq<char>>, l: ItemType, r: ItemType)
    ensures
        item_is_same(b, l, r) == item_is_same(b, r, l),
    decreases l,
{
    match (l, r) {
        (ItemType::Array(Some(lst)), ItemType::Array(Some(rst))) => {
            lemma_seq_is_same_symmetric(b, *lst, *rst);
        },
        (ItemType::MapType(Some((lk, lv))), ItemType::MapType(Some((rk, rv)))) => {
            lemma_seq_is_same_symmetric(b, *lk, *rk);
            lemma_seq_is_same_symmetric(b, *lv, *rv);
        },
        _ => {},
    }
}

/// Whether two sequence types are the same does not depend on their order.
pub proof fn lemma_seq_is_same_symmetric(b: Map<Seq<char>, Seq<char>>, l: SequenceType, r: SequenceType)
    ensures
        seq_is_same(b, l, r) == seq_is_same(b, r, l),
    decreases l,
{
    match (l.item_type, r.item_type) {
        (ItemType::MapType(Some((lk, lv))), ItemType::MapType(Some((rk, rv)))) => {
            lemma_seq_is_same_symmetric(b, *lk, *rk);
            lemma_seq_is_same_symmetric(b, *lv, *rv);
        },
        _ => {},
    }
}

/// An item type whose comparison with itself is defined is the same as itself.
pub proof fn lemma_item_is_same_reflexive(b: Map<Seq<char>, Seq<char>>, t: ItemType)
    requires
        item_is_same_defined(b, t, t),
    ensures
        item_is_same(b, t, t),
    decreases t,
{
    match t {
        ItemType::Array(Some(st)) => {
            lemma_seq_is_same_reflexive(b, *st);
        },
        ItemType::MapType(Some((k, v))) => {
            lemma_seq_is_same_reflexive(b, *k);
            lemma_seq_is_same_reflexive(b, *v);
        },
        _ => {},
    }
}

/// A sequence type whose comparison with itself is defined is the same as
/// itself.
pub proof fn lemma_seq_is_same_reflexive(b: Map<Seq<char>, Seq<char>>, t: SequenceType)
    requires
        seq_is_same_defined(b, t, t),
    ensures
        seq_is_same(b, t, t),
    decreases t,
{
    match t.item_type {
        ItemType::MapType(Some((k, v))) => {
            lemma_seq_is_same_reflexive(b, *k);
            lemma_seq_is_same_reflexive(b, *v);
        },
        _ => {},
    }
}

} // verus!
