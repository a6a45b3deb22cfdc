use vstd::prelude::*;
use crate::xqts::text::str_eq;
use crate::xqts::codegen::spec_string_cleanup;

verus! {

/// How an element tag ends.
pub enum TagEnd {
    /// `>`
    Open,
    /// `</name>`, with the local name.
    Close(String),
    /// `/>`
    Empty,
}

/// An XML token of a test-suite catalog, as the state machines read it.
pub enum XmlEvent {
    ElementStart { local: String },
    Attribute { local: String, value: String },
    TagEnd(TagEnd),
    /// Raw character data, still escaped.
    Text(String),
    Cdata(String),
    /// Any other token (declarations, comments, processing instructions, DTD).
    Other,
}

pub enum XmlEventView {
    ElementStart(Seq<char>),
    Attribute(Seq<char>, Seq<char>),
    Open,
    Close(Seq<char>),
    Empty,
    Text(Seq<char>),
    Cdata(Seq<char>),
    Other,
}

impl View for XmlEvent {
    type V = XmlEventView;

    open spec fn view(&self) -> XmlEventView {
        match self {
            XmlEvent::ElementStart { local } => XmlEventView::ElementStart(local@),
            XmlEvent::Attribute { local, value } => XmlEventView::Attribute(local@, value@),
            XmlEvent::TagEnd(TagEnd::Open) => XmlEventView::Open,
            XmlEvent::TagEnd(TagEnd::Close(local)) => XmlEventView::Close(local@),
            XmlEvent::TagEnd(TagEnd::Empty) => XmlEventView::Empty,
            XmlEvent::Text(t) => XmlEventView::Text(t@),
            XmlEvent::Cdata(t) => XmlEventView::Cdata(t@),
            XmlEvent::Other => XmlEventView::Other,
        }
    }
}

/// The cleaned text of raw character data, if it can be cleaned.
pub open spec fn text_cleanup(text: Seq<char>) -> Option<Seq<char>> {
    spec_string_cleanup(vstd::utf8::encode_utf8(text))
}

pub open spec fn opt_view(o: Option<String>) -> Option<Seq<char>> {
    match o {
        Some(s) => Some(s@),
        None => None,
    }
}

pub fn clone_opt(o: &Option<String>) -> (r: Option<String>)
    ensures
        opt_view(r) == opt_view(*o),
{
    match o {
        Some(s) => Some(s.clone()),
        None => None,
    }
}

/// Whether a string equals a literal.
pub fn eq_lit(s: &String, lit: &str) -> (r: bool)
    ensures
        r == (s@ == lit@),
{
    str_eq(s.as_str(), lit)
}

/// A namespace binding declared by a test environment.
pub struct Namespace {
    pub prefix: String,
    pub uri: String,
}

impl View for Namespace {
    type V = (Seq<char>, Seq<char>);

    open spec fn view(&self) -> (Seq<char>, Seq<char>) {
        (self.prefix@, self.uri@)
    }
}

impl Namespace {
    pub fn duplicate(&self) -> (r: Namespace)
        ensures
            r@ == self@,
    {
        Namespace { prefix: self.prefix.clone(), uri: self.uri.clone() }
    }
}

/// A source document of a test environment, by role and file.
pub struct Source {
    pub role: String,
    pub file: String,
}

impl View for Source {
    type V = (Seq<char>, Seq<char>);

    open spec fn view(&self) -> (Seq<char>, Seq<char>) {
        (self.role@, self.file@)
    }
}

impl Source {
    pub fn duplicate(&self) -> (r: Source)
        ensures
            r@ == self@,
    {
        Source { role: self.role.clone(), file: self.file.clone() }
    }
}

pub open spec fn namespaces_view(v: Seq<Namespace>) -> Seq<(Seq<char>, Seq<char>)> {
    v.map_values(|n: Namespace| n@)
}

pub open spec fn sources_view(v: Seq<Source>) -> Seq<(Seq<char>, Seq<char>)> {
    v.map_values(|s: Source| s@)
}

pub fn duplicate_namespaces(v: &Vec<Namespace>) -> (r: Vec<Namespace>)
    ensures
        namespaces_view(r@) == namespaces_view(v@),
{
    let mut r: Vec<Namespace> = Vec::new();
    let mut i: usize = 0;
    while i < v.len()
        invariant
            i <= v@.len(),
            r@.len() == i,
            forall|j: int| 0 <= j < i ==> r@[j]@ == v@[j]@,
        decreases v@.len() - i,
    {
        r.push(v[i].duplicate());
        i = i + 1;
    }
    assert(namespaces_view(r@) =~= namespaces_view(v@));
    r
}

pub fn duplicate_sources(v: &Vec<Source>) -> (r: Vec<Source>)
    ensures
        sources_view(r@) == sources_view(v@),
{
    let mut r: Vec<Source> = Vec::new();
    let mut i: usize = 0;
    while i < v.len()
        invariant
            i <= v@.len(),
            r@.len() == i,
            forall|j: int| 0 <= j < i ==> r@[j]@ == v@[j]@,
        decreases v@.len() - i,
    {
        r.push(v[i].duplicate());
        i = i + 1;
    }
    assert(sources_view(r@) =~= sources_view(v@));
    r
}

/// A test environment: where its files are, and what it declares.
pub struct Environment {
    pub path: String,
    pub reference: Option<String>,
    pub name: Option<String>,
    pub namespaces: Vec<Namespace>,
    pub sources: Vec<Source>,
}

pub struct EnvironmentView {
    pub path: Seq<char>,
    pub reference: Option<Seq<char>>,
    pub name: Option<Seq<char>>,
    pub namespaces: Seq<(Seq<char>, Seq<char>)>,
    pub sources: Seq<(Seq<char>, Seq<char>)>,
}

impl View for Environment {
    type V = EnvironmentView;

    open spec fn view(&self) -> EnvironmentView {
        EnvironmentView {
            path: self.path@,
            reference: opt_view(self.reference),
            name: opt_view(self.name),
            namespaces: namespaces_view(self.namespaces@),
            sources: sources_view(self.sources@),
        }
    }
}

impl Environment {
    pub fn duplicate(&self) -> (r: Environment)
        ensures
            r@ == self@,
    {
        Environment {
            path: self.path.clone(),
            reference: clone_opt(&self.reference),
            name: clone_opt(&self.name),
            namespaces: duplicate_namespaces(&self.namespaces),
            sources: duplicate_sources(&self.sources),
        }
    }
}

pub open spec fn opt_env_view(o: Option<Environment>) -> Option<EnvironmentView> {
    match o {
        Some(e) => Some(e@),
        None => None,
    }
}

pub fn duplicate_opt_env(o: &Option<Environment>) -> (r: Option<Environment>)
    ensures
        opt_env_view(r) == opt_env_view(*o),
{
    match o {
        Some(e) => Some(e.duplicate()),
        None => None,
    }
}

/// Test environments by name; a later entry for a name hides earlier ones.
pub struct EnvTable {
    pub entries: Vec<(String, Environment)>,
}

pub open spec fn table_map(entries: Seq<(String, Environment)>) -> Map<Seq<char>, EnvironmentView>
    decreases entries.len(),
{
    if entries.len() == 0 {
        Map::empty()
    } else {
        table_map(entries.drop_last()).insert(entries.last().0@, entries.last().1@)
    }
}

impl View for EnvTable {
    type V = Map<Seq<char>, EnvironmentView>;

    open spec fn view(&self) -> Map<Seq<char>, EnvironmentView> {
        table_map(self.entries@)
    }
}

proof fn lemma_table_map_prefix(entries: Seq<(String, Environment)>, i: int, key: Seq<char>)
    requires
        0 <= i <= entries.len(),
        forall|j: int| i <= j < entries.len() ==> entries[j].0@ != key,
    ensures
        table_map(entries).dom().contains(key) == table_map(entries.subrange(0, i)).dom().contains(key),
        table_map(entries).dom().contains(key) ==> table_map(entries)[key] == table_map(
            entries.subrange(0, i),
        )[key],
    decreases entries.len() - i,
{
    if i < entries.len() {
        let n = entries.len() as int;
        assert(entries.drop_last() =~= entries.subrange(0, n - 1));
        lemma_table_map_prefix(entries.drop_last(), i, key);
        assert(entries.drop_last().subrange(0, i) =~= entries.subrange(0, i));
    } else {
        assert(entries.subrange(0, i) =~= entries);
    }
}

impl EnvTable {
    pub fn new() -> (r: EnvTable)
        ensures
            r@ == Map::<Seq<char>, EnvironmentView>::empty(),
    {
        EnvTable { entries: Vec::new() }
    }

    /// Binds `name` to `env`, hiding any earlier binding of the name.
    pub fn insert(&mut self, name: String, env: Environment)
        ensures
            final(self)@ == old(self)@.insert(name@, env@),
    {
        let ghost n = name@;
        let ghost e = env@;
        self.entries.push((name, env));
        assert(self.entries@.drop_last() =~= old(self).entries@);
    }

    /// The environment bound to `name`, copied.
    pub fn get(&self, name: &String) -> (r: Option<Environment>)
        ensures
            match r {
                Some(e) => self@.dom().contains(name@) && e@ == self@[name@],
                None => !self@.dom().contains(name@),
            },
    {
        let mut i: usize = self.entries.len();
        while i > 0
            invariant
                i <= self.entries@.len(),
                forall|j: int| i <= j < self.entries@.len() ==> self.entries@[j].0@ != name@,
            decreases i,
        {
            if str_eq(self.entries[i - 1].0.as_str(), name.as_str()) {
                proof {
                    lemma_table_map_prefix(self.entries@, i as int, name@);
                    let pre = self.entries@.subrange(0, i as int);
                    assert(pre.drop_last() =~= self.entries@.subrange(0, i - 1));
                }
                return Some(self.entries[i - 1].1.duplicate());
            }
            i = i - 1;
        }
        proof {
            lemma_table_map_prefix(self.entries@, 0, name@);
            assert(self.entries@.subrange(0, 0) =~= Seq::<(String, Environment)>::empty());
        }
        None
    }

    pub fn duplicate(&self) -> (r: EnvTable)
        ensures
            r@ == self@,
    {
        let mut entries: Vec<(String, Environment)> = Vec::new();
        let mut i: usize = 0;
        while i < self.entries.len()
            invariant
                i <= self.entries@.len(),
                entries@.len() == i,
                forall|j: int| 0 <= j < i ==> entries@[j].0@ == self.entries@[j].0@
                    && entries@[j].1@ == self.entries@[j].1@,
            decreases self.entries@.len() - i,
        {
            let name = self.entries[i].0.clone();
            let env = self.entries[i].1.duplicate();
            entries.push((name, env));
            i = i + 1;
        }
        proof {
            lemma_table_map_same(entries@, self.entries@);
        }
        EnvTable { entries }
    }
}

proof fn lemma_table_map_same(a: Seq<(String, Environment)>, b: Seq<(String, Environment)>)
    requires
        a.len() == b.len(),
        forall|j: int| 0 <= j < a.len() ==> a[j].0@ == b[j].0@ && a[j].1@ == b[j].1@,
    ensures
        table_map(a) == table_map(b),
    decreases a.len(),
{
    if a.len() > 0 {
        lemma_table_map_same(a.drop_last(), b.drop_last());
    }
}


/// After `insert` binds a name in a table of environments, `get` finds the
/// environment inserted under it, and every other name keeps its entry.
pub proof fn law_env_table_insert_then_get(
    before: Map<Seq<char>, EnvironmentView>,
    name: Seq<char>,
    env: EnvironmentView,
    other: Seq<char>,
)
    requires
        other != name,
    ensures
        before.insert(name, env).dom().contains(name),
        before.insert(name, env)[name] == env,
        before.insert(name, env).dom().contains(other) == before.dom().contains(other),
        before.dom().contains(other) ==> before.insert(name, env)[other] == before[other],
{
}

} // verus!
