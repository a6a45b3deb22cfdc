use vstd::prelude::*;
use crate::errors::ErrorInfo;
use crate::eval::prolog::{
    BoundarySpace, ConstructionMode, DecimalFormatPropertyName, EmptyOrderMode, InheritMode, OrderingMode, PreserveMode,
};
use crate::fns::register::{builtin_table, entries_view, spec_register_get, FunctionsRegister, RegisterEntry};
use crate::namespaces::Namespaces;
use crate::qname::{QName, QNameResolved, QNameView};
use crate::value::{Object, ObjectV};

verus! {

/// The result of evaluating an expression: the environment after it, and
/// its value; or an error.
pub type EvalResult = Result<(Box<Environment>, Object), ErrorInfo>;

/// A scope of evaluation: the settings of the prolog, the namespaces in
/// scope, the variables and functions bound in this scope, and the
/// enclosing scope.
pub struct Environment {
    pub prev: Option<Box<Environment>>,
    pub boundary_space: Option<BoundarySpace>,
    pub default_collation: Option<String>,
    pub static_base_uri: Option<String>,
    pub construction_mode: Option<ConstructionMode>,
    pub ordering_mode: Option<OrderingMode>,
    pub empty_order_mode: Option<EmptyOrderMode>,
    pub copy_namespaces: Option<(PreserveMode, InheritMode)>,
    pub decimal_formats: Option<Vec<DecimalFormat>>,
    pub namespaces: Namespaces,
    pub vars: Vec<(QNameResolved, Object)>,
    pub functions: FunctionsRegister,
    pub sequence: usize,
}

/// A decimal format as declared: its name (none for the default format)
/// and its properties, a later setting of a property replacing an earlier
/// one.
pub struct DecimalFormat {
    pub name: Option<QName>,
    pub properties: Vec<(DecimalFormatPropertyName, String)>,
}

/// The properties of a decimal format by name; a later setting replaces an
/// earlier one.
pub open spec fn properties_map(v: Seq<(DecimalFormatPropertyName, String)>) -> Map<DecimalFormatPropertyName, Seq<char>>
    decreases v.len(),
{
    if v.len() == 0 {
        Map::empty()
    } else {
        properties_map(v.drop_last()).insert(v.last().0, v.last().1@)
    }
}

/// The decimal formats by name; a later declaration of a name replaces an
/// earlier one.
pub open spec fn formats_map(v: Seq<DecimalFormat>) -> Map<Option<QNameView>, Map<DecimalFormatPropertyName, Seq<char>>>
    decreases v.len(),
{
    if v.len() == 0 {
        Map::empty()
    } else {
        formats_map(v.drop_last()).insert(
            match v.last().name {
                Some(n) => Some(n@),
                None => None,
            },
            properties_map(v.last().properties@),
        )
    }
}

/// The variables bound by a list of bindings; a later binding of a name
/// replaces an earlier one.
pub open spec fn bindings(v: Seq<(QNameResolved, Object)>) -> Map<(Seq<char>, Seq<char>), ObjectV>
    decreases v.len(),
{
    if v.len() == 0 {
        Map::empty()
    } else {
        bindings(v.drop_last()).insert(v.last().0@, v.last().1@)
    }
}

/// The value of a variable as seen from a scope: its binding in the
/// innermost scope that binds it.
pub open spec fn lookup(env: Environment, name: (Seq<char>, Seq<char>)) -> Option<ObjectV>
    decreases env,
{
    if bindings(env.vars@).dom().contains(name) {
        Some(bindings(env.vars@)[name])
    } else {
        match env.prev {
            Some(p) => lookup(*p, name),
            None => None,
        }
    }
}

/// The function bound to a name and an arity as seen from a scope: its
/// binding in the innermost scope that binds it.
pub open spec fn lookup_function(env: Environment, name: (Seq<char>, Seq<char>), arity: usize) -> Option<RegisterEntry>
    decreases env,
{
    match spec_register_get(env.functions.functions@, name, arity) {
        Some(f) => Some(f),
        None => match env.prev {
            Some(p) => lookup_function(*p, name, arity),
            None => None,
        },
    }
}

/// The counter of the outermost scope, from which identifiers are drawn.
pub open spec fn root_sequence(env: Environment) -> usize
    decreases env,
{
    match env.prev {
        Some(p) => root_sequence(*p),
        None => env.sequence,
    }
}

/// How many scopes enclose this one.
pub open spec fn depth(env: Environment) -> nat
    decreases env,
{
    match env.prev {
        Some(p) => depth(*p) + 1,
        None => 0,
    }
}

proof fn lemma_bindings_suffix(v: Seq<(QNameResolved, Object)>, i: int, key: (Seq<char>, Seq<char>))
    requires
        0 <= i <= v.len(),
        forall|j: int| i <= j < v.len() ==> v[j].0@ != key,
    ensures
        bindings(v).dom().contains(key) == bindings(v.subrange(0, i)).dom().contains(key),
        bindings(v).dom().contains(key) ==> bindings(v)[key] == bindings(v.subrange(0, i))[key],
    decreases v.len() - i,
{
    if i < v.len() {
        assert(v.drop_last() =~= v.subrange(0, v.len() - 1));
        lemma_bindings_suffix(v.drop_last(), i, key);
        assert(v.drop_last().subrange(0, i) =~= v.subrange(0, i));
    } else {
        assert(v.subrange(0, i) =~= v);
    }
}

impl Environment {
    /// The outermost scope: nothing declared, the standard namespaces, no
    /// variables, and the counter at 1.
    pub fn create() -> (r: Box<Environment>)
        ensures
            r.prev is None,
            r.boundary_space is None,
            r.default_collation is None,
            r.static_base_uri is None,
            r.construction_mode is None,
            r.ordering_mode is None,
            r.empty_order_mode is None,
            r.copy_namespaces is None,
            r.decimal_formats is None,
            r.namespaces@ == crate::namespaces::standard_prefixes(),
            r.namespaces.default_for_element@ == Seq::<char>::empty(),
            r.namespaces.default_for_function@ == "http://www.w3.org/2005/xpath-functions"@,
            r.vars@.len() == 0,
            entries_view(r.functions.functions@) == builtin_table(),
            r.sequence == 1,
    {
        Box::new(
            Environment {
                prev: None,
                boundary_space: None,
                default_collation: None,
                static_base_uri: None,
                construction_mode: None,
                ordering_mode: None,
                empty_order_mode: None,
                copy_namespaces: None,
                decimal_formats: None,
                namespaces: Namespaces::new(),
                vars: Vec::new(),
                functions: FunctionsRegister::new(),
                sequence: 1,
            },
        )
    }

    /// A new innermost scope around this one: nothing declared in it, the
    /// standard namespaces, no variables of its own. It draws an identifier
    /// from the outermost counter on the way.
    pub fn next(self) -> (r: Box<Environment>)
        requires
            root_sequence(self) < usize::MAX,
        ensures
            r.prev is Some,
            root_sequence(*r.prev.unwrap()) == root_sequence(self) + 1,
            depth(*r.prev.unwrap()) == depth(self),
            forall|n: (Seq<char>, Seq<char>)| lookup(*r.prev.unwrap(), n) == lookup(self, n),
            forall|n: (Seq<char>, Seq<char>)| lookup(*r, n) == lookup(self, n),
            root_sequence(*r) == root_sequence(self) + 1,
            depth(*r) == depth(self) + 1,
            r.boundary_space is None,
            r.default_collation is None,
            r.static_base_uri is None,
            r.construction_mode is None,
            r.ordering_mode is None,
            r.empty_order_mode is None,
            r.copy_namespaces is None,
            r.decimal_formats is None,
            r.namespaces@ == crate::namespaces::standard_prefixes(),
            r.vars@.len() == 0,
            entries_view(r.functions.functions@) == builtin_table(),
            r.sequence == 0,
    {
        let mut this = self;
        let _sequence = this.next_id();
        let r = Box::new(
            Environment {
                prev: Some(Box::new(this)),
                boundary_space: None,
                default_collation: None,
                static_base_uri: None,
                construction_mode: None,
                ordering_mode: None,
                empty_order_mode: None,
                copy_namespaces: None,
                decimal_formats: None,
                namespaces: Namespaces::new(),
                vars: Vec::new(),
                functions: FunctionsRegister::new(),
                sequence: 0,
            },
        );
        proof {
            assert(bindings(r.vars@) =~= Map::empty());
        }
        r
    }

    /// The enclosing scope.
    pub fn prev(self) -> (r: Box<Environment>)
        requires
            self.prev is Some,
        ensures
            *r == *self.prev->0,
    {
        match self.prev {
            Some(env) => env,
            None => Box::new(self),
        }
    }

    /// Draws the next identifier from the counter of the outermost scope.
    pub fn next_id(&mut self) -> (r: usize)
        requires
            root_sequence(*old(self)) < usize::MAX,
        ensures
            r == root_sequence(*old(self)) + 1,
            root_sequence(*final(self)) == r,
            depth(*final(self)) == depth(*old(self)),
            forall|n: (Seq<char>, Seq<char>)| lookup(*final(self), n) == lookup(*old(self), n),
            final(self).vars == old(self).vars,
            final(self).namespaces == old(self).namespaces,
            final(self).boundary_space == old(self).boundary_space,
            final(self).default_collation == old(self).default_collation,
            final(self).static_base_uri == old(self).static_base_uri,
            final(self).construction_mode == old(self).construction_mode,
            final(self).ordering_mode == old(self).ordering_mode,
            final(self).empty_order_mode == old(self).empty_order_mode,
            final(self).copy_namespaces == old(self).copy_namespaces,
            final(self).prev is Some == old(self).prev is Some,
        decreases *old(self),
    {
        match self.prev.take() {
            Some(mut prev) => {
                proof {
                    assert(decreases_to!(*old(self) => *prev));
                }
                let r = prev.next_id();
                let ghost p2 = *prev;
                self.prev = Some(prev);
                proof {
                    assert forall|n: (Seq<char>, Seq<char>)| lookup(*self, n) == lookup(*old(self), n) by {
                        assert(lookup(p2, n) == lookup(*old(self).prev.unwrap(), n));
                    }
                }
                r
            },
            None => {
                self.sequence = self.sequence + 1;
                proof {
                    assert forall|n: (Seq<char>, Seq<char>)| lookup(*self, n) == lookup(*old(self), n) by {
                    }
                }
                self.sequence
            },
        }
    }

    /// Does nothing: options are not recorded.
    pub fn set_option(&self, name: crate::qname::QName, value: String) {
    }

    /// The default namespace of element names in this scope.
    pub fn default_namespace_for_element(&self) -> (r: String)
        ensures
            r@ == self.namespaces.default_for_element@,
    {
        self.namespaces.default_for_element.clone()
    }

    /// The default namespace of function names in this scope.
    pub fn default_namespace_for_function(&self) -> (r: String)
        ensures
            r@ == self.namespaces.default_for_function@,
    {
        self.namespaces.default_for_function.clone()
    }

    /// Binds a variable in this scope, replacing its earlier binding here.
    pub fn set_variable(&mut self, name: QNameResolved, value: Object)
        ensures
            bindings(final(self).vars@) == bindings(old(self).vars@).insert(name@, value@),
            final(self).prev == old(self).prev,
            final(self).sequence == old(self).sequence,
            final(self).namespaces == old(self).namespaces,
    {
        self.vars.push((name, value));
        proof {
            assert(self.vars@.drop_last() =~= old(self).vars@);
        }
    }

    /// The function bound to a name and an arity, from the innermost scope
    /// that binds it (see `lookup_function`).
    pub fn get_function(&self, name: &QNameResolved, arity: usize) -> (r: Option<&RegisterEntry>)
        ensures
            match lookup_function(*self, name@, arity) {
                Some(e) => r matches Some(x) && *x == e,
                None => r is None,
            },
        decreases self,
    {
        match self.functions.get(name, arity) {
            Some(f) => Some(f),
            None => match &self.prev {
                Some(p) => {
                    proof {
                        assert(decreases_to!(*self => **p));
                    }
                    p.get_function(name, arity)
                },
                None => None,
            },
        }
    }

    /// The value of a variable, from the innermost scope that binds it.
    pub fn get_variable(&self, name: &QNameResolved) -> (r: Option<Object>)
        ensures
            match r {
                Some(o) => lookup(*self, name@) == Some(o@),
                None => lookup(*self, name@) is None,
            },
        decreases self,
    {
        let mut i: usize = self.vars.len();
        while i > 0
            invariant
                i <= self.vars@.len(),
                forall|j: int| i <= j < self.vars@.len() ==> self.vars@[j].0@ != name@,
            decreases i,
        {
            if self.vars[i - 1].0.same(name) {
                proof {
                    lemma_bindings_suffix(self.vars@, i as int, name@);
                    let pre = self.vars@.subrange(0, i as int);
                    assert(pre.drop_last() =~= self.vars@.subrange(0, i - 1));
                }
                return Some(self.vars[i - 1].1.duplicate());
            }
            i = i - 1;
        }
        proof {
            lemma_bindings_suffix(self.vars@, 0, name@);
            assert(self.vars@.subrange(0, 0) =~= Seq::<(QNameResolved, Object)>::empty());
        }
        match &self.prev {
            Some(p) => {
                proof {
                    assert(decreases_to!(*self => **p));
                }
                p.get_variable(name)
            },
            None => None,
        }
    }
}


/// After `set_variable` binds a name in a scope, `get_variable` gives the
/// value bound, and every other name keeps the value it had.
pub proof fn law_set_then_get(
    before: Environment,
    after: Environment,
    name: (Seq<char>, Seq<char>),
    value: ObjectV,
    other: (Seq<char>, Seq<char>),
)
    requires
        bindings(after.vars@) == bindings(before.vars@).insert(name, value),
        after.prev == before.prev,
    ensures
        lookup(after, name) == Some(value),
        other != name ==> lookup(after, other) == lookup(before, other),
{
}

/// A scope entered with `next` and left with `prev` sees every variable as
/// the scope it was entered from did.
pub proof fn law_next_then_prev(
    outer: Environment,
    inner: Environment,
    back: Environment,
    name: (Seq<char>, Seq<char>),
)
    requires
        inner.prev is Some,
        forall|n: (Seq<char>, Seq<char>)| lookup(*inner.prev.unwrap(), n) == lookup(outer, n),
        back == *inner.prev.unwrap(),
    ensures
        lookup(back, name) == lookup(outer, name),
{
}

/// A binding made in a scope entered with `next` is gone after `prev`: the
/// scope `prev` gives back (the one `next` was called on, as `next`
/// states) sees every variable as before, whatever `set_variable` bound in
/// the inner scope, which keeps its enclosing scope.
pub proof fn law_inner_binding_gone_after_prev(
    outer: Environment,
    inner: Environment,
    set: Environment,
    back: Environment,
    name: (Seq<char>, Seq<char>),
    value: ObjectV,
    other: (Seq<char>, Seq<char>),
)
    requires
        inner.prev is Some,
        forall|n: (Seq<char>, Seq<char>)| lookup(*inner.prev.unwrap(), n) == lookup(outer, n),
        bindings(set.vars@) == bindings(inner.vars@).insert(name, value),
        set.prev == inner.prev,
        back == *set.prev.unwrap(),
    ensures
        lookup(set, name) == Some(value),
        lookup(back, other) == lookup(outer, other),
{
}

/// After `register` binds a function to a name and an arity in a scope,
/// `get_function` finds that binding there under them, and finds for every
/// other name or arity what it found before.
pub proof fn law_register_then_get_function(
    before: Environment,
    after: Environment,
    e: RegisterEntry,
    other: (Seq<char>, Seq<char>),
    other_arity: usize,
)
    requires
        after.functions.functions@ == before.functions.functions@.push(e),
        after.prev == before.prev,
    ensures
        lookup_function(after, (e.url@, e.local_part@), e.arity) == Some(e),
        !(other == (e.url@, e.local_part@) && other_arity == e.arity) ==> lookup_function(after, other, other_arity)
            == lookup_function(before, other, other_arity),
{
    let s = after.functions.functions@;
    assert(s.drop_last() =~= before.functions.functions@);
}

} // verus!
