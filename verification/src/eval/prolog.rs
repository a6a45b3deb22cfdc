use vstd::prelude::*;
use crate::errors::{ErrorCode, ErrorInfo};
use crate::eval::DynamicContext;
use crate::eval::environment::{formats_map, properties_map, DecimalFormat, Environment, EvalResult};
use crate::qname::{QName, QNameView};
use crate::value::{Object, Type};
use crate::xqts::text::{replace_all, spec_replace, spec_uppercase, str_eq, uppercase};
use crate::xqts::model::opt_view;

verus! {

/// Whether boundary whitespace in constructors is kept.
#[derive(PartialEq, Eq, Structural, Clone, Copy, Debug)]
pub enum BoundarySpace {
    Preserve,
    Strip,
}

/// Whether constructed elements keep their type annotations.
#[derive(PartialEq, Eq, Structural, Clone, Copy, Debug)]
pub enum ConstructionMode {
    Strip,
    Preserve,
}

/// Whether results keep document order.
#[derive(PartialEq, Eq, Structural, Clone, Copy, Debug)]
pub enum OrderingMode {
    Ordered,
    Unordered,
}

/// Where empty sequences sort in `order by`.
#[derive(PartialEq, Eq, Structural, Clone, Copy, Debug)]
pub enum EmptyOrderMode {
    Greatest,
    Least,
}

/// Whether copied elements keep their namespace bindings.
#[derive(PartialEq, Eq, Structural, Clone, Copy, Debug)]
pub enum PreserveMode {
    Preserve,
    NoPreserve,
}

/// Whether copied elements inherit the bindings of their new parent.
#[derive(PartialEq, Eq, Structural, Clone, Copy, Debug)]
pub enum InheritMode {
    Inherit,
    NoInherit,
}

/// The properties of a decimal format.
#[derive(PartialEq, Eq, Structural, Clone, Copy, Debug)]
pub enum DecimalFormatPropertyName {
    DecimalSeparator,
    GroupingSeparator,
    Infinity,
    MinusSign,
    NaN,
    Percent,
    PerMille,
    ZeroDigit,
    Digit,
    PatternSeparator,
    ExponentSeparator,
}

} // verus!

verus! {

fn todo_message() -> (r: String)
    ensures
        r@ == "TODO"@,
{
    String::from_str("TODO")
}

/// A prolog declaration of the boundary-space policy.
pub struct DeclareBoundarySpace {
    pub mode: BoundarySpace,
}

impl DeclareBoundarySpace {
    pub fn boxed(mode: BoundarySpace) -> (r: Box<DeclareBoundarySpace>)
        ensures
            r.mode == mode,
    {
        Box::new(DeclareBoundarySpace { mode })
    }

    /// Sets the boundary-space policy of the scope; a second declaration is `XQST0068`.
    pub fn eval(&self, env: Box<Environment>, context: &DynamicContext) -> (r: EvalResult)
        ensures
            match r {
                Ok((e, o)) => spec_declare_boundary_space(*env, self.mode) == Ok::<Environment, ErrorCode>(*e) && o is Nothing,
                Err((code, _)) => spec_declare_boundary_space(*env, self.mode) == Err::<Environment, ErrorCode>(code),
            },
    {
        let mut env = env;
        if env.boundary_space.is_some() {
            Err((ErrorCode::XQST0068, todo_message()))
        } else {
            env.boundary_space = Some(self.mode);
            Ok((env, Object::Nothing))
        }
    }
}

/// A prolog declaration of the construction mode.
pub struct DeclareConstruction {
    pub mode: ConstructionMode,
}

impl DeclareConstruction {
    pub fn boxed(mode: ConstructionMode) -> (r: Box<DeclareConstruction>)
        ensures
            r.mode == mode,
    {
        Box::new(DeclareConstruction { mode })
    }

    /// Sets the construction mode of the scope; a second declaration is `XQST0067`.
    pub fn eval(&self, env: Box<Environment>, context: &DynamicContext) -> (r: EvalResult)
        ensures
            match r {
                Ok((e, o)) => spec_declare_construction_mode(*env, self.mode) == Ok::<Environment, ErrorCode>(*e) && o is Nothing,
                Err((code, _)) => spec_declare_construction_mode(*env, self.mode) == Err::<Environment, ErrorCode>(code),
            },
    {
        let mut env = env;
        if env.construction_mode.is_some() {
            Err((ErrorCode::XQST0067, todo_message()))
        } else {
            env.construction_mode = Some(self.mode);
            Ok((env, Object::Nothing))
        }
    }
}

/// A prolog declaration of the ordering mode.
pub struct DeclareOrderingMode {
    pub mode: OrderingMode,
}

impl DeclareOrderingMode {
    pub fn boxed(mode: OrderingMode) -> (r: Box<DeclareOrderingMode>)
        ensures
            r.mode == mode,
    {
        Box::new(DeclareOrderingMode { mode })
    }

    /// Sets the ordering mode of the scope; a second declaration is `XQST0065`.
    pub fn eval(&self, env: Box<Environment>, context: &DynamicContext) -> (r: EvalResult)
        ensures
            match r {
                Ok((e, o)) => spec_declare_ordering_mode(*env, self.mode) == Ok::<Environment, ErrorCode>(*e) && o is Nothing,
                Err((code, _)) => spec_declare_ordering_mode(*env, self.mode) == Err::<Environment, ErrorCode>(code),
            },
    {
        let mut env = env;
        if env.ordering_mode.is_some() {
            Err((ErrorCode::XQST0065, todo_message()))
        } else {
            env.ordering_mode = Some(self.mode);
            Ok((env, Object::Nothing))
        }
    }
}

/// A prolog declaration of the empty order.
pub struct DeclareEmptyOrder {
    pub mode: EmptyOrderMode,
}

impl DeclareEmptyOrder {
    pub fn boxed(mode: EmptyOrderMode) -> (r: Box<DeclareEmptyOrder>)
        ensures
            r.mode == mode,
    {
        Box::new(DeclareEmptyOrder { mode })
    }

    /// Sets the empty order of the scope; a second declaration is `XQST0069`.
    pub fn eval(&self, env: Box<Environment>, context: &DynamicContext) -> (r: EvalResult)
        ensures
            match r {
                Ok((e, o)) => spec_declare_empty_order_mode(*env, self.mode) == Ok::<Environment, ErrorCode>(*e) && o is Nothing,
                Err((code, _)) => spec_declare_empty_order_mode(*env, self.mode) == Err::<Environment, ErrorCode>(code),
            },
    {
        let mut env = env;
        if env.empty_order_mode.is_some() {
            Err((ErrorCode::XQST0069, todo_message()))
        } else {
            env.empty_order_mode = Some(self.mode);
            Ok((env, Object::Nothing))
        }
    }
}

/// A prolog declaration of the default collation.
pub struct DeclareDefaultCollation {
    pub uri: String,
}

impl DeclareDefaultCollation {
    pub fn boxed(uri: String) -> (r: Box<DeclareDefaultCollation>)
        ensures
            r.uri == uri,
    {
        Box::new(DeclareDefaultCollation { uri })
    }

    /// Sets the default collation of the scope; a second declaration is
    /// `XQST0038`.
    pub fn eval(&self, env: Box<Environment>, context: &DynamicContext) -> (r: EvalResult)
        ensures
            match r {
                Ok((e, o)) => spec_declare_default_collation(*env, self.uri) == Ok::<Environment, ErrorCode>(*e)
                    && o is Nothing,
                Err((code, _)) => spec_declare_default_collation(*env, self.uri) == Err::<Environment, ErrorCode>(
                    code,
                ),
            },
    {
        let mut env = env;
        if env.default_collation.is_some() {
            Err((ErrorCode::XQST0038, todo_message()))
        } else {
            env.default_collation = Some(self.uri.clone());
            Ok((env, Object::Nothing))
        }
    }
}

/// A prolog declaration of how copied elements treat namespaces.
pub struct DeclareCopyNamespaces {
    pub preserve_mode: PreserveMode,
    pub inherit_mode: InheritMode,
}

impl DeclareCopyNamespaces {
    pub fn boxed(preserve_mode: PreserveMode, inherit_mode: InheritMode) -> (r: Box<DeclareCopyNamespaces>)
        ensures
            r.preserve_mode == preserve_mode,
            r.inherit_mode == inherit_mode,
    {
        Box::new(DeclareCopyNamespaces { preserve_mode, inherit_mode })
    }

    /// Sets how copied elements treat namespaces; a second declaration is
    /// `XQST0055`.
    pub fn eval(&self, env: Box<Environment>, context: &DynamicContext) -> (r: EvalResult)
        ensures
            match r {
                Ok((e, o)) => spec_declare_copy_namespaces(*env, self.preserve_mode, self.inherit_mode) == Ok::<
                    Environment,
                    ErrorCode,
                >(*e) && o is Nothing,
                Err((code, _)) => spec_declare_copy_namespaces(*env, self.preserve_mode, self.inherit_mode) == Err::<
                    Environment,
                    ErrorCode,
                >(code),
            },
    {
        let mut env = env;
        if env.copy_namespaces.is_some() {
            Err((ErrorCode::XQST0055, todo_message()))
        } else {
            env.copy_namespaces = Some((self.preserve_mode, self.inherit_mode));
            Ok((env, Object::Nothing))
        }
    }
}


/// A prolog declaration of a decimal format: its name (none for the
/// default format) and its properties.
pub struct DeclareDecimalFormat {
    pub name: Option<QName>,
    pub properties: Vec<(DecimalFormatPropertyName, String)>,
}

fn copy_properties(p: &Vec<(DecimalFormatPropertyName, String)>) -> (r: Vec<(DecimalFormatPropertyName, String)>)
    ensures
        r@.len() == p@.len(),
        forall|i: int| 0 <= i < p@.len() ==> (#[trigger] r@[i]).0 == p@[i].0 && r@[i].1@ == p@[i].1@,
{
    let mut r: Vec<(DecimalFormatPropertyName, String)> = Vec::new();
    let mut i: usize = 0;
    while i < p.len()
        invariant
            i <= p@.len(),
            r@.len() == i,
            forall|j: int| 0 <= j < i ==> (#[trigger] r@[j]).0 == p@[j].0 && r@[j].1@ == p@[j].1@,
        decreases p@.len() - i,
    {
        r.push((p[i].0, p[i].1.clone()));
        i = i + 1;
    }
    r
}

proof fn lemma_properties_map_alike(a: Seq<(DecimalFormatPropertyName, String)>, b: Seq<(DecimalFormatPropertyName, String)>)
    requires
        a.len() == b.len(),
        forall|i: int| 0 <= i < a.len() ==> (#[trigger] a[i]).0 == b[i].0 && a[i].1@ == b[i].1@,
    ensures
        properties_map(a) == properties_map(b),
    decreases a.len(),
{
    if a.len() > 0 {
        lemma_properties_map_alike(a.drop_last(), b.drop_last());
    }
}

/// The decimal formats of a scope after a declaration: those declared
/// before, with this name bound to these properties.
pub open spec fn spec_declare_decimal_format(
    env: Environment,
    name: Option<QNameView>,
    properties: Map<DecimalFormatPropertyName, Seq<char>>,
) -> Map<Option<QNameView>, Map<DecimalFormatPropertyName, Seq<char>>> {
    let before = match env.decimal_formats {
        Some(v) => formats_map(v@),
        None => Map::empty(),
    };
    before.insert(name, properties)
}

impl DeclareDecimalFormat {
    pub fn boxed(name: Option<QName>, properties: Vec<(DecimalFormatPropertyName, String)>) -> (r: Box<DeclareDecimalFormat>)
        ensures
            r.name == name,
            r.properties == properties,
    {
        Box::new(DeclareDecimalFormat { name, properties })
    }

    /// Binds the format's name to its properties in the scope, replacing an
    /// earlier declaration of that name; the rest of the scope is kept.
    pub fn eval(&self, env: Box<Environment>, context: &DynamicContext) -> (r: EvalResult)
        ensures
            r matches Ok((e, o)) && o is Nothing && e.decimal_formats is Some && formats_map(
                e.decimal_formats.unwrap()@,
            ) == spec_declare_decimal_format(
                *env,
                match self.name {
                    Some(n) => Some(n@),
                    None => None,
                },
                properties_map(self.properties@),
            ) && *e == (Environment { decimal_formats: e.decimal_formats, ..*env }),
    {
        let mut env = env;
        let name = match &self.name {
            Some(n) => Some(n.duplicate()),
            None => None,
        };
        let properties = copy_properties(&self.properties);
        proof {
            lemma_properties_map_alike(properties@, self.properties@);
        }
        let entry = DecimalFormat { name, properties };
        let ghost before = env.decimal_formats;
        let mut formats = match env.decimal_formats.take() {
            Some(v) => v,
            None => Vec::new(),
        };
        let ghost old_formats = formats@;
        formats.push(entry);
        proof {
            assert(formats@.drop_last() =~= old_formats);
            assert(match before {
                Some(v) => formats_map(v@),
                None => Map::empty(),
            } == formats_map(old_formats));
        }
        env.decimal_formats = Some(formats);
        Ok((env, Object::Nothing))
    }
}

/// The versions of the language a version declaration may name.
pub open spec fn supported_version(v: Seq<char>) -> bool {
    v == "1.0"@ || v == "3.0"@ || v == "3.1"@
}

/// The encodings a version declaration may name, compared in upper case
/// with the character reference `&#X2D;` read as `-`.
pub open spec fn supported_encoding(e: Seq<char>) -> bool {
    let key = spec_replace(spec_uppercase(e), "&#X2D;"@, "-"@);
    key == "US-ASCII"@ || key == "ISO-8859-1"@ || key == "UTF-8"@
}

/// A version declaration: the language version and the encoding, if given.
pub struct VersionDecl {
    pub encoding: Option<String>,
    pub version: Option<String>,
}

fn message_with(prefix: &str, value: &String) -> (r: String)
    ensures
        r@ == prefix@ + value@,
{
    let mut m = String::new();
    m.append(prefix);
    m.append(value.as_str());
    m
}

impl VersionDecl {
    /// The declaration, if its version and encoding are supported: an
    /// unsupported version is `XQST0031`, checked first, and an unsupported
    /// encoding `XQST0087`.
    pub fn boxed(encoding: Option<String>, version: Option<String>) -> (r: Result<Box<VersionDecl>, ErrorInfo>)
        ensures
            match r {
                Ok(d) => opt_view(d.encoding) == opt_view(encoding) && opt_view(d.version) == opt_view(version)
                    && (version matches Some(v) ==> supported_version(v@))
                    && (encoding matches Some(e) ==> supported_encoding(e@)),
                Err((code, message)) => match (version, encoding) {
                    (Some(v), _) if !supported_version(v@) => code == ErrorCode::XQST0031
                        && message@ == "unsupported version "@ + v@,
                    (_, Some(e)) => code == ErrorCode::XQST0087 && !supported_encoding(e@)
                        && message@ == "unsupported encoding "@ + e@,
                    _ => false,
                },
            },
    {
        if let Some(v) = &version {
            if !(str_eq(v.as_str(), "1.0") || str_eq(v.as_str(), "3.0") || str_eq(v.as_str(), "3.1")) {
                return Err((ErrorCode::XQST0031, message_with("unsupported version ", v)));
            }
        }
        if let Some(e) = &encoding {
            let upper = uppercase(e.as_str());
            proof {
                reveal_strlit("&#X2D;");
            }
            let key = replace_all(upper.as_str(), "&#X2D;", "-");
            if !(str_eq(key.as_str(), "US-ASCII") || str_eq(key.as_str(), "ISO-8859-1") || str_eq(
                key.as_str(),
                "UTF-8",
            )) {
                return Err((ErrorCode::XQST0087, message_with("unsupported encoding ", e)));
            }
        }
        Ok(Box::new(VersionDecl { encoding, version }))
    }
}

/// A reference to a predefined entity.
pub struct EntityRef {
    pub reference: String,
}

impl EntityRef {
    pub fn boxed(name: &str) -> (r: Box<EntityRef>)
        ensures
            r.reference@ == name@,
    {
        Box::new(EntityRef { reference: name.to_owned() })
    }

    /// The entity reference as a value; the scope is unchanged.
    pub fn eval(&self, env: Box<Environment>, context: &DynamicContext) -> (r: EvalResult)
        ensures
            r matches Ok((e, o)) && e == env && (o matches Object::EntityRef(s) && s@ == self.reference@),
    {
        Ok((env, Object::EntityRef(self.reference.clone())))
    }
}

/// The escaped quotation mark `""` in a string literal.
pub struct EscapeQuot {}

impl EscapeQuot {
    /// The string of one quotation mark; the scope is unchanged.
    pub fn eval(&self, env: Box<Environment>, context: &DynamicContext) -> (r: EvalResult)
        ensures
            r matches Ok((e, o)) && e == env && (o matches Object::Atomic(Type::String(s)) && s@ == "\""@),
    {
        Ok((env, Object::Atomic(Type::String(String::from_str("\"")))))
    }
}

/// The escaped apostrophe `''` in a string literal.
pub struct EscapeApos {}

impl EscapeApos {
    /// The string of one apostrophe; the scope is unchanged.
    pub fn eval(&self, env: Box<Environment>, context: &DynamicContext) -> (r: EvalResult)
        ensures
            r matches Ok((e, o)) && e == env && (o matches Object::Atomic(Type::String(s)) && s@ == "'"@),
    {
        Ok((env, Object::Atomic(Type::String(String::from_str("'")))))
    }
}


/// The scope after a declaration of the boundary-space policy: the scope with it set, if
/// it was not set yet; else `XQST0068`.
pub open spec fn spec_declare_boundary_space(env: Environment, mode: BoundarySpace) -> Result<Environment, ErrorCode> {
    if env.boundary_space is None {
        Ok(Environment { boundary_space: Some(mode), ..env })
    } else {
        Err(ErrorCode::XQST0068)
    }
}

/// The boundary-space policy is declared once: after one declaration succeeds, another in
/// the same scope is `XQST0068`, whatever it declares.
pub proof fn law_boundary_space_declared_once(env: Environment, first: BoundarySpace, second: BoundarySpace)
    requires
        spec_declare_boundary_space(env, first) is Ok,
    ensures
        spec_declare_boundary_space(spec_declare_boundary_space(env, first)->Ok_0, second) == Err::<Environment, ErrorCode>(ErrorCode::XQST0068),
{
}

/// The scope after a declaration of the construction mode: the scope with it set, if
/// it was not set yet; else `XQST0067`.
pub open spec fn spec_declare_construction_mode(env: Environment, mode: ConstructionMode) -> Result<Environment, ErrorCode> {
    if env.construction_mode is None {
        Ok(Environment { construction_mode: Some(mode), ..env })
    } else {
        Err(ErrorCode::XQST0067)
    }
}

/// The construction mode is declared once: after one declaration succeeds, another in
/// the same scope is `XQST0067`, whatever it declares.
pub proof fn law_construction_mode_declared_once(env: Environment, first: ConstructionMode, second: ConstructionMode)
    requires
        spec_declare_construction_mode(env, first) is Ok,
    ensures
        spec_declare_construction_mode(spec_declare_construction_mode(env, first)->Ok_0, second) == Err::<Environment, ErrorCode>(ErrorCode::XQST0067),
{
}

/// The scope after a declaration of the ordering mode: the scope with it set, if
/// it was not set yet; else `XQST0065`.
pub open spec fn spec_declare_ordering_mode(env: Environment, mode: OrderingMode) -> Result<Environment, ErrorCode> {
    if env.ordering_mode is None {
        Ok(Environment { ordering_mode: Some(mode), ..env })
    } else {
        Err(ErrorCode::XQST0065)
    }
}

/// The ordering mode is declared once: after one declaration succeeds, another in
/// the same scope is `XQST0065`, whatever it declares.
pub proof fn law_ordering_mode_declared_once(env: Environment, first: OrderingMode, second: OrderingMode)
    requires
        spec_declare_ordering_mode(env, first) is Ok,
    ensures
        spec_declare_ordering_mode(spec_declare_ordering_mode(env, first)->Ok_0, second) == Err::<Environment, ErrorCode>(ErrorCode::XQST0065),
{
}

/// The scope after a declaration of the empty order: the scope with it set, if
/// it was not set yet; else `XQST0069`.
pub open spec fn spec_declare_empty_order_mode(env: Environment, mode: EmptyOrderMode) -> Result<Environment, ErrorCode> {
    if env.empty_order_mode is None {
        Ok(Environment { empty_order_mode: Some(mode), ..env })
    } else {
        Err(ErrorCode::XQST0069)
    }
}

/// The empty order is declared once: after one declaration succeeds, another in
/// the same scope is `XQST0069`, whatever it declares.
pub proof fn law_empty_order_mode_declared_once(env: Environment, first: EmptyOrderMode, second: EmptyOrderMode)
    requires
        spec_declare_empty_order_mode(env, first) is Ok,
    ensures
        spec_declare_empty_order_mode(spec_declare_empty_order_mode(env, first)->Ok_0, second) == Err::<Environment, ErrorCode>(ErrorCode::XQST0069),
{
}

/// The scope after a default collation declaration: the scope with it set,
/// if it was not set yet; else `XQST0038`.
pub open spec fn spec_declare_default_collation(env: Environment, uri: String) -> Result<Environment, ErrorCode> {
    if env.default_collation is None {
        Ok(Environment { default_collation: Some(uri), ..env })
    } else {
        Err(ErrorCode::XQST0038)
    }
}

/// The default collation is declared once: after one declaration succeeds,
/// another in the same scope is `XQST0038`.
pub proof fn law_default_collation_declared_once(env: Environment, first: String, second: String)
    requires
        spec_declare_default_collation(env, first) is Ok,
    ensures
        spec_declare_default_collation(spec_declare_default_collation(env, first)->Ok_0, second) == Err::<
            Environment,
            ErrorCode,
        >(ErrorCode::XQST0038),
{
}

/// The scope after a copy-namespaces declaration: the scope with both modes
/// set, if they were not set yet; else `XQST0055`.
pub open spec fn spec_declare_copy_namespaces(env: Environment, preserve: PreserveMode, inherit: InheritMode) -> Result<Environment, ErrorCode> {
    if env.copy_namespaces is None {
        Ok(Environment { copy_namespaces: Some((preserve, inherit)), ..env })
    } else {
        Err(ErrorCode::XQST0055)
    }
}

/// Copy-namespaces is declared once: after one declaration succeeds,
/// another in the same scope is `XQST0055`.
pub proof fn law_copy_namespaces_declared_once(
    env: Environment,
    preserve: PreserveMode,
    inherit: InheritMode,
    preserve2: PreserveMode,
    inherit2: InheritMode,
)
    requires
        spec_declare_copy_namespaces(env, preserve, inherit) is Ok,
    ensures
        spec_declare_copy_namespaces(spec_declare_copy_namespaces(env, preserve, inherit)->Ok_0, preserve2, inherit2)
            == Err::<Environment, ErrorCode>(ErrorCode::XQST0055),
{
}

} // verus!
