use vstd::prelude::*;
use crate::errors::{ErrorCode, ErrorInfo};
use crate::eval::environment::{lookup_function, Environment};
use crate::eval::sequence_type::{seq_is_same, seq_is_same_defined, ItemType, OccurrenceIndicator, SequenceType};
use crate::namespaces::{resolvable, spec_resolve};
use crate::qname::QNameResolved;
use crate::value::{
    lemma_objects_view, lemma_pairs_view, node_string, node_typed_value, objects_view, pairs_view, NumberCase, Object, ObjectV,
    Type, TypeV,
};
use crate::xqts::text::{chars_of, str_eq};

verus! {

/// The kinds of atomic value a name of XML Schema stands for.
#[derive(PartialEq, Eq, Structural, Clone, Copy, Debug)]
pub enum Types {
    Untyped,
    String,
    NormalizedString,
    Boolean,
    AnyURI,
    Numeric,
    Integer,
    Decimal,
    Float,
    Double,
    DateTime,
    DateTimeStamp,
    Date,
    Time,
    Duration,
    YearMonthDuration,
    DayTimeDuration,
    GYearMonth,
    GYear,
    GMonthDay,
    GDay,
    GMonth,
    Name,
    NCName,
    QName,
    Token,
    Language,
    NMTOKEN,
    Base64Binary,
    HexBinary,
}

/// The namespace URI of XML Schema.
pub open spec fn xs_uri() -> Seq<char> {
    "http://www.w3.org/2001/XMLSchema"@
}

/// Whether a resolved name is `xs:<local>`.
pub open spec fn is_xs(n: (Seq<char>, Seq<char>), local: Seq<char>) -> bool {
    n.0 == xs_uri() && n.1 == local
}

/// Whether a resolved name is `xs:<local>`.
pub fn xs_is(n: &QNameResolved, local: &str) -> (r: bool)
    ensures
        r == is_xs(n@, local@),
{
    str_eq(n.url.as_str(), "http://www.w3.org/2001/XMLSchema") && str_eq(n.local_part.as_str(), local)
}

/// The kind of value a type name of XML Schema stands for, if it is one of
/// the known names.
pub open spec fn spec_types_of(n: (Seq<char>, Seq<char>)) -> Option<Types> {
    if n.0 != xs_uri() {
        None
    } else if n.1 == "untypedAtomic"@ {
        Some(Types::Untyped)
    } else if n.1 == "string"@ {
        Some(Types::String)
    } else if n.1 == "normalizedString"@ {
        Some(Types::NormalizedString)
    } else if n.1 == "boolean"@ {
        Some(Types::Boolean)
    } else if n.1 == "anyURI"@ {
        Some(Types::AnyURI)
    } else if n.1 == "numeric"@ {
        Some(Types::Numeric)
    } else if n.1 == "integer"@ {
        Some(Types::Integer)
    } else if n.1 == "decimal"@ {
        Some(Types::Decimal)
    } else if n.1 == "float"@ {
        Some(Types::Float)
    } else if n.1 == "double"@ {
        Some(Types::Double)
    } else if n.1 == "nonPositiveInteger"@ {
        Some(Types::Integer)
    } else if n.1 == "negativeInteger"@ {
        Some(Types::Integer)
    } else if n.1 == "long"@ {
        Some(Types::Integer)
    } else if n.1 == "int"@ {
        Some(Types::Integer)
    } else if n.1 == "short"@ {
        Some(Types::Integer)
    } else if n.1 == "byte"@ {
        Some(Types::Integer)
    } else if n.1 == "nonNegativeInteger"@ {
        Some(Types::Integer)
    } else if n.1 == "unsignedLong"@ {
        Some(Types::Integer)
    } else if n.1 == "unsignedInt"@ {
        Some(Types::Integer)
    } else if n.1 == "unsignedShort"@ {
        Some(Types::Integer)
    } else if n.1 == "unsignedByte"@ {
        Some(Types::Integer)
    } else if n.1 == "positiveInteger"@ {
        Some(Types::Integer)
    } else if n.1 == "dateTime"@ {
        Some(Types::DateTime)
    } else if n.1 == "dateTimeStamp"@ {
        Some(Types::DateTimeStamp)
    } else if n.1 == "date"@ {
        Some(Types::Date)
    } else if n.1 == "time"@ {
        Some(Types::Time)
    } else if n.1 == "duration"@ {
        Some(Types::Duration)
    } else if n.1 == "yearMonthDuration"@ {
        Some(Types::YearMonthDuration)
    } else if n.1 == "dayTimeDuration"@ {
        Some(Types::DayTimeDuration)
    } else if n.1 == "gYearMonth"@ {
        Some(Types::GYearMonth)
    } else if n.1 == "gYear"@ {
        Some(Types::GYear)
    } else if n.1 == "gMonthDay"@ {
        Some(Types::GMonthDay)
    } else if n.1 == "gDay"@ {
        Some(Types::GDay)
    } else if n.1 == "gMonth"@ {
        Some(Types::GMonth)
    } else if n.1 == "Name"@ {
        Some(Types::Name)
    } else if n.1 == "NCName"@ {
        Some(Types::NCName)
    } else if n.1 == "QName"@ {
        Some(Types::QName)
    } else if n.1 == "token"@ {
        Some(Types::Token)
    } else if n.1 == "language"@ {
        Some(Types::Language)
    } else if n.1 == "NMTOKEN"@ {
        Some(Types::NMTOKEN)
    } else if n.1 == "base64Binary"@ {
        Some(Types::Base64Binary)
    } else if n.1 == "hexBinary"@ {
        Some(Types::HexBinary)
    } else {
        None
    }
}

/// The kind of value a type name stands for (see `spec_types_of`).
pub fn qname_to_types(n: &QNameResolved) -> (r: Option<Types>)
    ensures
        r == spec_types_of(n@),
{
    if !str_eq(n.url.as_str(), "http://www.w3.org/2001/XMLSchema") {
        None
    } else if str_eq(n.local_part.as_str(), "untypedAtomic") {
        Some(Types::Untyped)
    } else if str_eq(n.local_part.as_str(), "string") {
        Some(Types::String)
    } else if str_eq(n.local_part.as_str(), "normalizedString") {
        Some(Types::NormalizedString)
    } else if str_eq(n.local_part.as_str(), "boolean") {
        Some(Types::Boolean)
    } else if str_eq(n.local_part.as_str(), "anyURI") {
        Some(Types::AnyURI)
    } else if str_eq(n.local_part.as_str(), "numeric") {
        Some(Types::Numeric)
    } else if str_eq(n.local_part.as_str(), "integer") {
        Some(Types::Integer)
    } else if str_eq(n.local_part.as_str(), "decimal") {
        Some(Types::Decimal)
    } else if str_eq(n.local_part.as_str(), "float") {
        Some(Types::Float)
    } else if str_eq(n.local_part.as_str(), "double") {
        Some(Types::Double)
    } else if str_eq(n.local_part.as_str(), "nonPositiveInteger") {
        Some(Types::Integer)
    } else if str_eq(n.local_part.as_str(), "negativeInteger") {
        Some(Types::Integer)
    } else if str_eq(n.local_part.as_str(), "long") {
        Some(Types::Integer)
    } else if str_eq(n.local_part.as_str(), "int") {
        Some(Types::Integer)
    } else if str_eq(n.local_part.as_str(), "short") {
        Some(Types::Integer)
    } else if str_eq(n.local_part.as_str(), "byte") {
        Some(Types::Integer)
    } else if str_eq(n.local_part.as_str(), "nonNegativeInteger") {
        Some(Types::Integer)
    } else if str_eq(n.local_part.as_str(), "unsignedLong") {
        Some(Types::Integer)
    } else if str_eq(n.local_part.as_str(), "unsignedInt") {
        Some(Types::Integer)
    } else if str_eq(n.local_part.as_str(), "unsignedShort") {
        Some(Types::Integer)
    } else if str_eq(n.local_part.as_str(), "unsignedByte") {
        Some(Types::Integer)
    } else if str_eq(n.local_part.as_str(), "positiveInteger") {
        Some(Types::Integer)
    } else if str_eq(n.local_part.as_str(), "dateTime") {
        Some(Types::DateTime)
    } else if str_eq(n.local_part.as_str(), "dateTimeStamp") {
        Some(Types::DateTimeStamp)
    } else if str_eq(n.local_part.as_str(), "date") {
        Some(Types::Date)
    } else if str_eq(n.local_part.as_str(), "time") {
        Some(Types::Time)
    } else if str_eq(n.local_part.as_str(), "duration") {
        Some(Types::Duration)
    } else if str_eq(n.local_part.as_str(), "yearMonthDuration") {
        Some(Types::YearMonthDuration)
    } else if str_eq(n.local_part.as_str(), "dayTimeDuration") {
        Some(Types::DayTimeDuration)
    } else if str_eq(n.local_part.as_str(), "gYearMonth") {
        Some(Types::GYearMonth)
    } else if str_eq(n.local_part.as_str(), "gYear") {
        Some(Types::GYear)
    } else if str_eq(n.local_part.as_str(), "gMonthDay") {
        Some(Types::GMonthDay)
    } else if str_eq(n.local_part.as_str(), "gDay") {
        Some(Types::GDay)
    } else if str_eq(n.local_part.as_str(), "gMonth") {
        Some(Types::GMonth)
    } else if str_eq(n.local_part.as_str(), "Name") {
        Some(Types::Name)
    } else if str_eq(n.local_part.as_str(), "NCName") {
        Some(Types::NCName)
    } else if str_eq(n.local_part.as_str(), "QName") {
        Some(Types::QName)
    } else if str_eq(n.local_part.as_str(), "token") {
        Some(Types::Token)
    } else if str_eq(n.local_part.as_str(), "language") {
        Some(Types::Language)
    } else if str_eq(n.local_part.as_str(), "NMTOKEN") {
        Some(Types::NMTOKEN)
    } else if str_eq(n.local_part.as_str(), "base64Binary") {
        Some(Types::Base64Binary)
    } else if str_eq(n.local_part.as_str(), "hexBinary") {
        Some(Types::HexBinary)
    } else {
        None
    }
}

/// Whether a conversion of atomic values answers alike for values that are
/// alike.
pub open spec fn convert_ok<C: Fn(&Type, Types) -> bool>(c: C) -> bool {
    &&& forall|a: &Type, t: Types| call_requires(c, (a, t))
    &&& forall|a1: Type, a2: Type, t: Types, r1: bool, r2: bool|
        #![trigger call_ensures(c, (&a1, t), r1), call_ensures(c, (&a2, t), r2)]
        a1@ == a2@ && call_ensures(c, (&a1, t), r1) && call_ensures(c, (&a2, t), r2) ==> r1 == r2
}

/// Whether the conversion takes a value to a kind.
pub open spec fn convert_outcome<C: Fn(&Type, Types) -> bool>(c: C, a: TypeV, t: Types) -> bool {
    let (r, x) = choose|r: bool, x: Type| #![trigger call_ensures(c, (&x, t), r)] x@ == a && call_ensures(c, (&x, t), r);
    r
}

proof fn lemma_convert_outcome<C: Fn(&Type, Types) -> bool>(c: C, x: Type, t: Types, r: bool)
    requires
        convert_ok(c),
        call_ensures(c, (&x, t), r),
    ensures
        convert_outcome(c, x@, t) == r,
{
    assert(x@ == x@ && call_ensures(c, (&x, t), r));
}

/// The kinds a text is converted to by the conversion.
pub open spec fn converted_kind(t: Types) -> bool {
    match t {
        Types::Numeric | Types::Name | Types::NCName | Types::Token | Types::Language | Types::NMTOKEN
        | Types::Base64Binary | Types::HexBinary => false,
        _ => true,
    }
}

pub open spec fn is_base64_char(c: char) -> bool {
    ('A' <= c && c <= 'Z') || ('a' <= c && c <= 'z') || ('0' <= c && c <= '9') || c == '+' || c == '/'
}

pub open spec fn is_hex_char(c: char) -> bool {
    ('A' <= c && c <= 'F') || ('a' <= c && c <= 'f') || ('0' <= c && c <= '9')
}

/// The names every number and boolean casts to.
pub open spec fn numeric_target(n: (Seq<char>, Seq<char>)) -> bool {
    is_xs(n, "untypedAtomic"@) || is_xs(n, "string"@) || is_xs(n, "boolean"@) || is_xs(n, "double"@) || is_xs(
        n,
        "float"@,
    ) || is_xs(n, "decimal"@) || is_xs(n, "integer"@)
}

/// The names every floating-point value casts to, and those that only a
/// zero or normal one does.
pub open spec fn float_target(n: (Seq<char>, Seq<char>), case: NumberCase) -> bool {
    is_xs(n, "untypedAtomic"@) || is_xs(n, "string"@) || is_xs(n, "boolean"@) || is_xs(n, "double"@) || is_xs(
        n,
        "float"@,
    ) || (case == NumberCase::Normal && (is_xs(n, "decimal"@) || is_xs(n, "integer"@)))
}

pub open spec fn text_target(n: (Seq<char>, Seq<char>)) -> bool {
    is_xs(n, "untypedAtomic"@) || is_xs(n, "string"@)
}

pub open spec fn g_target(n: (Seq<char>, Seq<char>)) -> bool {
    is_xs(n, "gYearMonth"@) || is_xs(n, "gYear"@) || is_xs(n, "gMonthDay"@) || is_xs(n, "gDay"@) || is_xs(
        n,
        "gMonth"@,
    )
}

/// Whether a text `s`, the value `t`, casts to the type named `n`: by the
/// conversion, or for binary types by its characters.
pub open spec fn spec_text_castable<C: Fn(&Type, Types) -> bool>(
    c: C,
    n: (Seq<char>, Seq<char>),
    t: TypeV,
    s: Seq<char>,
) -> Option<bool> {
    match spec_types_of(n) {
        None => None,
        Some(ty) => if converted_kind(ty) {
            Some(convert_outcome(c, t, ty))
        } else if ty == Types::Base64Binary {
            Some(forall|i: int| 0 <= i < s.len() ==> is_base64_char(#[trigger] s[i]))
        } else if ty == Types::HexBinary {
            Some((forall|i: int| 0 <= i < s.len() ==> is_hex_char(#[trigger] s[i])) && s.len() % 2 == 0)
        } else {
            None
        },
    }
}

/// Whether an atomic value casts to the type named `n`: a text is tried by
/// the conversion or, for binary types, by its characters; other values by
/// the names their kind casts to. `None` where it is not decided.
pub open spec fn spec_atomic_castable<C: Fn(&Type, Types) -> bool>(c: C, n: (Seq<char>, Seq<char>), t: TypeV) -> Option<bool> {
    match t {
        TypeV::Untyped(s) => spec_text_castable(c, n, t, s),
        TypeV::String(s) => spec_text_castable(c, n, t, s),
        TypeV::NormalizedString(s) => spec_text_castable(c, n, t, s),
        TypeV::Integer(_) | TypeV::Decimal { .. } | TypeV::Boolean(_) => Some(numeric_target(n)),
        TypeV::Float { case, .. } | TypeV::Double { case, .. } => Some(float_target(n, case)),
        TypeV::Duration { .. } | TypeV::YearMonthDuration { .. } | TypeV::DayTimeDuration { .. } => Some(
            text_target(n) || is_xs(n, "duration"@) || is_xs(n, "yearMonthDuration"@) || is_xs(n, "dayTimeDuration"@),
        ),
        TypeV::GYearMonth => Some(text_target(n) || is_xs(n, "gYearMonth"@)),
        TypeV::GYear => Some(text_target(n) || is_xs(n, "gYear"@)),
        TypeV::GMonthDay => Some(text_target(n) || is_xs(n, "gMonthDay"@)),
        TypeV::GDay => Some(text_target(n) || is_xs(n, "gDay"@)),
        TypeV::GMonth => Some(text_target(n) || is_xs(n, "gMonth"@)),
        TypeV::DateTime => Some(
            text_target(n) || is_xs(n, "dateTime"@) || is_xs(n, "time"@) || is_xs(n, "date"@) || g_target(n),
        ),
        TypeV::Time { .. } => Some(text_target(n) || is_xs(n, "time"@)),
        TypeV::Date { .. } => Some(text_target(n) || is_xs(n, "dateTime"@) || is_xs(n, "date"@) || g_target(n)),
        TypeV::Base64Binary | TypeV::HexBinary => Some(
            text_target(n) || is_xs(n, "base64Binary"@) || is_xs(n, "hexBinary"@),
        ),
        TypeV::AnyURI(_) => Some(text_target(n) || is_xs(n, "anyURI"@)),
        TypeV::QName => Some(text_target(n) || is_xs(n, "QName"@)),
        _ => None,
    }
}

/// Whether a sequence of `len` items fits an occurrence indicator.
pub open spec fn occurrence_fits(o: OccurrenceIndicator, len: nat) -> bool {
    match o {
        OccurrenceIndicator::ExactlyOne => len == 1,
        OccurrenceIndicator::ZeroOrOne => len <= 1,
        OccurrenceIndicator::ZeroOrMore => true,
        OccurrenceIndicator::OneOrMore => len >= 1,
    }
}

/// Whether an occurrence indicator admits the empty sequence.
pub open spec fn admits_empty(o: OccurrenceIndicator) -> bool {
    o == OccurrenceIndicator::ZeroOrOne || o == OccurrenceIndicator::ZeroOrMore
}

/// Whether an occurrence indicator admits many items.
pub open spec fn admits_many(o: OccurrenceIndicator) -> bool {
    o == OccurrenceIndicator::OneOrMore || o == OccurrenceIndicator::ZeroOrMore
}

/// Whether an array of `args` arguments and result `st` is the signature
/// of array access: one `xs:integer` and any result.
pub open spec fn array_signature(
    b: Map<Seq<char>, Seq<char>>,
    args: Option<Vec<SequenceType>>,
    st: Option<Box<SequenceType>>,
) -> Option<bool> {
    match args {
        None => Some(true),
        Some(a) => if a@.len() == 1 && a@[0].occurrence_indicator == OccurrenceIndicator::ExactlyOne && a@[0].item_type is AtomicOrUnionType {
            let q = a@[0].item_type->AtomicOrUnionType_0;
            if !resolvable(b, q@) {
                None
            } else {
                Some(is_xs(spec_resolve(b, q@), "integer"@) && match st {
                    Some(s) => s.item_type is Item && s.occurrence_indicator == OccurrenceIndicator::ZeroOrMore,
                    None => false,
                })
            }
        } else {
            Some(false)
        },
    }
}

/// Whether a value fits a sequence type in the scope `env` (its prefixes
/// and its functions): `Some` of the answer or of an error, `None` where
/// the question is not decided. `type_only` leaves the occurrence aside (it
/// is undecided for most values); `is_array` is set for the members of an
/// array, which may be empty whatever the occurrence. A map fits `item()`
/// and is checked entry by entry against a map type; against a named atomic
/// type it is `FOTY0013`. A function reference fits a function type by the
/// signature the scope registers for its name and arity.
pub open spec fn spec_castable<C: Fn(&Type, Types) -> bool>(
    c: C,
    env: Environment,
    st: SequenceType,
    o: ObjectV,
    type_only: bool,
    is_array: bool,
) -> Option<Result<bool, ErrorCode>>
    decreases o, 0int,
{
    let b = env.namespaces@;
    let occ = st.occurrence_indicator;
    match st.item_type {
        ItemType::Item => match o {
            ObjectV::Empty => if type_only { None } else { Some(Ok(admits_empty(occ))) },
            ObjectV::Range { min, max } => if type_only {
                None
            } else {
                Some(Ok(if occ == OccurrenceIndicator::ExactlyOne || occ == OccurrenceIndicator::ZeroOrOne {
                    min == max
                } else {
                    true
                }))
            },
            ObjectV::Atomic(_) | ObjectV::Node(_) | ObjectV::Array(_) | ObjectV::MapValue(_) => Some(Ok(true)),
            ObjectV::Sequence(items) => if type_only { None } else { Some(Ok(occurrence_fits(occ, items.len()))) },
            _ => None,
        },
        ItemType::AtomicOrUnionType(q) => if !resolvable(b, q@) {
            None
        } else {
            let n = spec_resolve(b, q@);
            if is_xs(n, "NOTATION"@) || is_xs(n, "anyAtomicType"@) || is_xs(n, "anySimpleType"@) {
                Some(Err(ErrorCode::XPST0080))
            } else {
                match o {
                    ObjectV::Empty => if is_array {
                        Some(Ok(true))
                    } else if type_only {
                        None
                    } else {
                        Some(Ok(admits_empty(occ)))
                    },
                    ObjectV::Atomic(t) => match spec_atomic_castable(c, n, t) {
                        Some(v) => Some(Ok(v)),
                        None => None,
                    },
                    ObjectV::Range { .. } => Some(Ok(admits_many(occ) && numeric_target(n))),
                    ObjectV::Sequence(items) => if type_only || admits_many(occ) {
                        spec_all_castable(c, env, st, items, false, false)
                    } else {
                        Some(Ok(false))
                    },
                    ObjectV::Array(items) => if type_only {
                        None
                    } else {
                        spec_all_castable(c, env, st, items, false, true)
                    },
                    ObjectV::Node(nd) => match spec_atomic_castable(c, n, TypeV::Untyped(node_string(nd))) {
                        Some(v) => Some(Ok(v)),
                        None => None,
                    },
                    ObjectV::MapValue(_) => Some(Err(ErrorCode::FOTY0013)),
                    _ => None,
                }
            }
        },
        ItemType::MapType(mst) => match o {
            ObjectV::MapValue(entries) => match mst {
                Some((kst, vst)) => spec_entries_castable(c, env, *kst, *vst, entries),
                None => Some(Ok(true)),
            },
            _ => Some(Ok(false)),
        },
        ItemType::Array(inner) => match o {
            ObjectV::Array(items) => if occ == OccurrenceIndicator::ExactlyOne {
                match inner {
                    Some(ist) => spec_all_castable(c, env, *ist, items, false, true),
                    None => Some(Ok(true)),
                }
            } else {
                Some(Ok(false))
            },
            ObjectV::Sequence(items) => if type_only || occurrence_fits(occ, items.len()) {
                spec_all_castable(c, env, st, items, true, false)
            } else {
                Some(Ok(false))
            },
            _ => Some(Ok(false)),
        },
        ItemType::Function { args, st: fst } => match o {
            ObjectV::Array(_) => match array_signature(b, args, fst) {
                Some(v) => Some(Ok(v)),
                None => None,
            },
            ObjectV::FunctionRef { name, arity } => match lookup_function(env, name, arity) {
                Some(e) => match signature_fits(b, args, fst, e.params@, e.result) {
                    Some(v) => Some(Ok(v)),
                    None => None,
                },
                None => None,
            },
            _ => None,
        },
        _ => None,
    }
}

/// Whether the parameter types `args` are the same as `params`, pair by
/// pair in order: `None` where a pair cannot be compared (see
/// `seq_is_same_defined`) before a pair that differs.
pub open spec fn params_fit(b: Map<Seq<char>, Seq<char>>, args: Seq<SequenceType>, params: Seq<SequenceType>) -> Option<
    bool,
>
    decreases args.len(),
{
    if args.len() == 0 || params.len() == 0 {
        Some(true)
    } else if !seq_is_same_defined(b, args[0], params[0]) {
        None
    } else if !seq_is_same(b, args[0], params[0]) {
        Some(false)
    } else {
        params_fit(b, args.drop_first(), params.drop_first())
    }
}

/// Whether a function of signature `params` and `result` fits a function
/// type: its result type is the same as the type's, where given, and its
/// parameter types are the same as the type's, where given, and as many.
/// `None` where a comparison it makes is not defined.
pub open spec fn signature_fits(
    b: Map<Seq<char>, Seq<char>>,
    args: Option<Vec<SequenceType>>,
    st: Option<Box<SequenceType>>,
    params: Seq<SequenceType>,
    result: SequenceType,
) -> Option<bool> {
    let result_fits = match st {
        Some(s) => if seq_is_same_defined(b, *s, result) {
            Some(seq_is_same(b, *s, result))
        } else {
            None
        },
        None => Some(true),
    };
    match result_fits {
        Some(true) => match args {
            Some(a) => if a@.len() != params.len() {
                Some(false)
            } else {
                params_fit(b, a@, params)
            },
            None => Some(true),
        },
        other => other,
    }
}

/// Whether a function's signature fits a function type (see
/// `signature_fits`).
fn signature_fits_exec(
    env: &Environment,
    args: &Option<Vec<SequenceType>>,
    st: &Option<Box<SequenceType>>,
    params: &Vec<SequenceType>,
    result: &SequenceType,
) -> (r: bool)
    requires
        signature_fits(env.namespaces@, *args, *st, params@, *result) is Some,
    ensures
        Some(r) == signature_fits(env.namespaces@, *args, *st, params@, *result),
{
    let ghost b = env.namespaces@;
    match st {
        Some(s) => {
            if s.is_not_same(env, result) {
                return false;
            }
        },
        None => {},
    }
    match args {
        None => true,
        Some(a) => {
            if a.len() != params.len() {
                return false;
            }
            let mut i: usize = 0;
            proof {
                assert(a@.subrange(0, a@.len() as int) =~= a@);
                assert(params@.subrange(0, params@.len() as int) =~= params@);
            }
            while i < a.len()
                invariant
                    a@.len() == params@.len(),
                    i <= a@.len(),
                    b == env.namespaces@,
                    signature_fits(b, *args, *st, params@, *result) == params_fit(b, a@, params@),
                    params_fit(b, a@, params@) == params_fit(
                        b,
                        a@.subrange(i as int, a@.len() as int),
                        params@.subrange(i as int, params@.len() as int),
                    ),
                    params_fit(b, a@, params@) is Some,
                decreases a@.len() - i,
            {
                let ghost ra = a@.subrange(i as int, a@.len() as int);
                let ghost rp = params@.subrange(i as int, params@.len() as int);
                proof {
                    assert(ra[0] == a@[i as int]);
                    assert(rp[0] == params@[i as int]);
                    assert(ra.drop_first() =~= a@.subrange(i + 1, a@.len() as int));
                    assert(rp.drop_first() =~= params@.subrange(i + 1, params@.len() as int));
                }
                if a[i].is_not_same(env, &params[i]) {
                    proof {
                        assert(params_fit(b, ra, rp) == Some(false));
                    }
                    return false;
                }
                i = i + 1;
            }
            true
        },
    }
}

/// Whether an atomic value fits a sequence type: what `spec_castable`
/// answers for it.
pub open spec fn spec_castable_atomic<C: Fn(&Type, Types) -> bool>(
    c: C,
    b: Map<Seq<char>, Seq<char>>,
    st: SequenceType,
    t: TypeV,
) -> Option<Result<bool, ErrorCode>> {
    match st.item_type {
        ItemType::Item => Some(Ok(true)),
        ItemType::AtomicOrUnionType(q) => if !resolvable(b, q@) {
            None
        } else {
            let n = spec_resolve(b, q@);
            if is_xs(n, "NOTATION"@) || is_xs(n, "anyAtomicType"@) || is_xs(n, "anySimpleType"@) {
                Some(Err(ErrorCode::XPST0080))
            } else {
                match spec_atomic_castable(c, n, t) {
                    Some(v) => Some(Ok(v)),
                    None => None,
                }
            }
        },
        ItemType::MapType(_) => Some(Ok(false)),
        ItemType::Array(_) => Some(Ok(false)),
        _ => None,
    }
}

/// Whether the entries of a map fit a key type and a value type, in
/// order: a key is checked (as an atomic value) where the key type admits
/// exactly one item; the first entry that does not fit or errs decides.
pub open spec fn spec_entries_castable<C: Fn(&Type, Types) -> bool>(
    c: C,
    env: Environment,
    kst: SequenceType,
    vst: SequenceType,
    entries: Seq<(TypeV, ObjectV)>,
) -> Option<Result<bool, ErrorCode>>
    decreases entries, 1int,
{
    let b = env.namespaces@;
    if entries.len() == 0 {
        Some(Ok(true))
    } else {
        let key = if kst.occurrence_indicator == OccurrenceIndicator::ExactlyOne {
            spec_castable_atomic(c, b, kst, entries[0].0)
        } else {
            Some(Ok(true))
        };
        match key {
            Some(Ok(true)) => match spec_castable(c, env, vst, entries[0].1, false, false) {
                Some(Ok(true)) => spec_entries_castable(c, env, kst, vst, entries.drop_first()),
                other => other,
            },
            other => other,
        }
    }
}

/// Whether every item fits a sequence type, the first that does not or
/// errs deciding.
pub open spec fn spec_all_castable<C: Fn(&Type, Types) -> bool>(
    c: C,
    env: Environment,
    st: SequenceType,
    items: Seq<ObjectV>,
    type_only: bool,
    is_array: bool,
) -> Option<Result<bool, ErrorCode>>
    decreases items, 1int,
{
    if items.len() == 0 {
        Some(Ok(true))
    } else {
        match spec_castable(c, env, st, items[0], type_only, is_array) {
            Some(Ok(true)) => spec_all_castable(c, env, st, items.drop_first(), type_only, is_array),
            other => other,
        }
    }
}

/// The answer of a check as the specification names it: the error code
/// for an error.
pub open spec fn castable_code(r: Result<bool, ErrorInfo>) -> Result<bool, ErrorCode> {
    match r {
        Ok(v) => Ok(v),
        Err((code, _)) => Err(code),
    }
}

/// Whether every character of a text is of base64.
fn all_base64(s: &String) -> (r: bool)
    ensures
        r == forall|i: int| 0 <= i < s@.len() ==> is_base64_char(#[trigger] s@[i]),
{
    let cs = chars_of(s.as_str());
    let mut i: usize = 0;
    while i < cs.len()
        invariant
            cs@ == s@,
            i <= cs.len(),
            forall|j: int| 0 <= j < i ==> is_base64_char(#[trigger] s@[j]),
        decreases cs.len() - i,
    {
        let c = cs[i];
        if !(('A' <= c && c <= 'Z') || ('a' <= c && c <= 'z') || ('0' <= c && c <= '9') || c == '+' || c == '/') {
            return false;
        }
        i = i + 1;
    }
    true
}

/// Whether every character of a text is a hexadecimal digit, and their
/// number is even.
fn hex_text(s: &String) -> (r: bool)
    ensures
        r == ((forall|i: int| 0 <= i < s@.len() ==> is_hex_char(#[trigger] s@[i])) && s@.len() % 2 == 0),
{
    let cs = chars_of(s.as_str());
    let mut i: usize = 0;
    while i < cs.len()
        invariant
            cs@ == s@,
            i <= cs.len(),
            forall|j: int| 0 <= j < i ==> is_hex_char(#[trigger] s@[j]),
        decreases cs.len() - i,
    {
        let c = cs[i];
        if !(('A' <= c && c <= 'F') || ('a' <= c && c <= 'f') || ('0' <= c && c <= '9')) {
            return false;
        }
        i = i + 1;
    }
    cs.len() % 2 == 0
}

fn text_target_of(n: &QNameResolved) -> (r: bool)
    ensures
        r == text_target(n@),
{
    xs_is(n, "untypedAtomic") || xs_is(n, "string")
}

fn g_target_of(n: &QNameResolved) -> (r: bool)
    ensures
        r == g_target(n@),
{
    xs_is(n, "gYearMonth") || xs_is(n, "gYear") || xs_is(n, "gMonthDay") || xs_is(n, "gDay") || xs_is(n, "gMonth")
}

fn numeric_target_of(n: &QNameResolved) -> (r: bool)
    ensures
        r == numeric_target(n@),
{
    xs_is(n, "untypedAtomic") || xs_is(n, "string") || xs_is(n, "boolean") || xs_is(n, "double") || xs_is(n, "float")
        || xs_is(n, "decimal") || xs_is(n, "integer")
}

fn text_castable<C: Fn(&Type, Types) -> bool>(n: &QNameResolved, t: &Type, s: &String, convert: &C) -> (r: bool)
    requires
        convert_ok(*convert),
        spec_text_castable(*convert, n@, t@, s@) is Some,
    ensures
        Some(r) == spec_text_castable(*convert, n@, t@, s@),
{
    let ty = qname_to_types(n).unwrap();
    match ty {
        Types::Base64Binary => all_base64(s),
        Types::HexBinary => hex_text(s),
        _ => {
            let r = convert(t, ty);
            proof {
                lemma_convert_outcome(*convert, *t, ty, r);
            }
            r
        },
    }
}

/// Whether an atomic value casts to the type named `n` (see
/// `spec_atomic_castable`); `convert` tells whether a text converts to a
/// kind of value.
pub fn atomic_castable<C: Fn(&Type, Types) -> bool>(n: &QNameResolved, t: &Type, convert: &C) -> (r: bool)
    requires
        convert_ok(*convert),
        spec_atomic_castable(*convert, n@, t@) is Some,
    ensures
        Some(r) == spec_atomic_castable(*convert, n@, t@),
{
    match t {
        Type::Untyped(s) => text_castable(n, t, s, convert),
        Type::String(s) => text_castable(n, t, s, convert),
        Type::NormalizedString(s) => text_castable(n, t, s, convert),
        Type::Integer(_) | Type::Decimal { .. } | Type::Boolean(_) => numeric_target_of(n),
        Type::Float { case, .. } | Type::Double { case, .. } => {
            xs_is(n, "untypedAtomic") || xs_is(n, "string") || xs_is(n, "boolean") || xs_is(n, "double") || xs_is(
                n,
                "float",
            ) || (*case == NumberCase::Normal && (xs_is(n, "decimal") || xs_is(n, "integer")))
        },
        Type::Duration { .. } | Type::YearMonthDuration { .. } | Type::DayTimeDuration { .. } => {
            text_target_of(n) || xs_is(n, "duration") || xs_is(n, "yearMonthDuration") || xs_is(n, "dayTimeDuration")
        },
        Type::GYearMonth => text_target_of(n) || xs_is(n, "gYearMonth"),
        Type::GYear => text_target_of(n) || xs_is(n, "gYear"),
        Type::GMonthDay => text_target_of(n) || xs_is(n, "gMonthDay"),
        Type::GDay => text_target_of(n) || xs_is(n, "gDay"),
        Type::GMonth => text_target_of(n) || xs_is(n, "gMonth"),
        Type::DateTime => text_target_of(n) || xs_is(n, "dateTime") || xs_is(n, "time") || xs_is(n, "date")
            || g_target_of(n),
        Type::Time { .. } => text_target_of(n) || xs_is(n, "time"),
        Type::Date { .. } => text_target_of(n) || xs_is(n, "dateTime") || xs_is(n, "date") || g_target_of(n),
        Type::Base64Binary | Type::HexBinary => text_target_of(n) || xs_is(n, "base64Binary") || xs_is(
            n,
            "hexBinary",
        ),
        Type::AnyURI(_) => text_target_of(n) || xs_is(n, "anyURI"),
        Type::QName => text_target_of(n) || xs_is(n, "QName"),
        _ => false,
    }
}

fn occurrence_fits_exec(o: OccurrenceIndicator, len: usize) -> (r: bool)
    ensures
        r == occurrence_fits(o, len as nat),
{
    match o {
        OccurrenceIndicator::ExactlyOne => len == 1,
        OccurrenceIndicator::ZeroOrOne => len <= 1,
        OccurrenceIndicator::ZeroOrMore => true,
        OccurrenceIndicator::OneOrMore => len >= 1,
    }
}

fn admits_empty_exec(o: OccurrenceIndicator) -> (r: bool)
    ensures
        r == admits_empty(o),
{
    o == OccurrenceIndicator::ZeroOrOne || o == OccurrenceIndicator::ZeroOrMore
}

fn admits_many_exec(o: OccurrenceIndicator) -> (r: bool)
    ensures
        r == admits_many(o),
{
    o == OccurrenceIndicator::OneOrMore || o == OccurrenceIndicator::ZeroOrMore
}

fn todo_info() -> (r: String)
    ensures
        r@ == "TODO"@,
{
    String::from_str("TODO")
}

impl SequenceType {
    /// Whether a value fits this sequence type (see `spec_castable`), with
    /// `convert` telling whether a text converts to a kind of value.
    pub fn is_castable<C: Fn(&Type, Types) -> bool>(&self, env: &Environment, obj: &Object, convert: &C) -> (r: Result<
        bool,
        ErrorInfo,
    >)
        requires
            convert_ok(*convert),
            spec_castable(*convert, *env, *self, obj@, false, false) is Some,
        ensures
            Some(castable_code(r)) == spec_castable(*convert, *env, *self, obj@, false, false),
    {
        self.is_castable_internal(env, obj, false, false, convert)
    }

    /// Whether a value fits this sequence type (see `spec_castable`).
    pub fn is_castable_internal<C: Fn(&Type, Types) -> bool>(
        &self,
        env: &Environment,
        obj: &Object,
        type_only: bool,
        is_array: bool,
        convert: &C,
    ) -> (r: Result<bool, ErrorInfo>)
        requires
            convert_ok(*convert),
            spec_castable(*convert, *env, *self, obj@, type_only, is_array) is Some,
        ensures
            Some(castable_code(r)) == spec_castable(*convert, *env, *self, obj@, type_only, is_array),
        decreases obj@, 0int,
    {
        let occ = self.occurrence_indicator;
        match &self.item_type {
            ItemType::Item => match obj {
                Object::Empty => Ok(admits_empty_exec(occ)),
                Object::Range { min, max } => {
                    if occ == OccurrenceIndicator::ExactlyOne || occ == OccurrenceIndicator::ZeroOrOne {
                        Ok(*min == *max)
                    } else {
                        Ok(true)
                    }
                },
                Object::Sequence(items) => {
                    proof {
                        lemma_objects_view(items@);
                    }
                    Ok(occurrence_fits_exec(occ, items.len()))
                },
                _ => Ok(true),
            },
            ItemType::AtomicOrUnionType(q) => {
                let n = env.namespaces.resolve(q);
                if xs_is(&n, "NOTATION") || xs_is(&n, "anyAtomicType") || xs_is(&n, "anySimpleType") {
                    return Err((ErrorCode::XPST0080, todo_info()));
                }
                match obj {
                    Object::Empty => {
                        if is_array {
                            Ok(true)
                        } else {
                            Ok(admits_empty_exec(occ))
                        }
                    },
                    Object::Atomic(t) => Ok(atomic_castable(&n, t, convert)),
                    Object::Range { .. } => Ok(admits_many_exec(occ) && numeric_target_of(&n)),
                    Object::Sequence(items) => {
                        if type_only || admits_many_exec(occ) {
                            self.all_castable(env, items, false, false, convert)
                        } else {
                            Ok(false)
                        }
                    },
                    Object::Array(items) => self.all_castable(env, items, false, true, convert),
                    Object::Node(rf) => {
                        let text = Type::Untyped(node_typed_value(rf));
                        Ok(atomic_castable(&n, &text, convert))
                    },
                    Object::MapValue(_) => Err((ErrorCode::FOTY0013, todo_info())),
                    _ => Ok(false),
                }
            },
            ItemType::MapType(mst) => match obj {
                Object::MapValue(entries) => match mst {
                    Some((kst, vst)) => {
                        proof {
                            lemma_pairs_view(entries@);
                        }
                        SequenceType::entries_castable(env, kst, vst, entries, convert)
                    },
                    None => Ok(true),
                },
                _ => Ok(false),
            },
            ItemType::Array(inner) => match obj {
                Object::Array(items) => {
                    if occ == OccurrenceIndicator::ExactlyOne {
                        match inner {
                            Some(ist) => ist.all_castable(env, items, false, true, convert),
                            None => Ok(true),
                        }
                    } else {
                        Ok(false)
                    }
                },
                Object::Sequence(items) => {
                    proof {
                        lemma_objects_view(items@);
                    }
                    if type_only || occurrence_fits_exec(occ, items.len()) {
                        self.all_castable(env, items, true, false, convert)
                    } else {
                        Ok(false)
                    }
                },
                _ => Ok(false),
            },
            ItemType::Function { args, st } => match obj {
                Object::FunctionRef { name, arity } => match env.get_function(name, *arity) {
                    Some(e) => Ok(signature_fits_exec(env, args, st, &e.params, &e.result)),
                    None => Ok(false),
                },
                _ => match args {
                    None => Ok(true),
                    Some(a) => {
                        if a.len() == 1 && a[0].occurrence_indicator == OccurrenceIndicator::ExactlyOne {
                            match &a[0].item_type {
                                ItemType::AtomicOrUnionType(arg_name) => {
                                    let arg = env.namespaces.resolve(arg_name);
                                    if xs_is(&arg, "integer") {
                                        match st {
                                            Some(s) => Ok(matches!(s.item_type, ItemType::Item) && s.occurrence_indicator
                                                == OccurrenceIndicator::ZeroOrMore),
                                            None => Ok(false),
                                        }
                                    } else {
                                        Ok(false)
                                    }
                                },
                                _ => Ok(false),
                            }
                        } else {
                            Ok(false)
                        }
                    },
                },
            },
            _ => Ok(false),
        }
    }

    /// Whether an atomic value fits this sequence type (see
    /// `spec_castable_atomic`).
    fn castable_atomic<C: Fn(&Type, Types) -> bool>(&self, env: &Environment, t: &Type, convert: &C) -> (r: Result<
        bool,
        ErrorInfo,
    >)
        requires
            convert_ok(*convert),
            spec_castable_atomic(*convert, env.namespaces@, *self, t@) is Some,
        ensures
            Some(castable_code(r)) == spec_castable_atomic(*convert, env.namespaces@, *self, t@),
    {
        match &self.item_type {
            ItemType::Item => Ok(true),
            ItemType::AtomicOrUnionType(q) => {
                let n = env.namespaces.resolve(q);
                if xs_is(&n, "NOTATION") || xs_is(&n, "anyAtomicType") || xs_is(&n, "anySimpleType") {
                    Err((ErrorCode::XPST0080, todo_info()))
                } else {
                    Ok(atomic_castable(&n, t, convert))
                }
            },
            _ => Ok(false),
        }
    }

    /// Whether the entries of a map fit a key type and a value type (see
    /// `spec_entries_castable`).
    fn entries_castable<C: Fn(&Type, Types) -> bool>(
        env: &Environment,
        kst: &SequenceType,
        vst: &SequenceType,
        entries: &Vec<(Type, Object)>,
        convert: &C,
    ) -> (r: Result<bool, ErrorInfo>)
        requires
            convert_ok(*convert),
            spec_entries_castable(*convert, *env, *kst, *vst, pairs_view(entries@)) is Some,
        ensures
            Some(castable_code(r)) == spec_entries_castable(*convert, *env, *kst, *vst, pairs_view(entries@)),
        decreases pairs_view(entries@), 1int,
    {
        let ghost v = pairs_view(entries@);
        let ghost b = *env;
        proof {
            lemma_pairs_view(entries@);
            assert(v.subrange(0, v.len() as int) =~= v);
        }
        let mut i: usize = 0;
        while i < entries.len()
            invariant
                v == pairs_view(entries@),
                v.len() == entries@.len(),
                forall|j: int| 0 <= j < entries@.len() ==> #[trigger] v[j] == (entries@[j].0@, entries@[j].1@),
                b == *env,
                convert_ok(*convert),
                i <= entries.len(),
                spec_entries_castable(*convert, b, *kst, *vst, v) == spec_entries_castable(
                    *convert,
                    b,
                    *kst,
                    *vst,
                    v.subrange(i as int, v.len() as int),
                ),
                spec_entries_castable(*convert, b, *kst, *vst, v) is Some,
            decreases entries.len() - i,
        {
            let ghost rest = v.subrange(i as int, v.len() as int);
            proof {
                assert(rest[0] == v[i as int]);
                assert(rest.drop_first() =~= v.subrange(i + 1, v.len() as int));
                assert(decreases_to!(v => v[i as int]));
                assert(decreases_to!(v[i as int] => v[i as int].1));
            }
            let (k, o) = &entries[i];
            if kst.occurrence_indicator == OccurrenceIndicator::ExactlyOne {
                match kst.castable_atomic(env, k, convert) {
                    Ok(true) => {},
                    Ok(false) => {
                        return Ok(false);
                    },
                    Err(e) => {
                        return Err(e);
                    },
                }
            }
            match vst.is_castable_internal(env, o, false, false, convert) {
                Ok(true) => {},
                Ok(false) => {
                    return Ok(false);
                },
                Err(e) => {
                    return Err(e);
                },
            }
            i = i + 1;
        }
        Ok(true)
    }

    /// Whether every item fits this sequence type, stopping at the first
    /// that does not or errs (see `spec_all_castable`).
    fn all_castable<C: Fn(&Type, Types) -> bool>(
        &self,
        env: &Environment,
        items: &Vec<Object>,
        type_only: bool,
        is_array: bool,
        convert: &C,
    ) -> (r: Result<bool, ErrorInfo>)
        requires
            convert_ok(*convert),
            spec_all_castable(*convert, *env, *self, objects_view(items@), type_only, is_array) is Some,
        ensures
            Some(castable_code(r)) == spec_all_castable(
                *convert,
                *env,
                *self,
                objects_view(items@),
                type_only,
                is_array,
            ),
        decreases objects_view(items@), 1int,
    {
        let ghost v = objects_view(items@);
        let ghost b = *env;
        proof {
            lemma_objects_view(items@);
            assert(v.subrange(0, v.len() as int) =~= v);
        }
        let mut i: usize = 0;
        while i < items.len()
            invariant
                v == objects_view(items@),
                v.len() == items@.len(),
                forall|j: int| 0 <= j < items@.len() ==> #[trigger] v[j] == items@[j]@,
                b == *env,
                convert_ok(*convert),
                i <= items.len(),
                spec_all_castable(*convert, b, *self, v, type_only, is_array) == spec_all_castable(
                    *convert,
                    b,
                    *self,
                    v.subrange(i as int, v.len() as int),
                    type_only,
                    is_array,
                ),
                spec_all_castable(*convert, b, *self, v, type_only, is_array) is Some,
            decreases items.len() - i,
        {
            let ghost rest = v.subrange(i as int, v.len() as int);
            proof {
                assert(rest[0] == v[i as int]);
                assert(rest.drop_first() =~= v.subrange(i + 1, v.len() as int));
                assert(decreases_to!(v => v[i as int]));
            }
            match self.is_castable_internal(env, &items[i], type_only, is_array, convert) {
                Ok(true) => {},
                Ok(false) => {
                    return Ok(false);
                },
                Err(e) => {
                    return Err(e);
                },
            }
            i = i + 1;
        }
        Ok(true)
    }
}

/// What a conversion of atomic values gives, an error by its code.
pub open spec fn converted_code(r: Result<Type, ErrorInfo>) -> Result<TypeV, ErrorCode> {
    match r {
        Ok(t) => Ok(t@),
        Err((code, _)) => Err(code),
    }
}

/// Whether a conversion of atomic values converts alike values alike.
pub open spec fn converter_total<D: Fn(&Type, Types) -> Result<Type, ErrorInfo>>(d: D) -> bool {
    &&& forall|a: &Type, t: Types| call_requires(d, (a, t))
    &&& forall|a1: Type, a2: Type, t: Types, r1: Result<Type, ErrorInfo>, r2: Result<Type, ErrorInfo>|
        #![trigger call_ensures(d, (&a1, t), r1), call_ensures(d, (&a2, t), r2)]
        a1@ == a2@ && call_ensures(d, (&a1, t), r1) && call_ensures(d, (&a2, t), r2) ==> converted_code(r1)
            == converted_code(r2)
}

/// What the conversion gives for a value and a kind.
pub open spec fn conversion_of<D: Fn(&Type, Types) -> Result<Type, ErrorInfo>>(d: D, a: TypeV, t: Types) -> Result<
    TypeV,
    ErrorCode,
> {
    let (r, x) = choose|r: Result<Type, ErrorInfo>, x: Type| #![trigger call_ensures(d, (&x, t), r)] x@ == a
        && call_ensures(d, (&x, t), r);
    converted_code(r)
}

proof fn lemma_conversion_of<D: Fn(&Type, Types) -> Result<Type, ErrorInfo>>(d: D, x: Type, t: Types, r: Result<Type, ErrorInfo>)
    requires
        converter_total(d),
        call_ensures(d, (&x, t), r),
    ensures
        conversion_of(d, x@, t) == converted_code(r),
{
    assert(x@ == x@ && call_ensures(d, (&x, t), r));
}

/// The atomic value a text or other atomic value becomes under the type
/// named `n`, by the conversion to the kind the name stands for; `None`
/// for a name of no known kind.
pub open spec fn spec_cascade_atomic<D: Fn(&Type, Types) -> Result<Type, ErrorInfo>>(
    d: D,
    n: (Seq<char>, Seq<char>),
    t: TypeV,
) -> Option<Result<ObjectV, ErrorCode>> {
    match spec_types_of(n) {
        Some(ty) => Some(
            match conversion_of(d, t, ty) {
                Ok(v) => Ok(ObjectV::Atomic(v)),
                Err(e) => Err(e),
            },
        ),
        None => None,
    }
}

/// A value brought to a sequence type in the scope `env`: kept as it is
/// where it fits an item type (a map among them) or, a function reference,
/// a function type by its registered signature; its atomic values converted
/// to a named atomic type (a map there is `FOTY0013`); its members brought
/// to the type of an array's members. `Some` of the value or of an error;
/// `None` where the value does not fit and no error is defined for it.
pub open spec fn spec_cascade<D: Fn(&Type, Types) -> Result<Type, ErrorInfo>>(
    d: D,
    env: Environment,
    st: SequenceType,
    o: ObjectV,
) -> Option<Result<ObjectV, ErrorCode>>
    decreases o, 0int,
{
    let b = env.namespaces@;
    let occ = st.occurrence_indicator;
    match st.item_type {
        ItemType::Item => match o {
            ObjectV::Empty => if admits_empty(occ) { Some(Ok(o)) } else { None },
            ObjectV::Range { min, max } => if (occ == OccurrenceIndicator::ExactlyOne || occ
                == OccurrenceIndicator::ZeroOrOne) && min != max {
                None
            } else {
                Some(Ok(o))
            },
            ObjectV::Atomic(_) | ObjectV::Node(_) | ObjectV::Array(_) | ObjectV::MapValue(_) => Some(Ok(o)),
            ObjectV::Sequence(items) => if occurrence_fits(occ, items.len()) { Some(Ok(o)) } else { None },
            _ => None,
        },
        ItemType::AtomicOrUnionType(q) => if !resolvable(b, q@) {
            None
        } else {
            let n = spec_resolve(b, q@);
            if is_xs(n, "NOTATION"@) || is_xs(n, "anyAtomicType"@) || is_xs(n, "anySimpleType"@) {
                Some(Err(ErrorCode::XPST0080))
            } else {
                match o {
                    ObjectV::Empty => if admits_empty(occ) { Some(Ok(o)) } else { None },
                    ObjectV::Atomic(t) => spec_cascade_atomic(d, n, t),
                    ObjectV::Sequence(items) => if admits_many(occ) {
                        match spec_cascade_all(d, env, st, items) {
                            Some(Ok(v)) => Some(Ok(ObjectV::Sequence(v))),
                            Some(Err(e)) => Some(Err(e)),
                            None => None,
                        }
                    } else {
                        None
                    },
                    ObjectV::Array(items) => match spec_cascade_all(d, env, st, items) {
                        Some(Ok(v)) => Some(Ok(ObjectV::Array(v))),
                        Some(Err(e)) => Some(Err(e)),
                        None => None,
                    },
                    ObjectV::Node(nd) => spec_cascade_atomic(d, n, TypeV::Untyped(node_string(nd))),
                    ObjectV::MapValue(_) => Some(Err(ErrorCode::FOTY0013)),
                    _ => None,
                }
            }
        },
        ItemType::Array(inner) => match o {
            ObjectV::Array(items) => if occ == OccurrenceIndicator::ExactlyOne {
                match inner {
                    Some(ist) => match spec_cascade_all(d, env, *ist, items) {
                        Some(Ok(v)) => Some(Ok(ObjectV::Array(v))),
                        Some(Err(e)) => Some(Err(e)),
                        None => None,
                    },
                    None => Some(Ok(o)),
                }
            } else {
                None
            },
            _ => None,
        },
        ItemType::Function { args, st: fst } => match o {
            ObjectV::FunctionRef { name, arity } => match lookup_function(env, name, arity) {
                Some(e) => if signature_fits(b, args, fst, e.params@, e.result) == Some(true) {
                    Some(Ok(o))
                } else {
                    None
                },
                None => None,
            },
            _ => None,
        },
        _ => None,
    }
}

/// Every item brought to a sequence type, in order; the first error stops
/// it.
pub open spec fn spec_cascade_all<D: Fn(&Type, Types) -> Result<Type, ErrorInfo>>(
    d: D,
    env: Environment,
    st: SequenceType,
    items: Seq<ObjectV>,
) -> Option<Result<Seq<ObjectV>, ErrorCode>>
    decreases items, 1int,
{
    if items.len() == 0 {
        Some(Ok(Seq::empty()))
    } else {
        match spec_cascade(d, env, st, items[0]) {
            Some(Ok(v)) => match spec_cascade_all(d, env, st, items.drop_first()) {
                Some(Ok(vs)) => Some(Ok(seq![v] + vs)),
                other => other,
            },
            Some(Err(e)) => Some(Err(e)),
            None => None,
        }
    }
}

/// What bringing a value to a type gave, an error by its code.
pub open spec fn cascaded_code(r: Result<Object, ErrorInfo>) -> Result<ObjectV, ErrorCode> {
    match r {
        Ok(o) => Ok(o@),
        Err((code, _)) => Err(code),
    }
}

/// What bringing a list of values to a type gave, an error by its code.
pub open spec fn cascaded_all_code(r: Result<Vec<Object>, ErrorInfo>) -> Result<Seq<ObjectV>, ErrorCode> {
    match r {
        Ok(v) => Ok(objects_view(v@)),
        Err((code, _)) => Err(code),
    }
}

fn cascade_atomic<D: Fn(&Type, Types) -> Result<Type, ErrorInfo>>(n: &QNameResolved, t: &Type, convert: &D) -> (r: Result<Object, ErrorInfo>)
    requires
        converter_total(*convert),
        spec_cascade_atomic(*convert, n@, t@) is Some,
    ensures
        Some(cascaded_code(r)) == spec_cascade_atomic(*convert, n@, t@),
{
    let ty = qname_to_types(n).unwrap();
    let r = convert(t, ty);
    proof {
        lemma_conversion_of(*convert, *t, ty, r);
    }
    match r {
        Ok(v) => Ok(Object::Atomic(v)),
        Err(e) => Err(e),
    }
}

impl SequenceType {
    /// Brings a value to this sequence type (see `spec_cascade`), with
    /// `convert` converting atomic values to a kind.
    pub fn cascade<D: Fn(&Type, Types) -> Result<Type, ErrorInfo>>(&self, env: &Environment, obj: Object, convert: &D) -> (r: Result<
        Object,
        ErrorInfo,
    >)
        requires
            converter_total(*convert),
            spec_cascade(*convert, *env, *self, obj@) is Some,
        ensures
            Some(cascaded_code(r)) == spec_cascade(*convert, *env, *self, obj@),
        decreases obj@, 0int,
    {
        let occ = self.occurrence_indicator;
        match &self.item_type {
            ItemType::Item => Ok(obj),
            ItemType::AtomicOrUnionType(q) => {
                let n = env.namespaces.resolve(q);
                if xs_is(&n, "NOTATION") || xs_is(&n, "anyAtomicType") || xs_is(&n, "anySimpleType") {
                    return Err((ErrorCode::XPST0080, todo_info()));
                }
                match obj {
                    Object::Atomic(t) => cascade_atomic(&n, &t, convert),
                    Object::Sequence(items) => {
                        proof {
                            lemma_objects_view(items@);
                        }
                        match self.cascade_all(env, &items, convert) {
                            Ok(v) => Ok(Object::Sequence(v)),
                            Err(e) => Err(e),
                        }
                    },
                    Object::Array(items) => {
                        proof {
                            lemma_objects_view(items@);
                        }
                        match self.cascade_all(env, &items, convert) {
                            Ok(v) => Ok(Object::Array(v)),
                            Err(e) => Err(e),
                        }
                    },
                    Object::Node(rf) => {
                        let text = Type::Untyped(node_typed_value(&rf));
                        cascade_atomic(&n, &text, convert)
                    },
                    Object::MapValue(_) => Err((ErrorCode::FOTY0013, todo_info())),
                    _ => Ok(obj),
                }
            },
            ItemType::Array(inner) => match obj {
                Object::Array(items) => match inner {
                    Some(ist) => {
                        proof {
                            lemma_objects_view(items@);
                        }
                        match ist.cascade_all(env, &items, convert) {
                            Ok(v) => Ok(Object::Array(v)),
                            Err(e) => Err(e),
                        }
                    },
                    None => Ok(Object::Array(items)),
                },
                _ => Ok(obj),
            },
            _ => Ok(obj),
        }
    }

    /// Brings every item to this sequence type, in order, stopping at the
    /// first error (see `spec_cascade_all`).
    fn cascade_all<D: Fn(&Type, Types) -> Result<Type, ErrorInfo>>(&self, env: &Environment, items: &Vec<Object>, convert: &D) -> (r: Result<
        Vec<Object>,
        ErrorInfo,
    >)
        requires
            converter_total(*convert),
            spec_cascade_all(*convert, *env, *self, objects_view(items@)) is Some,
        ensures
            Some(cascaded_all_code(r)) == spec_cascade_all(*convert, *env, *self, objects_view(items@)),
        decreases objects_view(items@), 1int,
    {
        let ghost v = objects_view(items@);
        let ghost b = *env;
        proof {
            lemma_objects_view(items@);
            assert(v.subrange(0, v.len() as int) =~= v);
        }
        let mut result: Vec<Object> = Vec::new();
        let mut i: usize = 0;
        while i < items.len()
            invariant
                v == objects_view(items@),
                v.len() == items@.len(),
                forall|j: int| 0 <= j < items@.len() ==> #[trigger] v[j] == items@[j]@,
                b == *env,
                converter_total(*convert),
                i <= items.len(),
                spec_cascade_all(*convert, b, *self, v) is Some,
                spec_cascade_all(*convert, b, *self, v) == match spec_cascade_all(
                    *convert,
                    b,
                    *self,
                    v.subrange(i as int, v.len() as int),
                ) {
                    Some(Ok(vs)) => Some(Ok(objects_view(result@) + vs)),
                    other => other,
                },
            decreases items.len() - i,
        {
            let ghost rest = v.subrange(i as int, v.len() as int);
            proof {
                assert(rest[0] == v[i as int]);
                assert(rest.drop_first() =~= v.subrange(i + 1, v.len() as int));
                assert(decreases_to!(v => v[i as int]));
            }
            let item = items[i].duplicate();
            match self.cascade(env, item, convert) {
                Ok(o) => {
                    let ghost before = result@;
                    result.push(o);
                    proof {
                        crate::value::lemma_objects_view_push(before, o);
                        let tail = spec_cascade_all(*convert, b, *self, v.subrange(i + 1, v.len() as int));
                        match tail {
                            Some(Ok(vs)) => {
                                assert(objects_view(before) + (seq![o@] + vs) =~= objects_view(result@) + vs);
                            },
                            _ => {},
                        }
                    }
                },
                Err(e) => {
                    return Err(e);
                },
            }
            i = i + 1;
        }
        proof {
            assert(v.subrange(i as int, v.len() as int) =~= Seq::<ObjectV>::empty());
            assert(objects_view(result@) + Seq::<ObjectV>::empty() =~= objects_view(result@));
        }
        Ok(result)
    }
}

/// Every integer, decimal and boolean value casts to each of the numeric
/// types, to `xs:boolean`, `xs:string` and `xs:untypedAtomic`.
pub proof fn law_numbers_cast_to_numeric_types<C: Fn(&Type, Types) -> bool>(
    c: C,
    env: Environment,
    q: crate::qname::QName,
    t: TypeV,
)
    requires
        t is Integer || t is Decimal || t is Boolean,
        q@ == crate::eval::sequence_type::xs_qname_view("double"@) || q@ == crate::eval::sequence_type::xs_qname_view(
            "float"@,
        ) || q@ == crate::eval::sequence_type::xs_qname_view("decimal"@) || q@
            == crate::eval::sequence_type::xs_qname_view("integer"@) || q@ == crate::eval::sequence_type::xs_qname_view(
            "boolean"@,
        ) || q@ == crate::eval::sequence_type::xs_qname_view("string"@) || q@
            == crate::eval::sequence_type::xs_qname_view("untypedAtomic"@),
    ensures
        spec_castable(
            c,
            env,
            SequenceType { item_type: ItemType::AtomicOrUnionType(q), occurrence_indicator: OccurrenceIndicator::ExactlyOne },
            ObjectV::Atomic(t),
            false,
            false,
        ) == Some(Ok::<bool, ErrorCode>(true)),
{
    reveal_strlit("double");
    reveal_strlit("float");
    reveal_strlit("decimal");
    reveal_strlit("integer");
    reveal_strlit("boolean");
    reveal_strlit("string");
    reveal_strlit("untypedAtomic");
    reveal_strlit("NOTATION");
    reveal_strlit("anyAtomicType");
    reveal_strlit("anySimpleType");
    let n = spec_resolve(env.namespaces@, q@);
    assert(resolvable(env.namespaces@, q@));
    assert(n.0 == xs_uri());
    assert(numeric_target(n));
    assert(n.1.len() > 0 && n.1[0] != 'N' && n.1[0] != 'a');
    assert("NOTATION"@[0] == 'N' && "anyAtomicType"@[0] == 'a' && "anySimpleType"@[0] == 'a');
    assert(!is_xs(n, "NOTATION"@) && !is_xs(n, "anyAtomicType"@) && !is_xs(n, "anySimpleType"@));
    assert(spec_atomic_castable(c, n, t) == Some(true));
}

} // verus!
