use vstd::prelude::*;
use crate::errors::{ErrorCode, ErrorInfo};
use crate::eval::comparison::{
    code_of, spec_is_it, spec_to_comparison, spec_to_type, Comparison, ComparisonType, OperatorComparison, ValueOrdering,
};
use crate::eval::{parse_i128, spec_parse_i128};
use crate::value::{
    dec_cmp, dec_compare, spec_string_to_number, string_to_number, Dec, NumberCase, Type, TypeV, MAX_MANTISSA,
    MAX_SCALE,
};
use crate::xqts::listing::{text_le, text_less_or_equal};
use crate::xqts::text::str_eq;

verus! {

/// The text of a string-like atomic value: strings, their subtypes, URIs
/// and untyped values.
pub open spec fn text_of(t: TypeV) -> Option<Seq<char>> {
    match t {
        TypeV::Untyped(s) | TypeV::String(s) | TypeV::NormalizedString(s) | TypeV::Token(s) | TypeV::Language(s)
        | TypeV::NMTOKEN(s) | TypeV::Name(s) | TypeV::NCName(s) | TypeV::ID(s) | TypeV::IDREF(s) | TypeV::ENTITY(s)
        | TypeV::AnyURI(s) => Some(s),
        _ => None,
    }
}

/// Whether an atomic value is a number.
pub open spec fn is_number(t: TypeV) -> bool {
    t is Integer || t is Decimal || t is Float || t is Double
}

/// The decimal a number stands for, where it is a finite number within
/// the decimal range.
pub open spec fn number_of(t: TypeV) -> Option<Dec> {
    match t {
        TypeV::Integer(a) => if -MAX_MANTISSA <= a <= MAX_MANTISSA { Some(Dec { mantissa: a, scale: 0 }) } else { None },
        TypeV::Decimal { number: Some(d), case } | TypeV::Float { number: Some(d), case } | TypeV::Double {
            number: Some(d),
            case,
        } => if case == NumberCase::Normal && d.well_formed() { Some(d) } else { None },
        _ => None,
    }
}

/// Less, equal or greater as `a` is to `b`.
pub open spec fn order_of(a: int, b: int) -> ValueOrdering {
    if a < b {
        ValueOrdering::Less
    } else if a == b {
        ValueOrdering::Equal
    } else {
        ValueOrdering::Greater
    }
}

/// The order of two texts by code point.
pub open spec fn text_order_of(a: Seq<char>, b: Seq<char>) -> ValueOrdering {
    if a == b {
        ValueOrdering::Equal
    } else if text_le(a, b) {
        ValueOrdering::Less
    } else {
        ValueOrdering::Greater
    }
}

/// How two atomic values compare: integers by value, numbers by their
/// decimal value, booleans with false first, texts by code point; any
/// other pair, or a number that is not finite or not within the decimal
/// range, cannot be compared (`XPTY0004`).
pub open spec fn spec_type_order(l: TypeV, r: TypeV) -> Result<ValueOrdering, ErrorCode> {
    match (l, r) {
        (TypeV::Integer(a), TypeV::Integer(b)) => Ok(order_of(a as int, b as int)),
        (TypeV::Boolean(a), TypeV::Boolean(b)) => Ok(order_of(if a { 1int } else { 0int }, if b { 1int } else { 0int })),
        _ => if is_number(l) && is_number(r) {
            match (number_of(l), number_of(r)) {
                (Some(x), Some(y)) => Ok(order_of(dec_compare(x, y), 0)),
                _ => Err(ErrorCode::XPTY0004),
            }
        } else {
            match (text_of(l), text_of(r)) {
                (Some(a), Some(b)) => Ok(text_order_of(a, b)),
                _ => Err(ErrorCode::XPTY0004),
            }
        },
    }
}

fn text_ref(t: &Type) -> (r: Option<&String>)
    ensures
        match text_of(t@) {
            Some(s) => r matches Some(x) && x@ == s,
            None => r is None,
        },
{
    match t {
        Type::Untyped(s) | Type::String(s) | Type::NormalizedString(s) | Type::Token(s) | Type::Language(s)
        | Type::NMTOKEN(s) | Type::Name(s) | Type::NCName(s) | Type::ID(s) | Type::IDREF(s) | Type::ENTITY(s)
        | Type::AnyURI(s) => Some(s),
        _ => None,
    }
}

fn is_number_exec(t: &Type) -> (r: bool)
    ensures
        r == is_number(t@),
{
    match t {
        Type::Integer(_) | Type::Decimal { .. } | Type::Float { .. } | Type::Double { .. } => true,
        _ => false,
    }
}

fn decimal_within(d: &Dec) -> (r: bool)
    ensures
        r == d.well_formed(),
{
    -MAX_MANTISSA <= d.mantissa && d.mantissa <= MAX_MANTISSA && d.scale <= MAX_SCALE
}

fn number_exec(t: &Type) -> (r: Option<Dec>)
    ensures
        r == number_of(t@),
{
    match t {
        Type::Integer(a) => {
            if -MAX_MANTISSA <= *a && *a <= MAX_MANTISSA {
                Some(Dec { mantissa: *a, scale: 0 })
            } else {
                None
            }
        },
        Type::Decimal { number: Some(d), case } | Type::Float { number: Some(d), case } | Type::Double {
            number: Some(d),
            case,
        } => {
            if *case == NumberCase::Normal && decimal_within(d) {
                Some(*d)
            } else {
                None
            }
        },
        _ => None,
    }
}

fn incomparable() -> (r: String)
    ensures
        r@ == "incomparable values"@,
{
    String::from_str("incomparable values")
}

/// How two atomic values compare (see `spec_type_order`).
pub fn type_order(l: &Type, r: &Type) -> (res: Result<ValueOrdering, ErrorInfo>)
    ensures
        match res {
            Ok(v) => spec_type_order(l@, r@) == Ok::<ValueOrdering, ErrorCode>(v),
            Err((c, _)) => spec_type_order(l@, r@) == Err::<ValueOrdering, ErrorCode>(c),
        },
{
    match (l, r) {
        (Type::Integer(a), Type::Integer(b)) => Ok(
            if *a < *b {
                ValueOrdering::Less
            } else if *a == *b {
                ValueOrdering::Equal
            } else {
                ValueOrdering::Greater
            },
        ),
        (Type::Boolean(a), Type::Boolean(b)) => Ok(
            if *a == *b {
                ValueOrdering::Equal
            } else if !*a {
                ValueOrdering::Less
            } else {
                ValueOrdering::Greater
            },
        ),
        _ => {
            if is_number_exec(l) && is_number_exec(r) {
                match (number_exec(l), number_exec(r)) {
                    (Some(x), Some(y)) => {
                        let c = dec_cmp(&x, &y);
                        Ok(
                            if c < 0 {
                                ValueOrdering::Less
                            } else if c == 0 {
                                ValueOrdering::Equal
                            } else {
                                ValueOrdering::Greater
                            },
                        )
                    },
                    _ => Err((ErrorCode::XPTY0004, incomparable())),
                }
            } else {
                match (text_ref(l), text_ref(r)) {
                    (Some(a), Some(b)) => {
                        if str_eq(a.as_str(), b.as_str()) {
                            Ok(ValueOrdering::Equal)
                        } else if text_less_or_equal(a, b) {
                            Ok(ValueOrdering::Less)
                        } else {
                            Ok(ValueOrdering::Greater)
                        }
                    },
                    _ => Err((ErrorCode::XPTY0004, incomparable())),
                }
            }
        },
    }
}

/// Whether the ordering of two atomic values satisfies a comparison.
pub open spec fn spec_compare_types(c: Comparison, l: TypeV, r: TypeV) -> Result<bool, ErrorCode> {
    match spec_type_order(l, r) {
        Ok(v) => Ok(spec_is_it(c, v)),
        Err(e) => Err(e),
    }
}

/// The general comparison of two atomic values: an untyped value met with
/// a number is read as a double first; otherwise the two are ordered as
/// they are (see `spec_type_order`).
pub open spec fn spec_general_types(op: OperatorComparison, l: TypeV, r: TypeV) -> Result<bool, ErrorCode> {
    let c = spec_to_comparison(op);
    if (l is Untyped) && !(r is Untyped) && is_number(r) {
        match spec_string_to_number(l->Untyped_0) {
            Ok((n, case)) => spec_compare_types(c, TypeV::Double { number: n, case }, r),
            Err(e) => Err(e),
        }
    } else if (r is Untyped) && !(l is Untyped) && is_number(l) {
        match spec_string_to_number(r->Untyped_0) {
            Ok((n, case)) => spec_compare_types(c, l, TypeV::Double { number: n, case }),
            Err(e) => Err(e),
        }
    } else {
        spec_compare_types(c, l, r)
    }
}

/// Whether the ordering of two atomic values satisfies a comparison (see
/// `spec_compare_types`).
pub fn value_comparison_for_types(c: &Comparison, l: &Type, r: &Type) -> (res: Result<bool, ErrorInfo>)
    ensures
        code_of(res) == spec_compare_types(*c, l@, r@),
{
    match type_order(l, r) {
        Ok(v) => {
            let b = match c {
                Comparison::Equals => v == ValueOrdering::Equal,
                Comparison::NotEquals => v != ValueOrdering::Equal,
                Comparison::LessThan => v == ValueOrdering::Less,
                Comparison::LessOrEquals => v != ValueOrdering::Greater,
                Comparison::GreaterThan => v == ValueOrdering::Greater,
                Comparison::GreaterOrEquals => v != ValueOrdering::Less,
            };
            Ok(b)
        },
        Err(e) => Err(e),
    }
}

fn read_double(s: &String) -> (res: Result<Type, ErrorInfo>)
    ensures
        match spec_string_to_number(s@) {
            Ok((n, case)) => res matches Ok(t) && t@ == TypeV::Double { number: n, case },
            Err(e) => res matches Err((c, _)) && c == e,
        },
{
    match string_to_number(s) {
        Ok((number, case)) => Ok(Type::Double { number, case }),
        Err(e) => Err((e, incomparable())),
    }
}

/// The general comparison of two atomic values (see `spec_general_types`).
pub fn general_comparison_for_types(op: &OperatorComparison, l: &Type, r: &Type) -> (res: Result<bool, ErrorInfo>)
    requires
        spec_to_type(*op) != ComparisonType::Node,
    ensures
        code_of(res) == spec_general_types(*op, l@, r@),
{
    let comparison = op.to_comparison();
    let c = &comparison;
    let lu = matches!(l, Type::Untyped(_));
    let ru = matches!(r, Type::Untyped(_));
    if lu && !ru && is_number_exec(r) {
        match l {
            Type::Untyped(s) => match read_double(s) {
                Ok(d) => value_comparison_for_types(c, &d, r),
                Err(e) => Err(e),
            },
            _ => value_comparison_for_types(c, l, r),
        }
    } else if ru && !lu && is_number_exec(l) {
        match r {
            Type::Untyped(s) => match read_double(s) {
                Ok(d) => value_comparison_for_types(c, l, &d),
                Err(e) => Err(e),
            },
            _ => value_comparison_for_types(c, l, r),
        }
    } else {
        value_comparison_for_types(c, l, r)
    }
}

/// The integer an atomic value stands for beside a range: an integer, or
/// an untyped value read as one.
pub open spec fn spec_type_to_i128(t: TypeV) -> Option<i128> {
    match t {
        TypeV::Integer(n) => Some(n),
        TypeV::Untyped(s) => spec_parse_i128(s),
        _ => None,
    }
}

/// The integer an atomic value stands for beside a range (see
/// `spec_type_to_i128`).
pub fn type_to_i128(t: &Type) -> (r: Option<i128>)
    ensures
        r == spec_type_to_i128(t@),
{
    match t {
        Type::Integer(n) => Some(*n),
        Type::Untyped(s) => parse_i128(s.as_str()),
        _ => None,
    }
}

/// Under a general comparison, `>=` answers the negation of `<` on every
/// pair of atomic values, and the same error where `<` errs.
pub proof fn law_general_ge_is_not_lt(x: TypeV, y: TypeV)
    ensures
        spec_general_types(OperatorComparison::GeneralGreaterOrEquals, x, y) == match spec_general_types(
            OperatorComparison::GeneralLessThan,
            x,
            y,
        ) {
            Ok(b) => Ok::<bool, ErrorCode>(!b),
            Err(e) => Err(e),
        },
        spec_general_types(OperatorComparison::GeneralLessOrEquals, x, y) == match spec_general_types(
            OperatorComparison::GeneralGreaterThan,
            x,
            y,
        ) {
            Ok(b) => Ok::<bool, ErrorCode>(!b),
            Err(e) => Err(e),
        },
{
}

} // verus!
