use vstd::prelude::*;
use vstd::arithmetic::power::pow;
use rust_decimal::Decimal;
use std::cmp::Ordering;
use std::str::FromStr;
use crate::errors::ErrorCode;
use crate::xqts::text::{chars_of, str_eq};
use crate::qname::{QName, QNameResolved, QNameView};

verus! {

/// The largest magnitude of a decimal's mantissa (96 bits).
pub const MAX_MANTISSA: i128 = 0xFFFF_FFFF_FFFF_FFFF_FFFF_FFFFi128;

/// The largest scale of a decimal.
pub const MAX_SCALE: u32 = 28u32;

/// A decimal number `mantissa / 10^scale`, with the ranges of a
/// `rust_decimal::Decimal`.
#[derive(Clone, Copy, Debug)]
pub struct Dec {
    pub mantissa: i128,
    pub scale: u32,
}

impl Dec {
    pub open spec fn well_formed(self) -> bool {
        -MAX_MANTISSA <= self.mantissa <= MAX_MANTISSA && self.scale <= MAX_SCALE
    }
}

/// The sign of `a - b` for two decimals, as -1, 0 or 1.
pub open spec fn dec_compare(a: Dec, b: Dec) -> int {
    let l = a.mantissa * pow(10, b.scale as nat);
    let r = b.mantissa * pow(10, a.scale as nat);
    if l < r {
        -1
    } else if l == r {
        0
    } else {
        1
    }
}

/// Whether two decimals stand for the same number.
pub open spec fn dec_same(a: Dec, b: Dec) -> bool {
    dec_compare(a, b) == 0
}

/// Whether two optional decimals are both absent or the same number.
pub open spec fn opt_dec_same(a: Option<Dec>, b: Option<Dec>) -> bool {
    match (a, b) {
        (None, None) => true,
        (Some(x), Some(y)) => dec_same(x, y),
        _ => false,
    }
}

pub open spec fn opt_dec_ok(a: Option<Dec>) -> bool {
    match a {
        Some(d) => d.well_formed(),
        None => true,
    }
}

/// Compares two decimals by value with `rust_decimal::Decimal`'s `Ord`
/// (through `Decimal::from_i128_with_scale`): -1, 0 or 1 as the first is
/// smaller than, equal to or greater than the second.
#[verifier::external_body]
pub(crate) fn dec_cmp(a: &Dec, b: &Dec) -> (r: i8)
    requires
        a.well_formed(),
        b.well_formed(),
    ensures
        r == dec_compare(*a, *b),
{
    let x = Decimal::from_i128_with_scale(a.mantissa, a.scale);
    let y = Decimal::from_i128_with_scale(b.mantissa, b.scale);
    match x.cmp(&y) {
        Ordering::Less => -1,
        Ordering::Equal => 0,
        Ordering::Greater => 1,
    }
}

/// Equality of optional decimals, by value.
pub fn opt_dec_eq(a: &Option<Dec>, b: &Option<Dec>) -> (r: bool)
    requires
        opt_dec_ok(*a),
        opt_dec_ok(*b),
    ensures
        r == opt_dec_same(*a, *b),
{
    match (a, b) {
        (None, None) => true,
        (Some(x), Some(y)) => dec_cmp(x, y) == 0,
        _ => false,
    }
}

/// The decimal that `rust_decimal` reads from a plain decimal literal, as
/// mantissa and scale; `None` where it refuses the text.
pub uninterp spec fn decimal_from_str(s: Seq<char>) -> Option<(i128, u32)>;

/// The decimal that `rust_decimal` reads from a literal in scientific
/// notation, as mantissa and scale; `None` where it refuses the text.
pub uninterp spec fn decimal_from_scientific(s: Seq<char>) -> Option<(i128, u32)>;

pub open spec fn dec_parts(d: Option<Dec>) -> Option<(i128, u32)> {
    match d {
        Some(d) => Some((d.mantissa, d.scale)),
        None => None,
    }
}

/// `<rust_decimal::Decimal as FromStr>::from_str`: the decimal read from `s`,
/// or `None` where it is refused. What it reads is named, not stated; a
/// decimal it returns is within the type's ranges.
#[verifier::external_body]
pub(crate) fn parse_decimal(s: &str) -> (r: Option<Dec>)
    ensures
        dec_parts(r) == decimal_from_str(s@),
        opt_dec_ok(r),
{
    match <Decimal as FromStr>::from_str(s) {
        Ok(d) => Some(Dec { mantissa: d.mantissa(), scale: d.scale() }),
        Err(_) => None,
    }
}

/// `rust_decimal::Decimal::from_scientific`: the decimal read from `s` in
/// scientific notation, or `None` where it is refused. What it reads is
/// named, not stated; a decimal it returns is within the type's ranges.
#[verifier::external_body]
pub(crate) fn parse_scientific(s: &str) -> (r: Option<Dec>)
    ensures
        dec_parts(r) == decimal_from_scientific(s@),
        opt_dec_ok(r),
{
    match Decimal::from_scientific(s) {
        Ok(d) => Some(Dec { mantissa: d.mantissa(), scale: d.scale() }),
        Err(_) => None,
    }
}

/// Which number a floating or decimal value stands for beside ordinary ones.
#[derive(PartialEq, Eq, Structural, Clone, Copy, Debug)]
pub enum NumberCase {
    Normal,
    NaN,
    PlusInfinity,
    MinusInfinity,
}

/// An atomic value.
#[derive(Debug)]
pub enum Type {
    Untyped(String),
    DateTime,
    DateTimeStamp,
    Date { y: u32, m: u32, d: u32, tz_h: i32, tz_m: i32 },
    Time { h: u32, m: u32, s: u32, ms: u32, tz_h: i32, tz_m: i32 },
    Duration { positive: bool, years: u32, months: u32, days: u32, hours: u32, minutes: u32, seconds: u32, microseconds: u32 },
    YearMonthDuration { positive: bool, years: u32, months: u32 },
    DayTimeDuration { positive: bool, days: u32, hours: u32, minutes: u32, seconds: u32, microseconds: u32 },
    Integer(i128),
    Decimal { number: Option<Dec>, case: NumberCase },
    Float { number: Option<Dec>, case: NumberCase },
    Double { number: Option<Dec>, case: NumberCase },
    NonPositiveInteger,
    NegativeInteger,
    Long,
    Int,
    Short,
    Byte,
    NonNegativeInteger,
    UnsignedLong,
    UnsignedInt,
    UnsignedShort,
    UnsignedByte,
    PositiveInteger,
    GYearMonth,
    GYear,
    GMonthDay,
    GDay,
    GMonth,
    String(String),
    NormalizedString(String),
    Token(String),
    Language(String),
    NMTOKEN(String),
    Name(String),
    NCName(String),
    ID(String),
    IDREF(String),
    ENTITY(String),
    Boolean(bool),
    Base64Binary,
    HexBinary,
    AnyURI(String),
    QName,
    NOTATION,
}

/// An atomic value with its strings as character sequences.
pub enum TypeV {
    Untyped(Seq<char>),
    DateTime,
    DateTimeStamp,
    Date { y: u32, m: u32, d: u32, tz_h: i32, tz_m: i32 },
    Time { h: u32, m: u32, s: u32, ms: u32, tz_h: i32, tz_m: i32 },
    Duration { positive: bool, years: u32, months: u32, days: u32, hours: u32, minutes: u32, seconds: u32, microseconds: u32 },
    YearMonthDuration { positive: bool, years: u32, months: u32 },
    DayTimeDuration { positive: bool, days: u32, hours: u32, minutes: u32, seconds: u32, microseconds: u32 },
    Integer(i128),
    Decimal { number: Option<Dec>, case: NumberCase },
    Float { number: Option<Dec>, case: NumberCase },
    Double { number: Option<Dec>, case: NumberCase },
    NonPositiveInteger,
    NegativeInteger,
    Long,
    Int,
    Short,
    Byte,
    NonNegativeInteger,
    UnsignedLong,
    UnsignedInt,
    UnsignedShort,
    UnsignedByte,
    PositiveInteger,
    GYearMonth,
    GYear,
    GMonthDay,
    GDay,
    GMonth,
    String(Seq<char>),
    NormalizedString(Seq<char>),
    Token(Seq<char>),
    Language(Seq<char>),
    NMTOKEN(Seq<char>),
    Name(Seq<char>),
    NCName(Seq<char>),
    ID(Seq<char>),
    IDREF(Seq<char>),
    ENTITY(Seq<char>),
    Boolean(bool),
    Base64Binary,
    HexBinary,
    AnyURI(Seq<char>),
    QName,
    NOTATION,
}

impl View for Type {
    type V = TypeV;

    open spec fn view(&self) -> TypeV {
        match *self {
            Type::Untyped(x) => TypeV::Untyped(x@),
            Type::DateTime => TypeV::DateTime,
            Type::DateTimeStamp => TypeV::DateTimeStamp,
            Type::Date { y, m, d, tz_h, tz_m } => TypeV::Date { y, m, d, tz_h, tz_m },
            Type::Time { h, m, s, ms, tz_h, tz_m } => TypeV::Time { h, m, s, ms, tz_h, tz_m },
            Type::Duration { positive, years, months, days, hours, minutes, seconds, microseconds } => TypeV::Duration { positive, years, months, days, hours, minutes, seconds, microseconds },
            Type::YearMonthDuration { positive, years, months } => TypeV::YearMonthDuration { positive, years, months },
            Type::DayTimeDuration { positive, days, hours, minutes, seconds, microseconds } => TypeV::DayTimeDuration { positive, days, hours, minutes, seconds, microseconds },
            Type::Integer(x) => TypeV::Integer(x),
            Type::Decimal { number, case } => TypeV::Decimal { number, case },
            Type::Float { number, case } => TypeV::Float { number, case },
            Type::Double { number, case } => TypeV::Double { number, case },
            Type::NonPositiveInteger => TypeV::NonPositiveInteger,
            Type::NegativeInteger => TypeV::NegativeInteger,
            Type::Long => TypeV::Long,
            Type::Int => TypeV::Int,
            Type::Short => TypeV::Short,
            Type::Byte => TypeV::Byte,
            Type::NonNegativeInteger => TypeV::NonNegativeInteger,
            Type::UnsignedLong => TypeV::UnsignedLong,
            Type::UnsignedInt => TypeV::UnsignedInt,
            Type::UnsignedShort => TypeV::UnsignedShort,
            Type::UnsignedByte => TypeV::UnsignedByte,
            Type::PositiveInteger => TypeV::PositiveInteger,
            Type::GYearMonth => TypeV::GYearMonth,
            Type::GYear => TypeV::GYear,
            Type::GMonthDay => TypeV::GMonthDay,
            Type::GDay => TypeV::GDay,
            Type::GMonth => TypeV::GMonth,
            Type::String(x) => TypeV::String(x@),
            Type::NormalizedString(x) => TypeV::NormalizedString(x@),
            Type::Token(x) => TypeV::Token(x@),
            Type::Language(x) => TypeV::Language(x@),
            Type::NMTOKEN(x) => TypeV::NMTOKEN(x@),
            Type::Name(x) => TypeV::Name(x@),
            Type::NCName(x) => TypeV::NCName(x@),
            Type::ID(x) => TypeV::ID(x@),
            Type::IDREF(x) => TypeV::IDREF(x@),
            Type::ENTITY(x) => TypeV::ENTITY(x@),
            Type::Boolean(x) => TypeV::Boolean(x),
            Type::Base64Binary => TypeV::Base64Binary,
            Type::HexBinary => TypeV::HexBinary,
            Type::AnyURI(x) => TypeV::AnyURI(x@),
            Type::QName => TypeV::QName,
            Type::NOTATION => TypeV::NOTATION,
        }
    }
}

/// Whether two atomic values are equal: the same variant with equal fields,
/// decimal numbers compared by value.
pub open spec fn type_same(a: TypeV, b: TypeV) -> bool {
    match (a, b) {
        (TypeV::Untyped(x), TypeV::Untyped(y)) => x == y,
        (TypeV::DateTime, TypeV::DateTime) => true,
        (TypeV::DateTimeStamp, TypeV::DateTimeStamp) => true,
        (TypeV::Date { y: x_y, m: x_m, d: x_d, tz_h: x_tz_h, tz_m: x_tz_m }, TypeV::Date { y: y_y, m: y_m, d: y_d, tz_h: y_tz_h, tz_m: y_tz_m }) => x_y == y_y && x_m == y_m && x_d == y_d && x_tz_h == y_tz_h && x_tz_m == y_tz_m,
        (TypeV::Time { h: x_h, m: x_m, s: x_s, ms: x_ms, tz_h: x_tz_h, tz_m: x_tz_m }, TypeV::Time { h: y_h, m: y_m, s: y_s, ms: y_ms, tz_h: y_tz_h, tz_m: y_tz_m }) => x_h == y_h && x_m == y_m && x_s == y_s && x_ms == y_ms && x_tz_h == y_tz_h && x_tz_m == y_tz_m,
        (TypeV::Duration { positive: x_positive, years: x_years, months: x_months, days: x_days, hours: x_hours, minutes: x_minutes, seconds: x_seconds, microseconds: x_microseconds }, TypeV::Duration { positive: y_positive, years: y_years, months: y_months, days: y_days, hours: y_hours, minutes: y_minutes, seconds: y_seconds, microseconds: y_microseconds }) => x_positive == y_positive && x_years == y_years && x_months == y_months && x_days == y_days && x_hours == y_hours && x_minutes == y_minutes && x_seconds == y_seconds && x_microseconds == y_microseconds,
        (TypeV::YearMonthDuration { positive: x_positive, years: x_years, months: x_months }, TypeV::YearMonthDuration { positive: y_positive, years: y_years, months: y_months }) => x_positive == y_positive && x_years == y_years && x_months == y_months,
        (TypeV::DayTimeDuration { positive: x_positive, days: x_days, hours: x_hours, minutes: x_minutes, seconds: x_seconds, microseconds: x_microseconds }, TypeV::DayTimeDuration { positive: y_positive, days: y_days, hours: y_hours, minutes: y_minutes, seconds: y_seconds, microseconds: y_microseconds }) => x_positive == y_positive && x_days == y_days && x_hours == y_hours && x_minutes == y_minutes && x_seconds == y_seconds && x_microseconds == y_microseconds,
        (TypeV::Integer(x), TypeV::Integer(y)) => x == y,
        (TypeV::Decimal { number: x_number, case: x_case }, TypeV::Decimal { number: y_number, case: y_case }) => opt_dec_same(x_number, y_number) && x_case == y_case,
        (TypeV::Float { number: x_number, case: x_case }, TypeV::Float { number: y_number, case: y_case }) => opt_dec_same(x_number, y_number) && x_case == y_case,
        (TypeV::Double { number: x_number, case: x_case }, TypeV::Double { number: y_number, case: y_case }) => opt_dec_same(x_number, y_number) && x_case == y_case,
        (TypeV::NonPositiveInteger, TypeV::NonPositiveInteger) => true,
        (TypeV::NegativeInteger, TypeV::NegativeInteger) => true,
        (TypeV::Long, TypeV::Long) => true,
        (TypeV::Int, TypeV::Int) => true,
        (TypeV::Short, TypeV::Short) => true,
        (TypeV::Byte, TypeV::Byte) => true,
        (TypeV::NonNegativeInteger, TypeV::NonNegativeInteger) => true,
        (TypeV::UnsignedLong, TypeV::UnsignedLong) => true,
        (TypeV::UnsignedInt, TypeV::UnsignedInt) => true,
        (TypeV::UnsignedShort, TypeV::UnsignedShort) => true,
        (TypeV::UnsignedByte, TypeV::UnsignedByte) => true,
        (TypeV::PositiveInteger, TypeV::PositiveInteger) => true,
        (TypeV::GYearMonth, TypeV::GYearMonth) => true,
        (TypeV::GYear, TypeV::GYear) => true,
        (TypeV::GMonthDay, TypeV::GMonthDay) => true,
        (TypeV::GDay, TypeV::GDay) => true,
        (TypeV::GMonth, TypeV::GMonth) => true,
        (TypeV::String(x), TypeV::String(y)) => x == y,
        (TypeV::NormalizedString(x), TypeV::NormalizedString(y)) => x == y,
        (TypeV::Token(x), TypeV::Token(y)) => x == y,
        (TypeV::Language(x), TypeV::Language(y)) => x == y,
        (TypeV::NMTOKEN(x), TypeV::NMTOKEN(y)) => x == y,
        (TypeV::Name(x), TypeV::Name(y)) => x == y,
        (TypeV::NCName(x), TypeV::NCName(y)) => x == y,
        (TypeV::ID(x), TypeV::ID(y)) => x == y,
        (TypeV::IDREF(x), TypeV::IDREF(y)) => x == y,
        (TypeV::ENTITY(x), TypeV::ENTITY(y)) => x == y,
        (TypeV::Boolean(x), TypeV::Boolean(y)) => x == y,
        (TypeV::Base64Binary, TypeV::Base64Binary) => true,
        (TypeV::HexBinary, TypeV::HexBinary) => true,
        (TypeV::AnyURI(x), TypeV::AnyURI(y)) => x == y,
        (TypeV::QName, TypeV::QName) => true,
        (TypeV::NOTATION, TypeV::NOTATION) => true,
        _ => false,
    }
}

/// Equality of atomic values, decimals by value.
pub fn type_eq(a: &Type, b: &Type) -> (r: bool)
    requires
        type_ok(a@),
        type_ok(b@),
    ensures
        r == type_same(a@, b@),
{
    match (a, b) {
        (Type::Untyped(x), Type::Untyped(y)) => str_eq(x.as_str(), y.as_str()),
        (Type::DateTime, Type::DateTime) => true,
        (Type::DateTimeStamp, Type::DateTimeStamp) => true,
        (Type::Date { y: x_y, m: x_m, d: x_d, tz_h: x_tz_h, tz_m: x_tz_m }, Type::Date { y: y_y, m: y_m, d: y_d, tz_h: y_tz_h, tz_m: y_tz_m }) => *x_y == *y_y && *x_m == *y_m && *x_d == *y_d && *x_tz_h == *y_tz_h && *x_tz_m == *y_tz_m,
        (Type::Time { h: x_h, m: x_m, s: x_s, ms: x_ms, tz_h: x_tz_h, tz_m: x_tz_m }, Type::Time { h: y_h, m: y_m, s: y_s, ms: y_ms, tz_h: y_tz_h, tz_m: y_tz_m }) => *x_h == *y_h && *x_m == *y_m && *x_s == *y_s && *x_ms == *y_ms && *x_tz_h == *y_tz_h && *x_tz_m == *y_tz_m,
        (Type::Duration { positive: x_positive, years: x_years, months: x_months, days: x_days, hours: x_hours, minutes: x_minutes, seconds: x_seconds, microseconds: x_microseconds }, Type::Duration { positive: y_positive, years: y_years, months: y_months, days: y_days, hours: y_hours, minutes: y_minutes, seconds: y_seconds, microseconds: y_microseconds }) => *x_positive == *y_positive && *x_years == *y_years && *x_months == *y_months && *x_days == *y_days && *x_hours == *y_hours && *x_minutes == *y_minutes && *x_seconds == *y_seconds && *x_microseconds == *y_microseconds,
        (Type::YearMonthDuration { positive: x_positive, years: x_years, months: x_months }, Type::YearMonthDuration { positive: y_positive, years: y_years, months: y_months }) => *x_positive == *y_positive && *x_years == *y_years && *x_months == *y_months,
        (Type::DayTimeDuration { positive: x_positive, days: x_days, hours: x_hours, minutes: x_minutes, seconds: x_seconds, microseconds: x_microseconds }, Type::DayTimeDuration { positive: y_positive, days: y_days, hours: y_hours, minutes: y_minutes, seconds: y_seconds, microseconds: y_microseconds }) => *x_positive == *y_positive && *x_days == *y_days && *x_hours == *y_hours && *x_minutes == *y_minutes && *x_seconds == *y_seconds && *x_microseconds == *y_microseconds,
        (Type::Integer(x), Type::Integer(y)) => *x == *y,
        (Type::Decimal { number: x_number, case: x_case }, Type::Decimal { number: y_number, case: y_case }) => opt_dec_eq(x_number, y_number) && *x_case == *y_case,
        (Type::Float { number: x_number, case: x_case }, Type::Float { number: y_number, case: y_case }) => opt_dec_eq(x_number, y_number) && *x_case == *y_case,
        (Type::Double { number: x_number, case: x_case }, Type::Double { number: y_number, case: y_case }) => opt_dec_eq(x_number, y_number) && *x_case == *y_case,
        (Type::NonPositiveInteger, Type::NonPositiveInteger) => true,
        (Type::NegativeInteger, Type::NegativeInteger) => true,
        (Type::Long, Type::Long) => true,
        (Type::Int, Type::Int) => true,
        (Type::Short, Type::Short) => true,
        (Type::Byte, Type::Byte) => true,
        (Type::NonNegativeInteger, Type::NonNegativeInteger) => true,
        (Type::UnsignedLong, Type::UnsignedLong) => true,
        (Type::UnsignedInt, Type::UnsignedInt) => true,
        (Type::UnsignedShort, Type::UnsignedShort) => true,
        (Type::UnsignedByte, Type::UnsignedByte) => true,
        (Type::PositiveInteger, Type::PositiveInteger) => true,
        (Type::GYearMonth, Type::GYearMonth) => true,
        (Type::GYear, Type::GYear) => true,
        (Type::GMonthDay, Type::GMonthDay) => true,
        (Type::GDay, Type::GDay) => true,
        (Type::GMonth, Type::GMonth) => true,
        (Type::String(x), Type::String(y)) => str_eq(x.as_str(), y.as_str()),
        (Type::NormalizedString(x), Type::NormalizedString(y)) => str_eq(x.as_str(), y.as_str()),
        (Type::Token(x), Type::Token(y)) => str_eq(x.as_str(), y.as_str()),
        (Type::Language(x), Type::Language(y)) => str_eq(x.as_str(), y.as_str()),
        (Type::NMTOKEN(x), Type::NMTOKEN(y)) => str_eq(x.as_str(), y.as_str()),
        (Type::Name(x), Type::Name(y)) => str_eq(x.as_str(), y.as_str()),
        (Type::NCName(x), Type::NCName(y)) => str_eq(x.as_str(), y.as_str()),
        (Type::ID(x), Type::ID(y)) => str_eq(x.as_str(), y.as_str()),
        (Type::IDREF(x), Type::IDREF(y)) => str_eq(x.as_str(), y.as_str()),
        (Type::ENTITY(x), Type::ENTITY(y)) => str_eq(x.as_str(), y.as_str()),
        (Type::Boolean(x), Type::Boolean(y)) => *x == *y,
        (Type::Base64Binary, Type::Base64Binary) => true,
        (Type::HexBinary, Type::HexBinary) => true,
        (Type::AnyURI(x), Type::AnyURI(y)) => str_eq(x.as_str(), y.as_str()),
        (Type::QName, Type::QName) => true,
        (Type::NOTATION, Type::NOTATION) => true,
        _ => false,
    }
}

impl Type {
    /// A copy of the value.
    pub fn duplicate(&self) -> (r: Type)
        ensures
            r@ == self@,
    {
        match self {
            Type::Untyped(x) => Type::Untyped(x.clone()),
            Type::DateTime => Type::DateTime,
            Type::DateTimeStamp => Type::DateTimeStamp,
            Type::Date { y, m, d, tz_h, tz_m } => Type::Date { y: *y, m: *m, d: *d, tz_h: *tz_h, tz_m: *tz_m },
            Type::Time { h, m, s, ms, tz_h, tz_m } => Type::Time { h: *h, m: *m, s: *s, ms: *ms, tz_h: *tz_h, tz_m: *tz_m },
            Type::Duration { positive, years, months, days, hours, minutes, seconds, microseconds } => Type::Duration { positive: *positive, years: *years, months: *months, days: *days, hours: *hours, minutes: *minutes, seconds: *seconds, microseconds: *microseconds },
            Type::YearMonthDuration { positive, years, months } => Type::YearMonthDuration { positive: *positive, years: *years, months: *months },
            Type::DayTimeDuration { positive, days, hours, minutes, seconds, microseconds } => Type::DayTimeDuration { positive: *positive, days: *days, hours: *hours, minutes: *minutes, seconds: *seconds, microseconds: *microseconds },
            Type::Integer(x) => Type::Integer(*x),
            Type::Decimal { number, case } => Type::Decimal { number: *number, case: *case },
            Type::Float { number, case } => Type::Float { number: *number, case: *case },
            Type::Double { number, case } => Type::Double { number: *number, case: *case },
            Type::NonPositiveInteger => Type::NonPositiveInteger,
            Type::NegativeInteger => Type::NegativeInteger,
            Type::Long => Type::Long,
            Type::Int => Type::Int,
            Type::Short => Type::Short,
            Type::Byte => Type::Byte,
            Type::NonNegativeInteger => Type::NonNegativeInteger,
            Type::UnsignedLong => Type::UnsignedLong,
            Type::UnsignedInt => Type::UnsignedInt,
            Type::UnsignedShort => Type::UnsignedShort,
            Type::UnsignedByte => Type::UnsignedByte,
            Type::PositiveInteger => Type::PositiveInteger,
            Type::GYearMonth => Type::GYearMonth,
            Type::GYear => Type::GYear,
            Type::GMonthDay => Type::GMonthDay,
            Type::GDay => Type::GDay,
            Type::GMonth => Type::GMonth,
            Type::String(x) => Type::String(x.clone()),
            Type::NormalizedString(x) => Type::NormalizedString(x.clone()),
            Type::Token(x) => Type::Token(x.clone()),
            Type::Language(x) => Type::Language(x.clone()),
            Type::NMTOKEN(x) => Type::NMTOKEN(x.clone()),
            Type::Name(x) => Type::Name(x.clone()),
            Type::NCName(x) => Type::NCName(x.clone()),
            Type::ID(x) => Type::ID(x.clone()),
            Type::IDREF(x) => Type::IDREF(x.clone()),
            Type::ENTITY(x) => Type::ENTITY(x.clone()),
            Type::Boolean(x) => Type::Boolean(*x),
            Type::Base64Binary => Type::Base64Binary,
            Type::HexBinary => Type::HexBinary,
            Type::AnyURI(x) => Type::AnyURI(x.clone()),
            Type::QName => Type::QName,
            Type::NOTATION => Type::NOTATION,
        }
    }
}

/// Every decimal held is within the ranges of `rust_decimal`.
pub open spec fn type_ok(t: TypeV) -> bool {
    match t {
        TypeV::Decimal { number, .. } => opt_dec_ok(number),
        TypeV::Float { number, .. } => opt_dec_ok(number),
        TypeV::Double { number, .. } => opt_dec_ok(number),
        _ => true,
    }
}

/// A node of an XML tree. Each node carries its position in document order.
#[derive(Debug)]
pub enum Node {
    Node { sequence: isize, name: QName, attributes: Vec<Node>, children: Vec<Node> },
    Attribute { sequence: isize, name: QName, value: String },
    NodeText { sequence: isize, content: String },
    NodeComment { sequence: isize, content: String },
    NodePI { sequence: isize, target: QName, content: String },
}

/// A node with its strings as character sequences and its lists as sequences.
pub enum NodeV {
    Node { sequence: isize, name: QNameView, attributes: Seq<NodeV>, children: Seq<NodeV> },
    Attribute { sequence: isize, name: QNameView, value: Seq<char> },
    NodeText { sequence: isize, content: Seq<char> },
    NodeComment { sequence: isize, content: Seq<char> },
    NodePI { sequence: isize, target: QNameView, content: Seq<char> },
}

pub open spec fn node_view(n: Node) -> NodeV
    decreases n,
{
    match n {
        Node::Node { sequence, name, attributes, children } => NodeV::Node {
            sequence,
            name: name@,
            attributes: nodes_view(attributes@),
            children: nodes_view(children@),
        },
        Node::Attribute { sequence, name, value } => NodeV::Attribute { sequence, name: name@, value: value@ },
        Node::NodeText { sequence, content } => NodeV::NodeText { sequence, content: content@ },
        Node::NodeComment { sequence, content } => NodeV::NodeComment { sequence, content: content@ },
        Node::NodePI { sequence, target, content } => NodeV::NodePI { sequence, target: target@, content: content@ },
    }
}

pub open spec fn nodes_view(s: Seq<Node>) -> Seq<NodeV>
    decreases s,
{
    if s.len() == 0 {
        Seq::empty()
    } else {
        nodes_view(s.subrange(0, s.len() - 1)).push(node_view(s[s.len() - 1]))
    }
}

impl View for Node {
    type V = NodeV;

    open spec fn view(&self) -> NodeV {
        node_view(*self)
    }
}

proof fn lemma_nodes_view(s: Seq<Node>)
    ensures
        nodes_view(s).len() == s.len(),
        forall|i: int| 0 <= i < s.len() ==> #[trigger] nodes_view(s)[i] == node_view(s[i]),
    decreases s.len(),
{
    if s.len() > 0 {
        lemma_nodes_view(s.subrange(0, s.len() - 1));
        let p = s.subrange(0, s.len() - 1);
        assert forall|i: int| 0 <= i < s.len() implies #[trigger] nodes_view(s)[i] == node_view(s[i]) by {
            if i < s.len() - 1 {
                assert(p[i] == s[i]);
            }
        }
    }
}

/// The position of a node in document order.
pub open spec fn spec_node_number(node: NodeV) -> isize {
    match node {
        NodeV::Node { sequence, .. } => sequence,
        NodeV::Attribute { sequence, .. } => sequence,
        NodeV::NodeText { sequence, .. } => sequence,
        NodeV::NodeComment { sequence, .. } => sequence,
        NodeV::NodePI { sequence, .. } => sequence,
    }
}

/// The position of a node in document order; nodes are ordered by it.
pub fn node_to_number(node: &Node) -> (r: isize)
    ensures
        r == spec_node_number(node@),
{
    match node {
        Node::Node { sequence, .. } => *sequence,
        Node::Attribute { sequence, .. } => *sequence,
        Node::NodeText { sequence, .. } => *sequence,
        Node::NodeComment { sequence, .. } => *sequence,
        Node::NodePI { sequence, .. } => *sequence,
    }
}

/// The texts that make up the typed value of a node, in document order:
/// an element's come from its children (not its attributes), any other
/// node gives its own value or content.
pub open spec fn node_texts(node: NodeV) -> Seq<Seq<char>>
    decreases node,
{
    match node {
        NodeV::Node { children, .. } => nodes_texts(children),
        NodeV::Attribute { value, .. } => seq![value],
        NodeV::NodeText { content, .. } => seq![content],
        NodeV::NodeComment { content, .. } => seq![content],
        NodeV::NodePI { content, .. } => seq![content],
    }
}

/// The texts of a list of nodes, one node after the other.
pub open spec fn nodes_texts(nodes: Seq<NodeV>) -> Seq<Seq<char>>
    decreases nodes,
{
    if nodes.len() == 0 {
        Seq::empty()
    } else {
        nodes_texts(nodes.subrange(0, nodes.len() - 1)) + node_texts(nodes[nodes.len() - 1])
    }
}

/// The typed value of a node: its texts joined.
pub open spec fn node_string(node: NodeV) -> Seq<char> {
    node_texts(node).flatten()
}

pub open spec fn strings_view(v: Seq<String>) -> Seq<Seq<char>> {
    v.map_values(|s: String| s@)
}

/// Appends the texts of a node's typed value to `result`.
pub fn typed_value_of_node(node: &Node, result: &mut Vec<String>)
    ensures
        strings_view(final(result)@) == strings_view(old(result)@) + node_texts(node@),
    decreases node,
{
    match node {
        Node::Node { children, .. } => {
            let mut i: usize = 0;
            proof {
                lemma_nodes_view(children@);
                assert(nodes_view(children@).subrange(0, 0) =~= Seq::<NodeV>::empty());
                assert(strings_view(result@) =~= strings_view(old(result)@) + nodes_texts(
                    nodes_view(children@).subrange(0, 0),
                ));
                assert(decreases_to!(*node => *children));
            }
            while i < children.len()
                invariant
                    decreases_to!(*node => *children),
                    i <= children@.len(),
                    nodes_view(children@).len() == children@.len(),
                    forall|j: int| 0 <= j < children@.len() ==> #[trigger] nodes_view(children@)[j] == node_view(children@[j]),
                    strings_view(result@) == strings_view(old(result)@) + nodes_texts(
                        nodes_view(children@).subrange(0, i as int),
                    ),
                decreases children@.len() - i,
            {
                proof {
                    assert(decreases_to!(*children => children@[i as int]));
                }
                typed_value_of_node(&children[i], result);
                proof {
                    let pre = nodes_view(children@).subrange(0, i + 1);
                    assert(pre.subrange(0, pre.len() - 1) =~= nodes_view(children@).subrange(0, i as int));
                    assert(pre[pre.len() - 1] == node_view(children@[i as int]));
                    assert(strings_view(result@) =~= strings_view(old(result)@) + nodes_texts(pre));
                }
                i = i + 1;
            }
            proof {
                assert(nodes_view(children@).subrange(0, children@.len() as int) =~= nodes_view(children@));
            }
        },
        Node::Attribute { value, .. } => {
            result.push(value.clone());
            proof {
                assert(strings_view(result@) =~= strings_view(old(result)@) + seq![value@]);
            }
        },
        Node::NodeText { content, .. } => {
            result.push(content.clone());
            proof {
                assert(strings_view(result@) =~= strings_view(old(result)@) + seq![content@]);
            }
        },
        Node::NodeComment { content, .. } => {
            result.push(content.clone());
            proof {
                assert(strings_view(result@) =~= strings_view(old(result)@) + seq![content@]);
            }
        },
        Node::NodePI { content, .. } => {
            result.push(content.clone());
            proof {
                assert(strings_view(result@) =~= strings_view(old(result)@) + seq![content@]);
            }
        },
    }
}

/// The strings of `parts` joined, in order.
pub fn join_strings(parts: &Vec<String>) -> (r: String)
    ensures
        r@ == strings_view(parts@).flatten(),
{
    let mut r = String::new();
    let mut i: usize = 0;
    while i < parts.len()
        invariant
            i <= parts@.len(),
            r@ == strings_view(parts@.subrange(0, i as int)).flatten(),
        decreases parts@.len() - i,
    {
        r.append(parts[i].as_str());
        proof {
            let pre = strings_view(parts@.subrange(0, i + 1));
            assert(pre.drop_last() =~= strings_view(parts@.subrange(0, i as int)));
            pre.drop_last().lemma_flatten_push(pre.last());
            assert(pre =~= pre.drop_last().push(pre.last()));
        }
        i = i + 1;
    }
    proof {
        assert(parts@.subrange(0, parts@.len() as int) =~= parts@);
    }
    r
}

/// The typed value of a node: the texts of its typed value joined.
pub fn node_typed_value(node: &Node) -> (r: String)
    ensures
        r@ == node_string(node@),
{
    let mut parts: Vec<String> = Vec::new();
    typed_value_of_node(node, &mut parts);
    proof {
        assert(strings_view(parts@) =~= node_texts(node@));
    }
    join_strings(&parts)
}

/// Whether two nodes are alike in every field.
pub fn node_eq(a: &Node, b: &Node) -> (r: bool)
    ensures
        r == (a@ == b@),
    decreases a,
{
    match (a, b) {
        (
            Node::Node { sequence: s1, name: n1, attributes: a1, children: c1 },
            Node::Node { sequence: s2, name: n2, attributes: a2, children: c2 },
        ) => *s1 == *s2 && n1.same(n2) && nodes_eq(a1, a2) && nodes_eq(c1, c2),
        (
            Node::Attribute { sequence: s1, name: n1, value: v1 },
            Node::Attribute { sequence: s2, name: n2, value: v2 },
        ) => *s1 == *s2 && n1.same(n2) && str_eq(v1.as_str(), v2.as_str()),
        (Node::NodeText { sequence: s1, content: c1 }, Node::NodeText { sequence: s2, content: c2 }) =>
            *s1 == *s2 && str_eq(c1.as_str(), c2.as_str()),
        (Node::NodeComment { sequence: s1, content: c1 }, Node::NodeComment { sequence: s2, content: c2 }) =>
            *s1 == *s2 && str_eq(c1.as_str(), c2.as_str()),
        (
            Node::NodePI { sequence: s1, target: t1, content: c1 },
            Node::NodePI { sequence: s2, target: t2, content: c2 },
        ) => *s1 == *s2 && t1.same(t2) && str_eq(c1.as_str(), c2.as_str()),
        _ => false,
    }
}

/// Whether two lists of nodes are alike, node by node.
pub fn nodes_eq(a: &Vec<Node>, b: &Vec<Node>) -> (r: bool)
    ensures
        r == (nodes_view(a@) == nodes_view(b@)),
    decreases a,
{
    proof {
        lemma_nodes_view(a@);
        lemma_nodes_view(b@);
    }
    if a.len() != b.len() {
        return false;
    }
    let mut i: usize = 0;
    while i < a.len()
        invariant
            a@.len() == b@.len(),
            i <= a@.len(),
            nodes_view(a@).len() == a@.len(),
            nodes_view(b@).len() == b@.len(),
            forall|j: int| 0 <= j < a@.len() ==> #[trigger] nodes_view(a@)[j] == node_view(a@[j]),
            forall|j: int| 0 <= j < b@.len() ==> #[trigger] nodes_view(b@)[j] == node_view(b@[j]),
            forall|j: int| 0 <= j < i ==> nodes_view(a@)[j] == nodes_view(b@)[j],
        decreases a@.len() - i,
    {
        proof {
            assert(decreases_to!(a => a@[i as int]));
        }
        if !node_eq(&a[i], &b[i]) {
            proof {
                assert(nodes_view(a@)[i as int] != nodes_view(b@)[i as int]);
            }
            return false;
        }
        i = i + 1;
    }
    proof {
        assert(nodes_view(a@) =~= nodes_view(b@));
    }
    true
}

/// A value of the language: atomic values, nodes, sequences and arrays of
/// values, integer ranges, and the markers that evaluation passes along.
#[derive(Debug)]
pub enum Object {
    ForBinding { name: QNameResolved, values: Box<Object> },
    Error { code: String },
    EntityRef(String),
    Nothing,
    Empty,
    Range { min: i128, max: i128 },
    Sequence(Vec<Object>),
    QName { prefix: String, url: String, local_part: String },
    Atomic(Type),
    Node(Node),
    Array(Vec<Object>),
    MapValue(Vec<(Type, Object)>),
    FunctionRef { name: QNameResolved, arity: usize },
    Return(Box<Object>),
}

/// A value with its strings as character sequences and its lists as sequences.
pub enum ObjectV {
    ForBinding { name: (Seq<char>, Seq<char>), values: Box<ObjectV> },
    Error { code: Seq<char> },
    EntityRef(Seq<char>),
    Nothing,
    Empty,
    Range { min: i128, max: i128 },
    Sequence(Seq<ObjectV>),
    QName { prefix: Seq<char>, url: Seq<char>, local_part: Seq<char> },
    Atomic(TypeV),
    Node(NodeV),
    Array(Seq<ObjectV>),
    MapValue(Seq<(TypeV, ObjectV)>),
    FunctionRef { name: (Seq<char>, Seq<char>), arity: usize },
    Return(Box<ObjectV>),
}

pub open spec fn object_view(o: Object) -> ObjectV
    decreases o,
{
    match o {
        Object::ForBinding { name, values } => ObjectV::ForBinding {
            name: name@,
            values: Box::new(object_view(*values)),
        },
        Object::Error { code } => ObjectV::Error { code: code@ },
        Object::EntityRef(e) => ObjectV::EntityRef(e@),
        Object::Nothing => ObjectV::Nothing,
        Object::Empty => ObjectV::Empty,
        Object::Range { min, max } => ObjectV::Range { min, max },
        Object::Sequence(items) => ObjectV::Sequence(objects_view(items@)),
        Object::QName { prefix, url, local_part } => ObjectV::QName {
            prefix: prefix@,
            url: url@,
            local_part: local_part@,
        },
        Object::Atomic(t) => ObjectV::Atomic(t@),
        Object::Node(n) => ObjectV::Node(n@),
        Object::Array(items) => ObjectV::Array(objects_view(items@)),
        Object::MapValue(entries) => ObjectV::MapValue(pairs_view(entries@)),
        Object::FunctionRef { name, arity } => ObjectV::FunctionRef { name: name@, arity },
        Object::Return(v) => ObjectV::Return(Box::new(object_view(*v))),
    }
}

pub open spec fn objects_view(s: Seq<Object>) -> Seq<ObjectV>
    decreases s,
{
    if s.len() == 0 {
        Seq::empty()
    } else {
        objects_view(s.subrange(0, s.len() - 1)).push(object_view(s[s.len() - 1]))
    }
}

/// The entries of a map, keys and values by their views, in order.
pub open spec fn pairs_view(s: Seq<(Type, Object)>) -> Seq<(TypeV, ObjectV)>
    decreases s,
{
    if s.len() == 0 {
        Seq::empty()
    } else {
        pairs_view(s.subrange(0, s.len() - 1)).push((s[s.len() - 1].0@, object_view(s[s.len() - 1].1)))
    }
}

pub proof fn lemma_pairs_view(s: Seq<(Type, Object)>)
    ensures
        pairs_view(s).len() == s.len(),
        forall|i: int| 0 <= i < s.len() ==> #[trigger] pairs_view(s)[i] == (s[i].0@, object_view(s[i].1)),
    decreases s.len(),
{
    if s.len() > 0 {
        lemma_pairs_view(s.subrange(0, s.len() - 1));
        let p = s.subrange(0, s.len() - 1);
        assert forall|i: int| 0 <= i < s.len() implies #[trigger] pairs_view(s)[i] == (s[i].0@, object_view(s[i].1)) by {
            if i < s.len() - 1 {
                assert(p[i] == s[i]);
            }
        }
    }
}

impl View for Object {
    type V = ObjectV;

    open spec fn view(&self) -> ObjectV {
        object_view(*self)
    }
}

pub proof fn lemma_objects_view(s: Seq<Object>)
    ensures
        objects_view(s).len() == s.len(),
        forall|i: int| 0 <= i < s.len() ==> #[trigger] objects_view(s)[i] == object_view(s[i]),
    decreases s.len(),
{
    if s.len() > 0 {
        lemma_objects_view(s.subrange(0, s.len() - 1));
        let p = s.subrange(0, s.len() - 1);
        assert forall|i: int| 0 <= i < s.len() implies #[trigger] objects_view(s)[i] == object_view(s[i]) by {
            if i < s.len() - 1 {
                assert(p[i] == s[i]);
            }
        }
    }
}

pub proof fn lemma_objects_view_push(s: Seq<Object>, o: Object)
    ensures
        objects_view(s.push(o)) == objects_view(s).push(object_view(o)),
{
    assert(s.push(o).subrange(0, s.len() as int) =~= s);
}

pub proof fn lemma_objects_view_add(s: Seq<Object>, t: Seq<Object>)
    ensures
        objects_view(s + t) == objects_view(s) + objects_view(t),
    decreases t.len(),
{
    if t.len() == 0 {
        assert(s + t =~= s);
        assert(objects_view(s) + objects_view(t) =~= objects_view(s));
    } else {
        let tp = t.subrange(0, t.len() - 1);
        lemma_objects_view_add(s, tp);
        assert((s + t).subrange(0, (s + t).len() - 1) =~= s + tp);
        assert((s + t)[(s + t).len() - 1] == t[t.len() - 1]);
        assert(objects_view(s + t) =~= objects_view(s) + objects_view(t));
    }
}

/// Whether two values are equal: the same variant with equal fields,
/// decimal numbers compared by value, maps by their entries in any order.
pub open spec fn object_same(a: ObjectV, b: ObjectV) -> bool
    decreases a, 0int,
{
    match (a, b) {
        (ObjectV::ForBinding { name: n1, values: v1 }, ObjectV::ForBinding { name: n2, values: v2 }) =>
            n1 == n2 && object_same(*v1, *v2),
        (ObjectV::Sequence(s1), ObjectV::Sequence(s2)) => objects_same(s1, s2),
        (ObjectV::Atomic(t1), ObjectV::Atomic(t2)) => type_same(t1, t2),
        (ObjectV::Array(s1), ObjectV::Array(s2)) => objects_same(s1, s2),
        (ObjectV::MapValue(s1), ObjectV::MapValue(s2)) => pairs_same(s1, s2),
        (ObjectV::Return(v1), ObjectV::Return(v2)) => object_same(*v1, *v2),
        (ObjectV::Sequence(_), _) | (ObjectV::Array(_), _) | (ObjectV::Atomic(_), _) | (ObjectV::Return(_), _)
        | (ObjectV::MapValue(_), _) | (ObjectV::ForBinding { .. }, _) => false,
        _ => a == b,
    }
}

/// Whether two lists of values are equal, item by item.
pub open spec fn objects_same(a: Seq<ObjectV>, b: Seq<ObjectV>) -> bool
    decreases a, 0int,
{
    if a.len() != b.len() {
        false
    } else if a.len() == 0 {
        true
    } else {
        objects_same(a.subrange(0, a.len() - 1), b.subrange(0, b.len() - 1))
            && object_same(a[a.len() - 1], b[b.len() - 1])
    }
}

/// Whether two maps hold the same entries, in any order: as many entries,
/// and each entry of the first one equal to an entry of the second.
pub open spec fn pairs_same(a: Seq<(TypeV, ObjectV)>, b: Seq<(TypeV, ObjectV)>) -> bool
    decreases a, 2int,
{
    a.len() == b.len() && pairs_found(a, b)
}

/// Whether each entry of `a` is equal to an entry of `b`.
pub open spec fn pairs_found(a: Seq<(TypeV, ObjectV)>, b: Seq<(TypeV, ObjectV)>) -> bool
    decreases a, 1int,
{
    if a.len() == 0 {
        true
    } else {
        pair_found(a[a.len() - 1], b) && pairs_found(a.subrange(0, a.len() - 1), b)
    }
}

/// Whether an entry is equal to an entry of `b`: an equal key and an equal
/// value.
pub open spec fn pair_found(e: (TypeV, ObjectV), b: Seq<(TypeV, ObjectV)>) -> bool
    decreases e, b.len(),
{
    if b.len() == 0 {
        false
    } else {
        (type_same(e.0, b[b.len() - 1].0) && object_same(e.1, b[b.len() - 1].1)) || pair_found(
            e,
            b.subrange(0, b.len() - 1),
        )
    }
}

/// Whether no key of a map occurs twice.
pub open spec fn keys_distinct(entries: Seq<(TypeV, ObjectV)>) -> bool {
    forall|i: int, j: int| 0 <= i < j < entries.len() ==> !type_same(#[trigger] entries[i].0, #[trigger] entries[j].0)
}

/// Every decimal held, at any depth, is within the ranges of `rust_decimal`,
/// and no map holds a key twice.
pub open spec fn object_ok(o: ObjectV) -> bool
    decreases o,
{
    match o {
        ObjectV::ForBinding { values, .. } => object_ok(*values),
        ObjectV::Sequence(items) => objects_ok(items),
        ObjectV::Atomic(t) => type_ok(t),
        ObjectV::Array(items) => objects_ok(items),
        ObjectV::MapValue(entries) => pairs_ok(entries) && keys_distinct(entries),
        ObjectV::Return(v) => object_ok(*v),
        _ => true,
    }
}

pub open spec fn pairs_ok(entries: Seq<(TypeV, ObjectV)>) -> bool
    decreases entries,
{
    if entries.len() == 0 {
        true
    } else {
        pairs_ok(entries.subrange(0, entries.len() - 1)) && type_ok(entries[entries.len() - 1].0) && object_ok(
            entries[entries.len() - 1].1,
        )
    }
}

pub open spec fn objects_ok(items: Seq<ObjectV>) -> bool
    decreases items,
{
    if items.len() == 0 {
        true
    } else {
        objects_ok(items.subrange(0, items.len() - 1)) && object_ok(items[items.len() - 1])
    }
}

pub proof fn lemma_objects_ok(items: Seq<ObjectV>)
    ensures
        objects_ok(items) == (forall|i: int| 0 <= i < items.len() ==> #[trigger] object_ok(items[i])),
    decreases items.len(),
{
    if items.len() > 0 {
        let p = items.subrange(0, items.len() - 1);
        lemma_objects_ok(p);
        assert(objects_ok(items) == (objects_ok(p) && object_ok(items[items.len() - 1])));
        if objects_ok(items) {
            assert forall|i: int| 0 <= i < items.len() implies #[trigger] object_ok(items[i]) by {
                if i < items.len() - 1 {
                    assert(p[i] == items[i]);
                }
            }
        }
        if forall|i: int| 0 <= i < items.len() ==> #[trigger] object_ok(items[i]) {
            assert forall|i: int| 0 <= i < p.len() implies #[trigger] object_ok(p[i]) by {
                assert(p[i] == items[i]);
            }
        }
    }
}

} // verus!

verus! {

/// Equality of values, decimals by value.
pub fn object_eq(a: &Object, b: &Object) -> (r: bool)
    requires
        object_ok(a@),
        object_ok(b@),
    ensures
        r == object_same(a@, b@),
    decreases a, 0int,
{
    match (a, b) {
        (Object::ForBinding { name: n1, values: v1 }, Object::ForBinding { name: n2, values: v2 }) =>
            n1.same(n2) && object_eq(v1, v2),
        (Object::Error { code: c1 }, Object::Error { code: c2 }) => str_eq(c1.as_str(), c2.as_str()),
        (Object::EntityRef(e1), Object::EntityRef(e2)) => str_eq(e1.as_str(), e2.as_str()),
        (Object::Nothing, Object::Nothing) => true,
        (Object::Empty, Object::Empty) => true,
        (Object::Range { min: a1, max: b1 }, Object::Range { min: a2, max: b2 }) => *a1 == *a2 && *b1 == *b2,
        (Object::Sequence(s1), Object::Sequence(s2)) => objects_eq(s1, s2),
        (
            Object::QName { prefix: p1, url: u1, local_part: l1 },
            Object::QName { prefix: p2, url: u2, local_part: l2 },
        ) => str_eq(p1.as_str(), p2.as_str()) && str_eq(u1.as_str(), u2.as_str()) && str_eq(
            l1.as_str(),
            l2.as_str(),
        ),
        (Object::Atomic(t1), Object::Atomic(t2)) => type_eq(t1, t2),
        (Object::Node(n1), Object::Node(n2)) => node_eq(n1, n2),
        (Object::Array(s1), Object::Array(s2)) => objects_eq(s1, s2),
        (Object::MapValue(s1), Object::MapValue(s2)) => pairs_eq(s1, s2),
        (Object::FunctionRef { name: n1, arity: a1 }, Object::FunctionRef { name: n2, arity: a2 }) =>
            n1.same(n2) && *a1 == *a2,
        (Object::Return(v1), Object::Return(v2)) => object_eq(v1, v2),
        _ => false,
    }
}

/// Whether an entry equal to `(k, v)` is among the entries of a map (see
/// `pair_found`).
pub fn pair_in(k: &Type, v: &Object, b: &Vec<(Type, Object)>) -> (r: bool)
    requires
        type_ok(k@),
        object_ok(v@),
        pairs_ok(pairs_view(b@)),
    ensures
        r == pair_found((k@, v@), pairs_view(b@)),
    decreases v, 1int,
{
    let ghost bv = pairs_view(b@);
    let ghost e = (k@, v@);
    proof {
        lemma_pairs_view(b@);
        lemma_pairs_ok(bv);
        assert(bv.subrange(0, bv.len() as int) =~= bv);
    }
    let mut j: usize = b.len();
    while j > 0
        invariant
            j <= b@.len(),
            bv == pairs_view(b@),
            bv.len() == b@.len(),
            e == (k@, v@),
            type_ok(k@),
            object_ok(v@),
            forall|i: int| 0 <= i < b@.len() ==> #[trigger] bv[i] == (b@[i].0@, b@[i].1@),
            pairs_ok(bv),
            pair_found(e, bv) == pair_found(e, bv.subrange(0, j as int)),
        decreases j,
    {
        let ghost pre = bv.subrange(0, j as int);
        proof {
            lemma_pairs_ok(bv);
            assert(pre.subrange(0, pre.len() - 1) =~= bv.subrange(0, j - 1));
            assert(pre[pre.len() - 1] == bv[j - 1]);
            assert(bv[j - 1] == (b@[j - 1].0@, b@[j - 1].1@));
            assert(type_ok(bv[j - 1].0) && object_ok(bv[j - 1].1));
        }
        let (kb, vb) = &b[j - 1];
        if type_eq(k, kb) && object_eq(v, vb) {
            return true;
        }
        j = j - 1;
    }
    false
}

/// Equality of the entries of two maps, in any order (see `pairs_same`).
pub fn pairs_eq(a: &Vec<(Type, Object)>, b: &Vec<(Type, Object)>) -> (r: bool)
    requires
        pairs_ok(pairs_view(a@)),
        pairs_ok(pairs_view(b@)),
    ensures
        r == pairs_same(pairs_view(a@), pairs_view(b@)),
    decreases a, 0int,
{
    let ghost av = pairs_view(a@);
    let ghost bv = pairs_view(b@);
    proof {
        lemma_pairs_view(a@);
        lemma_pairs_view(b@);
        assert(av.subrange(0, av.len() as int) =~= av);
    }
    if a.len() != b.len() {
        return false;
    }
    let mut i: usize = a.len();
    while i > 0
        invariant
            i <= a@.len(),
            av == pairs_view(a@),
            bv == pairs_view(b@),
            av.len() == a@.len(),
            bv.len() == b@.len(),
            av.len() == bv.len(),
            forall|j: int| 0 <= j < a@.len() ==> #[trigger] av[j] == (a@[j].0@, a@[j].1@),
            pairs_ok(av),
            pairs_ok(bv),
            pairs_same(av, bv) == pairs_found(av.subrange(0, i as int), bv),
        decreases i,
    {
        let ghost pre = av.subrange(0, i as int);
        proof {
            lemma_pairs_ok(av);
            assert(pre.subrange(0, pre.len() - 1) =~= av.subrange(0, i - 1));
            assert(pre[pre.len() - 1] == av[i - 1]);
            assert(type_ok(av[i - 1].0) && object_ok(av[i - 1].1));
            assert(decreases_to!(a => a@[i - 1]));
            assert(decreases_to!(a@[i - 1] => a@[i - 1].1));
        }
        let (ka, va) = &a[i - 1];
        if !pair_in(ka, va, b) {
            return false;
        }
        i = i - 1;
    }
    proof {
        assert(av.subrange(0, 0) =~= Seq::<(TypeV, ObjectV)>::empty());
    }
    true
}

pub proof fn lemma_pairs_ok(entries: Seq<(TypeV, ObjectV)>)
    ensures
        pairs_ok(entries) ==> (forall|i: int| #![trigger entries[i]] 0 <= i < entries.len() ==> type_ok(entries[i].0)
            && object_ok(entries[i].1)),
        (forall|i: int| #![trigger entries[i]] 0 <= i < entries.len() ==> type_ok(entries[i].0) && object_ok(
            entries[i].1,
        )) ==> pairs_ok(entries),
    decreases entries.len(),
{
    if entries.len() > 0 {
        let p = entries.subrange(0, entries.len() - 1);
        lemma_pairs_ok(p);
        let last = entries[entries.len() - 1];
        assert(pairs_ok(entries) == (pairs_ok(p) && type_ok(last.0) && object_ok(last.1)));
        if pairs_ok(entries) {
            assert forall|i: int| #![trigger entries[i]] 0 <= i < entries.len() implies type_ok(entries[i].0)
                && object_ok(entries[i].1) by {
                if i < entries.len() - 1 {
                    assert(p[i] == entries[i]);
                }
            }
        }
        if forall|i: int| #![trigger entries[i]] 0 <= i < entries.len() ==> type_ok(entries[i].0) && object_ok(
            entries[i].1,
        ) {
            assert forall|i: int| #![trigger p[i]] 0 <= i < p.len() implies type_ok(p[i].0) && object_ok(p[i].1) by {
                assert(p[i] == entries[i]);
            }
            assert(type_ok(entries[entries.len() - 1].0));
        }
    }
}

/// Equality of two lists of values, item by item.
pub fn objects_eq(a: &Vec<Object>, b: &Vec<Object>) -> (r: bool)
    requires
        objects_ok(objects_view(a@)),
        objects_ok(objects_view(b@)),
    ensures
        r == objects_same(objects_view(a@), objects_view(b@)),
    decreases a, 0int,
{
    proof {
        lemma_objects_view(a@);
        lemma_objects_view(b@);
    }
    if a.len() != b.len() {
        return false;
    }
    let mut all = true;
    let mut i: usize = 0;
    proof {
        assert(objects_view(a@).subrange(0, 0) =~= Seq::<ObjectV>::empty());
        assert(objects_view(b@).subrange(0, 0) =~= Seq::<ObjectV>::empty());
    }
    while i < a.len()
        invariant
            a@.len() == b@.len(),
            i <= a@.len(),
            objects_ok(objects_view(a@)),
            objects_ok(objects_view(b@)),
            objects_view(a@).len() == a@.len(),
            objects_view(b@).len() == b@.len(),
            forall|j: int| 0 <= j < a@.len() ==> #[trigger] objects_view(a@)[j] == object_view(a@[j]),
            forall|j: int| 0 <= j < b@.len() ==> #[trigger] objects_view(b@)[j] == object_view(b@[j]),
            all == objects_same(objects_view(a@).subrange(0, i as int), objects_view(b@).subrange(0, i as int)),
        decreases a@.len() - i,
    {
        proof {
            assert(decreases_to!(a => a@[i as int]));
            lemma_objects_ok(objects_view(a@));
            lemma_objects_ok(objects_view(b@));
            assert(object_ok(objects_view(a@)[i as int]));
            assert(object_ok(objects_view(b@)[i as int]));
        }
        all = all && object_eq(&a[i], &b[i]);
        proof {
            let pa = objects_view(a@).subrange(0, i + 1);
            let pb = objects_view(b@).subrange(0, i + 1);
            assert(pa.subrange(0, pa.len() - 1) =~= objects_view(a@).subrange(0, i as int));
            assert(pb.subrange(0, pb.len() - 1) =~= objects_view(b@).subrange(0, i as int));
        }
        i = i + 1;
    }
    proof {
        assert(objects_view(a@).subrange(0, a@.len() as int) =~= objects_view(a@));
        assert(objects_view(b@).subrange(0, b@.len() as int) =~= objects_view(b@));
    }
    all
}

} // verus!

verus! {

pub open spec fn result_view(r: Result<Object, ErrorCode>) -> Result<ObjectV, ErrorCode> {
    match r {
        Ok(o) => Ok(o@),
        Err(e) => Err(e),
    }
}

/// Whether atomization is defined for a value: atomic values, nodes, and
/// arrays and sequences of such, at any depth.
pub open spec fn atomizable(o: ObjectV) -> bool
    decreases o,
{
    match o {
        ObjectV::Atomic(_) => true,
        ObjectV::Node(_) => true,
        ObjectV::Array(items) => all_atomizable(items),
        ObjectV::Sequence(items) => all_atomizable(items),
        _ => false,
    }
}

pub open spec fn all_atomizable(items: Seq<ObjectV>) -> bool
    decreases items,
{
    if items.len() == 0 {
        true
    } else {
        all_atomizable(items.subrange(0, items.len() - 1)) && atomizable(items[items.len() - 1])
    }
}

/// The atomized value: an atomic value stays, a node gives its typed value
/// as an untyped atomic value, and an array or a sequence gives the one
/// value its items atomize to (see `spec_zero_or_one`).
pub open spec fn spec_atomization(o: ObjectV) -> Result<ObjectV, ErrorCode>
    decreases o, 1int,
{
    match o {
        ObjectV::Atomic(_) => Ok(o),
        ObjectV::Node(n) => Ok(ObjectV::Atomic(TypeV::Untyped(node_string(n)))),
        ObjectV::Array(items) => spec_atomization_of_vec(items),
        ObjectV::Sequence(items) => spec_atomization_of_vec(items),
        _ => Err(ErrorCode::TODO),
    }
}

/// The items atomized one after the other, the items of an atomized
/// sequence spliced in; the first failure, if any.
pub open spec fn collect_atomized(items: Seq<ObjectV>) -> Result<Seq<ObjectV>, ErrorCode>
    decreases items, 0int,
{
    if items.len() == 0 {
        Ok(Seq::empty())
    } else {
        match collect_atomized(items.subrange(0, items.len() - 1)) {
            Err(e) => Err(e),
            Ok(done) => match spec_atomization(items[items.len() - 1]) {
                Err(e) => Err(e),
                Ok(ObjectV::Sequence(elements)) => Ok(done + elements),
                Ok(v) => Ok(done.push(v)),
            },
        }
    }
}

pub open spec fn spec_atomization_of_vec(items: Seq<ObjectV>) -> Result<ObjectV, ErrorCode>
    decreases items, 2int,
{
    match collect_atomized(items) {
        Err(e) => Err(e),
        Ok(all) => spec_zero_or_one(all),
    }
}

/// At most one distinct value: none gives the empty sequence, values all
/// equal to the first give the first, anything else is a type error.
pub open spec fn spec_zero_or_one(items: Seq<ObjectV>) -> Result<ObjectV, ErrorCode> {
    if items.len() == 0 {
        Ok(ObjectV::Empty)
    } else if forall|i: int| 1 <= i < items.len() ==> #[trigger] object_same(items[0], items[i]) {
        Ok(items[0])
    } else {
        Err(ErrorCode::XPTY0004)
    }
}

/// The one distinct value of `items`, the empty sequence for none, or
/// `XPTY0004` for more than one.
pub fn zero_or_one(items: Vec<Object>) -> (r: Result<Object, ErrorCode>)
    requires
        objects_ok(objects_view(items@)),
    ensures
        result_view(r) == spec_zero_or_one(objects_view(items@)),
{
    proof {
        lemma_objects_view(items@);
        lemma_objects_ok(objects_view(items@));
    }
    if items.len() == 0 {
        return Ok(Object::Empty);
    }
    let ghost v = objects_view(items@);
    let mut i: usize = 1;
    while i < items.len()
        invariant
            1 <= i <= items@.len(),
            v == objects_view(items@),
            v.len() == items@.len(),
            forall|j: int| 0 <= j < items@.len() ==> #[trigger] v[j] == object_view(items@[j]),
            forall|j: int| 0 <= j < v.len() ==> #[trigger] object_ok(v[j]),
            forall|j: int| 1 <= j < i ==> #[trigger] object_same(v[0], v[j]),
        decreases items@.len() - i,
    {
        proof {
            assert(object_ok(v[0]) && v[0] == object_view(items@[0]));
            assert(object_ok(v[i as int]) && v[i as int] == object_view(items@[i as int]));
        }
        if !object_eq(&items[0], &items[i]) {
            proof {
                assert(!object_same(v[0], v[i as int]));
            }
            return Err(ErrorCode::XPTY0004);
        }
        i = i + 1;
    }
    let mut items = items;
    Ok(items.remove(0))
}

} // verus!

verus! {

proof fn lemma_collect_err(v: Seq<ObjectV>, k: int, e: ErrorCode)
    requires
        0 <= k <= v.len(),
        collect_atomized(v.subrange(0, k)) == Err::<Seq<ObjectV>, ErrorCode>(e),
    ensures
        collect_atomized(v) == Err::<Seq<ObjectV>, ErrorCode>(e),
    decreases v.len() - k,
{
    if k == v.len() {
        assert(v.subrange(0, k) =~= v);
    } else {
        let w = v.subrange(0, k + 1);
        assert(w.subrange(0, w.len() - 1) =~= v.subrange(0, k));
        assert(v.subrange(0, k + 1) == w);
        lemma_collect_err(v, k + 1, e);
    }
}

proof fn lemma_all_atomizable(items: Seq<ObjectV>, i: int)
    requires
        all_atomizable(items),
        0 <= i < items.len(),
    ensures
        atomizable(items[i]),
    decreases items.len(),
{
    if i < items.len() - 1 {
        let p = items.subrange(0, items.len() - 1);
        lemma_all_atomizable(p, i);
        assert(p[i] == items[i]);
    }
}

/// The atomized value of `obj` (see `spec_atomization`).
pub fn atomization(obj: Object) -> (r: Result<Object, ErrorCode>)
    requires
        atomizable(obj@),
        object_ok(obj@),
    ensures
        result_view(r) == spec_atomization(obj@),
        r is Ok ==> object_ok(r->Ok_0@),
    decreases obj@,
{
    match obj {
        Object::Atomic(..) => Ok(obj),
        Object::Node(node) => {
            let s = node_typed_value(&node);
            Ok(Object::Atomic(Type::Untyped(s)))
        },
        Object::Array(items) => atomization_of_vec(items),
        Object::Sequence(items) => atomization_of_vec(items),
        _ => Err(ErrorCode::TODO),
    }
}

/// The items atomized one after the other, reduced to at most one value
/// (see `spec_atomization_of_vec`).
pub fn atomization_of_vec(items: Vec<Object>) -> (r: Result<Object, ErrorCode>)
    requires
        all_atomizable(objects_view(items@)),
        objects_ok(objects_view(items@)),
    ensures
        result_view(r) == spec_atomization_of_vec(objects_view(items@)),
        r is Ok ==> object_ok(r->Ok_0@),
    decreases objects_view(items@),
{
    let ghost v = objects_view(items@);
    proof {
        lemma_objects_view(items@);
        lemma_objects_ok(v);
        assert(v.subrange(0, 0) =~= Seq::<ObjectV>::empty());
        assert(objects_view(Seq::<Object>::empty()) =~= Seq::<ObjectV>::empty());
    }
    let ghost whole = items;
    let n: usize = items.len();
    let mut rest = items;
    let mut result: Vec<Object> = Vec::new();
    let mut i: usize = 0;
    while i < n
        invariant
            n == v.len(),
            whole@.len() == n,
            v == objects_view(whole@),
            v == objects_view(items@),
            forall|j: int| 0 <= j < whole@.len() ==> #[trigger] v[j] == object_view(whole@[j]),
            forall|j: int| 0 <= j < v.len() ==> #[trigger] object_ok(v[j]),
            all_atomizable(v),
            i <= n,
            rest@ == whole@.subrange(i as int, n as int),
            collect_atomized(v.subrange(0, i as int)) == Ok::<Seq<ObjectV>, ErrorCode>(objects_view(result@)),
            forall|j: int| 0 <= j < objects_view(result@).len() ==> #[trigger] object_ok(objects_view(result@)[j]),
        decreases n - i,
    {
        let item = rest.remove(0);
        proof {
            assert(item == whole@[i as int]);
            lemma_all_atomizable(v, i as int);
            assert(object_view(item) == v[i as int]);
            assert(object_ok(v[i as int]));
            assert(decreases_to!(v => v[i as int]));
            assert(v == objects_view(items@));
        }
        let value = atomization(item);
        let ghost pre = v.subrange(0, i + 1);
        proof {
            assert(pre.subrange(0, pre.len() - 1) =~= v.subrange(0, i as int));
            assert(pre[pre.len() - 1] == v[i as int]);
        }
        match value {
            Err(e) => {
                proof {
                    assert(collect_atomized(pre) == Err::<Seq<ObjectV>, ErrorCode>(e));
                    lemma_collect_err(v, i + 1, e);
                    assert(spec_atomization_of_vec(v) == Err::<ObjectV, ErrorCode>(e));
                }
                return Err(e);
            },
            Ok(Object::Sequence(elements)) => {
                let ghost before = result@;
                let ghost els = elements@;
                proof {
                    lemma_objects_ok(objects_view(els));
                }
                let mut elements = elements;
                result.append(&mut elements);
                proof {
                    lemma_objects_view_add(before, els);
                    assert(result@ == before + els);
                    let rv = objects_view(result@);
                    assert forall|j: int| 0 <= j < rv.len() implies #[trigger] object_ok(rv[j]) by {
                        if j < objects_view(before).len() {
                            assert(rv[j] == objects_view(before)[j]);
                        } else {
                            assert(rv[j] == objects_view(els)[j - objects_view(before).len()]);
                        }
                    }
                }
            },
            Ok(other) => {
                let ghost before = result@;
                result.push(other);
                proof {
                    lemma_objects_view_push(before, other);
                    let rv = objects_view(result@);
                    assert forall|j: int| 0 <= j < rv.len() implies #[trigger] object_ok(rv[j]) by {
                        if j < objects_view(before).len() {
                            assert(rv[j] == objects_view(before)[j]);
                        }
                    }
                }
            },
        }
        proof {
            assert(rest@ =~= whole@.subrange(i + 1, n as int));
        }
        i = i + 1;
    }
    proof {
        assert(v.subrange(0, n as int) =~= v);
        lemma_objects_ok(objects_view(result@));
    }
    zero_or_one(result)
}

} // verus!

verus! {

pub open spec fn dec_of(p: Option<(i128, u32)>) -> Option<Dec> {
    match p {
        Some((m, s)) => Some(Dec { mantissa: m, scale: s }),
        None => None,
    }
}

/// Whether `s` holds an exponent mark, `e` or `E`.
pub open spec fn has_exponent(s: Seq<char>) -> bool {
    exists|i: int| 0 <= i < s.len() && (s[i] == 'e' || s[i] == 'E')
}

/// A number as read from text: the decimal it stands for, the infinities
/// `INF` and `-INF`, and `NaN`; a plain or scientific literal is read as
/// `rust_decimal` reads it, and text it refuses is `FORG0001`.
pub open spec fn spec_string_to_number(s: Seq<char>) -> Result<(Option<Dec>, NumberCase), ErrorCode> {
    if s == "INF"@ {
        Ok((None, NumberCase::PlusInfinity))
    } else if s == "-INF"@ {
        Ok((None, NumberCase::MinusInfinity))
    } else if s == "NaN"@ {
        Ok((None, NumberCase::NaN))
    } else if has_exponent(s) {
        spec_number_from_parsed(dec_of(decimal_from_scientific(s)))
    } else {
        spec_number_from_parsed(dec_of(decimal_from_str(s)))
    }
}

pub open spec fn spec_number_from_parsed(parsed: Option<Dec>) -> Result<(Option<Dec>, NumberCase), ErrorCode> {
    match parsed {
        Some(d) => Ok((Some(d), NumberCase::Normal)),
        None => Err(ErrorCode::FORG0001),
    }
}

/// The number for a decimal as read from text, `FORG0001` where none was read.
pub fn number_from_parsed(parsed: Option<Dec>) -> (r: Result<(Option<Dec>, NumberCase), ErrorCode>)
    ensures
        r == spec_number_from_parsed(parsed),
{
    match parsed {
        Some(d) => Ok((Some(d), NumberCase::Normal)),
        None => Err(ErrorCode::FORG0001),
    }
}

fn contains_exponent(s: &str) -> (r: bool)
    ensures
        r == has_exponent(s@),
{
    let cs = chars_of(s);
    let mut i: usize = 0;
    while i < cs.len()
        invariant
            cs@ == s@,
            i <= cs@.len(),
            forall|j: int| 0 <= j < i ==> !(cs@[j] == 'e' || cs@[j] == 'E'),
        decreases cs@.len() - i,
    {
        if cs[i] == 'e' || cs[i] == 'E' {
            return true;
        }
        i = i + 1;
    }
    false
}

/// The number that `string` stands for (see `spec_string_to_number`).
pub fn string_to_number(string: &String) -> (r: Result<(Option<Dec>, NumberCase), ErrorCode>)
    ensures
        r == spec_string_to_number(string@),
        r is Ok ==> opt_dec_ok(r->Ok_0.0),
{
    if str_eq(string.as_str(), "INF") {
        Ok((None, NumberCase::PlusInfinity))
    } else if str_eq(string.as_str(), "-INF") {
        Ok((None, NumberCase::MinusInfinity))
    } else if str_eq(string.as_str(), "NaN") {
        Ok((None, NumberCase::NaN))
    } else if contains_exponent(string.as_str()) {
        number_from_parsed(parse_scientific(string.as_str()))
    } else {
        number_from_parsed(parse_decimal(string.as_str()))
    }
}

/// The double that `string` stands for (see `spec_string_to_number`).
pub fn string_to_double(string: &String) -> (r: Result<Object, ErrorCode>)
    ensures
        match spec_string_to_number(string@) {
            Ok((number, case)) => r matches Ok(Object::Atomic(Type::Double { number: n, case: c }))
                && n == number && c == case,
            Err(code) => r == Err::<Object, ErrorCode>(code),
        },
{
    match string_to_number(string) {
        Ok((number, case)) => Ok(Object::Atomic(Type::Double { number, case })),
        Err(code) => Err(code),
    }
}

/// The integer of an integer value.
pub fn type_to_int(t: Type) -> (r: i128)
    requires
        t is Integer,
    ensures
        r == t->Integer_0,
{
    match t {
        Type::Integer(num) => num,
        _ => 0,
    }
}

/// The name of a QName value.
pub fn object_to_qname(t: Object) -> (r: QName)
    requires
        t is QName,
    ensures
        r.prefix == Some(t->QName_prefix),
        r.url == Some(t->QName_url),
        r.local_part == t->QName_local_part,
{
    match t {
        Object::QName { prefix, url, local_part } => QName { prefix: Some(prefix), url: Some(url), local_part },
        _ => QName { prefix: None, url: None, local_part: String::new() },
    }
}

} // verus!

verus! {

impl Node {
    /// A copy of the node.
    pub fn duplicate(&self) -> (r: Node)
        ensures
            r@ == self@,
        decreases self,
    {
        match self {
            Node::Node { sequence, name, attributes, children } => {
                proof {
                    assert(decreases_to!(*self => *attributes));
                    assert(decreases_to!(*self => *children));
                }
                Node::Node {
                    sequence: *sequence,
                    name: name.duplicate(),
                    attributes: duplicate_nodes(attributes),
                    children: duplicate_nodes(children),
                }
            },
            Node::Attribute { sequence, name, value } => Node::Attribute {
                sequence: *sequence,
                name: name.duplicate(),
                value: value.clone(),
            },
            Node::NodeText { sequence, content } => Node::NodeText { sequence: *sequence, content: content.clone() },
            Node::NodeComment { sequence, content } => Node::NodeComment {
                sequence: *sequence,
                content: content.clone(),
            },
            Node::NodePI { sequence, target, content } => Node::NodePI {
                sequence: *sequence,
                target: target.duplicate(),
                content: content.clone(),
            },
        }
    }
}

/// A copy of a list of nodes.
pub fn duplicate_nodes(v: &Vec<Node>) -> (r: Vec<Node>)
    ensures
        nodes_view(r@) == nodes_view(v@),
    decreases v,
{
    let mut r: Vec<Node> = Vec::new();
    let mut i: usize = 0;
    proof {
        assert(v@.subrange(0, 0) =~= Seq::<Node>::empty());
        assert(r@ =~= Seq::<Node>::empty());
    }
    while i < v.len()
        invariant
            i <= v@.len(),
            nodes_view(r@) == nodes_view(v@.subrange(0, i as int)),
        decreases v@.len() - i,
    {
        proof {
            assert(decreases_to!(v => v@[i as int]));
        }
        let d = v[i].duplicate();
        let ghost before = r@;
        r.push(d);
        proof {
            assert(r@.subrange(0, r@.len() - 1) =~= before);
            let pre = v@.subrange(0, i + 1);
            assert(pre.subrange(0, pre.len() - 1) =~= v@.subrange(0, i as int));
        }
        i = i + 1;
    }
    proof {
        assert(v@.subrange(0, v@.len() as int) =~= v@);
    }
    r
}

impl Object {
    /// A copy of the value.
    pub fn duplicate(&self) -> (r: Object)
        ensures
            r@ == self@,
        decreases self,
    {
        match self {
            Object::ForBinding { name, values } => Object::ForBinding {
                name: name.duplicate(),
                values: Box::new((**values).duplicate()),
            },
            Object::Error { code } => Object::Error { code: code.clone() },
            Object::EntityRef(e) => Object::EntityRef(e.clone()),
            Object::Nothing => Object::Nothing,
            Object::Empty => Object::Empty,
            Object::Range { min, max } => Object::Range { min: *min, max: *max },
            Object::Sequence(items) => {
                proof {
                    assert(decreases_to!(*self => *items));
                }
                Object::Sequence(duplicate_objects(items))
            },
            Object::QName { prefix, url, local_part } => Object::QName {
                prefix: prefix.clone(),
                url: url.clone(),
                local_part: local_part.clone(),
            },
            Object::Atomic(t) => Object::Atomic(t.duplicate()),
            Object::Node(n) => Object::Node(n.duplicate()),
            Object::Array(items) => {
                proof {
                    assert(decreases_to!(*self => *items));
                }
                Object::Array(duplicate_objects(items))
            },
            Object::MapValue(entries) => {
                proof {
                    assert(decreases_to!(*self => *entries));
                }
                Object::MapValue(duplicate_pairs(entries))
            },
            Object::FunctionRef { name, arity } => Object::FunctionRef { name: name.duplicate(), arity: *arity },
            Object::Return(v) => Object::Return(Box::new((**v).duplicate())),
        }
    }
}

/// A copy of the entries of a map.
pub fn duplicate_pairs(v: &Vec<(Type, Object)>) -> (r: Vec<(Type, Object)>)
    ensures
        pairs_view(r@) == pairs_view(v@),
    decreases v,
{
    let mut r: Vec<(Type, Object)> = Vec::new();
    let mut i: usize = 0;
    proof {
        assert(v@.subrange(0, 0) =~= Seq::<(Type, Object)>::empty());
        assert(r@ =~= Seq::<(Type, Object)>::empty());
    }
    while i < v.len()
        invariant
            i <= v@.len(),
            pairs_view(r@) == pairs_view(v@.subrange(0, i as int)),
        decreases v@.len() - i,
    {
        proof {
            assert(decreases_to!(v => v@[i as int]));
            assert(decreases_to!(v@[i as int] => v@[i as int].1));
        }
        let (k, o) = &v[i];
        let d = (k.duplicate(), o.duplicate());
        let ghost before = r@;
        r.push(d);
        proof {
            assert(r@.subrange(0, r@.len() - 1) =~= before);
            let pre = v@.subrange(0, i + 1);
            assert(pre.subrange(0, pre.len() - 1) =~= v@.subrange(0, i as int));
        }
        i = i + 1;
    }
    proof {
        assert(v@.subrange(0, v@.len() as int) =~= v@);
    }
    r
}

/// A copy of a list of values.
pub fn duplicate_objects(v: &Vec<Object>) -> (r: Vec<Object>)
    ensures
        objects_view(r@) == objects_view(v@),
    decreases v,
{
    let mut r: Vec<Object> = Vec::new();
    let mut i: usize = 0;
    proof {
        assert(v@.subrange(0, 0) =~= Seq::<Object>::empty());
        assert(r@ =~= Seq::<Object>::empty());
    }
    while i < v.len()
        invariant
            i <= v@.len(),
            objects_view(r@) == objects_view(v@.subrange(0, i as int)),
        decreases v@.len() - i,
    {
        proof {
            assert(decreases_to!(v => v@[i as int]));
        }
        let d = v[i].duplicate();
        let ghost before = r@;
        r.push(d);
        proof {
            assert(r@.subrange(0, r@.len() - 1) =~= before);
            let pre = v@.subrange(0, i + 1);
            assert(pre.subrange(0, pre.len() - 1) =~= v@.subrange(0, i as int));
        }
        i = i + 1;
    }
    proof {
        assert(v@.subrange(0, v@.len() as int) =~= v@);
    }
    r
}


/// Atomization gives an atomic value or the empty sequence: never a node,
/// a sequence or an array.
pub proof fn law_atomization_is_atomic(o: ObjectV)
    ensures
        spec_atomization(o) matches Ok(v) ==> (v is Atomic || v is Empty),
    decreases o, 1int,
{
    match o {
        ObjectV::Array(items) => {
            lemma_atomization_of_vec_is_atomic(items);
        },
        ObjectV::Sequence(items) => {
            lemma_atomization_of_vec_is_atomic(items);
        },
        _ => {},
    }
}

proof fn lemma_atomization_of_vec_is_atomic(items: Seq<ObjectV>)
    ensures
        spec_atomization_of_vec(items) matches Ok(v) ==> (v is Atomic || v is Empty),
    decreases items, 2int,
{
    lemma_collected_are_atomic(items);
}

proof fn lemma_collected_are_atomic(items: Seq<ObjectV>)
    ensures
        collect_atomized(items) matches Ok(all) ==> forall|i: int| 0 <= i < all.len() ==> (#[trigger] all[i] is Atomic
            || all[i] is Empty),
    decreases items, 0int,
{
    if items.len() > 0 {
        let p = items.subrange(0, items.len() - 1);
        lemma_collected_are_atomic(p);
        law_atomization_is_atomic(items[items.len() - 1]);
        match collect_atomized(p) {
            Ok(done) => match spec_atomization(items[items.len() - 1]) {
                Ok(v) => {
                    assert forall|i: int| 0 <= i < done.push(v).len() implies (#[trigger] done.push(v)[i] is Atomic
                        || done.push(v)[i] is Empty) by {
                        if i < done.len() {
                            assert(done.push(v)[i] == done[i]);
                        }
                    }
                },
                _ => {},
            },
            _ => {},
        }
    }
}

/// Atomizing an atomic value gives it back.
pub proof fn law_atomization_keeps_atomic(t: TypeV)
    ensures
        spec_atomization(ObjectV::Atomic(t)) == Ok::<ObjectV, ErrorCode>(ObjectV::Atomic(t)),
{
}


/// Every value equals itself.
pub proof fn law_object_same_reflexive(o: ObjectV)
    ensures
        object_same(o, o),
    decreases o, 1int,
{
    match o {
        ObjectV::ForBinding { values, .. } => {
            law_object_same_reflexive(*values);
        },
        ObjectV::Sequence(s) => {
            lemma_objects_same_reflexive(s);
        },
        ObjectV::Array(s) => {
            lemma_objects_same_reflexive(s);
        },
        ObjectV::MapValue(s) => {
            lemma_pairs_same_reflexive(s);
        },
        ObjectV::Return(v) => {
            law_object_same_reflexive(*v);
        },
        _ => {},
    }
}

proof fn lemma_pairs_same_reflexive(s: Seq<(TypeV, ObjectV)>)
    ensures
        pairs_same(s, s),
    decreases s, 0int,
{
    assert forall|i: int| 0 <= i < s.len() implies #[trigger] pair_found(s[i], s) by {
        law_object_same_reflexive(s[i].1);
        lemma_pair_found(s[i], s, i);
    }
    lemma_pairs_found_all(s, s);
}

proof fn lemma_pair_found(e: (TypeV, ObjectV), b: Seq<(TypeV, ObjectV)>, j: int)
    requires
        0 <= j < b.len(),
        type_same(e.0, b[j].0),
        object_same(e.1, b[j].1),
    ensures
        pair_found(e, b),
    decreases b.len(),
{
    if j < b.len() - 1 {
        let p = b.subrange(0, b.len() - 1);
        assert(p[j] == b[j]);
        lemma_pair_found(e, p, j);
    }
}

proof fn lemma_pairs_found_all(a: Seq<(TypeV, ObjectV)>, b: Seq<(TypeV, ObjectV)>)
    requires
        forall|i: int| 0 <= i < a.len() ==> #[trigger] pair_found(a[i], b),
    ensures
        pairs_found(a, b),
    decreases a.len(),
{
    if a.len() > 0 {
        let p = a.subrange(0, a.len() - 1);
        assert forall|i: int| 0 <= i < p.len() implies #[trigger] pair_found(p[i], b) by {
            assert(p[i] == a[i]);
        }
        lemma_pairs_found_all(p, b);
        assert(pair_found(a[a.len() - 1], b));
    }
}

proof fn lemma_objects_same_reflexive(s: Seq<ObjectV>)
    ensures
        objects_same(s, s),
    decreases s, 0int,
{
    if s.len() > 0 {
        lemma_objects_same_reflexive(s.subrange(0, s.len() - 1));
        law_object_same_reflexive(s[s.len() - 1]);
    }
}

/// The exponent mark of a number's text is `e` or `E`: a text holding
/// either is read as a scientific literal, and two texts that differ only
/// in the case of their exponent marks are read by the same reader.
pub proof fn law_exponent_mark_either_case(s: Seq<char>, t: Seq<char>, i: int)
    requires
        0 <= i < s.len(),
        s[i] == 'e' || s[i] == 'E',
        t.len() == s.len(),
        forall|j: int| 0 <= j < s.len() ==> #[trigger] t[j] == if s[j] == 'E' { 'e' } else { s[j] },
    ensures
        spec_string_to_number(s) == spec_number_from_parsed(dec_of(decimal_from_scientific(s))),
        has_exponent(s),
        has_exponent(t),
{
    reveal_strlit("INF");
    reveal_strlit("-INF");
    reveal_strlit("NaN");
    assert(s[i] == 'e' || s[i] == 'E');
    assert(t[i] == 'e');
    if s == "INF"@ || s == "-INF"@ || s == "NaN"@ {
        assert(false);
    }
}

} // verus!
