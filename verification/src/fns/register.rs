use vstd::prelude::*;
use crate::eval::sequence_type::{
    item_type_view, seq_type_view, seq_types_view, xs_name, xs_qname_view, ItemType, ItemTypeV, NodeTestV, OccurrenceIndicator, SequenceType,
    SequenceTypeV,
};
use crate::namespaces::xpath_functions;
use crate::qname::{QNameResolved, QNameView};
use crate::xqts::text::str_eq;

verus! {

/// The built-in functions that a register binds under a name and an arity.
#[derive(PartialEq, Eq, Structural, Clone, Copy, Debug)]
pub enum BuiltIn {
    XsUntypedAtomic,
    XsString,
    XsNormalizedString,
    XsBoolean,
    XsUnsignedByte,
    XsUnsignedShort,
    XsUnsignedInt,
    XsUnsignedLong,
    XsByte,
    XsShort,
    XsInt,
    XsLong,
    XsPositiveInteger,
    XsNonNegativeInteger,
    XsNonPositiveInteger,
    XsNegativeInteger,
    XsInteger,
    XsDecimal,
    XsFloat,
    XsDouble,
    XsId,
    XsIdref,
    XsEntity,
    XsNcname,
    XsAnyUri,
    XsTime,
    XsDate,
    XsDateTime,
    XsYearMonthDuration,
    XsDayTimeDuration,
    XsDuration,
    XsGYearMonth,
    XsGYear,
    XsGMonthDay,
    XsGDay,
    XsGMonth,
    XsHexBinary,
    XsBase64Binary,
    XsQname,
    XsToken,
    XsLanguage,
    XsNmtoken,
    XsName,
    ResolveQname,
    Qname,
    PrefixFromQname,
    LocalNameFromQname,
    NamespaceUriFromQname,
    NamespaceUriForPrefix,
    InScopePrefixes,
    NodeName0,
    NodeName1,
    MapMerge1,
    MapMerge2,
    MapSize,
    MapContains,
    MapGet,
    MapFind,
    MapPut,
    MapEntry,
    MapRemove,
    MapForEach,
    ArraySize,
    ArrayGet,
    ArrayPut,
    ArrayAppend,
    ArraySubarray2,
    ArrayInsertBefore,
    ArrayHead,
    ArrayTail,
    ArrayReverse,
    ArrayJoin,
    ArrayForEach,
    ArrayFilter,
    ArrayFoldLeft,
    ArrayFoldRight,
    ArrayForEachPair,
    ArraySort1,
    ArraySort2,
    ArraySort3,
    ArrayFlatten,
    CurrentDateTime,
    CurrentDate,
    CurrentTime,
    YearFromDate,
    MonthFromDate,
    DayFromDate,
    DaysFromDuration,
    TimezoneFromDateTime,
    TimezoneFromDate,
    TimezoneFromTime,
    ForEach,
    Filter,
    FoldLeft,
    FoldRight,
    ForEachPair,
    Sort1,
    Sort2,
    Sort3,
    Apply,
    Error0,
    Error1,
    Error2,
    Error3,
    MathFormatNumber2,
    MathFormatNumber3,
    MathNumber0,
    MathNumber1,
    Count,
    Avg,
    Max1,
    Max2,
    Min1,
    Min2,
    Sum1,
    Sum2,
    MathPi,
    MathAbs,
    MathCeiling,
    MathFloor,
    MathRound1,
    MathRound2,
    MathRoundHalfToEven1,
    MathRoundHalfToEven2,
    Boolean,
    True,
    False,
    Not,
    String0,
    String1,
    CodepointsToString,
    StringToCodepoints,
    StringJoin1,
    StringJoin2,
    StringLength0,
    StringLength1,
    NormalizeSpace0,
    NormalizeSpace1,
    UpperCase,
    LowerCase,
    StartsWith2,
    StartsWith3,
    EndsWith2,
    EndsWith3,
    Position,
    Last,
    DefaultCollation,
    DefaultLanguage,
    StaticBaseUri,
    FunctionLookup,
    FunctionName,
    FunctionArity,
    Data0,
    Data1,
    Empty,
    Exists,
    Remove,
    Reverse,
    Subsequence2,
    Subsequence3,
    ZeroOrOne,
    OneOrMore,
    ExactlyOne,
    DeepEqual2,
    DeepEqual3,
    Name0,
    Name1,
    LocalName0,
    LocalName1,
    NamespaceUri0,
    NamespaceUri1,
    Lang1,
    Lang2,
    Root0,
    Root1,
    Path0,
    Path1,
    HasChildren0,
    HasChildren1,
    Innermost,
    Outermost,
}


/// One binding of a register as a view: a name, an arity, the built-in
/// bound, and the types of its parameters and of its result.
#[verifier::ext_equal]
pub struct EntryView {
    pub url: Seq<char>,
    pub local_part: Seq<char>,
    pub arity: usize,
    pub fun: BuiltIn,
    pub params: Seq<SequenceTypeV>,
    pub result: SequenceTypeV,
}

pub open spec fn entry_v(
    url: Seq<char>,
    local_part: Seq<char>,
    arity: usize,
    fun: BuiltIn,
    params: Seq<SequenceTypeV>,
    result: SequenceTypeV,
) -> EntryView {
    EntryView { url, local_part, arity, fun, params, result }
}

/// A sequence type of the given item type and occurrence.
pub open spec fn st_v(it: ItemTypeV, occ: OccurrenceIndicator) -> SequenceTypeV {
    SequenceTypeV { item_type: it, occurrence_indicator: occ }
}

/// The name `fn:<local>` as a view.
pub open spec fn fn_qname_view(local: Seq<char>) -> QNameView {
    QNameView { prefix: Some("fn"@), url: Some("http://www.w3.org/2005/xpath-functions"@), local_part: local }
}

/// The built-ins that a new register holds, in the order they are
/// registered: namespace URI, local name, arity, implementation, and the
/// types of the parameters and of the result.
pub open spec fn builtin_table() -> Seq<EntryView> {
    builtin_part_0() + builtin_part_1() + builtin_part_2() + builtin_part_3() + builtin_part_4() + builtin_part_5() + builtin_part_6() + builtin_part_7() + builtin_part_8() + builtin_part_9() + builtin_part_10() + builtin_part_11() + builtin_part_12() + builtin_part_13() + builtin_part_14() + builtin_part_15() + builtin_part_16() + builtin_part_17() + builtin_part_18()
}

/// A part of `builtin_table`, in registration order.
pub open spec fn builtin_part_0() -> Seq<EntryView> {
    seq![

        entry_v(
            "http://www.w3.org/2001/XMLSchema"@,
            "untypedAtomic"@,
            1usize,
            BuiltIn::XsUntypedAtomic,
            seq![st_v(ItemTypeV::AnyAtomicType, OccurrenceIndicator::ZeroOrOne)],
            st_v(ItemTypeV::AtomicOrUnionType(xs_qname_view("untypedAtomic"@)), OccurrenceIndicator::ZeroOrOne),
        ),

        entry_v(
            "http://www.w3.org/2001/XMLSchema"@,
            "string"@,
            1usize,
            BuiltIn::XsString,
            seq![st_v(ItemTypeV::AnyAtomicType, OccurrenceIndicator::ZeroOrOne)],
            st_v(ItemTypeV::AtomicOrUnionType(xs_qname_view("string"@)), OccurrenceIndicator::ZeroOrOne),
        ),

        entry_v(
            "http://www.w3.org/2001/XMLSchema"@,
            "normalizedString"@,
            1usize,
            BuiltIn::XsNormalizedString,
            seq![st_v(ItemTypeV::AnyAtomicType, OccurrenceIndicator::ZeroOrOne)],
            st_v(ItemTypeV::AtomicOrUnionType(xs_qname_view("normalizedString"@)), OccurrenceIndicator::ZeroOrOne),
        ),

        entry_v(
            "http://www.w3.org/2001/XMLSchema"@,
            "boolean"@,
            1usize,
            BuiltIn::XsBoolean,
            seq![st_v(ItemTypeV::AnyAtomicType, OccurrenceIndicator::ZeroOrOne)],
            st_v(ItemTypeV::AtomicOrUnionType(xs_qname_view("boolean"@)), OccurrenceIndicator::ZeroOrOne),
        ),

        entry_v(
            "http://www.w3.org/2001/XMLSchema"@,
            "unsignedByte"@,
            1usize,
            BuiltIn::XsUnsignedByte,
            seq![st_v(ItemTypeV::AnyAtomicType, OccurrenceIndicator::ZeroOrOne)],
            st_v(ItemTypeV::AtomicOrUnionType(xs_qname_view("unsignedByte"@)), OccurrenceIndicator::ZeroOrOne),
        ),

        entry_v(
            "http://www.w3.org/2001/XMLSchema"@,
            "unsignedShort"@,
            1usize,
            BuiltIn::XsUnsignedShort,
            seq![st_v(ItemTypeV::AnyAtomicType, OccurrenceIndicator::ZeroOrOne)],
            st_v(ItemTypeV::AtomicOrUnionType(xs_qname_view("unsignedShort"@)), OccurrenceIndicator::ZeroOrOne),
        ),

        entry_v(
            "http://www.w3.org/2001/XMLSchema"@,
            "unsignedInt"@,
            1usize,
            BuiltIn::XsUnsignedInt,
            seq![st_v(ItemTypeV::AnyAtomicType, OccurrenceIndicator::ZeroOrOne)],
            st_v(ItemTypeV::AtomicOrUnionType(xs_qname_view("unsignedInt"@)), OccurrenceIndicator::ZeroOrOne),
        ),

        entry_v(
            "http://www.w3.org/2001/XMLSchema"@,
            "unsignedLong"@,
            1usize,
            BuiltIn::XsUnsignedLong,
            seq![st_v(ItemTypeV::AnyAtomicType, OccurrenceIndicator::ZeroOrOne)],
            st_v(ItemTypeV::AtomicOrUnionType(xs_qname_view("unsignedLong"@)), OccurrenceIndicator::ZeroOrOne),
        ),

        entry_v(
            "http://www.w3.org/2001/XMLSchema"@,
            "byte"@,
            1usize,
            BuiltIn::XsByte,
            seq![st_v(ItemTypeV::AnyAtomicType, OccurrenceIndicator::ZeroOrOne)],
            st_v(ItemTypeV::AtomicOrUnionType(xs_qname_view("byte"@)), OccurrenceIndicator::ZeroOrOne),
        ),

        entry_v(
            "http://www.w3.org/2001/XMLSchema"@,
            "short"@,
            1usize,
            BuiltIn::XsShort,
            seq![st_v(ItemTypeV::AnyAtomicType, OccurrenceIndicator::ZeroOrOne)],
            st_v(ItemTypeV::AtomicOrUnionType(xs_qname_view("short"@)), OccurrenceIndicator::ZeroOrOne),
        ),

    ]
}


/// A part of `builtin_table`, in registration order.
pub open spec fn builtin_part_1() -> Seq<EntryView> {
    seq![

        entry_v(
            "http://www.w3.org/2001/XMLSchema"@,
            "int"@,
            1usize,
            BuiltIn::XsInt,
            seq![st_v(ItemTypeV::AnyAtomicType, OccurrenceIndicator::ZeroOrOne)],
            st_v(ItemTypeV::AtomicOrUnionType(xs_qname_view("int"@)), OccurrenceIndicator::ZeroOrOne),
        ),

        entry_v(
            "http://www.w3.org/2001/XMLSchema"@,
            "long"@,
            1usize,
            BuiltIn::XsLong,
            seq![st_v(ItemTypeV::AnyAtomicType, OccurrenceIndicator::ZeroOrOne)],
            st_v(ItemTypeV::AtomicOrUnionType(xs_qname_view("long"@)), OccurrenceIndicator::ZeroOrOne),
        ),

        entry_v(
            "http://www.w3.org/2001/XMLSchema"@,
            "positiveInteger"@,
            1usize,
            BuiltIn::XsPositiveInteger,
            seq![st_v(ItemTypeV::AnyAtomicType, OccurrenceIndicator::ZeroOrOne)],
            st_v(ItemTypeV::AtomicOrUnionType(xs_qname_view("positiveInteger"@)), OccurrenceIndicator::ZeroOrOne),
        ),

        entry_v(
            "http://www.w3.org/2001/XMLSchema"@,
            "nonNegativeInteger"@,
            1usize,
            BuiltIn::XsNonNegativeInteger,
            seq![st_v(ItemTypeV::AnyAtomicType, OccurrenceIndicator::ZeroOrOne)],
            st_v(ItemTypeV::AtomicOrUnionType(xs_qname_view("nonNegativeInteger"@)), OccurrenceIndicator::ZeroOrOne),
        ),

        entry_v(
            "http://www.w3.org/2001/XMLSchema"@,
            "nonPositiveInteger"@,
            1usize,
            BuiltIn::XsNonPositiveInteger,
            seq![st_v(ItemTypeV::AnyAtomicType, OccurrenceIndicator::ZeroOrOne)],
            st_v(ItemTypeV::AtomicOrUnionType(xs_qname_view("nonPositiveInteger"@)), OccurrenceIndicator::ZeroOrOne),
        ),

        entry_v(
            "http://www.w3.org/2001/XMLSchema"@,
            "negativeInteger"@,
            1usize,
            BuiltIn::XsNegativeInteger,
            seq![st_v(ItemTypeV::AnyAtomicType, OccurrenceIndicator::ZeroOrOne)],
            st_v(ItemTypeV::AtomicOrUnionType(xs_qname_view("negativeInteger"@)), OccurrenceIndicator::ZeroOrOne),
        ),

        entry_v(
            "http://www.w3.org/2001/XMLSchema"@,
            "integer"@,
            1usize,
            BuiltIn::XsInteger,
            seq![st_v(ItemTypeV::AnyAtomicType, OccurrenceIndicator::ZeroOrOne)],
            st_v(ItemTypeV::AtomicOrUnionType(xs_qname_view("integer"@)), OccurrenceIndicator::ZeroOrOne),
        ),

        entry_v(
            "http://www.w3.org/2001/XMLSchema"@,
            "decimal"@,
            1usize,
            BuiltIn::XsDecimal,
            seq![st_v(ItemTypeV::AnyAtomicType, OccurrenceIndicator::ZeroOrOne)],
            st_v(ItemTypeV::AtomicOrUnionType(xs_qname_view("decimal"@)), OccurrenceIndicator::ZeroOrOne),
        ),

        entry_v(
            "http://www.w3.org/2001/XMLSchema"@,
            "float"@,
            1usize,
            BuiltIn::XsFloat,
            seq![st_v(ItemTypeV::AnyAtomicType, OccurrenceIndicator::ZeroOrOne)],
            st_v(ItemTypeV::AtomicOrUnionType(xs_qname_view("float"@)), OccurrenceIndicator::ZeroOrOne),
        ),

        entry_v(
            "http://www.w3.org/2001/XMLSchema"@,
            "double"@,
            1usize,
            BuiltIn::XsDouble,
            seq![st_v(ItemTypeV::AnyAtomicType, OccurrenceIndicator::ZeroOrOne)],
            st_v(ItemTypeV::AtomicOrUnionType(xs_qname_view("double"@)), OccurrenceIndicator::ZeroOrOne),
        ),

    ]
}


/// A part of `builtin_table`, in registration order.
pub open spec fn builtin_part_2() -> Seq<EntryView> {
    seq![

        entry_v(
            "http://www.w3.org/2001/XMLSchema"@,
            "ID"@,
            1usize,
            BuiltIn::XsId,
            seq![st_v(ItemTypeV::AnyAtomicType, OccurrenceIndicator::ZeroOrOne)],
            st_v(ItemTypeV::AtomicOrUnionType(xs_qname_view("ID"@)), OccurrenceIndicator::ZeroOrOne),
        ),

        entry_v(
            "http://www.w3.org/2001/XMLSchema"@,
            "IDREF"@,
            1usize,
            BuiltIn::XsIdref,
            seq![st_v(ItemTypeV::AnyAtomicType, OccurrenceIndicator::ZeroOrOne)],
            st_v(ItemTypeV::AtomicOrUnionType(xs_qname_view("IDREF"@)), OccurrenceIndicator::ZeroOrOne),
        ),

        entry_v(
            "http://www.w3.org/2001/XMLSchema"@,
            "ENTITY"@,
            1usize,
            BuiltIn::XsEntity,
            seq![st_v(ItemTypeV::AnyAtomicType, OccurrenceIndicator::ZeroOrOne)],
            st_v(ItemTypeV::AtomicOrUnionType(xs_qname_view("ENTITY"@)), OccurrenceIndicator::ZeroOrOne),
        ),

        entry_v(
            "http://www.w3.org/2001/XMLSchema"@,
            "NCName"@,
            1usize,
            BuiltIn::XsNcname,
            seq![st_v(ItemTypeV::AnyAtomicType, OccurrenceIndicator::ZeroOrOne)],
            st_v(ItemTypeV::AtomicOrUnionType(xs_qname_view("NCName"@)), OccurrenceIndicator::ZeroOrOne),
        ),

        entry_v(
            "http://www.w3.org/2001/XMLSchema"@,
            "anyURI"@,
            1usize,
            BuiltIn::XsAnyUri,
            seq![st_v(ItemTypeV::AnyAtomicType, OccurrenceIndicator::ZeroOrOne)],
            st_v(ItemTypeV::AtomicOrUnionType(xs_qname_view("anyURI"@)), OccurrenceIndicator::ZeroOrOne),
        ),

        entry_v(
            "http://www.w3.org/2001/XMLSchema"@,
            "time"@,
            1usize,
            BuiltIn::XsTime,
            seq![st_v(ItemTypeV::AnyAtomicType, OccurrenceIndicator::ZeroOrOne)],
            st_v(ItemTypeV::AtomicOrUnionType(xs_qname_view("time"@)), OccurrenceIndicator::ZeroOrOne),
        ),

        entry_v(
            "http://www.w3.org/2001/XMLSchema"@,
            "date"@,
            1usize,
            BuiltIn::XsDate,
            seq![st_v(ItemTypeV::AnyAtomicType, OccurrenceIndicator::ZeroOrOne)],
            st_v(ItemTypeV::AtomicOrUnionType(xs_qname_view("date"@)), OccurrenceIndicator::ZeroOrOne),
        ),

        entry_v(
            "http://www.w3.org/2001/XMLSchema"@,
            "dateTime"@,
            1usize,
            BuiltIn::XsDateTime,
            seq![st_v(ItemTypeV::AnyAtomicType, OccurrenceIndicator::ZeroOrOne)],
            st_v(ItemTypeV::AtomicOrUnionType(xs_qname_view("dateTime"@)), OccurrenceIndicator::ZeroOrOne),
        ),

        entry_v(
            "http://www.w3.org/2001/XMLSchema"@,
            "yearMonthDuration"@,
            1usize,
            BuiltIn::XsYearMonthDuration,
            seq![st_v(ItemTypeV::AnyAtomicType, OccurrenceIndicator::ZeroOrOne)],
            st_v(ItemTypeV::AtomicOrUnionType(xs_qname_view("yearMonthDuration"@)), OccurrenceIndicator::ZeroOrOne),
        ),

        entry_v(
            "http://www.w3.org/2001/XMLSchema"@,
            "dayTimeDuration"@,
            1usize,
            BuiltIn::XsDayTimeDuration,
            seq![st_v(ItemTypeV::AnyAtomicType, OccurrenceIndicator::ZeroOrOne)],
            st_v(ItemTypeV::AtomicOrUnionType(xs_qname_view("dayTimeDuration"@)), OccurrenceIndicator::ZeroOrOne),
        ),

    ]
}


/// A part of `builtin_table`, in registration order.
pub open spec fn builtin_part_3() -> Seq<EntryView> {
    seq![

        entry_v(
            "http://www.w3.org/2001/XMLSchema"@,
            "duration"@,
            1usize,
            BuiltIn::XsDuration,
            seq![st_v(ItemTypeV::AnyAtomicType, OccurrenceIndicator::ZeroOrOne)],
            st_v(ItemTypeV::AtomicOrUnionType(xs_qname_view("duration"@)), OccurrenceIndicator::ZeroOrOne),
        ),

        entry_v(
            "http://www.w3.org/2001/XMLSchema"@,
            "gYearMonth"@,
            1usize,
            BuiltIn::XsGYearMonth,
            seq![st_v(ItemTypeV::AnyAtomicType, OccurrenceIndicator::ZeroOrOne)],
            st_v(ItemTypeV::AtomicOrUnionType(xs_qname_view("gYearMonth"@)), OccurrenceIndicator::ZeroOrOne),
        ),

        entry_v(
            "http://www.w3.org/2001/XMLSchema"@,
            "gYear"@,
            1usize,
            BuiltIn::XsGYear,
            seq![st_v(ItemTypeV::AnyAtomicType, OccurrenceIndicator::ZeroOrOne)],
            st_v(ItemTypeV::AtomicOrUnionType(xs_qname_view("gYear"@)), OccurrenceIndicator::ZeroOrOne),
        ),

        entry_v(
            "http://www.w3.org/2001/XMLSchema"@,
            "gMonthDay"@,
            1usize,
            BuiltIn::XsGMonthDay,
            seq![st_v(ItemTypeV::AnyAtomicType, OccurrenceIndicator::ZeroOrOne)],
            st_v(ItemTypeV::AtomicOrUnionType(xs_qname_view("gMonthDay"@)), OccurrenceIndicator::ZeroOrOne),
        ),

        entry_v(
            "http://www.w3.org/2001/XMLSchema"@,
            "gDay"@,
            1usize,
            BuiltIn::XsGDay,
            seq![st_v(ItemTypeV::AnyAtomicType, OccurrenceIndicator::ZeroOrOne)],
            st_v(ItemTypeV::AtomicOrUnionType(xs_qname_view("gDay"@)), OccurrenceIndicator::ZeroOrOne),
        ),

        entry_v(
            "http://www.w3.org/2001/XMLSchema"@,
            "gMonth"@,
            1usize,
            BuiltIn::XsGMonth,
            seq![st_v(ItemTypeV::AnyAtomicType, OccurrenceIndicator::ZeroOrOne)],
            st_v(ItemTypeV::AtomicOrUnionType(xs_qname_view("gMonth"@)), OccurrenceIndicator::ZeroOrOne),
        ),

        entry_v(
            "http://www.w3.org/2001/XMLSchema"@,
            "hexBinary"@,
            1usize,
            BuiltIn::XsHexBinary,
            seq![st_v(ItemTypeV::AnyAtomicType, OccurrenceIndicator::ZeroOrOne)],
            st_v(ItemTypeV::AtomicOrUnionType(xs_qname_view("hexBinary"@)), OccurrenceIndicator::ZeroOrOne),
        ),

        entry_v(
            "http://www.w3.org/2001/XMLSchema"@,
            "base64Binary"@,
            1usize,
            BuiltIn::XsBase64Binary,
            seq![st_v(ItemTypeV::AnyAtomicType, OccurrenceIndicator::ZeroOrOne)],
            st_v(ItemTypeV::AtomicOrUnionType(xs_qname_view("base64Binary"@)), OccurrenceIndicator::ZeroOrOne),
        ),

        entry_v(
            "http://www.w3.org/2001/XMLSchema"@,
            "QName"@,
            1usize,
            BuiltIn::XsQname,
            seq![st_v(ItemTypeV::AnyAtomicType, OccurrenceIndicator::ZeroOrOne)],
            st_v(ItemTypeV::AtomicOrUnionType(xs_qname_view("QName"@)), OccurrenceIndicator::ZeroOrOne),
        ),

        entry_v(
            "http://www.w3.org/2001/XMLSchema"@,
            "token"@,
            1usize,
            BuiltIn::XsToken,
            seq![st_v(ItemTypeV::AnyAtomicType, OccurrenceIndicator::ZeroOrOne)],
            st_v(ItemTypeV::AtomicOrUnionType(xs_qname_view("token"@)), OccurrenceIndicator::ZeroOrOne),
        ),

    ]
}


/// A part of `builtin_table`, in registration order.
pub open spec fn builtin_part_4() -> Seq<EntryView> {
    seq![

        entry_v(
            "http://www.w3.org/2001/XMLSchema"@,
            "language"@,
            1usize,
            BuiltIn::XsLanguage,
            seq![st_v(ItemTypeV::AnyAtomicType, OccurrenceIndicator::ZeroOrOne)],
            st_v(ItemTypeV::AtomicOrUnionType(xs_qname_view("language"@)), OccurrenceIndicator::ZeroOrOne),
        ),

        entry_v(
            "http://www.w3.org/2001/XMLSchema"@,
            "NMTOKEN"@,
            1usize,
            BuiltIn::XsNmtoken,
            seq![st_v(ItemTypeV::AnyAtomicType, OccurrenceIndicator::ZeroOrOne)],
            st_v(ItemTypeV::AtomicOrUnionType(xs_qname_view("NMTOKEN"@)), OccurrenceIndicator::ZeroOrOne),
        ),

        entry_v(
            "http://www.w3.org/2001/XMLSchema"@,
            "Name"@,
            1usize,
            BuiltIn::XsName,
            seq![st_v(ItemTypeV::AnyAtomicType, OccurrenceIndicator::ZeroOrOne)],
            st_v(ItemTypeV::AtomicOrUnionType(xs_qname_view("Name"@)), OccurrenceIndicator::ZeroOrOne),
        ),

        entry_v(
            "http://www.w3.org/2005/xpath-functions"@,
            "resolve-QName"@,
            2usize,
            BuiltIn::ResolveQname,
            seq![st_v(ItemTypeV::AtomicOrUnionType(xs_qname_view("string"@)), OccurrenceIndicator::ZeroOrOne), st_v(ItemTypeV::Node(Box::new(NodeTestV::Element { name: None, type_annotation: None })), OccurrenceIndicator::ZeroOrOne)],
            st_v(ItemTypeV::AtomicOrUnionType(xs_qname_view("QName"@)), OccurrenceIndicator::ZeroOrOne),
        ),

        entry_v(
            "http://www.w3.org/2005/xpath-functions"@,
            "QName"@,
            2usize,
            BuiltIn::Qname,
            seq![st_v(ItemTypeV::AtomicOrUnionType(xs_qname_view("string"@)), OccurrenceIndicator::ZeroOrOne), st_v(ItemTypeV::AtomicOrUnionType(xs_qname_view("string"@)), OccurrenceIndicator::ZeroOrOne)],
            st_v(ItemTypeV::AtomicOrUnionType(xs_qname_view("QName"@)), OccurrenceIndicator::ZeroOrOne),
        ),

        entry_v(
            "http://www.w3.org/2005/xpath-functions"@,
            "prefix-from-QName"@,
            1usize,
            BuiltIn::PrefixFromQname,
            seq![st_v(ItemTypeV::AtomicOrUnionType(xs_qname_view("QName"@)), OccurrenceIndicator::ZeroOrOne)],
            st_v(ItemTypeV::AtomicOrUnionType(xs_qname_view("NCName"@)), OccurrenceIndicator::ZeroOrOne),
        ),

        entry_v(
            "http://www.w3.org/2005/xpath-functions"@,
            "local-name-from-QName"@,
            1usize,
            BuiltIn::LocalNameFromQname,
            seq![st_v(ItemTypeV::AtomicOrUnionType(xs_qname_view("QName"@)), OccurrenceIndicator::ZeroOrOne)],
            st_v(ItemTypeV::AtomicOrUnionType(xs_qname_view("NCName"@)), OccurrenceIndicator::ZeroOrOne),
        ),

        entry_v(
            "http://www.w3.org/2005/xpath-functions"@,
            "namespace-uri-from-QName"@,
            1usize,
            BuiltIn::NamespaceUriFromQname,
            seq![st_v(ItemTypeV::AtomicOrUnionType(xs_qname_view("QName"@)), OccurrenceIndicator::ZeroOrOne)],
            st_v(ItemTypeV::AtomicOrUnionType(xs_qname_view("anyURI"@)), OccurrenceIndicator::ZeroOrOne),
        ),

        entry_v(
            "http://www.w3.org/2005/xpath-functions"@,
            "namespace-uri-for-prefix"@,
            1usize,
            BuiltIn::NamespaceUriForPrefix,
            seq![st_v(ItemTypeV::AtomicOrUnionType(xs_qname_view("string"@)), OccurrenceIndicator::ZeroOrOne), st_v(ItemTypeV::Node(Box::new(NodeTestV::Element { name: None, type_annotation: None })), OccurrenceIndicator::ZeroOrOne)],
            st_v(ItemTypeV::AtomicOrUnionType(xs_qname_view("anyURI"@)), OccurrenceIndicator::ZeroOrOne),
        ),

        entry_v(
            "http://www.w3.org/2005/xpath-functions"@,
            "in-scope-prefixes"@,
            1usize,
            BuiltIn::InScopePrefixes,
            seq![st_v(ItemTypeV::Node(Box::new(NodeTestV::Element { name: None, type_annotation: None })), OccurrenceIndicator::ZeroOrOne)],
            st_v(ItemTypeV::AtomicOrUnionType(xs_qname_view("string"@)), OccurrenceIndicator::ZeroOrMore),
        ),

    ]
}


/// A part of `builtin_table`, in registration order.
pub open spec fn builtin_part_5() -> Seq<EntryView> {
    seq![

        entry_v(
            "http://www.w3.org/2005/xpath-functions"@,
            "node-name"@,
            0usize,
            BuiltIn::NodeName0,
            seq![],
            st_v(ItemTypeV::AtomicOrUnionType(xs_qname_view("QName"@)), OccurrenceIndicator::ZeroOrMore),
        ),

        entry_v(
            "http://www.w3.org/2005/xpath-functions"@,
            "node-name"@,
            1usize,
            BuiltIn::NodeName1,
            seq![st_v(ItemTypeV::Node(Box::new(NodeTestV::AnyKind)), OccurrenceIndicator::ZeroOrOne)],
            st_v(ItemTypeV::AtomicOrUnionType(xs_qname_view("QName"@)), OccurrenceIndicator::ZeroOrMore),
        ),

        entry_v(
            "http://www.w3.org/2005/xpath-functions/map"@,
            "merge"@,
            1usize,
            BuiltIn::MapMerge1,
            seq![st_v(ItemTypeV::MapType(None), OccurrenceIndicator::ZeroOrMore)],
            st_v(ItemTypeV::MapType(None), OccurrenceIndicator::ExactlyOne),
        ),

        entry_v(
            "http://www.w3.org/2005/xpath-functions/map"@,
            "merge"@,
            2usize,
            BuiltIn::MapMerge2,
            seq![st_v(ItemTypeV::MapType(None), OccurrenceIndicator::ZeroOrMore), st_v(ItemTypeV::MapType(None), OccurrenceIndicator::ExactlyOne)],
            st_v(ItemTypeV::MapType(None), OccurrenceIndicator::ExactlyOne),
        ),

        entry_v(
            "http://www.w3.org/2005/xpath-functions/map"@,
            "size"@,
            1usize,
            BuiltIn::MapSize,
            seq![st_v(ItemTypeV::MapType(None), OccurrenceIndicator::ExactlyOne)],
            st_v(ItemTypeV::AtomicOrUnionType(xs_qname_view("integer"@)), OccurrenceIndicator::ExactlyOne),
        ),

        entry_v(
            "http://www.w3.org/2005/xpath-functions/map"@,
            "contains"@,
            2usize,
            BuiltIn::MapContains,
            seq![st_v(ItemTypeV::MapType(None), OccurrenceIndicator::ExactlyOne), st_v(ItemTypeV::AnyAtomicType, OccurrenceIndicator::ExactlyOne)],
            st_v(ItemTypeV::AtomicOrUnionType(xs_qname_view("boolean"@)), OccurrenceIndicator::ZeroOrMore),
        ),

        entry_v(
            "http://www.w3.org/2005/xpath-functions/map"@,
            "get"@,
            2usize,
            BuiltIn::MapGet,
            seq![st_v(ItemTypeV::MapType(None), OccurrenceIndicator::ExactlyOne), st_v(ItemTypeV::AnyAtomicType, OccurrenceIndicator::ExactlyOne)],
            st_v(ItemTypeV::Item, OccurrenceIndicator::ZeroOrMore),
        ),

        entry_v(
            "http://www.w3.org/2005/xpath-functions/map"@,
            "find"@,
            2usize,
            BuiltIn::MapFind,
            seq![st_v(ItemTypeV::Item, OccurrenceIndicator::ZeroOrMore), st_v(ItemTypeV::AnyAtomicType, OccurrenceIndicator::ExactlyOne)],
            st_v(ItemTypeV::Array(None), OccurrenceIndicator::ExactlyOne),
        ),

        entry_v(
            "http://www.w3.org/2005/xpath-functions/map"@,
            "put"@,
            3usize,
            BuiltIn::MapPut,
            seq![st_v(ItemTypeV::MapType(None), OccurrenceIndicator::ExactlyOne), st_v(ItemTypeV::AnyAtomicType, OccurrenceIndicator::ExactlyOne), st_v(ItemTypeV::Item, OccurrenceIndicator::ZeroOrMore)],
            st_v(ItemTypeV::MapType(None), OccurrenceIndicator::ExactlyOne),
        ),

        entry_v(
            "http://www.w3.org/2005/xpath-functions/map"@,
            "find"@,
            2usize,
            BuiltIn::MapFind,
            seq![st_v(ItemTypeV::Item, OccurrenceIndicator::ZeroOrMore), st_v(ItemTypeV::AnyAtomicType, OccurrenceIndicator::ExactlyOne)],
            st_v(ItemTypeV::Array(None), OccurrenceIndicator::ExactlyOne),
        ),

    ]
}


/// A part of `builtin_table`, in registration order.
pub open spec fn builtin_part_6() -> Seq<EntryView> {
    seq![

        entry_v(
            "http://www.w3.org/2005/xpath-functions/map"@,
            "entry"@,
            2usize,
            BuiltIn::MapEntry,
            seq![st_v(ItemTypeV::AnyAtomicType, OccurrenceIndicator::ExactlyOne), st_v(ItemTypeV::Item, OccurrenceIndicator::ZeroOrMore)],
            st_v(ItemTypeV::MapType(None), OccurrenceIndicator::ExactlyOne),
        ),

        entry_v(
            "http://www.w3.org/2005/xpath-functions/map"@,
            "remove"@,
            2usize,
            BuiltIn::MapRemove,
            seq![st_v(ItemTypeV::MapType(None), OccurrenceIndicator::ExactlyOne), st_v(ItemTypeV::AnyAtomicType, OccurrenceIndicator::ZeroOrMore)],
            st_v(ItemTypeV::MapType(None), OccurrenceIndicator::ExactlyOne),
        ),

        entry_v(
            "http://www.w3.org/2005/xpath-functions/map"@,
            "for-each"@,
            2usize,
            BuiltIn::MapForEach,
            seq![st_v(ItemTypeV::MapType(None), OccurrenceIndicator::ExactlyOne), st_v(ItemTypeV::Function { args: Some(seq![st_v(ItemTypeV::AnyAtomicType, OccurrenceIndicator::ExactlyOne), st_v(ItemTypeV::Item, OccurrenceIndicator::ZeroOrMore)]), st: Some(Box::new(st_v(ItemTypeV::Item, OccurrenceIndicator::ZeroOrMore))) }, OccurrenceIndicator::ExactlyOne), st_v(ItemTypeV::AnyAtomicType, OccurrenceIndicator::ZeroOrMore)],
            st_v(ItemTypeV::MapType(None), OccurrenceIndicator::ExactlyOne),
        ),

        entry_v(
            "http://www.w3.org/2005/xpath-functions/array"@,
            "size"@,
            1usize,
            BuiltIn::ArraySize,
            seq![st_v(ItemTypeV::Array(None), OccurrenceIndicator::ExactlyOne)],
            st_v(ItemTypeV::AtomicOrUnionType(xs_qname_view("integer"@)), OccurrenceIndicator::ExactlyOne),
        ),

        entry_v(
            "http://www.w3.org/2005/xpath-functions/array"@,
            "get"@,
            2usize,
            BuiltIn::ArrayGet,
            seq![st_v(ItemTypeV::Array(None), OccurrenceIndicator::ExactlyOne), st_v(ItemTypeV::AtomicOrUnionType(xs_qname_view("integer"@)), OccurrenceIndicator::ExactlyOne)],
            st_v(ItemTypeV::Item, OccurrenceIndicator::ZeroOrMore),
        ),

        entry_v(
            "http://www.w3.org/2005/xpath-functions/array"@,
            "put"@,
            3usize,
            BuiltIn::ArrayPut,
            seq![st_v(ItemTypeV::Array(None), OccurrenceIndicator::ExactlyOne), st_v(ItemTypeV::AtomicOrUnionType(xs_qname_view("integer"@)), OccurrenceIndicator::ExactlyOne), st_v(ItemTypeV::Item, OccurrenceIndicator::ZeroOrMore)],
            st_v(ItemTypeV::Array(None), OccurrenceIndicator::ExactlyOne),
        ),

        entry_v(
            "http://www.w3.org/2005/xpath-functions/array"@,
            "append"@,
            2usize,
            BuiltIn::ArrayAppend,
            seq![st_v(ItemTypeV::Array(None), OccurrenceIndicator::ExactlyOne), st_v(ItemTypeV::Item, OccurrenceIndicator::ZeroOrMore)],
            st_v(ItemTypeV::Array(None), OccurrenceIndicator::ExactlyOne),
        ),

        entry_v(
            "http://www.w3.org/2005/xpath-functions/array"@,
            "subarray"@,
            2usize,
            BuiltIn::ArraySubarray2,
            seq![st_v(ItemTypeV::Array(None), OccurrenceIndicator::ExactlyOne), st_v(ItemTypeV::AtomicOrUnionType(xs_qname_view("integer"@)), OccurrenceIndicator::ExactlyOne)],
            st_v(ItemTypeV::Array(None), OccurrenceIndicator::ExactlyOne),
        ),

        entry_v(
            "http://www.w3.org/2005/xpath-functions/array"@,
            "subarray"@,
            3usize,
            BuiltIn::ArraySubarray2,
            seq![st_v(ItemTypeV::Array(None), OccurrenceIndicator::ExactlyOne), st_v(ItemTypeV::AtomicOrUnionType(xs_qname_view("integer"@)), OccurrenceIndicator::ExactlyOne)],
            st_v(ItemTypeV::Array(None), OccurrenceIndicator::ExactlyOne),
        ),

        entry_v(
            "http://www.w3.org/2005/xpath-functions/array"@,
            "insert-before"@,
            3usize,
            BuiltIn::ArrayInsertBefore,
            seq![st_v(ItemTypeV::Array(None), OccurrenceIndicator::ExactlyOne), st_v(ItemTypeV::AtomicOrUnionType(xs_qname_view("integer"@)), OccurrenceIndicator::ExactlyOne), st_v(ItemTypeV::Item, OccurrenceIndicator::ZeroOrMore)],
            st_v(ItemTypeV::Array(None), OccurrenceIndicator::ExactlyOne),
        ),

    ]
}


/// A part of `builtin_table`, in registration order.
pub open spec fn builtin_part_7() -> Seq<EntryView> {
    seq![

        entry_v(
            "http://www.w3.org/2005/xpath-functions/array"@,
            "head"@,
            1usize,
            BuiltIn::ArrayHead,
            seq![st_v(ItemTypeV::Array(None), OccurrenceIndicator::ExactlyOne)],
            st_v(ItemTypeV::Item, OccurrenceIndicator::ZeroOrMore),
        ),

        entry_v(
            "http://www.w3.org/2005/xpath-functions/array"@,
            "tail"@,
            1usize,
            BuiltIn::ArrayTail,
            seq![st_v(ItemTypeV::Array(None), OccurrenceIndicator::ExactlyOne)],
            st_v(ItemTypeV::Array(None), OccurrenceIndicator::ExactlyOne),
        ),

        entry_v(
            "http://www.w3.org/2005/xpath-functions/array"@,
            "reverse"@,
            1usize,
            BuiltIn::ArrayReverse,
            seq![st_v(ItemTypeV::Array(None), OccurrenceIndicator::ExactlyOne)],
            st_v(ItemTypeV::Array(None), OccurrenceIndicator::ExactlyOne),
        ),

        entry_v(
            "http://www.w3.org/2005/xpath-functions/array"@,
            "join"@,
            usize::MAX,
            BuiltIn::ArrayJoin,
            seq![st_v(ItemTypeV::Array(None), OccurrenceIndicator::ZeroOrMore)],
            st_v(ItemTypeV::Array(None), OccurrenceIndicator::ExactlyOne),
        ),

        entry_v(
            "http://www.w3.org/2005/xpath-functions/array"@,
            "for-each"@,
            2usize,
            BuiltIn::ArrayForEach,
            seq![st_v(ItemTypeV::Array(None), OccurrenceIndicator::ExactlyOne), st_v(ItemTypeV::Function { args: Some(seq![st_v(ItemTypeV::Item, OccurrenceIndicator::ZeroOrMore)]), st: Some(Box::new(st_v(ItemTypeV::Item, OccurrenceIndicator::ZeroOrMore))) }, OccurrenceIndicator::ExactlyOne)],
            st_v(ItemTypeV::Array(None), OccurrenceIndicator::ExactlyOne),
        ),

        entry_v(
            "http://www.w3.org/2005/xpath-functions/array"@,
            "filter"@,
            2usize,
            BuiltIn::ArrayFilter,
            seq![st_v(ItemTypeV::Array(None), OccurrenceIndicator::ExactlyOne), st_v(ItemTypeV::Function { args: Some(seq![st_v(ItemTypeV::Item, OccurrenceIndicator::ZeroOrMore)]), st: Some(Box::new(st_v(ItemTypeV::AtomicOrUnionType(xs_qname_view("boolean"@)), OccurrenceIndicator::ExactlyOne))) }, OccurrenceIndicator::ExactlyOne)],
            st_v(ItemTypeV::Array(None), OccurrenceIndicator::ExactlyOne),
        ),

        entry_v(
            "http://www.w3.org/2005/xpath-functions/array"@,
            "fold-left"@,
            3usize,
            BuiltIn::ArrayFoldLeft,
            seq![st_v(ItemTypeV::Array(None), OccurrenceIndicator::ExactlyOne), st_v(ItemTypeV::Item, OccurrenceIndicator::ZeroOrMore), st_v(ItemTypeV::Function { args: Some(seq![st_v(ItemTypeV::Item, OccurrenceIndicator::ZeroOrMore), st_v(ItemTypeV::Item, OccurrenceIndicator::ZeroOrMore)]), st: Some(Box::new(st_v(ItemTypeV::Item, OccurrenceIndicator::ZeroOrMore))) }, OccurrenceIndicator::ExactlyOne)],
            st_v(ItemTypeV::Item, OccurrenceIndicator::ZeroOrMore),
        ),

        entry_v(
            "http://www.w3.org/2005/xpath-functions/array"@,
            "fold-right"@,
            3usize,
            BuiltIn::ArrayFoldRight,
            seq![st_v(ItemTypeV::Array(None), OccurrenceIndicator::ExactlyOne), st_v(ItemTypeV::Item, OccurrenceIndicator::ZeroOrMore), st_v(ItemTypeV::Function { args: Some(seq![st_v(ItemTypeV::Item, OccurrenceIndicator::ZeroOrMore), st_v(ItemTypeV::Item, OccurrenceIndicator::ZeroOrMore)]), st: Some(Box::new(st_v(ItemTypeV::Item, OccurrenceIndicator::ZeroOrMore))) }, OccurrenceIndicator::ExactlyOne)],
            st_v(ItemTypeV::Item, OccurrenceIndicator::ZeroOrMore),
        ),

        entry_v(
            "http://www.w3.org/2005/xpath-functions/array"@,
            "for-each-pair"@,
            3usize,
            BuiltIn::ArrayForEachPair,
            seq![st_v(ItemTypeV::Array(None), OccurrenceIndicator::ExactlyOne), st_v(ItemTypeV::Array(None), OccurrenceIndicator::ExactlyOne), st_v(ItemTypeV::Function { args: Some(seq![st_v(ItemTypeV::Item, OccurrenceIndicator::ZeroOrMore), st_v(ItemTypeV::Item, OccurrenceIndicator::ZeroOrMore)]), st: Some(Box::new(st_v(ItemTypeV::Item, OccurrenceIndicator::ZeroOrMore))) }, OccurrenceIndicator::ExactlyOne)],
            st_v(ItemTypeV::Array(None), OccurrenceIndicator::ExactlyOne),
        ),

        entry_v(
            "http://www.w3.org/2005/xpath-functions/array"@,
            "sort"@,
            1usize,
            BuiltIn::ArraySort1,
            seq![st_v(ItemTypeV::Array(None), OccurrenceIndicator::ExactlyOne)],
            st_v(ItemTypeV::Array(None), OccurrenceIndicator::ExactlyOne),
        ),

    ]
}


/// A part of `builtin_table`, in registration order.
pub open spec fn builtin_part_8() -> Seq<EntryView> {
    seq![

        entry_v(
            "http://www.w3.org/2005/xpath-functions/array"@,
            "sort"@,
            2usize,
            BuiltIn::ArraySort2,
            seq![st_v(ItemTypeV::Array(None), OccurrenceIndicator::ExactlyOne), st_v(ItemTypeV::AtomicOrUnionType(xs_qname_view("string"@)), OccurrenceIndicator::ZeroOrOne)],
            st_v(ItemTypeV::Array(None), OccurrenceIndicator::ExactlyOne),
        ),

        entry_v(
            "http://www.w3.org/2005/xpath-functions/array"@,
            "sort"@,
            3usize,
            BuiltIn::ArraySort3,
            seq![st_v(ItemTypeV::Array(None), OccurrenceIndicator::ExactlyOne), st_v(ItemTypeV::AtomicOrUnionType(xs_qname_view("string"@)), OccurrenceIndicator::ZeroOrOne), st_v(ItemTypeV::Function { args: Some(seq![st_v(ItemTypeV::Item, OccurrenceIndicator::ZeroOrMore)]), st: Some(Box::new(st_v(ItemTypeV::AnyAtomicType, OccurrenceIndicator::ZeroOrMore))) }, OccurrenceIndicator::ExactlyOne)],
            st_v(ItemTypeV::Array(None), OccurrenceIndicator::ExactlyOne),
        ),

        entry_v(
            "http://www.w3.org/2005/xpath-functions/array"@,
            "flatten"@,
            1usize,
            BuiltIn::ArrayFlatten,
            seq![st_v(ItemTypeV::Item, OccurrenceIndicator::ZeroOrOne)],
            st_v(ItemTypeV::Item, OccurrenceIndicator::ZeroOrOne),
        ),

        entry_v(
            "http://www.w3.org/2005/xpath-functions"@,
            "current-dateTime"@,
            0usize,
            BuiltIn::CurrentDateTime,
            seq![],
            st_v(ItemTypeV::AtomicOrUnionType(xs_qname_view("dateTimeStamp"@)), OccurrenceIndicator::ZeroOrOne),
        ),

        entry_v(
            "http://www.w3.org/2005/xpath-functions"@,
            "current-date"@,
            0usize,
            BuiltIn::CurrentDate,
            seq![],
            st_v(ItemTypeV::AtomicOrUnionType(xs_qname_view("date"@)), OccurrenceIndicator::ZeroOrOne),
        ),

        entry_v(
            "http://www.w3.org/2005/xpath-functions"@,
            "current-time"@,
            0usize,
            BuiltIn::CurrentTime,
            seq![],
            st_v(ItemTypeV::AtomicOrUnionType(xs_qname_view("time"@)), OccurrenceIndicator::ZeroOrOne),
        ),

        entry_v(
            "http://www.w3.org/2005/xpath-functions"@,
            "year-from-date"@,
            1usize,
            BuiltIn::YearFromDate,
            seq![st_v(ItemTypeV::AtomicOrUnionType(xs_qname_view("date"@)), OccurrenceIndicator::ZeroOrOne)],
            st_v(ItemTypeV::AtomicOrUnionType(xs_qname_view("integer"@)), OccurrenceIndicator::ZeroOrOne),
        ),

        entry_v(
            "http://www.w3.org/2005/xpath-functions"@,
            "month-from-date"@,
            1usize,
            BuiltIn::MonthFromDate,
            seq![st_v(ItemTypeV::AtomicOrUnionType(xs_qname_view("date"@)), OccurrenceIndicator::ZeroOrOne)],
            st_v(ItemTypeV::AtomicOrUnionType(xs_qname_view("integer"@)), OccurrenceIndicator::ZeroOrOne),
        ),

        entry_v(
            "http://www.w3.org/2005/xpath-functions"@,
            "day-from-date"@,
            1usize,
            BuiltIn::DayFromDate,
            seq![st_v(ItemTypeV::AtomicOrUnionType(xs_qname_view("date"@)), OccurrenceIndicator::ZeroOrOne)],
            st_v(ItemTypeV::AtomicOrUnionType(xs_qname_view("integer"@)), OccurrenceIndicator::ZeroOrOne),
        ),

        entry_v(
            "http://www.w3.org/2005/xpath-functions"@,
            "days-from-duration"@,
            1usize,
            BuiltIn::DaysFromDuration,
            seq![st_v(ItemTypeV::AtomicOrUnionType(xs_qname_view("duration"@)), OccurrenceIndicator::ZeroOrOne)],
            st_v(ItemTypeV::AtomicOrUnionType(xs_qname_view("integer"@)), OccurrenceIndicator::ZeroOrOne),
        ),

    ]
}


/// A part of `builtin_table`, in registration order.
pub open spec fn builtin_part_9() -> Seq<EntryView> {
    seq![

        entry_v(
            "http://www.w3.org/2005/xpath-functions"@,
            "timezone-from-time"@,
            1usize,
            BuiltIn::TimezoneFromDateTime,
            seq![st_v(ItemTypeV::AtomicOrUnionType(xs_qname_view("dateTime"@)), OccurrenceIndicator::ZeroOrOne)],
            st_v(ItemTypeV::AtomicOrUnionType(xs_qname_view("dayTimeDuration"@)), OccurrenceIndicator::ZeroOrOne),
        ),

        entry_v(
            "http://www.w3.org/2005/xpath-functions"@,
            "timezone-from-time"@,
            1usize,
            BuiltIn::TimezoneFromDate,
            seq![st_v(ItemTypeV::AtomicOrUnionType(xs_qname_view("date"@)), OccurrenceIndicator::ZeroOrOne)],
            st_v(ItemTypeV::AtomicOrUnionType(xs_qname_view("dayTimeDuration"@)), OccurrenceIndicator::ZeroOrOne),
        ),

        entry_v(
            "http://www.w3.org/2005/xpath-functions"@,
            "timezone-from-time"@,
            1usize,
            BuiltIn::TimezoneFromTime,
            seq![st_v(ItemTypeV::AtomicOrUnionType(xs_qname_view("time"@)), OccurrenceIndicator::ZeroOrOne)],
            st_v(ItemTypeV::AtomicOrUnionType(xs_qname_view("dayTimeDuration"@)), OccurrenceIndicator::ZeroOrOne),
        ),

        entry_v(
            "http://www.w3.org/2005/xpath-functions"@,
            "for-each"@,
            2usize,
            BuiltIn::ForEach,
            seq![st_v(ItemTypeV::Item, OccurrenceIndicator::ZeroOrMore), st_v(ItemTypeV::Function { args: Some(seq![st_v(ItemTypeV::Item, OccurrenceIndicator::ExactlyOne)]), st: Some(Box::new(st_v(ItemTypeV::Item, OccurrenceIndicator::ZeroOrMore))) }, OccurrenceIndicator::ExactlyOne)],
            st_v(ItemTypeV::AtomicOrUnionType(xs_qname_view("integer"@)), OccurrenceIndicator::ZeroOrOne),
        ),

        entry_v(
            "http://www.w3.org/2005/xpath-functions"@,
            "filter"@,
            2usize,
            BuiltIn::Filter,
            seq![st_v(ItemTypeV::Item, OccurrenceIndicator::ZeroOrMore), st_v(ItemTypeV::Function { args: Some(seq![st_v(ItemTypeV::Item, OccurrenceIndicator::ExactlyOne)]), st: Some(Box::new(st_v(ItemTypeV::AtomicOrUnionType(xs_qname_view("boolean"@)), OccurrenceIndicator::ExactlyOne))) }, OccurrenceIndicator::ExactlyOne)],
            st_v(ItemTypeV::Item, OccurrenceIndicator::ZeroOrMore),
        ),

        entry_v(
            "http://www.w3.org/2005/xpath-functions"@,
            "fold-left"@,
            3usize,
            BuiltIn::FoldLeft,
            seq![st_v(ItemTypeV::Item, OccurrenceIndicator::ZeroOrMore), st_v(ItemTypeV::Item, OccurrenceIndicator::ZeroOrMore), st_v(ItemTypeV::Function { args: Some(seq![st_v(ItemTypeV::Item, OccurrenceIndicator::ZeroOrMore), st_v(ItemTypeV::Item, OccurrenceIndicator::ExactlyOne)]), st: Some(Box::new(st_v(ItemTypeV::Item, OccurrenceIndicator::ZeroOrMore))) }, OccurrenceIndicator::ExactlyOne)],
            st_v(ItemTypeV::Item, OccurrenceIndicator::ZeroOrMore),
        ),

        entry_v(
            "http://www.w3.org/2005/xpath-functions"@,
            "fold-right"@,
            3usize,
            BuiltIn::FoldRight,
            seq![st_v(ItemTypeV::Item, OccurrenceIndicator::ZeroOrMore), st_v(ItemTypeV::Item, OccurrenceIndicator::ZeroOrMore), st_v(ItemTypeV::Function { args: Some(seq![st_v(ItemTypeV::Item, OccurrenceIndicator::ExactlyOne), st_v(ItemTypeV::Item, OccurrenceIndicator::ZeroOrMore)]), st: Some(Box::new(st_v(ItemTypeV::Item, OccurrenceIndicator::ZeroOrMore))) }, OccurrenceIndicator::ExactlyOne)],
            st_v(ItemTypeV::Item, OccurrenceIndicator::ZeroOrMore),
        ),

        entry_v(
            "http://www.w3.org/2005/xpath-functions"@,
            "for-each-pair"@,
            3usize,
            BuiltIn::ForEachPair,
            seq![st_v(ItemTypeV::Item, OccurrenceIndicator::ZeroOrMore), st_v(ItemTypeV::Item, OccurrenceIndicator::ZeroOrMore), st_v(ItemTypeV::Function { args: Some(seq![st_v(ItemTypeV::Item, OccurrenceIndicator::ExactlyOne), st_v(ItemTypeV::Item, OccurrenceIndicator::ZeroOrMore)]), st: Some(Box::new(st_v(ItemTypeV::Item, OccurrenceIndicator::ZeroOrMore))) }, OccurrenceIndicator::ExactlyOne)],
            st_v(ItemTypeV::Item, OccurrenceIndicator::ZeroOrMore),
        ),

        entry_v(
            "http://www.w3.org/2005/xpath-functions"@,
            "sort"@,
            1usize,
            BuiltIn::Sort1,
            seq![st_v(ItemTypeV::Item, OccurrenceIndicator::ZeroOrMore)],
            st_v(ItemTypeV::Item, OccurrenceIndicator::ZeroOrMore),
        ),

        entry_v(
            "http://www.w3.org/2005/xpath-functions"@,
            "sort"@,
            2usize,
            BuiltIn::Sort2,
            seq![st_v(ItemTypeV::Item, OccurrenceIndicator::ZeroOrMore), st_v(ItemTypeV::AtomicOrUnionType(xs_qname_view("string"@)), OccurrenceIndicator::ZeroOrOne)],
            st_v(ItemTypeV::Item, OccurrenceIndicator::ZeroOrMore),
        ),

    ]
}


/// A part of `builtin_table`, in registration order.
pub open spec fn builtin_part_10() -> Seq<EntryView> {
    seq![

        entry_v(
            "http://www.w3.org/2005/xpath-functions"@,
            "sort"@,
            3usize,
            BuiltIn::Sort3,
            seq![st_v(ItemTypeV::Item, OccurrenceIndicator::ZeroOrMore), st_v(ItemTypeV::AtomicOrUnionType(xs_qname_view("string"@)), OccurrenceIndicator::ZeroOrOne), st_v(ItemTypeV::Function { args: Some(seq![st_v(ItemTypeV::Item, OccurrenceIndicator::ExactlyOne)]), st: Some(Box::new(st_v(ItemTypeV::AnyAtomicType, OccurrenceIndicator::ZeroOrMore))) }, OccurrenceIndicator::ExactlyOne)],
            st_v(ItemTypeV::Item, OccurrenceIndicator::ZeroOrMore),
        ),

        entry_v(
            "http://www.w3.org/2005/xpath-functions"@,
            "apply"@,
            2usize,
            BuiltIn::Apply,
            seq![st_v(ItemTypeV::Function { args: None, st: None }, OccurrenceIndicator::ExactlyOne), st_v(ItemTypeV::Array(None), OccurrenceIndicator::ExactlyOne)],
            st_v(ItemTypeV::Item, OccurrenceIndicator::ZeroOrMore),
        ),

        entry_v(
            "http://www.w3.org/2005/xpath-functions"@,
            "error"@,
            0usize,
            BuiltIn::Error0,
            seq![],
            st_v(ItemTypeV::NoneType, OccurrenceIndicator::ExactlyOne),
        ),

        entry_v(
            "http://www.w3.org/2005/xpath-functions"@,
            "error"@,
            1usize,
            BuiltIn::Error1,
            seq![st_v(ItemTypeV::AtomicOrUnionType(xs_qname_view("QName"@)), OccurrenceIndicator::ZeroOrOne)],
            st_v(ItemTypeV::NoneType, OccurrenceIndicator::ExactlyOne),
        ),

        entry_v(
            "http://www.w3.org/2005/xpath-functions"@,
            "error"@,
            2usize,
            BuiltIn::Error2,
            seq![st_v(ItemTypeV::AtomicOrUnionType(xs_qname_view("QName"@)), OccurrenceIndicator::ZeroOrOne), st_v(ItemTypeV::AtomicOrUnionType(xs_qname_view("string"@)), OccurrenceIndicator::ExactlyOne)],
            st_v(ItemTypeV::NoneType, OccurrenceIndicator::ExactlyOne),
        ),

        entry_v(
            "http://www.w3.org/2005/xpath-functions"@,
            "error"@,
            3usize,
            BuiltIn::Error3,
            seq![st_v(ItemTypeV::AtomicOrUnionType(xs_qname_view("QName"@)), OccurrenceIndicator::ZeroOrOne), st_v(ItemTypeV::AtomicOrUnionType(xs_qname_view("string"@)), OccurrenceIndicator::ExactlyOne), st_v(ItemTypeV::Item, OccurrenceIndicator::ZeroOrMore)],
            st_v(ItemTypeV::NoneType, OccurrenceIndicator::ExactlyOne),
        ),

        entry_v(
            "http://www.w3.org/2005/xpath-functions"@,
            "format-number"@,
            2usize,
            BuiltIn::MathFormatNumber2,
            seq![st_v(ItemTypeV::AtomicOrUnionType(xs_qname_view("numeric"@)), OccurrenceIndicator::ZeroOrOne), st_v(ItemTypeV::AtomicOrUnionType(xs_qname_view("string"@)), OccurrenceIndicator::ExactlyOne)],
            st_v(ItemTypeV::AtomicOrUnionType(xs_qname_view("string"@)), OccurrenceIndicator::ExactlyOne),
        ),

        entry_v(
            "http://www.w3.org/2005/xpath-functions"@,
            "format-number"@,
            3usize,
            BuiltIn::MathFormatNumber3,
            seq![st_v(ItemTypeV::AtomicOrUnionType(xs_qname_view("numeric"@)), OccurrenceIndicator::ZeroOrOne), st_v(ItemTypeV::AtomicOrUnionType(xs_qname_view("string"@)), OccurrenceIndicator::ExactlyOne), st_v(ItemTypeV::AtomicOrUnionType(xs_qname_view("string"@)), OccurrenceIndicator::ZeroOrOne)],
            st_v(ItemTypeV::AtomicOrUnionType(xs_qname_view("string"@)), OccurrenceIndicator::ExactlyOne),
        ),

        entry_v(
            "http://www.w3.org/2005/xpath-functions"@,
            "number"@,
            0usize,
            BuiltIn::MathNumber0,
            seq![],
            st_v(ItemTypeV::AtomicOrUnionType(xs_qname_view("double"@)), OccurrenceIndicator::ExactlyOne),
        ),

        entry_v(
            "http://www.w3.org/2005/xpath-functions"@,
            "number"@,
            1usize,
            BuiltIn::MathNumber1,
            seq![st_v(ItemTypeV::AnyAtomicType, OccurrenceIndicator::ZeroOrOne)],
            st_v(ItemTypeV::AtomicOrUnionType(xs_qname_view("double"@)), OccurrenceIndicator::ExactlyOne),
        ),

    ]
}


/// A part of `builtin_table`, in registration order.
pub open spec fn builtin_part_11() -> Seq<EntryView> {
    seq![

        entry_v(
            "http://www.w3.org/2005/xpath-functions"@,
            "count"@,
            1usize,
            BuiltIn::Count,
            seq![st_v(ItemTypeV::Item, OccurrenceIndicator::ZeroOrMore)],
            st_v(ItemTypeV::AtomicOrUnionType(xs_qname_view("integer"@)), OccurrenceIndicator::ExactlyOne),
        ),

        entry_v(
            "http://www.w3.org/2005/xpath-functions"@,
            "avg"@,
            1usize,
            BuiltIn::Avg,
            seq![st_v(ItemTypeV::AnyAtomicType, OccurrenceIndicator::ZeroOrMore)],
            st_v(ItemTypeV::AnyAtomicType, OccurrenceIndicator::ZeroOrOne),
        ),

        entry_v(
            "http://www.w3.org/2005/xpath-functions"@,
            "max"@,
            1usize,
            BuiltIn::Max1,
            seq![st_v(ItemTypeV::AnyAtomicType, OccurrenceIndicator::ZeroOrMore)],
            st_v(ItemTypeV::AnyAtomicType, OccurrenceIndicator::ZeroOrOne),
        ),

        entry_v(
            "http://www.w3.org/2005/xpath-functions"@,
            "max"@,
            2usize,
            BuiltIn::Max2,
            seq![st_v(ItemTypeV::AnyAtomicType, OccurrenceIndicator::ZeroOrMore), st_v(ItemTypeV::AtomicOrUnionType(xs_qname_view("string"@)), OccurrenceIndicator::ExactlyOne)],
            st_v(ItemTypeV::AnyAtomicType, OccurrenceIndicator::ZeroOrOne),
        ),

        entry_v(
            "http://www.w3.org/2005/xpath-functions"@,
            "min"@,
            1usize,
            BuiltIn::Min1,
            seq![st_v(ItemTypeV::AnyAtomicType, OccurrenceIndicator::ZeroOrMore)],
            st_v(ItemTypeV::AnyAtomicType, OccurrenceIndicator::ZeroOrOne),
        ),

        entry_v(
            "http://www.w3.org/2005/xpath-functions"@,
            "min"@,
            2usize,
            BuiltIn::Min2,
            seq![st_v(ItemTypeV::AnyAtomicType, OccurrenceIndicator::ZeroOrMore), st_v(ItemTypeV::AtomicOrUnionType(xs_qname_view("string"@)), OccurrenceIndicator::ExactlyOne)],
            st_v(ItemTypeV::AnyAtomicType, OccurrenceIndicator::ZeroOrOne),
        ),

        entry_v(
            "http://www.w3.org/2005/xpath-functions"@,
            "sum"@,
            1usize,
            BuiltIn::Sum1,
            seq![st_v(ItemTypeV::AnyAtomicType, OccurrenceIndicator::ZeroOrMore)],
            st_v(ItemTypeV::AnyAtomicType, OccurrenceIndicator::ZeroOrOne),
        ),

        entry_v(
            "http://www.w3.org/2005/xpath-functions"@,
            "sum"@,
            2usize,
            BuiltIn::Sum2,
            seq![st_v(ItemTypeV::AnyAtomicType, OccurrenceIndicator::ZeroOrMore), st_v(ItemTypeV::AnyAtomicType, OccurrenceIndicator::ZeroOrOne)],
            st_v(ItemTypeV::AnyAtomicType, OccurrenceIndicator::ZeroOrOne),
        ),

        entry_v(
            "http://www.w3.org/2005/xpath-functions/math"@,
            "pi"@,
            0usize,
            BuiltIn::MathPi,
            seq![],
            st_v(ItemTypeV::AtomicOrUnionType(xs_qname_view("double"@)), OccurrenceIndicator::ExactlyOne),
        ),

        entry_v(
            "http://www.w3.org/2005/xpath-functions"@,
            "abs"@,
            1usize,
            BuiltIn::MathAbs,
            seq![st_v(ItemTypeV::AtomicOrUnionType(xs_qname_view("numeric"@)), OccurrenceIndicator::ZeroOrOne)],
            st_v(ItemTypeV::AtomicOrUnionType(xs_qname_view("numeric"@)), OccurrenceIndicator::ZeroOrOne),
        ),

    ]
}


/// A part of `builtin_table`, in registration order.
pub open spec fn builtin_part_12() -> Seq<EntryView> {
    seq![

        entry_v(
            "http://www.w3.org/2005/xpath-functions"@,
            "ceiling"@,
            1usize,
            BuiltIn::MathCeiling,
            seq![st_v(ItemTypeV::AtomicOrUnionType(xs_qname_view("numeric"@)), OccurrenceIndicator::ZeroOrOne)],
            st_v(ItemTypeV::AtomicOrUnionType(xs_qname_view("numeric"@)), OccurrenceIndicator::ZeroOrOne),
        ),

        entry_v(
            "http://www.w3.org/2005/xpath-functions"@,
            "floor"@,
            1usize,
            BuiltIn::MathFloor,
            seq![st_v(ItemTypeV::AtomicOrUnionType(xs_qname_view("numeric"@)), OccurrenceIndicator::ZeroOrOne)],
            st_v(ItemTypeV::AtomicOrUnionType(xs_qname_view("numeric"@)), OccurrenceIndicator::ZeroOrOne),
        ),

        entry_v(
            "http://www.w3.org/2005/xpath-functions"@,
            "round"@,
            1usize,
            BuiltIn::MathRound1,
            seq![st_v(ItemTypeV::AtomicOrUnionType(xs_qname_view("numeric"@)), OccurrenceIndicator::ZeroOrOne)],
            st_v(ItemTypeV::AtomicOrUnionType(xs_qname_view("numeric"@)), OccurrenceIndicator::ZeroOrOne),
        ),

        entry_v(
            "http://www.w3.org/2005/xpath-functions"@,
            "round"@,
            2usize,
            BuiltIn::MathRound2,
            seq![st_v(ItemTypeV::AtomicOrUnionType(xs_qname_view("numeric"@)), OccurrenceIndicator::ZeroOrOne), st_v(ItemTypeV::AtomicOrUnionType(xs_qname_view("integer"@)), OccurrenceIndicator::ExactlyOne)],
            st_v(ItemTypeV::AtomicOrUnionType(xs_qname_view("numeric"@)), OccurrenceIndicator::ZeroOrOne),
        ),

        entry_v(
            "http://www.w3.org/2005/xpath-functions"@,
            "round-half-to-even"@,
            1usize,
            BuiltIn::MathRoundHalfToEven1,
            seq![st_v(ItemTypeV::AtomicOrUnionType(xs_qname_view("numeric"@)), OccurrenceIndicator::ZeroOrOne)],
            st_v(ItemTypeV::AtomicOrUnionType(xs_qname_view("numeric"@)), OccurrenceIndicator::ZeroOrOne),
        ),

        entry_v(
            "http://www.w3.org/2005/xpath-functions"@,
            "round-half-to-even"@,
            2usize,
            BuiltIn::MathRoundHalfToEven2,
            seq![st_v(ItemTypeV::AtomicOrUnionType(xs_qname_view("numeric"@)), OccurrenceIndicator::ZeroOrOne), st_v(ItemTypeV::AtomicOrUnionType(xs_qname_view("integer"@)), OccurrenceIndicator::ExactlyOne)],
            st_v(ItemTypeV::AtomicOrUnionType(xs_qname_view("numeric"@)), OccurrenceIndicator::ZeroOrOne),
        ),

        entry_v(
            "http://www.w3.org/2005/xpath-functions"@,
            "boolean"@,
            1usize,
            BuiltIn::Boolean,
            seq![st_v(ItemTypeV::Item, OccurrenceIndicator::ZeroOrMore)],
            st_v(ItemTypeV::AtomicOrUnionType(xs_qname_view("boolean"@)), OccurrenceIndicator::ExactlyOne),
        ),

        entry_v(
            "http://www.w3.org/2005/xpath-functions"@,
            "true"@,
            0usize,
            BuiltIn::True,
            seq![],
            st_v(ItemTypeV::AtomicOrUnionType(xs_qname_view("boolean"@)), OccurrenceIndicator::ExactlyOne),
        ),

        entry_v(
            "http://www.w3.org/2005/xpath-functions"@,
            "false"@,
            0usize,
            BuiltIn::False,
            seq![],
            st_v(ItemTypeV::AtomicOrUnionType(xs_qname_view("boolean"@)), OccurrenceIndicator::ExactlyOne),
        ),

        entry_v(
            "http://www.w3.org/2005/xpath-functions"@,
            "not"@,
            1usize,
            BuiltIn::Not,
            seq![st_v(ItemTypeV::Item, OccurrenceIndicator::ZeroOrMore)],
            st_v(ItemTypeV::AtomicOrUnionType(xs_qname_view("boolean"@)), OccurrenceIndicator::ExactlyOne),
        ),

    ]
}


/// A part of `builtin_table`, in registration order.
pub open spec fn builtin_part_13() -> Seq<EntryView> {
    seq![

        entry_v(
            "http://www.w3.org/2005/xpath-functions"@,
            "string"@,
            0usize,
            BuiltIn::String0,
            seq![],
            st_v(ItemTypeV::AtomicOrUnionType(xs_qname_view("string"@)), OccurrenceIndicator::ExactlyOne),
        ),

        entry_v(
            "http://www.w3.org/2005/xpath-functions"@,
            "string"@,
            1usize,
            BuiltIn::String1,
            seq![st_v(ItemTypeV::Item, OccurrenceIndicator::ZeroOrOne)],
            st_v(ItemTypeV::AtomicOrUnionType(xs_qname_view("string"@)), OccurrenceIndicator::ExactlyOne),
        ),

        entry_v(
            "http://www.w3.org/2005/xpath-functions"@,
            "codepoints-to-string"@,
            1usize,
            BuiltIn::CodepointsToString,
            seq![st_v(ItemTypeV::AtomicOrUnionType(xs_qname_view("integer"@)), OccurrenceIndicator::ZeroOrMore)],
            st_v(ItemTypeV::AtomicOrUnionType(xs_qname_view("string"@)), OccurrenceIndicator::ExactlyOne),
        ),

        entry_v(
            "http://www.w3.org/2005/xpath-functions"@,
            "string-to-codepoints"@,
            1usize,
            BuiltIn::StringToCodepoints,
            seq![st_v(ItemTypeV::AtomicOrUnionType(xs_qname_view("string"@)), OccurrenceIndicator::ZeroOrOne)],
            st_v(ItemTypeV::AtomicOrUnionType(xs_qname_view("integer"@)), OccurrenceIndicator::ZeroOrMore),
        ),

        entry_v(
            "http://www.w3.org/2005/xpath-functions"@,
            "string-join"@,
            1usize,
            BuiltIn::StringJoin1,
            seq![st_v(ItemTypeV::AnyAtomicType, OccurrenceIndicator::ZeroOrMore)],
            st_v(ItemTypeV::AtomicOrUnionType(xs_qname_view("string"@)), OccurrenceIndicator::ExactlyOne),
        ),

        entry_v(
            "http://www.w3.org/2005/xpath-functions"@,
            "string-join"@,
            2usize,
            BuiltIn::StringJoin2,
            seq![st_v(ItemTypeV::AnyAtomicType, OccurrenceIndicator::ZeroOrMore), st_v(ItemTypeV::AtomicOrUnionType(xs_qname_view("string"@)), OccurrenceIndicator::ExactlyOne)],
            st_v(ItemTypeV::AtomicOrUnionType(xs_qname_view("string"@)), OccurrenceIndicator::ExactlyOne),
        ),

        entry_v(
            "http://www.w3.org/2005/xpath-functions"@,
            "string-length"@,
            0usize,
            BuiltIn::StringLength0,
            seq![],
            st_v(ItemTypeV::AtomicOrUnionType(xs_qname_view("integer"@)), OccurrenceIndicator::ExactlyOne),
        ),

        entry_v(
            "http://www.w3.org/2005/xpath-functions"@,
            "string-length"@,
            1usize,
            BuiltIn::StringLength1,
            seq![st_v(ItemTypeV::AtomicOrUnionType(xs_qname_view("string"@)), OccurrenceIndicator::ZeroOrOne)],
            st_v(ItemTypeV::AtomicOrUnionType(xs_qname_view("integer"@)), OccurrenceIndicator::ExactlyOne),
        ),

        entry_v(
            "http://www.w3.org/2005/xpath-functions"@,
            "normalize-space"@,
            0usize,
            BuiltIn::NormalizeSpace0,
            seq![],
            st_v(ItemTypeV::AtomicOrUnionType(xs_qname_view("integer"@)), OccurrenceIndicator::ExactlyOne),
        ),

        entry_v(
            "http://www.w3.org/2005/xpath-functions"@,
            "normalize-space"@,
            1usize,
            BuiltIn::NormalizeSpace1,
            seq![st_v(ItemTypeV::AtomicOrUnionType(xs_qname_view("string"@)), OccurrenceIndicator::ZeroOrOne)],
            st_v(ItemTypeV::AtomicOrUnionType(xs_qname_view("integer"@)), OccurrenceIndicator::ExactlyOne),
        ),

    ]
}


/// A part of `builtin_table`, in registration order.
pub open spec fn builtin_part_14() -> Seq<EntryView> {
    seq![

        entry_v(
            "http://www.w3.org/2005/xpath-functions"@,
            "upper-case"@,
            1usize,
            BuiltIn::UpperCase,
            seq![st_v(ItemTypeV::AtomicOrUnionType(xs_qname_view("string"@)), OccurrenceIndicator::ZeroOrOne)],
            st_v(ItemTypeV::AtomicOrUnionType(xs_qname_view("string"@)), OccurrenceIndicator::ExactlyOne),
        ),

        entry_v(
            "http://www.w3.org/2005/xpath-functions"@,
            "lower-case"@,
            1usize,
            BuiltIn::LowerCase,
            seq![st_v(ItemTypeV::AtomicOrUnionType(xs_qname_view("string"@)), OccurrenceIndicator::ZeroOrOne)],
            st_v(ItemTypeV::AtomicOrUnionType(xs_qname_view("string"@)), OccurrenceIndicator::ExactlyOne),
        ),

        entry_v(
            "http://www.w3.org/2005/xpath-functions"@,
            "starts-with"@,
            2usize,
            BuiltIn::StartsWith2,
            seq![st_v(ItemTypeV::AtomicOrUnionType(xs_qname_view("string"@)), OccurrenceIndicator::ZeroOrOne), st_v(ItemTypeV::AtomicOrUnionType(xs_qname_view("string"@)), OccurrenceIndicator::ZeroOrOne)],
            st_v(ItemTypeV::AtomicOrUnionType(xs_qname_view("boolean"@)), OccurrenceIndicator::ExactlyOne),
        ),

        entry_v(
            "http://www.w3.org/2005/xpath-functions"@,
            "starts-with"@,
            3usize,
            BuiltIn::StartsWith3,
            seq![st_v(ItemTypeV::AtomicOrUnionType(xs_qname_view("string"@)), OccurrenceIndicator::ZeroOrOne), st_v(ItemTypeV::AtomicOrUnionType(xs_qname_view("string"@)), OccurrenceIndicator::ZeroOrOne), st_v(ItemTypeV::AtomicOrUnionType(xs_qname_view("string"@)), OccurrenceIndicator::ExactlyOne)],
            st_v(ItemTypeV::AtomicOrUnionType(xs_qname_view("boolean"@)), OccurrenceIndicator::ExactlyOne),
        ),

        entry_v(
            "http://www.w3.org/2005/xpath-functions"@,
            "ends-with"@,
            2usize,
            BuiltIn::EndsWith2,
            seq![st_v(ItemTypeV::AtomicOrUnionType(xs_qname_view("string"@)), OccurrenceIndicator::ZeroOrOne), st_v(ItemTypeV::AtomicOrUnionType(xs_qname_view("string"@)), OccurrenceIndicator::ZeroOrOne)],
            st_v(ItemTypeV::AtomicOrUnionType(xs_qname_view("boolean"@)), OccurrenceIndicator::ExactlyOne),
        ),

        entry_v(
            "http://www.w3.org/2005/xpath-functions"@,
            "ends-with"@,
            3usize,
            BuiltIn::EndsWith3,
            seq![st_v(ItemTypeV::AtomicOrUnionType(xs_qname_view("string"@)), OccurrenceIndicator::ZeroOrOne), st_v(ItemTypeV::AtomicOrUnionType(xs_qname_view("string"@)), OccurrenceIndicator::ZeroOrOne), st_v(ItemTypeV::AtomicOrUnionType(xs_qname_view("string"@)), OccurrenceIndicator::ExactlyOne)],
            st_v(ItemTypeV::AtomicOrUnionType(xs_qname_view("boolean"@)), OccurrenceIndicator::ExactlyOne),
        ),

        entry_v(
            "http://www.w3.org/2005/xpath-functions"@,
            "position"@,
            0usize,
            BuiltIn::Position,
            seq![],
            st_v(ItemTypeV::AtomicOrUnionType(xs_qname_view("integer"@)), OccurrenceIndicator::ExactlyOne),
        ),

        entry_v(
            "http://www.w3.org/2005/xpath-functions"@,
            "last"@,
            0usize,
            BuiltIn::Last,
            seq![],
            st_v(ItemTypeV::AtomicOrUnionType(xs_qname_view("integer"@)), OccurrenceIndicator::ExactlyOne),
        ),

        entry_v(
            "http://www.w3.org/2005/xpath-functions"@,
            "default-collation"@,
            0usize,
            BuiltIn::DefaultCollation,
            seq![],
            st_v(ItemTypeV::AtomicOrUnionType(xs_qname_view("string"@)), OccurrenceIndicator::ExactlyOne),
        ),

        entry_v(
            "http://www.w3.org/2005/xpath-functions"@,
            "default-language"@,
            0usize,
            BuiltIn::DefaultLanguage,
            seq![],
            st_v(ItemTypeV::AtomicOrUnionType(xs_qname_view("language"@)), OccurrenceIndicator::ExactlyOne),
        ),

    ]
}


/// A part of `builtin_table`, in registration order.
pub open spec fn builtin_part_15() -> Seq<EntryView> {
    seq![

        entry_v(
            "http://www.w3.org/2005/xpath-functions"@,
            "static-base-uri"@,
            0usize,
            BuiltIn::StaticBaseUri,
            seq![],
            st_v(ItemTypeV::AtomicOrUnionType(xs_qname_view("anyURI"@)), OccurrenceIndicator::ExactlyOne),
        ),

        entry_v(
            "http://www.w3.org/2005/xpath-functions"@,
            "function-lookup"@,
            0usize,
            BuiltIn::FunctionLookup,
            seq![st_v(ItemTypeV::AtomicOrUnionType(xs_qname_view("QName"@)), OccurrenceIndicator::ExactlyOne), st_v(ItemTypeV::AtomicOrUnionType(xs_qname_view("integer"@)), OccurrenceIndicator::ExactlyOne)],
            st_v(ItemTypeV::Function { args: None, st: None }, OccurrenceIndicator::ExactlyOne),
        ),

        entry_v(
            "http://www.w3.org/2005/xpath-functions"@,
            "function-name"@,
            0usize,
            BuiltIn::FunctionName,
            seq![st_v(ItemTypeV::Function { args: None, st: None }, OccurrenceIndicator::ExactlyOne)],
            st_v(ItemTypeV::AtomicOrUnionType(xs_qname_view("QName"@)), OccurrenceIndicator::ZeroOrOne),
        ),

        entry_v(
            "http://www.w3.org/2005/xpath-functions"@,
            "function-arity"@,
            0usize,
            BuiltIn::FunctionArity,
            seq![st_v(ItemTypeV::Function { args: None, st: None }, OccurrenceIndicator::ExactlyOne)],
            st_v(ItemTypeV::AtomicOrUnionType(xs_qname_view("integer"@)), OccurrenceIndicator::ZeroOrOne),
        ),

        entry_v(
            "http://www.w3.org/2005/xpath-functions"@,
            "data"@,
            0usize,
            BuiltIn::Data0,
            seq![],
            st_v(ItemTypeV::AnyAtomicType, OccurrenceIndicator::ZeroOrMore),
        ),

        entry_v(
            "http://www.w3.org/2005/xpath-functions"@,
            "data"@,
            1usize,
            BuiltIn::Data1,
            seq![st_v(ItemTypeV::Item, OccurrenceIndicator::ZeroOrMore)],
            st_v(ItemTypeV::AnyAtomicType, OccurrenceIndicator::ZeroOrMore),
        ),

        entry_v(
            "http://www.w3.org/2005/xpath-functions"@,
            "empty"@,
            1usize,
            BuiltIn::Empty,
            seq![st_v(ItemTypeV::Item, OccurrenceIndicator::ZeroOrMore)],
            st_v(ItemTypeV::AtomicOrUnionType(xs_qname_view("boolean"@)), OccurrenceIndicator::ExactlyOne),
        ),

        entry_v(
            "http://www.w3.org/2005/xpath-functions"@,
            "exists"@,
            1usize,
            BuiltIn::Exists,
            seq![st_v(ItemTypeV::Item, OccurrenceIndicator::ZeroOrMore)],
            st_v(ItemTypeV::AtomicOrUnionType(xs_qname_view("boolean"@)), OccurrenceIndicator::ExactlyOne),
        ),

        entry_v(
            "http://www.w3.org/2005/xpath-functions"@,
            "remove"@,
            2usize,
            BuiltIn::Remove,
            seq![st_v(ItemTypeV::Item, OccurrenceIndicator::ZeroOrMore), st_v(ItemTypeV::AtomicOrUnionType(xs_qname_view("integer"@)), OccurrenceIndicator::ExactlyOne)],
            st_v(ItemTypeV::Item, OccurrenceIndicator::ZeroOrMore),
        ),

        entry_v(
            "http://www.w3.org/2005/xpath-functions"@,
            "reverse"@,
            1usize,
            BuiltIn::Reverse,
            seq![st_v(ItemTypeV::Item, OccurrenceIndicator::ZeroOrMore)],
            st_v(ItemTypeV::Item, OccurrenceIndicator::ZeroOrMore),
        ),

    ]
}


/// A part of `builtin_table`, in registration order.
pub open spec fn builtin_part_16() -> Seq<EntryView> {
    seq![

        entry_v(
            "http://www.w3.org/2005/xpath-functions"@,
            "subsequence"@,
            2usize,
            BuiltIn::Subsequence2,
            seq![st_v(ItemTypeV::Item, OccurrenceIndicator::ZeroOrMore), st_v(ItemTypeV::AtomicOrUnionType(xs_qname_view("double"@)), OccurrenceIndicator::ExactlyOne)],
            st_v(ItemTypeV::Item, OccurrenceIndicator::ZeroOrMore),
        ),

        entry_v(
            "http://www.w3.org/2005/xpath-functions"@,
            "subsequence"@,
            3usize,
            BuiltIn::Subsequence3,
            seq![st_v(ItemTypeV::Item, OccurrenceIndicator::ZeroOrMore), st_v(ItemTypeV::AtomicOrUnionType(xs_qname_view("double"@)), OccurrenceIndicator::ExactlyOne), st_v(ItemTypeV::AtomicOrUnionType(xs_qname_view("double"@)), OccurrenceIndicator::ExactlyOne)],
            st_v(ItemTypeV::Item, OccurrenceIndicator::ZeroOrMore),
        ),

        entry_v(
            "http://www.w3.org/2005/xpath-functions"@,
            "zero-or-one"@,
            1usize,
            BuiltIn::ZeroOrOne,
            seq![st_v(ItemTypeV::Item, OccurrenceIndicator::ZeroOrMore)],
            st_v(ItemTypeV::Item, OccurrenceIndicator::ZeroOrOne),
        ),

        entry_v(
            "http://www.w3.org/2005/xpath-functions"@,
            "one-or-more"@,
            1usize,
            BuiltIn::OneOrMore,
            seq![st_v(ItemTypeV::Item, OccurrenceIndicator::ZeroOrMore)],
            st_v(ItemTypeV::Item, OccurrenceIndicator::OneOrMore),
        ),

        entry_v(
            "http://www.w3.org/2005/xpath-functions"@,
            "exactly-one"@,
            1usize,
            BuiltIn::ExactlyOne,
            seq![st_v(ItemTypeV::Item, OccurrenceIndicator::ZeroOrMore)],
            st_v(ItemTypeV::Item, OccurrenceIndicator::ExactlyOne),
        ),

        entry_v(
            "http://www.w3.org/2005/xpath-functions"@,
            "deep-equal"@,
            2usize,
            BuiltIn::DeepEqual2,
            seq![st_v(ItemTypeV::Item, OccurrenceIndicator::ZeroOrMore), st_v(ItemTypeV::Item, OccurrenceIndicator::ZeroOrMore)],
            st_v(ItemTypeV::AtomicOrUnionType(xs_qname_view("boolean"@)), OccurrenceIndicator::ExactlyOne),
        ),

        entry_v(
            "http://www.w3.org/2005/xpath-functions"@,
            "deep-equal"@,
            3usize,
            BuiltIn::DeepEqual3,
            seq![st_v(ItemTypeV::Item, OccurrenceIndicator::ZeroOrMore), st_v(ItemTypeV::Item, OccurrenceIndicator::ZeroOrMore), st_v(ItemTypeV::AtomicOrUnionType(xs_qname_view("string"@)), OccurrenceIndicator::ExactlyOne)],
            st_v(ItemTypeV::AtomicOrUnionType(xs_qname_view("boolean"@)), OccurrenceIndicator::ExactlyOne),
        ),

        entry_v(
            "http://www.w3.org/2005/xpath-functions"@,
            "name"@,
            0usize,
            BuiltIn::Name0,
            seq![],
            st_v(ItemTypeV::AtomicOrUnionType(xs_qname_view("string"@)), OccurrenceIndicator::ExactlyOne),
        ),

        entry_v(
            "http://www.w3.org/2005/xpath-functions"@,
            "name"@,
            1usize,
            BuiltIn::Name1,
            seq![st_v(ItemTypeV::Node(Box::new(NodeTestV::AnyKind)), OccurrenceIndicator::ZeroOrOne)],
            st_v(ItemTypeV::AtomicOrUnionType(xs_qname_view("string"@)), OccurrenceIndicator::ExactlyOne),
        ),

        entry_v(
            "http://www.w3.org/2005/xpath-functions"@,
            "local-name"@,
            0usize,
            BuiltIn::LocalName0,
            seq![],
            st_v(ItemTypeV::AtomicOrUnionType(xs_qname_view("string"@)), OccurrenceIndicator::ExactlyOne),
        ),

    ]
}


/// A part of `builtin_table`, in registration order.
pub open spec fn builtin_part_17() -> Seq<EntryView> {
    seq![

        entry_v(
            "http://www.w3.org/2005/xpath-functions"@,
            "local-name"@,
            1usize,
            BuiltIn::LocalName1,
            seq![st_v(ItemTypeV::Node(Box::new(NodeTestV::AnyKind)), OccurrenceIndicator::ZeroOrOne)],
            st_v(ItemTypeV::AtomicOrUnionType(xs_qname_view("string"@)), OccurrenceIndicator::ExactlyOne),
        ),

        entry_v(
            "http://www.w3.org/2005/xpath-functions"@,
            "namespace-uri"@,
            0usize,
            BuiltIn::NamespaceUri0,
            seq![],
            st_v(ItemTypeV::AtomicOrUnionType(xs_qname_view("anyURI"@)), OccurrenceIndicator::ExactlyOne),
        ),

        entry_v(
            "http://www.w3.org/2005/xpath-functions"@,
            "namespace-uri"@,
            1usize,
            BuiltIn::NamespaceUri1,
            seq![st_v(ItemTypeV::Node(Box::new(NodeTestV::AnyKind)), OccurrenceIndicator::ZeroOrOne)],
            st_v(ItemTypeV::AtomicOrUnionType(xs_qname_view("anyURI"@)), OccurrenceIndicator::ExactlyOne),
        ),

        entry_v(
            "http://www.w3.org/2005/xpath-functions"@,
            "lang"@,
            1usize,
            BuiltIn::Lang1,
            seq![st_v(ItemTypeV::AtomicOrUnionType(xs_qname_view("string"@)), OccurrenceIndicator::ZeroOrOne)],
            st_v(ItemTypeV::AtomicOrUnionType(xs_qname_view("boolean"@)), OccurrenceIndicator::ExactlyOne),
        ),

        entry_v(
            "http://www.w3.org/2005/xpath-functions"@,
            "lang"@,
            2usize,
            BuiltIn::Lang2,
            seq![st_v(ItemTypeV::AtomicOrUnionType(xs_qname_view("string"@)), OccurrenceIndicator::ZeroOrOne), st_v(ItemTypeV::Node(Box::new(NodeTestV::AnyKind)), OccurrenceIndicator::ExactlyOne)],
            st_v(ItemTypeV::AtomicOrUnionType(xs_qname_view("boolean"@)), OccurrenceIndicator::ExactlyOne),
        ),

        entry_v(
            "http://www.w3.org/2005/xpath-functions"@,
            "root"@,
            0usize,
            BuiltIn::Root0,
            seq![],
            st_v(ItemTypeV::Node(Box::new(NodeTestV::AnyKind)), OccurrenceIndicator::ExactlyOne),
        ),

        entry_v(
            "http://www.w3.org/2005/xpath-functions"@,
            "root"@,
            1usize,
            BuiltIn::Root1,
            seq![st_v(ItemTypeV::Node(Box::new(NodeTestV::AnyKind)), OccurrenceIndicator::ZeroOrOne)],
            st_v(ItemTypeV::Node(Box::new(NodeTestV::AnyKind)), OccurrenceIndicator::ZeroOrOne),
        ),

        entry_v(
            "http://www.w3.org/2005/xpath-functions"@,
            "path"@,
            0usize,
            BuiltIn::Path0,
            seq![],
            st_v(ItemTypeV::AtomicOrUnionType(xs_qname_view("string"@)), OccurrenceIndicator::ZeroOrOne),
        ),

        entry_v(
            "http://www.w3.org/2005/xpath-functions"@,
            "path"@,
            1usize,
            BuiltIn::Path1,
            seq![st_v(ItemTypeV::Node(Box::new(NodeTestV::AnyKind)), OccurrenceIndicator::ZeroOrOne)],
            st_v(ItemTypeV::AtomicOrUnionType(xs_qname_view("string"@)), OccurrenceIndicator::ZeroOrOne),
        ),

        entry_v(
            "http://www.w3.org/2005/xpath-functions"@,
            "has-children"@,
            0usize,
            BuiltIn::HasChildren0,
            seq![],
            st_v(ItemTypeV::AtomicOrUnionType(xs_qname_view("boolean"@)), OccurrenceIndicator::ExactlyOne),
        ),

    ]
}


/// A part of `builtin_table`, in registration order.
pub open spec fn builtin_part_18() -> Seq<EntryView> {
    seq![

        entry_v(
            "http://www.w3.org/2005/xpath-functions"@,
            "has-children"@,
            1usize,
            BuiltIn::HasChildren1,
            seq![st_v(ItemTypeV::Node(Box::new(NodeTestV::AnyKind)), OccurrenceIndicator::ZeroOrOne)],
            st_v(ItemTypeV::AtomicOrUnionType(xs_qname_view("boolean"@)), OccurrenceIndicator::ExactlyOne),
        ),

        entry_v(
            "http://www.w3.org/2005/xpath-functions"@,
            "innermost"@,
            1usize,
            BuiltIn::Innermost,
            seq![st_v(ItemTypeV::Node(Box::new(NodeTestV::AnyKind)), OccurrenceIndicator::ZeroOrMore)],
            st_v(ItemTypeV::Node(Box::new(NodeTestV::AnyKind)), OccurrenceIndicator::ZeroOrMore),
        ),

        entry_v(
            "http://www.w3.org/2005/xpath-functions"@,
            "outermost"@,
            1usize,
            BuiltIn::Outermost,
            seq![st_v(ItemTypeV::Node(Box::new(NodeTestV::AnyKind)), OccurrenceIndicator::ZeroOrMore)],
            st_v(ItemTypeV::Node(Box::new(NodeTestV::AnyKind)), OccurrenceIndicator::ZeroOrMore),
        ),

    ]
}

/// One binding of a register: a name, an arity, the built-in bound and
/// its signature.
pub struct RegisterEntry {
    pub url: String,
    pub local_part: String,
    pub arity: usize,
    pub fun: BuiltIn,
    pub params: Vec<SequenceType>,
    pub result: SequenceType,
}

impl View for RegisterEntry {
    type V = EntryView;

    open spec fn view(&self) -> EntryView {
        EntryView {
            url: self.url@,
            local_part: self.local_part@,
            arity: self.arity,
            fun: self.fun,
            params: seq_types_view(self.params@),
            result: self.result@,
        }
    }
}

/// The bindings of a register, in the order they were made.
pub open spec fn entries_view(v: Seq<RegisterEntry>) -> Seq<EntryView> {
    v.map_values(|e: RegisterEntry| e@)
}

/// What a register binds to a name and an arity: the latest binding of
/// them, a later one replacing an earlier one.
pub open spec fn spec_register_get(entries: Seq<RegisterEntry>, name: (Seq<char>, Seq<char>), arity: usize) -> Option<
    RegisterEntry,
>
    decreases entries.len(),
{
    if entries.len() == 0 {
        None
    } else {
        let e = entries.last();
        if e.url@ == name.0 && e.local_part@ == name.1 && e.arity == arity {
            Some(e)
        } else {
            spec_register_get(entries.drop_last(), name, arity)
        }
    }
}

fn params_0() -> (r: Vec<SequenceType>)
    ensures
        seq_types_view(r@) == Seq::<SequenceTypeV>::empty(),
{
    let r: Vec<SequenceType> = Vec::new();
    proof {
        assert(r@ =~= Seq::<SequenceType>::empty());
    }
    r
}

fn params_1(a: SequenceType) -> (r: Vec<SequenceType>)
    ensures
        seq_types_view(r@) == seq![a@],
{
    let mut r: Vec<SequenceType> = Vec::new();
    r.push(a);
    proof {
        reveal_with_fuel(seq_types_view, 2);
        assert(r@.subrange(0, 0) =~= Seq::<SequenceType>::empty());
        assert(seq_types_view(r@) =~= seq![a@]);
    }
    r
}

fn params_2(a: SequenceType, b: SequenceType) -> (r: Vec<SequenceType>)
    ensures
        seq_types_view(r@) == seq![a@, b@],
{
    let mut r: Vec<SequenceType> = Vec::new();
    r.push(a);
    let ghost one = r@;
    r.push(b);
    proof {
        reveal_with_fuel(seq_types_view, 2);
        assert(one.subrange(0, 0) =~= Seq::<SequenceType>::empty());
        assert(r@.subrange(0, 1) =~= one);
        assert(seq_types_view(one) =~= seq![a@]);
        assert(seq_types_view(r@) =~= seq![a@, b@]);
    }
    r
}

fn params_3(a: SequenceType, b: SequenceType, c: SequenceType) -> (r: Vec<SequenceType>)
    ensures
        seq_types_view(r@) == seq![a@, b@, c@],
{
    let mut r: Vec<SequenceType> = Vec::new();
    r.push(a);
    let ghost one = r@;
    r.push(b);
    let ghost two = r@;
    r.push(c);
    proof {
        reveal_with_fuel(seq_types_view, 2);
        assert(one.subrange(0, 0) =~= Seq::<SequenceType>::empty());
        assert(two.subrange(0, 1) =~= one);
        assert(r@.subrange(0, 2) =~= two);
        assert(seq_types_view(one) =~= seq![a@]);
        assert(seq_types_view(two) =~= seq![a@, b@]);
        assert(seq_types_view(r@) =~= seq![a@, b@, c@]);
    }
    r
}

/// The functions known by namespace URI, local name and arity.
pub struct FunctionsRegister {
    pub functions: Vec<RegisterEntry>,
}

impl FunctionsRegister {
    /// A register of the built-in functions (see `builtin_table`).
    pub fn new() -> (r: FunctionsRegister)
        ensures
            entries_view(r.functions@) == builtin_table(),
    {
        let mut instance = FunctionsRegister { functions: Vec::new() };
        proof {
            assert(entries_view(instance.functions@) =~= Seq::<EntryView>::empty());
        }
        instance.register_part_0();
        instance.register_part_1();
        instance.register_part_2();
        instance.register_part_3();
        instance.register_part_4();
        instance.register_part_5();
        instance.register_part_6();
        instance.register_part_7();
        instance.register_part_8();
        instance.register_part_9();
        instance.register_part_10();
        instance.register_part_11();
        instance.register_part_12();
        instance.register_part_13();
        instance.register_part_14();
        instance.register_part_15();
        instance.register_part_16();
        instance.register_part_17();
        instance.register_part_18();
        proof {
            assert(entries_view(instance.functions@) =~= builtin_table());
        }
        instance
    }

    #[verifier::rlimit(80)]
    fn register_part_0(&mut self)
        ensures
            entries_view(final(self).functions@) == entries_view(old(self).functions@) + builtin_part_0(),
    {
        let ghost before = entries_view(self.functions@);
        let params = params_1(SequenceType::zero_or_one(ItemType::AnyAtomicType));
        let result = SequenceType::zero_or_one(ItemType::AtomicOrUnionType(xs_name("untypedAtomic")));
        proof {
            reveal_with_fuel(item_type_view, 3);
            reveal_with_fuel(seq_type_view, 3);
            assert(seq_types_view(params@) =~~= seq![st_v(ItemTypeV::AnyAtomicType, OccurrenceIndicator::ZeroOrOne)]);
            assert(result@ =~~= st_v(ItemTypeV::AtomicOrUnionType(xs_qname_view("untypedAtomic"@)), OccurrenceIndicator::ZeroOrOne));
        }
        self.register("http://www.w3.org/2001/XMLSchema", "untypedAtomic", 1, BuiltIn::XsUntypedAtomic, params, result);
        let params = params_1(SequenceType::zero_or_one(ItemType::AnyAtomicType));
        let result = SequenceType::zero_or_one(ItemType::AtomicOrUnionType(xs_name("string")));
        proof {
            reveal_with_fuel(item_type_view, 3);
            reveal_with_fuel(seq_type_view, 3);
            assert(seq_types_view(params@) =~~= seq![st_v(ItemTypeV::AnyAtomicType, OccurrenceIndicator::ZeroOrOne)]);
            assert(result@ =~~= st_v(ItemTypeV::AtomicOrUnionType(xs_qname_view("string"@)), OccurrenceIndicator::ZeroOrOne));
        }
        self.register("http://www.w3.org/2001/XMLSchema", "string", 1, BuiltIn::XsString, params, result);
        let params = params_1(SequenceType::zero_or_one(ItemType::AnyAtomicType));
        let result = SequenceType::zero_or_one(ItemType::AtomicOrUnionType(xs_name("normalizedString")));
        proof {
            reveal_with_fuel(item_type_view, 3);
            reveal_with_fuel(seq_type_view, 3);
            assert(seq_types_view(params@) =~~= seq![st_v(ItemTypeV::AnyAtomicType, OccurrenceIndicator::ZeroOrOne)]);
            assert(result@ =~~= st_v(ItemTypeV::AtomicOrUnionType(xs_qname_view("normalizedString"@)), OccurrenceIndicator::ZeroOrOne));
        }
        self.register("http://www.w3.org/2001/XMLSchema", "normalizedString", 1, BuiltIn::XsNormalizedString, params, result);
        let params = params_1(SequenceType::zero_or_one(ItemType::AnyAtomicType));
        let result = SequenceType::zero_or_one(ItemType::AtomicOrUnionType(xs_name("boolean")));
        proof {
            reveal_with_fuel(item_type_view, 3);
            reveal_with_fuel(seq_type_view, 3);
            assert(seq_types_view(params@) =~~= seq![st_v(ItemTypeV::AnyAtomicType, OccurrenceIndicator::ZeroOrOne)]);
            assert(result@ =~~= st_v(ItemTypeV::AtomicOrUnionType(xs_qname_view("boolean"@)), OccurrenceIndicator::ZeroOrOne));
        }
        self.register("http://www.w3.org/2001/XMLSchema", "boolean", 1, BuiltIn::XsBoolean, params, result);
        let params = params_1(SequenceType::zero_or_one(ItemType::AnyAtomicType));
        let result = SequenceType::zero_or_one(ItemType::AtomicOrUnionType(xs_name("unsignedByte")));
        proof {
            reveal_with_fuel(item_type_view, 3);
            reveal_with_fuel(seq_type_view, 3);
            assert(seq_types_view(params@) =~~= seq![st_v(ItemTypeV::AnyAtomicType, OccurrenceIndicator::ZeroOrOne)]);
            assert(result@ =~~= st_v(ItemTypeV::AtomicOrUnionType(xs_qname_view("unsignedByte"@)), OccurrenceIndicator::ZeroOrOne));
        }
        self.register("http://www.w3.org/2001/XMLSchema", "unsignedByte", 1, BuiltIn::XsUnsignedByte, params, result);
        let params = params_1(SequenceType::zero_or_one(ItemType::AnyAtomicType));
        let result = SequenceType::zero_or_one(ItemType::AtomicOrUnionType(xs_name("unsignedShort")));
        proof {
            reveal_with_fuel(item_type_view, 3);
            reveal_with_fuel(seq_type_view, 3);
            assert(seq_types_view(params@) =~~= seq![st_v(ItemTypeV::AnyAtomicType, OccurrenceIndicator::ZeroOrOne)]);
            assert(result@ =~~= st_v(ItemTypeV::AtomicOrUnionType(xs_qname_view("unsignedShort"@)), OccurrenceIndicator::ZeroOrOne));
        }
        self.register("http://www.w3.org/2001/XMLSchema", "unsignedShort", 1, BuiltIn::XsUnsignedShort, params, result);
        let params = params_1(SequenceType::zero_or_one(ItemType::AnyAtomicType));
        let result = SequenceType::zero_or_one(ItemType::AtomicOrUnionType(xs_name("unsignedInt")));
        proof {
            reveal_with_fuel(item_type_view, 3);
            reveal_with_fuel(seq_type_view, 3);
            assert(seq_types_view(params@) =~~= seq![st_v(ItemTypeV::AnyAtomicType, OccurrenceIndicator::ZeroOrOne)]);
            assert(result@ =~~= st_v(ItemTypeV::AtomicOrUnionType(xs_qname_view("unsignedInt"@)), OccurrenceIndicator::ZeroOrOne));
        }
        self.register("http://www.w3.org/2001/XMLSchema", "unsignedInt", 1, BuiltIn::XsUnsignedInt, params, result);
        let params = params_1(SequenceType::zero_or_one(ItemType::AnyAtomicType));
        let result = SequenceType::zero_or_one(ItemType::AtomicOrUnionType(xs_name("unsignedLong")));
        proof {
            reveal_with_fuel(item_type_view, 3);
            reveal_with_fuel(seq_type_view, 3);
            assert(seq_types_view(params@) =~~= seq![st_v(ItemTypeV::AnyAtomicType, OccurrenceIndicator::ZeroOrOne)]);
            assert(result@ =~~= st_v(ItemTypeV::AtomicOrUnionType(xs_qname_view("unsignedLong"@)), OccurrenceIndicator::ZeroOrOne));
        }
        self.register("http://www.w3.org/2001/XMLSchema", "unsignedLong", 1, BuiltIn::XsUnsignedLong, params, result);
        let params = params_1(SequenceType::zero_or_one(ItemType::AnyAtomicType));
        let result = SequenceType::zero_or_one(ItemType::AtomicOrUnionType(xs_name("byte")));
        proof {
            reveal_with_fuel(item_type_view, 3);
            reveal_with_fuel(seq_type_view, 3);
            assert(seq_types_view(params@) =~~= seq![st_v(ItemTypeV::AnyAtomicType, OccurrenceIndicator::ZeroOrOne)]);
            assert(result@ =~~= st_v(ItemTypeV::AtomicOrUnionType(xs_qname_view("byte"@)), OccurrenceIndicator::ZeroOrOne));
        }
        self.register("http://www.w3.org/2001/XMLSchema", "byte", 1, BuiltIn::XsByte, params, result);
        let params = params_1(SequenceType::zero_or_one(ItemType::AnyAtomicType));
        let result = SequenceType::zero_or_one(ItemType::AtomicOrUnionType(xs_name("short")));
        proof {
            reveal_with_fuel(item_type_view, 3);
            reveal_with_fuel(seq_type_view, 3);
            assert(seq_types_view(params@) =~~= seq![st_v(ItemTypeV::AnyAtomicType, OccurrenceIndicator::ZeroOrOne)]);
            assert(result@ =~~= st_v(ItemTypeV::AtomicOrUnionType(xs_qname_view("short"@)), OccurrenceIndicator::ZeroOrOne));
        }
        self.register("http://www.w3.org/2001/XMLSchema", "short", 1, BuiltIn::XsShort, params, result);
        proof {
            assert(entries_view(self.functions@) =~~= before + builtin_part_0());
        }
    }

    #[verifier::rlimit(80)]
    fn register_part_1(&mut self)
        ensures
            entries_view(final(self).functions@) == entries_view(old(self).functions@) + builtin_part_1(),
    {
        let ghost before = entries_view(self.functions@);
        let params = params_1(SequenceType::zero_or_one(ItemType::AnyAtomicType));
        let result = SequenceType::zero_or_one(ItemType::AtomicOrUnionType(xs_name("int")));
        proof {
            reveal_with_fuel(item_type_view, 3);
            reveal_with_fuel(seq_type_view, 3);
            assert(seq_types_view(params@) =~~= seq![st_v(ItemTypeV::AnyAtomicType, OccurrenceIndicator::ZeroOrOne)]);
            assert(result@ =~~= st_v(ItemTypeV::AtomicOrUnionType(xs_qname_view("int"@)), OccurrenceIndicator::ZeroOrOne));
        }
        self.register("http://www.w3.org/2001/XMLSchema", "int", 1, BuiltIn::XsInt, params, result);
        let params = params_1(SequenceType::zero_or_one(ItemType::AnyAtomicType));
        let result = SequenceType::zero_or_one(ItemType::AtomicOrUnionType(xs_name("long")));
        proof {
            reveal_with_fuel(item_type_view, 3);
            reveal_with_fuel(seq_type_view, 3);
            assert(seq_types_view(params@) =~~= seq![st_v(ItemTypeV::AnyAtomicType, OccurrenceIndicator::ZeroOrOne)]);
            assert(result@ =~~= st_v(ItemTypeV::AtomicOrUnionType(xs_qname_view("long"@)), OccurrenceIndicator::ZeroOrOne));
        }
        self.register("http://www.w3.org/2001/XMLSchema", "long", 1, BuiltIn::XsLong, params, result);
        let params = params_1(SequenceType::zero_or_one(ItemType::AnyAtomicType));
        let result = SequenceType::zero_or_one(ItemType::AtomicOrUnionType(xs_name("positiveInteger")));
        proof {
            reveal_with_fuel(item_type_view, 3);
            reveal_with_fuel(seq_type_view, 3);
            assert(seq_types_view(params@) =~~= seq![st_v(ItemTypeV::AnyAtomicType, OccurrenceIndicator::ZeroOrOne)]);
            assert(result@ =~~= st_v(ItemTypeV::AtomicOrUnionType(xs_qname_view("positiveInteger"@)), OccurrenceIndicator::ZeroOrOne));
        }
        self.register("http://www.w3.org/2001/XMLSchema", "positiveInteger", 1, BuiltIn::XsPositiveInteger, params, result);
        let params = params_1(SequenceType::zero_or_one(ItemType::AnyAtomicType));
        let result = SequenceType::zero_or_one(ItemType::AtomicOrUnionType(xs_name("nonNegativeInteger")));
        proof {
            reveal_with_fuel(item_type_view, 3);
            reveal_with_fuel(seq_type_view, 3);
            assert(seq_types_view(params@) =~~= seq![st_v(ItemTypeV::AnyAtomicType, OccurrenceIndicator::ZeroOrOne)]);
            assert(result@ =~~= st_v(ItemTypeV::AtomicOrUnionType(xs_qname_view("nonNegativeInteger"@)), OccurrenceIndicator::ZeroOrOne));
        }
        self.register("http://www.w3.org/2001/XMLSchema", "nonNegativeInteger", 1, BuiltIn::XsNonNegativeInteger, params, result);
        let params = params_1(SequenceType::zero_or_one(ItemType::AnyAtomicType));
        let result = SequenceType::zero_or_one(ItemType::AtomicOrUnionType(xs_name("nonPositiveInteger")));
        proof {
            reveal_with_fuel(item_type_view, 3);
            reveal_with_fuel(seq_type_view, 3);
            assert(seq_types_view(params@) =~~= seq![st_v(ItemTypeV::AnyAtomicType, OccurrenceIndicator::ZeroOrOne)]);
            assert(result@ =~~= st_v(ItemTypeV::AtomicOrUnionType(xs_qname_view("nonPositiveInteger"@)), OccurrenceIndicator::ZeroOrOne));
        }
        self.register("http://www.w3.org/2001/XMLSchema", "nonPositiveInteger", 1, BuiltIn::XsNonPositiveInteger, params, result);
        let params = params_1(SequenceType::zero_or_one(ItemType::AnyAtomicType));
        let result = SequenceType::zero_or_one(ItemType::AtomicOrUnionType(xs_name("negativeInteger")));
        proof {
            reveal_with_fuel(item_type_view, 3);
            reveal_with_fuel(seq_type_view, 3);
            assert(seq_types_view(params@) =~~= seq![st_v(ItemTypeV::AnyAtomicType, OccurrenceIndicator::ZeroOrOne)]);
            assert(result@ =~~= st_v(ItemTypeV::AtomicOrUnionType(xs_qname_view("negativeInteger"@)), OccurrenceIndicator::ZeroOrOne));
        }
        self.register("http://www.w3.org/2001/XMLSchema", "negativeInteger", 1, BuiltIn::XsNegativeInteger, params, result);
        let params = params_1(SequenceType::zero_or_one(ItemType::AnyAtomicType));
        let result = SequenceType::zero_or_one(ItemType::AtomicOrUnionType(xs_name("integer")));
        proof {
            reveal_with_fuel(item_type_view, 3);
            reveal_with_fuel(seq_type_view, 3);
            assert(seq_types_view(params@) =~~= seq![st_v(ItemTypeV::AnyAtomicType, OccurrenceIndicator::ZeroOrOne)]);
            assert(result@ =~~= st_v(ItemTypeV::AtomicOrUnionType(xs_qname_view("integer"@)), OccurrenceIndicator::ZeroOrOne));
        }
        self.register("http://www.w3.org/2001/XMLSchema", "integer", 1, BuiltIn::XsInteger, params, result);
        let params = params_1(SequenceType::zero_or_one(ItemType::AnyAtomicType));
        let result = SequenceType::zero_or_one(ItemType::AtomicOrUnionType(xs_name("decimal")));
        proof {
            reveal_with_fuel(item_type_view, 3);
            reveal_with_fuel(seq_type_view, 3);
            assert(seq_types_view(params@) =~~= seq![st_v(ItemTypeV::AnyAtomicType, OccurrenceIndicator::ZeroOrOne)]);
            assert(result@ =~~= st_v(ItemTypeV::AtomicOrUnionType(xs_qname_view("decimal"@)), OccurrenceIndicator::ZeroOrOne));
        }
        self.register("http://www.w3.org/2001/XMLSchema", "decimal", 1, BuiltIn::XsDecimal, params, result);
        let params = params_1(SequenceType::zero_or_one(ItemType::AnyAtomicType));
        let result = SequenceType::zero_or_one(ItemType::AtomicOrUnionType(xs_name("float")));
        proof {
            reveal_with_fuel(item_type_view, 3);
            reveal_with_fuel(seq_type_view, 3);
            assert(seq_types_view(params@) =~~= seq![st_v(ItemTypeV::AnyAtomicType, OccurrenceIndicator::ZeroOrOne)]);
            assert(result@ =~~= st_v(ItemTypeV::AtomicOrUnionType(xs_qname_view("float"@)), OccurrenceIndicator::ZeroOrOne));
        }
        self.register("http://www.w3.org/2001/XMLSchema", "float", 1, BuiltIn::XsFloat, params, result);
        let params = params_1(SequenceType::zero_or_one(ItemType::AnyAtomicType));
        let result = SequenceType::zero_or_one(ItemType::AtomicOrUnionType(xs_name("double")));
        proof {
            reveal_with_fuel(item_type_view, 3);
            reveal_with_fuel(seq_type_view, 3);
            assert(seq_types_view(params@) =~~= seq![st_v(ItemTypeV::AnyAtomicType, OccurrenceIndicator::ZeroOrOne)]);
            assert(result@ =~~= st_v(ItemTypeV::AtomicOrUnionType(xs_qname_view("double"@)), OccurrenceIndicator::ZeroOrOne));
        }
        self.register("http://www.w3.org/2001/XMLSchema", "double", 1, BuiltIn::XsDouble, params, result);
        proof {
            assert(entries_view(self.functions@) =~~= before + builtin_part_1());
        }
    }

    #[verifier::rlimit(80)]
    fn register_part_2(&mut self)
        ensures
            entries_view(final(self).functions@) == entries_view(old(self).functions@) + builtin_part_2(),
    {
        let ghost before = entries_view(self.functions@);
        let params = params_1(SequenceType::zero_or_one(ItemType::AnyAtomicType));
        let result = SequenceType::zero_or_one(ItemType::AtomicOrUnionType(xs_name("ID")));
        proof {
            reveal_with_fuel(item_type_view, 3);
            reveal_with_fuel(seq_type_view, 3);
            assert(seq_types_view(params@) =~~= seq![st_v(ItemTypeV::AnyAtomicType, OccurrenceIndicator::ZeroOrOne)]);
            assert(result@ =~~= st_v(ItemTypeV::AtomicOrUnionType(xs_qname_view("ID"@)), OccurrenceIndicator::ZeroOrOne));
        }
        self.register("http://www.w3.org/2001/XMLSchema", "ID", 1, BuiltIn::XsId, params, result);
        let params = params_1(SequenceType::zero_or_one(ItemType::AnyAtomicType));
        let result = SequenceType::zero_or_one(ItemType::AtomicOrUnionType(xs_name("IDREF")));
        proof {
            reveal_with_fuel(item_type_view, 3);
            reveal_with_fuel(seq_type_view, 3);
            assert(seq_types_view(params@) =~~= seq![st_v(ItemTypeV::AnyAtomicType, OccurrenceIndicator::ZeroOrOne)]);
            assert(result@ =~~= st_v(ItemTypeV::AtomicOrUnionType(xs_qname_view("IDREF"@)), OccurrenceIndicator::ZeroOrOne));
        }
        self.register("http://www.w3.org/2001/XMLSchema", "IDREF", 1, BuiltIn::XsIdref, params, result);
        let params = params_1(SequenceType::zero_or_one(ItemType::AnyAtomicType));
        let result = SequenceType::zero_or_one(ItemType::AtomicOrUnionType(xs_name("ENTITY")));
        proof {
            reveal_with_fuel(item_type_view, 3);
            reveal_with_fuel(seq_type_view, 3);
            assert(seq_types_view(params@) =~~= seq![st_v(ItemTypeV::AnyAtomicType, OccurrenceIndicator::ZeroOrOne)]);
            assert(result@ =~~= st_v(ItemTypeV::AtomicOrUnionType(xs_qname_view("ENTITY"@)), OccurrenceIndicator::ZeroOrOne));
        }
        self.register("http://www.w3.org/2001/XMLSchema", "ENTITY", 1, BuiltIn::XsEntity, params, result);
        let params = params_1(SequenceType::zero_or_one(ItemType::AnyAtomicType));
        let result = SequenceType::zero_or_one(ItemType::AtomicOrUnionType(xs_name("NCName")));
        proof {
            reveal_with_fuel(item_type_view, 3);
            reveal_with_fuel(seq_type_view, 3);
            assert(seq_types_view(params@) =~~= seq![st_v(ItemTypeV::AnyAtomicType, OccurrenceIndicator::ZeroOrOne)]);
            assert(result@ =~~= st_v(ItemTypeV::AtomicOrUnionType(xs_qname_view("NCName"@)), OccurrenceIndicator::ZeroOrOne));
        }
        self.register("http://www.w3.org/2001/XMLSchema", "NCName", 1, BuiltIn::XsNcname, params, result);
        let params = params_1(SequenceType::zero_or_one(ItemType::AnyAtomicType));
        let result = SequenceType::zero_or_one(ItemType::AtomicOrUnionType(xs_name("anyURI")));
        proof {
            reveal_with_fuel(item_type_view, 3);
            reveal_with_fuel(seq_type_view, 3);
            assert(seq_types_view(params@) =~~= seq![st_v(ItemTypeV::AnyAtomicType, OccurrenceIndicator::ZeroOrOne)]);
            assert(result@ =~~= st_v(ItemTypeV::AtomicOrUnionType(xs_qname_view("anyURI"@)), OccurrenceIndicator::ZeroOrOne));
        }
        self.register("http://www.w3.org/2001/XMLSchema", "anyURI", 1, BuiltIn::XsAnyUri, params, result);
        let params = params_1(SequenceType::zero_or_one(ItemType::AnyAtomicType));
        let result = SequenceType::zero_or_one(ItemType::AtomicOrUnionType(xs_name("time")));
        proof {
            reveal_with_fuel(item_type_view, 3);
            reveal_with_fuel(seq_type_view, 3);
            assert(seq_types_view(params@) =~~= seq![st_v(ItemTypeV::AnyAtomicType, OccurrenceIndicator::ZeroOrOne)]);
            assert(result@ =~~= st_v(ItemTypeV::AtomicOrUnionType(xs_qname_view("time"@)), OccurrenceIndicator::ZeroOrOne));
        }
        self.register("http://www.w3.org/2001/XMLSchema", "time", 1, BuiltIn::XsTime, params, result);
        let params = params_1(SequenceType::zero_or_one(ItemType::AnyAtomicType));
        let result = SequenceType::zero_or_one(ItemType::AtomicOrUnionType(xs_name("date")));
        proof {
            reveal_with_fuel(item_type_view, 3);
            reveal_with_fuel(seq_type_view, 3);
            assert(seq_types_view(params@) =~~= seq![st_v(ItemTypeV::AnyAtomicType, OccurrenceIndicator::ZeroOrOne)]);
            assert(result@ =~~= st_v(ItemTypeV::AtomicOrUnionType(xs_qname_view("date"@)), OccurrenceIndicator::ZeroOrOne));
        }
        self.register("http://www.w3.org/2001/XMLSchema", "date", 1, BuiltIn::XsDate, params, result);
        let params = params_1(SequenceType::zero_or_one(ItemType::AnyAtomicType));
        let result = SequenceType::zero_or_one(ItemType::AtomicOrUnionType(xs_name("dateTime")));
        proof {
            reveal_with_fuel(item_type_view, 3);
            reveal_with_fuel(seq_type_view, 3);
            assert(seq_types_view(params@) =~~= seq![st_v(ItemTypeV::AnyAtomicType, OccurrenceIndicator::ZeroOrOne)]);
            assert(result@ =~~= st_v(ItemTypeV::AtomicOrUnionType(xs_qname_view("dateTime"@)), OccurrenceIndicator::ZeroOrOne));
        }
        self.register("http://www.w3.org/2001/XMLSchema", "dateTime", 1, BuiltIn::XsDateTime, params, result);
        let params = params_1(SequenceType::zero_or_one(ItemType::AnyAtomicType));
        let result = SequenceType::zero_or_one(ItemType::AtomicOrUnionType(xs_name("yearMonthDuration")));
        proof {
            reveal_with_fuel(item_type_view, 3);
            reveal_with_fuel(seq_type_view, 3);
            assert(seq_types_view(params@) =~~= seq![st_v(ItemTypeV::AnyAtomicType, OccurrenceIndicator::ZeroOrOne)]);
            assert(result@ =~~= st_v(ItemTypeV::AtomicOrUnionType(xs_qname_view("yearMonthDuration"@)), OccurrenceIndicator::ZeroOrOne));
        }
        self.register("http://www.w3.org/2001/XMLSchema", "yearMonthDuration", 1, BuiltIn::XsYearMonthDuration, params, result);
        let params = params_1(SequenceType::zero_or_one(ItemType::AnyAtomicType));
        let result = SequenceType::zero_or_one(ItemType::AtomicOrUnionType(xs_name("dayTimeDuration")));
        proof {
            reveal_with_fuel(item_type_view, 3);
            reveal_with_fuel(seq_type_view, 3);
            assert(seq_types_view(params@) =~~= seq![st_v(ItemTypeV::AnyAtomicType, OccurrenceIndicator::ZeroOrOne)]);
            assert(result@ =~~= st_v(ItemTypeV::AtomicOrUnionType(xs_qname_view("dayTimeDuration"@)), OccurrenceIndicator::ZeroOrOne));
        }
        self.register("http://www.w3.org/2001/XMLSchema", "dayTimeDuration", 1, BuiltIn::XsDayTimeDuration, params, result);
        proof {
            assert(entries_view(self.functions@) =~~= before + builtin_part_2());
        }
    }

    #[verifier::rlimit(80)]
    fn register_part_3(&mut self)
        ensures
            entries_view(final(self).functions@) == entries_view(old(self).functions@) + builtin_part_3(),
    {
        let ghost before = entries_view(self.functions@);
        let params = params_1(SequenceType::zero_or_one(ItemType::AnyAtomicType));
        let result = SequenceType::zero_or_one(ItemType::AtomicOrUnionType(xs_name("duration")));
        proof {
            reveal_with_fuel(item_type_view, 3);
            reveal_with_fuel(seq_type_view, 3);
            assert(seq_types_view(params@) =~~= seq![st_v(ItemTypeV::AnyAtomicType, OccurrenceIndicator::ZeroOrOne)]);
            assert(result@ =~~= st_v(ItemTypeV::AtomicOrUnionType(xs_qname_view("duration"@)), OccurrenceIndicator::ZeroOrOne));
        }
        self.register("http://www.w3.org/2001/XMLSchema", "duration", 1, BuiltIn::XsDuration, params, result);
        let params = params_1(SequenceType::zero_or_one(ItemType::AnyAtomicType));
        let result = SequenceType::zero_or_one(ItemType::AtomicOrUnionType(xs_name("gYearMonth")));
        proof {
            reveal_with_fuel(item_type_view, 3);
            reveal_with_fuel(seq_type_view, 3);
            assert(seq_types_view(params@) =~~= seq![st_v(ItemTypeV::AnyAtomicType, OccurrenceIndicator::ZeroOrOne)]);
            assert(result@ =~~= st_v(ItemTypeV::AtomicOrUnionType(xs_qname_view("gYearMonth"@)), OccurrenceIndicator::ZeroOrOne));
        }
        self.register("http://www.w3.org/2001/XMLSchema", "gYearMonth", 1, BuiltIn::XsGYearMonth, params, result);
        let params = params_1(SequenceType::zero_or_one(ItemType::AnyAtomicType));
        let result = SequenceType::zero_or_one(ItemType::AtomicOrUnionType(xs_name("gYear")));
        proof {
            reveal_with_fuel(item_type_view, 3);
            reveal_with_fuel(seq_type_view, 3);
            assert(seq_types_view(params@) =~~= seq![st_v(ItemTypeV::AnyAtomicType, OccurrenceIndicator::ZeroOrOne)]);
            assert(result@ =~~= st_v(ItemTypeV::AtomicOrUnionType(xs_qname_view("gYear"@)), OccurrenceIndicator::ZeroOrOne));
        }
        self.register("http://www.w3.org/2001/XMLSchema", "gYear", 1, BuiltIn::XsGYear, params, result);
        let params = params_1(SequenceType::zero_or_one(ItemType::AnyAtomicType));
        let result = SequenceType::zero_or_one(ItemType::AtomicOrUnionType(xs_name("gMonthDay")));
        proof {
            reveal_with_fuel(item_type_view, 3);
            reveal_with_fuel(seq_type_view, 3);
            assert(seq_types_view(params@) =~~= seq![st_v(ItemTypeV::AnyAtomicType, OccurrenceIndicator::ZeroOrOne)]);
            assert(result@ =~~= st_v(ItemTypeV::AtomicOrUnionType(xs_qname_view("gMonthDay"@)), OccurrenceIndicator::ZeroOrOne));
        }
        self.register("http://www.w3.org/2001/XMLSchema", "gMonthDay", 1, BuiltIn::XsGMonthDay, params, result);
        let params = params_1(SequenceType::zero_or_one(ItemType::AnyAtomicType));
        let result = SequenceType::zero_or_one(ItemType::AtomicOrUnionType(xs_name("gDay")));
        proof {
            reveal_with_fuel(item_type_view, 3);
            reveal_with_fuel(seq_type_view, 3);
            assert(seq_types_view(params@) =~~= seq![st_v(ItemTypeV::AnyAtomicType, OccurrenceIndicator::ZeroOrOne)]);
            assert(result@ =~~= st_v(ItemTypeV::AtomicOrUnionType(xs_qname_view("gDay"@)), OccurrenceIndicator::ZeroOrOne));
        }
        self.register("http://www.w3.org/2001/XMLSchema", "gDay", 1, BuiltIn::XsGDay, params, result);
        let params = params_1(SequenceType::zero_or_one(ItemType::AnyAtomicType));
        let result = SequenceType::zero_or_one(ItemType::AtomicOrUnionType(xs_name("gMonth")));
        proof {
            reveal_with_fuel(item_type_view, 3);
            reveal_with_fuel(seq_type_view, 3);
            assert(seq_types_view(params@) =~~= seq![st_v(ItemTypeV::AnyAtomicType, OccurrenceIndicator::ZeroOrOne)]);
            assert(result@ =~~= st_v(ItemTypeV::AtomicOrUnionType(xs_qname_view("gMonth"@)), OccurrenceIndicator::ZeroOrOne));
        }
        self.register("http://www.w3.org/2001/XMLSchema", "gMonth", 1, BuiltIn::XsGMonth, params, result);
        let params = params_1(SequenceType::zero_or_one(ItemType::AnyAtomicType));
        let result = SequenceType::zero_or_one(ItemType::AtomicOrUnionType(xs_name("hexBinary")));
        proof {
            reveal_with_fuel(item_type_view, 3);
            reveal_with_fuel(seq_type_view, 3);
            assert(seq_types_view(params@) =~~= seq![st_v(ItemTypeV::AnyAtomicType, OccurrenceIndicator::ZeroOrOne)]);
            assert(result@ =~~= st_v(ItemTypeV::AtomicOrUnionType(xs_qname_view("hexBinary"@)), OccurrenceIndicator::ZeroOrOne));
        }
        self.register("http://www.w3.org/2001/XMLSchema", "hexBinary", 1, BuiltIn::XsHexBinary, params, result);
        let params = params_1(SequenceType::zero_or_one(ItemType::AnyAtomicType));
        let result = SequenceType::zero_or_one(ItemType::AtomicOrUnionType(xs_name("base64Binary")));
        proof {
            reveal_with_fuel(item_type_view, 3);
            reveal_with_fuel(seq_type_view, 3);
            assert(seq_types_view(params@) =~~= seq![st_v(ItemTypeV::AnyAtomicType, OccurrenceIndicator::ZeroOrOne)]);
            assert(result@ =~~= st_v(ItemTypeV::AtomicOrUnionType(xs_qname_view("base64Binary"@)), OccurrenceIndicator::ZeroOrOne));
        }
        self.register("http://www.w3.org/2001/XMLSchema", "base64Binary", 1, BuiltIn::XsBase64Binary, params, result);
        let params = params_1(SequenceType::zero_or_one(ItemType::AnyAtomicType));
        let result = SequenceType::zero_or_one(ItemType::AtomicOrUnionType(xs_name("QName")));
        proof {
            reveal_with_fuel(item_type_view, 3);
            reveal_with_fuel(seq_type_view, 3);
            assert(seq_types_view(params@) =~~= seq![st_v(ItemTypeV::AnyAtomicType, OccurrenceIndicator::ZeroOrOne)]);
            assert(result@ =~~= st_v(ItemTypeV::AtomicOrUnionType(xs_qname_view("QName"@)), OccurrenceIndicator::ZeroOrOne));
        }
        self.register("http://www.w3.org/2001/XMLSchema", "QName", 1, BuiltIn::XsQname, params, result);
        let params = params_1(SequenceType::zero_or_one(ItemType::AnyAtomicType));
        let result = SequenceType::zero_or_one(ItemType::AtomicOrUnionType(xs_name("token")));
        proof {
            reveal_with_fuel(item_type_view, 3);
            reveal_with_fuel(seq_type_view, 3);
            assert(seq_types_view(params@) =~~= seq![st_v(ItemTypeV::AnyAtomicType, OccurrenceIndicator::ZeroOrOne)]);
            assert(result@ =~~= st_v(ItemTypeV::AtomicOrUnionType(xs_qname_view("token"@)), OccurrenceIndicator::ZeroOrOne));
        }
        self.register("http://www.w3.org/2001/XMLSchema", "token", 1, BuiltIn::XsToken, params, result);
        proof {
            assert(entries_view(self.functions@) =~~= before + builtin_part_3());
        }
    }

    #[verifier::rlimit(80)]
    fn register_part_4(&mut self)
        ensures
            entries_view(final(self).functions@) == entries_view(old(self).functions@) + builtin_part_4(),
    {
        let ghost before = entries_view(self.functions@);
        let params = params_1(SequenceType::zero_or_one(ItemType::AnyAtomicType));
        let result = SequenceType::zero_or_one(ItemType::AtomicOrUnionType(xs_name("language")));
        proof {
            reveal_with_fuel(item_type_view, 3);
            reveal_with_fuel(seq_type_view, 3);
            assert(seq_types_view(params@) =~~= seq![st_v(ItemTypeV::AnyAtomicType, OccurrenceIndicator::ZeroOrOne)]);
            assert(result@ =~~= st_v(ItemTypeV::AtomicOrUnionType(xs_qname_view("language"@)), OccurrenceIndicator::ZeroOrOne));
        }
        self.register("http://www.w3.org/2001/XMLSchema", "language", 1, BuiltIn::XsLanguage, params, result);
        let params = params_1(SequenceType::zero_or_one(ItemType::AnyAtomicType));
        let result = SequenceType::zero_or_one(ItemType::AtomicOrUnionType(xs_name("NMTOKEN")));
        proof {
            reveal_with_fuel(item_type_view, 3);
            reveal_with_fuel(seq_type_view, 3);
            assert(seq_types_view(params@) =~~= seq![st_v(ItemTypeV::AnyAtomicType, OccurrenceIndicator::ZeroOrOne)]);
            assert(result@ =~~= st_v(ItemTypeV::AtomicOrUnionType(xs_qname_view("NMTOKEN"@)), OccurrenceIndicator::ZeroOrOne));
        }
        self.register("http://www.w3.org/2001/XMLSchema", "NMTOKEN", 1, BuiltIn::XsNmtoken, params, result);
        let params = params_1(SequenceType::zero_or_one(ItemType::AnyAtomicType));
        let result = SequenceType::zero_or_one(ItemType::AtomicOrUnionType(xs_name("Name")));
        proof {
            reveal_with_fuel(item_type_view, 3);
            reveal_with_fuel(seq_type_view, 3);
            assert(seq_types_view(params@) =~~= seq![st_v(ItemTypeV::AnyAtomicType, OccurrenceIndicator::ZeroOrOne)]);
            assert(result@ =~~= st_v(ItemTypeV::AtomicOrUnionType(xs_qname_view("Name"@)), OccurrenceIndicator::ZeroOrOne));
        }
        self.register("http://www.w3.org/2001/XMLSchema", "Name", 1, BuiltIn::XsName, params, result);
        let params = params_2(SequenceType::zero_or_one(ItemType::AtomicOrUnionType(xs_name("string"))), SequenceType::zero_or_one(ItemType::element()));
        let result = SequenceType::zero_or_one(ItemType::AtomicOrUnionType(xs_name("QName")));
        proof {
            reveal_with_fuel(item_type_view, 3);
            reveal_with_fuel(seq_type_view, 3);
            assert(seq_types_view(params@) =~~= seq![st_v(ItemTypeV::AtomicOrUnionType(xs_qname_view("string"@)), OccurrenceIndicator::ZeroOrOne), st_v(ItemTypeV::Node(Box::new(NodeTestV::Element { name: None, type_annotation: None })), OccurrenceIndicator::ZeroOrOne)]);
            assert(result@ =~~= st_v(ItemTypeV::AtomicOrUnionType(xs_qname_view("QName"@)), OccurrenceIndicator::ZeroOrOne));
        }
        self.register("http://www.w3.org/2005/xpath-functions", "resolve-QName", 2, BuiltIn::ResolveQname, params, result);
        let params = params_2(SequenceType::zero_or_one(ItemType::AtomicOrUnionType(xs_name("string"))), SequenceType::zero_or_one(ItemType::AtomicOrUnionType(xs_name("string"))));
        let result = SequenceType::zero_or_one(ItemType::AtomicOrUnionType(xs_name("QName")));
        proof {
            reveal_with_fuel(item_type_view, 3);
            reveal_with_fuel(seq_type_view, 3);
            assert(seq_types_view(params@) =~~= seq![st_v(ItemTypeV::AtomicOrUnionType(xs_qname_view("string"@)), OccurrenceIndicator::ZeroOrOne), st_v(ItemTypeV::AtomicOrUnionType(xs_qname_view("string"@)), OccurrenceIndicator::ZeroOrOne)]);
            assert(result@ =~~= st_v(ItemTypeV::AtomicOrUnionType(xs_qname_view("QName"@)), OccurrenceIndicator::ZeroOrOne));
        }
        self.register("http://www.w3.org/2005/xpath-functions", "QName", 2, BuiltIn::Qname, params, result);
        let params = params_1(SequenceType::zero_or_one(ItemType::AtomicOrUnionType(xs_name("QName"))));
        let result = SequenceType::zero_or_one(ItemType::AtomicOrUnionType(xs_name("NCName")));
        proof {
            reveal_with_fuel(item_type_view, 3);
            reveal_with_fuel(seq_type_view, 3);
            assert(seq_types_view(params@) =~~= seq![st_v(ItemTypeV::AtomicOrUnionType(xs_qname_view("QName"@)), OccurrenceIndicator::ZeroOrOne)]);
            assert(result@ =~~= st_v(ItemTypeV::AtomicOrUnionType(xs_qname_view("NCName"@)), OccurrenceIndicator::ZeroOrOne));
        }
        self.register("http://www.w3.org/2005/xpath-functions", "prefix-from-QName", 1, BuiltIn::PrefixFromQname, params, result);
        let params = params_1(SequenceType::zero_or_one(ItemType::AtomicOrUnionType(xs_name("QName"))));
        let result = SequenceType::zero_or_one(ItemType::AtomicOrUnionType(xs_name("NCName")));
        proof {
            reveal_with_fuel(item_type_view, 3);
            reveal_with_fuel(seq_type_view, 3);
            assert(seq_types_view(params@) =~~= seq![st_v(ItemTypeV::AtomicOrUnionType(xs_qname_view("QName"@)), OccurrenceIndicator::ZeroOrOne)]);
            assert(result@ =~~= st_v(ItemTypeV::AtomicOrUnionType(xs_qname_view("NCName"@)), OccurrenceIndicator::ZeroOrOne));
        }
        self.register("http://www.w3.org/2005/xpath-functions", "local-name-from-QName", 1, BuiltIn::LocalNameFromQname, params, result);
        let params = params_1(SequenceType::zero_or_one(ItemType::AtomicOrUnionType(xs_name("QName"))));
        let result = SequenceType::zero_or_one(ItemType::AtomicOrUnionType(xs_name("anyURI")));
        proof {
            reveal_with_fuel(item_type_view, 3);
            reveal_with_fuel(seq_type_view, 3);
            assert(seq_types_view(params@) =~~= seq![st_v(ItemTypeV::AtomicOrUnionType(xs_qname_view("QName"@)), OccurrenceIndicator::ZeroOrOne)]);
            assert(result@ =~~= st_v(ItemTypeV::AtomicOrUnionType(xs_qname_view("anyURI"@)), OccurrenceIndicator::ZeroOrOne));
        }
        self.register("http://www.w3.org/2005/xpath-functions", "namespace-uri-from-QName", 1, BuiltIn::NamespaceUriFromQname, params, result);
        let params = params_2(SequenceType::zero_or_one(ItemType::AtomicOrUnionType(xs_name("string"))), SequenceType::zero_or_one(ItemType::element()));
        let result = SequenceType::zero_or_one(ItemType::AtomicOrUnionType(xs_name("anyURI")));
        proof {
            reveal_with_fuel(item_type_view, 3);
            reveal_with_fuel(seq_type_view, 3);
            assert(seq_types_view(params@) =~~= seq![st_v(ItemTypeV::AtomicOrUnionType(xs_qname_view("string"@)), OccurrenceIndicator::ZeroOrOne), st_v(ItemTypeV::Node(Box::new(NodeTestV::Element { name: None, type_annotation: None })), OccurrenceIndicator::ZeroOrOne)]);
            assert(result@ =~~= st_v(ItemTypeV::AtomicOrUnionType(xs_qname_view("anyURI"@)), OccurrenceIndicator::ZeroOrOne));
        }
        self.register("http://www.w3.org/2005/xpath-functions", "namespace-uri-for-prefix", 1, BuiltIn::NamespaceUriForPrefix, params, result);
        let params = params_1(SequenceType::zero_or_one(ItemType::element()));
        let result = SequenceType::zero_or_more(ItemType::AtomicOrUnionType(xs_name("string")));
        proof {
            reveal_with_fuel(item_type_view, 3);
            reveal_with_fuel(seq_type_view, 3);
            assert(seq_types_view(params@) =~~= seq![st_v(ItemTypeV::Node(Box::new(NodeTestV::Element { name: None, type_annotation: None })), OccurrenceIndicator::ZeroOrOne)]);
            assert(result@ =~~= st_v(ItemTypeV::AtomicOrUnionType(xs_qname_view("string"@)), OccurrenceIndicator::ZeroOrMore));
        }
        self.register("http://www.w3.org/2005/xpath-functions", "in-scope-prefixes", 1, BuiltIn::InScopePrefixes, params, result);
        proof {
            assert(entries_view(self.functions@) =~~= before + builtin_part_4());
        }
    }

    #[verifier::rlimit(80)]
    fn register_part_5(&mut self)
        ensures
            entries_view(final(self).functions@) == entries_view(old(self).functions@) + builtin_part_5(),
    {
        let ghost before = entries_view(self.functions@);
        let params = params_0();
        let result = SequenceType::zero_or_more(ItemType::AtomicOrUnionType(xs_name("QName")));
        proof {
            reveal_with_fuel(item_type_view, 3);
            reveal_with_fuel(seq_type_view, 3);
            assert(seq_types_view(params@) =~~= seq![]);
            assert(result@ =~~= st_v(ItemTypeV::AtomicOrUnionType(xs_qname_view("QName"@)), OccurrenceIndicator::ZeroOrMore));
        }
        self.register("http://www.w3.org/2005/xpath-functions", "node-name", 0, BuiltIn::NodeName0, params, result);
        let params = params_1(SequenceType::zero_or_one(ItemType::node()));
        let result = SequenceType::zero_or_more(ItemType::AtomicOrUnionType(xs_name("QName")));
        proof {
            reveal_with_fuel(item_type_view, 3);
            reveal_with_fuel(seq_type_view, 3);
            assert(seq_types_view(params@) =~~= seq![st_v(ItemTypeV::Node(Box::new(NodeTestV::AnyKind)), OccurrenceIndicator::ZeroOrOne)]);
            assert(result@ =~~= st_v(ItemTypeV::AtomicOrUnionType(xs_qname_view("QName"@)), OccurrenceIndicator::ZeroOrMore));
        }
        self.register("http://www.w3.org/2005/xpath-functions", "node-name", 1, BuiltIn::NodeName1, params, result);
        let params = params_1(SequenceType::zero_or_more(ItemType::MapType(None)));
        let result = SequenceType::exactly_one(ItemType::MapType(None));
        proof {
            reveal_with_fuel(item_type_view, 3);
            reveal_with_fuel(seq_type_view, 3);
            assert(seq_types_view(params@) =~~= seq![st_v(ItemTypeV::MapType(None), OccurrenceIndicator::ZeroOrMore)]);
            assert(result@ =~~= st_v(ItemTypeV::MapType(None), OccurrenceIndicator::ExactlyOne));
        }
        self.register("http://www.w3.org/2005/xpath-functions/map", "merge", 1, BuiltIn::MapMerge1, params, result);
        let params = params_2(SequenceType::zero_or_more(ItemType::MapType(None)), SequenceType::exactly_one(ItemType::MapType(None)));
        let result = SequenceType::exactly_one(ItemType::MapType(None));
        proof {
            reveal_with_fuel(item_type_view, 3);
            reveal_with_fuel(seq_type_view, 3);
            assert(seq_types_view(params@) =~~= seq![st_v(ItemTypeV::MapType(None), OccurrenceIndicator::ZeroOrMore), st_v(ItemTypeV::MapType(None), OccurrenceIndicator::ExactlyOne)]);
            assert(result@ =~~= st_v(ItemTypeV::MapType(None), OccurrenceIndicator::ExactlyOne));
        }
        self.register("http://www.w3.org/2005/xpath-functions/map", "merge", 2, BuiltIn::MapMerge2, params, result);
        let params = params_1(SequenceType::exactly_one(ItemType::MapType(None)));
        let result = SequenceType::exactly_one(ItemType::AtomicOrUnionType(xs_name("integer")));
        proof {
            reveal_with_fuel(item_type_view, 3);
            reveal_with_fuel(seq_type_view, 3);
            assert(seq_types_view(params@) =~~= seq![st_v(ItemTypeV::MapType(None), OccurrenceIndicator::ExactlyOne)]);
            assert(result@ =~~= st_v(ItemTypeV::AtomicOrUnionType(xs_qname_view("integer"@)), OccurrenceIndicator::ExactlyOne));
        }
        self.register("http://www.w3.org/2005/xpath-functions/map", "size", 1, BuiltIn::MapSize, params, result);
        let params = params_2(SequenceType::exactly_one(ItemType::MapType(None)), SequenceType::exactly_one(ItemType::AnyAtomicType));
        let result = SequenceType::zero_or_more(ItemType::AtomicOrUnionType(xs_name("boolean")));
        proof {
            reveal_with_fuel(item_type_view, 3);
            reveal_with_fuel(seq_type_view, 3);
            assert(seq_types_view(params@) =~~= seq![st_v(ItemTypeV::MapType(None), OccurrenceIndicator::ExactlyOne), st_v(ItemTypeV::AnyAtomicType, OccurrenceIndicator::ExactlyOne)]);
            assert(result@ =~~= st_v(ItemTypeV::AtomicOrUnionType(xs_qname_view("boolean"@)), OccurrenceIndicator::ZeroOrMore));
        }
        self.register("http://www.w3.org/2005/xpath-functions/map", "contains", 2, BuiltIn::MapContains, params, result);
        let params = params_2(SequenceType::exactly_one(ItemType::MapType(None)), SequenceType::exactly_one(ItemType::AnyAtomicType));
        let result = SequenceType::zero_or_more(ItemType::Item);
        proof {
            reveal_with_fuel(item_type_view, 3);
            reveal_with_fuel(seq_type_view, 3);
            assert(seq_types_view(params@) =~~= seq![st_v(ItemTypeV::MapType(None), OccurrenceIndicator::ExactlyOne), st_v(ItemTypeV::AnyAtomicType, OccurrenceIndicator::ExactlyOne)]);
            assert(result@ =~~= st_v(ItemTypeV::Item, OccurrenceIndicator::ZeroOrMore));
        }
        self.register("http://www.w3.org/2005/xpath-functions/map", "get", 2, BuiltIn::MapGet, params, result);
        let params = params_2(SequenceType::zero_or_more(ItemType::Item), SequenceType::exactly_one(ItemType::AnyAtomicType));
        let result = SequenceType::exactly_one(ItemType::Array(None));
        proof {
            reveal_with_fuel(item_type_view, 3);
            reveal_with_fuel(seq_type_view, 3);
            assert(seq_types_view(params@) =~~= seq![st_v(ItemTypeV::Item, OccurrenceIndicator::ZeroOrMore), st_v(ItemTypeV::AnyAtomicType, OccurrenceIndicator::ExactlyOne)]);
            assert(result@ =~~= st_v(ItemTypeV::Array(None), OccurrenceIndicator::ExactlyOne));
        }
        self.register("http://www.w3.org/2005/xpath-functions/map", "find", 2, BuiltIn::MapFind, params, result);
        let params = params_3(SequenceType::exactly_one(ItemType::MapType(None)), SequenceType::exactly_one(ItemType::AnyAtomicType), SequenceType::zero_or_more(ItemType::Item));
        let result = SequenceType::exactly_one(ItemType::MapType(None));
        proof {
            reveal_with_fuel(item_type_view, 3);
            reveal_with_fuel(seq_type_view, 3);
            assert(seq_types_view(params@) =~~= seq![st_v(ItemTypeV::MapType(None), OccurrenceIndicator::ExactlyOne), st_v(ItemTypeV::AnyAtomicType, OccurrenceIndicator::ExactlyOne), st_v(ItemTypeV::Item, OccurrenceIndicator::ZeroOrMore)]);
            assert(result@ =~~= st_v(ItemTypeV::MapType(None), OccurrenceIndicator::ExactlyOne));
        }
        self.register("http://www.w3.org/2005/xpath-functions/map", "put", 3, BuiltIn::MapPut, params, result);
        let params = params_2(SequenceType::zero_or_more(ItemType::Item), SequenceType::exactly_one(ItemType::AnyAtomicType));
        let result = SequenceType::exactly_one(ItemType::Array(None));
        proof {
            reveal_with_fuel(item_type_view, 3);
            reveal_with_fuel(seq_type_view, 3);
            assert(seq_types_view(params@) =~~= seq![st_v(ItemTypeV::Item, OccurrenceIndicator::ZeroOrMore), st_v(ItemTypeV::AnyAtomicType, OccurrenceIndicator::ExactlyOne)]);
            assert(result@ =~~= st_v(ItemTypeV::Array(None), OccurrenceIndicator::ExactlyOne));
        }
        self.register("http://www.w3.org/2005/xpath-functions/map", "find", 2, BuiltIn::MapFind, params, result);
        proof {
            assert(entries_view(self.functions@) =~~= before + builtin_part_5());
        }
    }

    #[verifier::rlimit(80)]
    fn register_part_6(&mut self)
        ensures
            entries_view(final(self).functions@) == entries_view(old(self).functions@) + builtin_part_6(),
    {
        let ghost before = entries_view(self.functions@);
        let params = params_2(SequenceType::exactly_one(ItemType::AnyAtomicType), SequenceType::zero_or_more(ItemType::Item));
        let result = SequenceType::exactly_one(ItemType::MapType(None));
        proof {
            reveal_with_fuel(item_type_view, 3);
            reveal_with_fuel(seq_type_view, 3);
            assert(seq_types_view(params@) =~~= seq![st_v(ItemTypeV::AnyAtomicType, OccurrenceIndicator::ExactlyOne), st_v(ItemTypeV::Item, OccurrenceIndicator::ZeroOrMore)]);
            assert(result@ =~~= st_v(ItemTypeV::MapType(None), OccurrenceIndicator::ExactlyOne));
        }
        self.register("http://www.w3.org/2005/xpath-functions/map", "entry", 2, BuiltIn::MapEntry, params, result);
        let params = params_2(SequenceType::exactly_one(ItemType::MapType(None)), SequenceType::zero_or_more(ItemType::AnyAtomicType));
        let result = SequenceType::exactly_one(ItemType::MapType(None));
        proof {
            reveal_with_fuel(item_type_view, 3);
            reveal_with_fuel(seq_type_view, 3);
            assert(seq_types_view(params@) =~~= seq![st_v(ItemTypeV::MapType(None), OccurrenceIndicator::ExactlyOne), st_v(ItemTypeV::AnyAtomicType, OccurrenceIndicator::ZeroOrMore)]);
            assert(result@ =~~= st_v(ItemTypeV::MapType(None), OccurrenceIndicator::ExactlyOne));
        }
        self.register("http://www.w3.org/2005/xpath-functions/map", "remove", 2, BuiltIn::MapRemove, params, result);
        let params = params_3(SequenceType::exactly_one(ItemType::MapType(None)), SequenceType::exactly_one(ItemType::Function { args: Some(params_2(SequenceType::exactly_one(ItemType::AnyAtomicType), SequenceType::zero_or_more(ItemType::Item))), st: Some(Box::new(SequenceType::zero_or_more(ItemType::Item))) }), SequenceType::zero_or_more(ItemType::AnyAtomicType));
        let result = SequenceType::exactly_one(ItemType::MapType(None));
        proof {
            reveal_with_fuel(item_type_view, 3);
            reveal_with_fuel(seq_type_view, 3);
            assert(seq_types_view(params@) =~~= seq![st_v(ItemTypeV::MapType(None), OccurrenceIndicator::ExactlyOne), st_v(ItemTypeV::Function { args: Some(seq![st_v(ItemTypeV::AnyAtomicType, OccurrenceIndicator::ExactlyOne), st_v(ItemTypeV::Item, OccurrenceIndicator::ZeroOrMore)]), st: Some(Box::new(st_v(ItemTypeV::Item, OccurrenceIndicator::ZeroOrMore))) }, OccurrenceIndicator::ExactlyOne), st_v(ItemTypeV::AnyAtomicType, OccurrenceIndicator::ZeroOrMore)]);
            assert(result@ =~~= st_v(ItemTypeV::MapType(None), OccurrenceIndicator::ExactlyOne));
        }
        self.register("http://www.w3.org/2005/xpath-functions/map", "for-each", 2, BuiltIn::MapForEach, params, result);
        let params = params_1(SequenceType::exactly_one(ItemType::Array(None)));
        let result = SequenceType::exactly_one(ItemType::AtomicOrUnionType(xs_name("integer")));
        proof {
            reveal_with_fuel(item_type_view, 3);
            reveal_with_fuel(seq_type_view, 3);
            assert(seq_types_view(params@) =~~= seq![st_v(ItemTypeV::Array(None), OccurrenceIndicator::ExactlyOne)]);
            assert(result@ =~~= st_v(ItemTypeV::AtomicOrUnionType(xs_qname_view("integer"@)), OccurrenceIndicator::ExactlyOne));
        }
        self.register("http://www.w3.org/2005/xpath-functions/array", "size", 1, BuiltIn::ArraySize, params, result);
        let params = params_2(SequenceType::exactly_one(ItemType::Array(None)), SequenceType::exactly_one(ItemType::AtomicOrUnionType(xs_name("integer"))));
        let result = SequenceType::zero_or_more(ItemType::Item);
        proof {
            reveal_with_fuel(item_type_view, 3);
            reveal_with_fuel(seq_type_view, 3);
            assert(seq_types_view(params@) =~~= seq![st_v(ItemTypeV::Array(None), OccurrenceIndicator::ExactlyOne), st_v(ItemTypeV::AtomicOrUnionType(xs_qname_view("integer"@)), OccurrenceIndicator::ExactlyOne)]);
            assert(result@ =~~= st_v(ItemTypeV::Item, OccurrenceIndicator::ZeroOrMore));
        }
        self.register("http://www.w3.org/2005/xpath-functions/array", "get", 2, BuiltIn::ArrayGet, params, result);
        let params = params_3(SequenceType::exactly_one(ItemType::Array(None)), SequenceType::exactly_one(ItemType::AtomicOrUnionType(xs_name("integer"))), SequenceType::zero_or_more(ItemType::Item));
        let result = SequenceType::exactly_one(ItemType::Array(None));
        proof {
            reveal_with_fuel(item_type_view, 3);
            reveal_with_fuel(seq_type_view, 3);
            assert(seq_types_view(params@) =~~= seq![st_v(ItemTypeV::Array(None), OccurrenceIndicator::ExactlyOne), st_v(ItemTypeV::AtomicOrUnionType(xs_qname_view("integer"@)), OccurrenceIndicator::ExactlyOne), st_v(ItemTypeV::Item, OccurrenceIndicator::ZeroOrMore)]);
            assert(result@ =~~= st_v(ItemTypeV::Array(None), OccurrenceIndicator::ExactlyOne));
        }
        self.register("http://www.w3.org/2005/xpath-functions/array", "put", 3, BuiltIn::ArrayPut, params, result);
        let params = params_2(SequenceType::exactly_one(ItemType::Array(None)), SequenceType::zero_or_more(ItemType::Item));
        let result = SequenceType::exactly_one(ItemType::Array(None));
        proof {
            reveal_with_fuel(item_type_view, 3);
            reveal_with_fuel(seq_type_view, 3);
            assert(seq_types_view(params@) =~~= seq![st_v(ItemTypeV::Array(None), OccurrenceIndicator::ExactlyOne), st_v(ItemTypeV::Item, OccurrenceIndicator::ZeroOrMore)]);
            assert(result@ =~~= st_v(ItemTypeV::Array(None), OccurrenceIndicator::ExactlyOne));
        }
        self.register("http://www.w3.org/2005/xpath-functions/array", "append", 2, BuiltIn::ArrayAppend, params, result);
        let params = params_2(SequenceType::exactly_one(ItemType::Array(None)), SequenceType::exactly_one(ItemType::AtomicOrUnionType(xs_name("integer"))));
        let result = SequenceType::exactly_one(ItemType::Array(None));
        proof {
            reveal_with_fuel(item_type_view, 3);
            reveal_with_fuel(seq_type_view, 3);
            assert(seq_types_view(params@) =~~= seq![st_v(ItemTypeV::Array(None), OccurrenceIndicator::ExactlyOne), st_v(ItemTypeV::AtomicOrUnionType(xs_qname_view("integer"@)), OccurrenceIndicator::ExactlyOne)]);
            assert(result@ =~~= st_v(ItemTypeV::Array(None), OccurrenceIndicator::ExactlyOne));
        }
        self.register("http://www.w3.org/2005/xpath-functions/array", "subarray", 2, BuiltIn::ArraySubarray2, params, result);
        let params = params_2(SequenceType::exactly_one(ItemType::Array(None)), SequenceType::exactly_one(ItemType::AtomicOrUnionType(xs_name("integer"))));
        let result = SequenceType::exactly_one(ItemType::Array(None));
        proof {
            reveal_with_fuel(item_type_view, 3);
            reveal_with_fuel(seq_type_view, 3);
            assert(seq_types_view(params@) =~~= seq![st_v(ItemTypeV::Array(None), OccurrenceIndicator::ExactlyOne), st_v(ItemTypeV::AtomicOrUnionType(xs_qname_view("integer"@)), OccurrenceIndicator::ExactlyOne)]);
            assert(result@ =~~= st_v(ItemTypeV::Array(None), OccurrenceIndicator::ExactlyOne));
        }
        self.register("http://www.w3.org/2005/xpath-functions/array", "subarray", 3, BuiltIn::ArraySubarray2, params, result);
        let params = params_3(SequenceType::exactly_one(ItemType::Array(None)), SequenceType::exactly_one(ItemType::AtomicOrUnionType(xs_name("integer"))), SequenceType::zero_or_more(ItemType::Item));
        let result = SequenceType::exactly_one(ItemType::Array(None));
        proof {
            reveal_with_fuel(item_type_view, 3);
            reveal_with_fuel(seq_type_view, 3);
            assert(seq_types_view(params@) =~~= seq![st_v(ItemTypeV::Array(None), OccurrenceIndicator::ExactlyOne), st_v(ItemTypeV::AtomicOrUnionType(xs_qname_view("integer"@)), OccurrenceIndicator::ExactlyOne), st_v(ItemTypeV::Item, OccurrenceIndicator::ZeroOrMore)]);
            assert(result@ =~~= st_v(ItemTypeV::Array(None), OccurrenceIndicator::ExactlyOne));
        }
        self.register("http://www.w3.org/2005/xpath-functions/array", "insert-before", 3, BuiltIn::ArrayInsertBefore, params, result);
        proof {
            assert(entries_view(self.functions@) =~~= before + builtin_part_6());
        }
    }

    #[verifier::rlimit(80)]
    fn register_part_7(&mut self)
        ensures
            entries_view(final(self).functions@) == entries_view(old(self).functions@) + builtin_part_7(),
    {
        let ghost before = entries_view(self.functions@);
        let params = params_1(SequenceType::exactly_one(ItemType::Array(None)));
        let result = SequenceType::zero_or_more(ItemType::Item);
        proof {
            reveal_with_fuel(item_type_view, 3);
            reveal_with_fuel(seq_type_view, 3);
            assert(seq_types_view(params@) =~~= seq![st_v(ItemTypeV::Array(None), OccurrenceIndicator::ExactlyOne)]);
            assert(result@ =~~= st_v(ItemTypeV::Item, OccurrenceIndicator::ZeroOrMore));
        }
        self.register("http://www.w3.org/2005/xpath-functions/array", "head", 1, BuiltIn::ArrayHead, params, result);
        let params = params_1(SequenceType::exactly_one(ItemType::Array(None)));
        let result = SequenceType::exactly_one(ItemType::Array(None));
        proof {
            reveal_with_fuel(item_type_view, 3);
            reveal_with_fuel(seq_type_view, 3);
            assert(seq_types_view(params@) =~~= seq![st_v(ItemTypeV::Array(None), OccurrenceIndicator::ExactlyOne)]);
            assert(result@ =~~= st_v(ItemTypeV::Array(None), OccurrenceIndicator::ExactlyOne));
        }
        self.register("http://www.w3.org/2005/xpath-functions/array", "tail", 1, BuiltIn::ArrayTail, params, result);
        let params = params_1(SequenceType::exactly_one(ItemType::Array(None)));
        let result = SequenceType::exactly_one(ItemType::Array(None));
        proof {
            reveal_with_fuel(item_type_view, 3);
            reveal_with_fuel(seq_type_view, 3);
            assert(seq_types_view(params@) =~~= seq![st_v(ItemTypeV::Array(None), OccurrenceIndicator::ExactlyOne)]);
            assert(result@ =~~= st_v(ItemTypeV::Array(None), OccurrenceIndicator::ExactlyOne));
        }
        self.register("http://www.w3.org/2005/xpath-functions/array", "reverse", 1, BuiltIn::ArrayReverse, params, result);
        let params = params_1(SequenceType::zero_or_more(ItemType::Array(None)));
        let result = SequenceType::exactly_one(ItemType::Array(None));
        proof {
            reveal_with_fuel(item_type_view, 3);
            reveal_with_fuel(seq_type_view, 3);
            assert(seq_types_view(params@) =~~= seq![st_v(ItemTypeV::Array(None), OccurrenceIndicator::ZeroOrMore)]);
            assert(result@ =~~= st_v(ItemTypeV::Array(None), OccurrenceIndicator::ExactlyOne));
        }
        self.register("http://www.w3.org/2005/xpath-functions/array", "join", usize::MAX, BuiltIn::ArrayJoin, params, result);
        let params = params_2(SequenceType::exactly_one(ItemType::Array(None)), SequenceType::exactly_one(ItemType::Function { args: Some(params_1(SequenceType::zero_or_more(ItemType::Item))), st: Some(Box::new(SequenceType::zero_or_more(ItemType::Item))) }));
        let result = SequenceType::exactly_one(ItemType::Array(None));
        proof {
            reveal_with_fuel(item_type_view, 3);
            reveal_with_fuel(seq_type_view, 3);
            assert(seq_types_view(params@) =~~= seq![st_v(ItemTypeV::Array(None), OccurrenceIndicator::ExactlyOne), st_v(ItemTypeV::Function { args: Some(seq![st_v(ItemTypeV::Item, OccurrenceIndicator::ZeroOrMore)]), st: Some(Box::new(st_v(ItemTypeV::Item, OccurrenceIndicator::ZeroOrMore))) }, OccurrenceIndicator::ExactlyOne)]);
            assert(result@ =~~= st_v(ItemTypeV::Array(None), OccurrenceIndicator::ExactlyOne));
        }
        self.register("http://www.w3.org/2005/xpath-functions/array", "for-each", 2, BuiltIn::ArrayForEach, params, result);
        let params = params_2(SequenceType::exactly_one(ItemType::Array(None)), SequenceType::exactly_one(ItemType::Function { args: Some(params_1(SequenceType::zero_or_more(ItemType::Item))), st: Some(Box::new(SequenceType::exactly_one(ItemType::AtomicOrUnionType(xs_name("boolean"))))) }));
        let result = SequenceType::exactly_one(ItemType::Array(None));
        proof {
            reveal_with_fuel(item_type_view, 3);
            reveal_with_fuel(seq_type_view, 3);
            assert(seq_types_view(params@) =~~= seq![st_v(ItemTypeV::Array(None), OccurrenceIndicator::ExactlyOne), st_v(ItemTypeV::Function { args: Some(seq![st_v(ItemTypeV::Item, OccurrenceIndicator::ZeroOrMore)]), st: Some(Box::new(st_v(ItemTypeV::AtomicOrUnionType(xs_qname_view("boolean"@)), OccurrenceIndicator::ExactlyOne))) }, OccurrenceIndicator::ExactlyOne)]);
            assert(result@ =~~= st_v(ItemTypeV::Array(None), OccurrenceIndicator::ExactlyOne));
        }
        self.register("http://www.w3.org/2005/xpath-functions/array", "filter", 2, BuiltIn::ArrayFilter, params, result);
        let params = params_3(SequenceType::exactly_one(ItemType::Array(None)), SequenceType::zero_or_more(ItemType::Item), SequenceType::exactly_one(ItemType::Function { args: Some(params_2(SequenceType::zero_or_more(ItemType::Item), SequenceType::zero_or_more(ItemType::Item))), st: Some(Box::new(SequenceType::zero_or_more(ItemType::Item))) }));
        let result = SequenceType::zero_or_more(ItemType::Item);
        proof {
            reveal_with_fuel(item_type_view, 3);
            reveal_with_fuel(seq_type_view, 3);
            assert(seq_types_view(params@) =~~= seq![st_v(ItemTypeV::Array(None), OccurrenceIndicator::ExactlyOne), st_v(ItemTypeV::Item, OccurrenceIndicator::ZeroOrMore), st_v(ItemTypeV::Function { args: Some(seq![st_v(ItemTypeV::Item, OccurrenceIndicator::ZeroOrMore), st_v(ItemTypeV::Item, OccurrenceIndicator::ZeroOrMore)]), st: Some(Box::new(st_v(ItemTypeV::Item, OccurrenceIndicator::ZeroOrMore))) }, OccurrenceIndicator::ExactlyOne)]);
            assert(result@ =~~= st_v(ItemTypeV::Item, OccurrenceIndicator::ZeroOrMore));
        }
        self.register("http://www.w3.org/2005/xpath-functions/array", "fold-left", 3, BuiltIn::ArrayFoldLeft, params, result);
        let params = params_3(SequenceType::exactly_one(ItemType::Array(None)), SequenceType::zero_or_more(ItemType::Item), SequenceType::exactly_one(ItemType::Function { args: Some(params_2(SequenceType::zero_or_more(ItemType::Item), SequenceType::zero_or_more(ItemType::Item))), st: Some(Box::new(SequenceType::zero_or_more(ItemType::Item))) }));
        let result = SequenceType::zero_or_more(ItemType::Item);
        proof {
            reveal_with_fuel(item_type_view, 3);
            reveal_with_fuel(seq_type_view, 3);
            assert(seq_types_view(params@) =~~= seq![st_v(ItemTypeV::Array(None), OccurrenceIndicator::ExactlyOne), st_v(ItemTypeV::Item, OccurrenceIndicator::ZeroOrMore), st_v(ItemTypeV::Function { args: Some(seq![st_v(ItemTypeV::Item, OccurrenceIndicator::ZeroOrMore), st_v(ItemTypeV::Item, OccurrenceIndicator::ZeroOrMore)]), st: Some(Box::new(st_v(ItemTypeV::Item, OccurrenceIndicator::ZeroOrMore))) }, OccurrenceIndicator::ExactlyOne)]);
            assert(result@ =~~= st_v(ItemTypeV::Item, OccurrenceIndicator::ZeroOrMore));
        }
        self.register("http://www.w3.org/2005/xpath-functions/array", "fold-right", 3, BuiltIn::ArrayFoldRight, params, result);
        let params = params_3(SequenceType::exactly_one(ItemType::Array(None)), SequenceType::exactly_one(ItemType::Array(None)), SequenceType::exactly_one(ItemType::Function { args: Some(params_2(SequenceType::zero_or_more(ItemType::Item), SequenceType::zero_or_more(ItemType::Item))), st: Some(Box::new(SequenceType::zero_or_more(ItemType::Item))) }));
        let result = SequenceType::exactly_one(ItemType::Array(None));
        proof {
            reveal_with_fuel(item_type_view, 3);
            reveal_with_fuel(seq_type_view, 3);
            assert(seq_types_view(params@) =~~= seq![st_v(ItemTypeV::Array(None), OccurrenceIndicator::ExactlyOne), st_v(ItemTypeV::Array(None), OccurrenceIndicator::ExactlyOne), st_v(ItemTypeV::Function { args: Some(seq![st_v(ItemTypeV::Item, OccurrenceIndicator::ZeroOrMore), st_v(ItemTypeV::Item, OccurrenceIndicator::ZeroOrMore)]), st: Some(Box::new(st_v(ItemTypeV::Item, OccurrenceIndicator::ZeroOrMore))) }, OccurrenceIndicator::ExactlyOne)]);
            assert(result@ =~~= st_v(ItemTypeV::Array(None), OccurrenceIndicator::ExactlyOne));
        }
        self.register("http://www.w3.org/2005/xpath-functions/array", "for-each-pair", 3, BuiltIn::ArrayForEachPair, params, result);
        let params = params_1(SequenceType::exactly_one(ItemType::Array(None)));
        let result = SequenceType::exactly_one(ItemType::Array(None));
        proof {
            reveal_with_fuel(item_type_view, 3);
            reveal_with_fuel(seq_type_view, 3);
            assert(seq_types_view(params@) =~~= seq![st_v(ItemTypeV::Array(None), OccurrenceIndicator::ExactlyOne)]);
            assert(result@ =~~= st_v(ItemTypeV::Array(None), OccurrenceIndicator::ExactlyOne));
        }
        self.register("http://www.w3.org/2005/xpath-functions/array", "sort", 1, BuiltIn::ArraySort1, params, result);
        proof {
            assert(entries_view(self.functions@) =~~= before + builtin_part_7());
        }
    }

    #[verifier::rlimit(80)]
    fn register_part_8(&mut self)
        ensures
            entries_view(final(self).functions@) == entries_view(old(self).functions@) + builtin_part_8(),
    {
        let ghost before = entries_view(self.functions@);
        let params = params_2(SequenceType::exactly_one(ItemType::Array(None)), SequenceType::zero_or_one(ItemType::AtomicOrUnionType(xs_name("string"))));
        let result = SequenceType::exactly_one(ItemType::Array(None));
        proof {
            reveal_with_fuel(item_type_view, 3);
            reveal_with_fuel(seq_type_view, 3);
            assert(seq_types_view(params@) =~~= seq![st_v(ItemTypeV::Array(None), OccurrenceIndicator::ExactlyOne), st_v(ItemTypeV::AtomicOrUnionType(xs_qname_view("string"@)), OccurrenceIndicator::ZeroOrOne)]);
            assert(result@ =~~= st_v(ItemTypeV::Array(None), OccurrenceIndicator::ExactlyOne));
        }
        self.register("http://www.w3.org/2005/xpath-functions/array", "sort", 2, BuiltIn::ArraySort2, params, result);
        let params = params_3(SequenceType::exactly_one(ItemType::Array(None)), SequenceType::zero_or_one(ItemType::AtomicOrUnionType(xs_name("string"))), SequenceType::exactly_one(ItemType::Function { args: Some(params_1(SequenceType::zero_or_more(ItemType::Item))), st: Some(Box::new(SequenceType::zero_or_more(ItemType::AnyAtomicType))) }));
        let result = SequenceType::exactly_one(ItemType::Array(None));
        proof {
            reveal_with_fuel(item_type_view, 3);
            reveal_with_fuel(seq_type_view, 3);
            assert(seq_types_view(params@) =~~= seq![st_v(ItemTypeV::Array(None), OccurrenceIndicator::ExactlyOne), st_v(ItemTypeV::AtomicOrUnionType(xs_qname_view("string"@)), OccurrenceIndicator::ZeroOrOne), st_v(ItemTypeV::Function { args: Some(seq![st_v(ItemTypeV::Item, OccurrenceIndicator::ZeroOrMore)]), st: Some(Box::new(st_v(ItemTypeV::AnyAtomicType, OccurrenceIndicator::ZeroOrMore))) }, OccurrenceIndicator::ExactlyOne)]);
            assert(result@ =~~= st_v(ItemTypeV::Array(None), OccurrenceIndicator::ExactlyOne));
        }
        self.register("http://www.w3.org/2005/xpath-functions/array", "sort", 3, BuiltIn::ArraySort3, params, result);
        let params = params_1(SequenceType::zero_or_one(ItemType::Item));
        let result = SequenceType::zero_or_one(ItemType::Item);
        proof {
            reveal_with_fuel(item_type_view, 3);
            reveal_with_fuel(seq_type_view, 3);
            assert(seq_types_view(params@) =~~= seq![st_v(ItemTypeV::Item, OccurrenceIndicator::ZeroOrOne)]);
            assert(result@ =~~= st_v(ItemTypeV::Item, OccurrenceIndicator::ZeroOrOne));
        }
        self.register("http://www.w3.org/2005/xpath-functions/array", "flatten", 1, BuiltIn::ArrayFlatten, params, result);
        let params = params_0();
        let result = SequenceType::zero_or_one(ItemType::AtomicOrUnionType(xs_name("dateTimeStamp")));
        proof {
            reveal_with_fuel(item_type_view, 3);
            reveal_with_fuel(seq_type_view, 3);
            assert(seq_types_view(params@) =~~= seq![]);
            assert(result@ =~~= st_v(ItemTypeV::AtomicOrUnionType(xs_qname_view("dateTimeStamp"@)), OccurrenceIndicator::ZeroOrOne));
        }
        self.register("http://www.w3.org/2005/xpath-functions", "current-dateTime", 0, BuiltIn::CurrentDateTime, params, result);
        let params = params_0();
        let result = SequenceType::zero_or_one(ItemType::AtomicOrUnionType(xs_name("date")));
        proof {
            reveal_with_fuel(item_type_view, 3);
            reveal_with_fuel(seq_type_view, 3);
            assert(seq_types_view(params@) =~~= seq![]);
            assert(result@ =~~= st_v(ItemTypeV::AtomicOrUnionType(xs_qname_view("date"@)), OccurrenceIndicator::ZeroOrOne));
        }
        self.register("http://www.w3.org/2005/xpath-functions", "current-date", 0, BuiltIn::CurrentDate, params, result);
        let params = params_0();
        let result = SequenceType::zero_or_one(ItemType::AtomicOrUnionType(xs_name("time")));
        proof {
            reveal_with_fuel(item_type_view, 3);
            reveal_with_fuel(seq_type_view, 3);
            assert(seq_types_view(params@) =~~= seq![]);
            assert(result@ =~~= st_v(ItemTypeV::AtomicOrUnionType(xs_qname_view("time"@)), OccurrenceIndicator::ZeroOrOne));
        }
        self.register("http://www.w3.org/2005/xpath-functions", "current-time", 0, BuiltIn::CurrentTime, params, result);
        let params = params_1(SequenceType::zero_or_one(ItemType::AtomicOrUnionType(xs_name("date"))));
        let result = SequenceType::zero_or_one(ItemType::AtomicOrUnionType(xs_name("integer")));
        proof {
            reveal_with_fuel(item_type_view, 3);
            reveal_with_fuel(seq_type_view, 3);
            assert(seq_types_view(params@) =~~= seq![st_v(ItemTypeV::AtomicOrUnionType(xs_qname_view("date"@)), OccurrenceIndicator::ZeroOrOne)]);
            assert(result@ =~~= st_v(ItemTypeV::AtomicOrUnionType(xs_qname_view("integer"@)), OccurrenceIndicator::ZeroOrOne));
        }
        self.register("http://www.w3.org/2005/xpath-functions", "year-from-date", 1, BuiltIn::YearFromDate, params, result);
        let params = params_1(SequenceType::zero_or_one(ItemType::AtomicOrUnionType(xs_name("date"))));
        let result = SequenceType::zero_or_one(ItemType::AtomicOrUnionType(xs_name("integer")));
        proof {
            reveal_with_fuel(item_type_view, 3);
            reveal_with_fuel(seq_type_view, 3);
            assert(seq_types_view(params@) =~~= seq![st_v(ItemTypeV::AtomicOrUnionType(xs_qname_view("date"@)), OccurrenceIndicator::ZeroOrOne)]);
            assert(result@ =~~= st_v(ItemTypeV::AtomicOrUnionType(xs_qname_view("integer"@)), OccurrenceIndicator::ZeroOrOne));
        }
        self.register("http://www.w3.org/2005/xpath-functions", "month-from-date", 1, BuiltIn::MonthFromDate, params, result);
        let params = params_1(SequenceType::zero_or_one(ItemType::AtomicOrUnionType(xs_name("date"))));
        let result = SequenceType::zero_or_one(ItemType::AtomicOrUnionType(xs_name("integer")));
        proof {
            reveal_with_fuel(item_type_view, 3);
            reveal_with_fuel(seq_type_view, 3);
            assert(seq_types_view(params@) =~~= seq![st_v(ItemTypeV::AtomicOrUnionType(xs_qname_view("date"@)), OccurrenceIndicator::ZeroOrOne)]);
            assert(result@ =~~= st_v(ItemTypeV::AtomicOrUnionType(xs_qname_view("integer"@)), OccurrenceIndicator::ZeroOrOne));
        }
        self.register("http://www.w3.org/2005/xpath-functions", "day-from-date", 1, BuiltIn::DayFromDate, params, result);
        let params = params_1(SequenceType::zero_or_one(ItemType::AtomicOrUnionType(xs_name("duration"))));
        let result = SequenceType::zero_or_one(ItemType::AtomicOrUnionType(xs_name("integer")));
        proof {
            reveal_with_fuel(item_type_view, 3);
            reveal_with_fuel(seq_type_view, 3);
            assert(seq_types_view(params@) =~~= seq![st_v(ItemTypeV::AtomicOrUnionType(xs_qname_view("duration"@)), OccurrenceIndicator::ZeroOrOne)]);
            assert(result@ =~~= st_v(ItemTypeV::AtomicOrUnionType(xs_qname_view("integer"@)), OccurrenceIndicator::ZeroOrOne));
        }
        self.register("http://www.w3.org/2005/xpath-functions", "days-from-duration", 1, BuiltIn::DaysFromDuration, params, result);
        proof {
            assert(entries_view(self.functions@) =~~= before + builtin_part_8());
        }
    }

    #[verifier::rlimit(80)]
    fn register_part_9(&mut self)
        ensures
            entries_view(final(self).functions@) == entries_view(old(self).functions@) + builtin_part_9(),
    {
        let ghost before = entries_view(self.functions@);
        let params = params_1(SequenceType::zero_or_one(ItemType::AtomicOrUnionType(xs_name("dateTime"))));
        let result = SequenceType::zero_or_one(ItemType::AtomicOrUnionType(xs_name("dayTimeDuration")));
        proof {
            reveal_with_fuel(item_type_view, 3);
            reveal_with_fuel(seq_type_view, 3);
            assert(seq_types_view(params@) =~~= seq![st_v(ItemTypeV::AtomicOrUnionType(xs_qname_view("dateTime"@)), OccurrenceIndicator::ZeroOrOne)]);
            assert(result@ =~~= st_v(ItemTypeV::AtomicOrUnionType(xs_qname_view("dayTimeDuration"@)), OccurrenceIndicator::ZeroOrOne));
        }
        self.register("http://www.w3.org/2005/xpath-functions", "timezone-from-time", 1, BuiltIn::TimezoneFromDateTime, params, result);
        let params = params_1(SequenceType::zero_or_one(ItemType::AtomicOrUnionType(xs_name("date"))));
        let result = SequenceType::zero_or_one(ItemType::AtomicOrUnionType(xs_name("dayTimeDuration")));
        proof {
            reveal_with_fuel(item_type_view, 3);
            reveal_with_fuel(seq_type_view, 3);
            assert(seq_types_view(params@) =~~= seq![st_v(ItemTypeV::AtomicOrUnionType(xs_qname_view("date"@)), OccurrenceIndicator::ZeroOrOne)]);
            assert(result@ =~~= st_v(ItemTypeV::AtomicOrUnionType(xs_qname_view("dayTimeDuration"@)), OccurrenceIndicator::ZeroOrOne));
        }
        self.register("http://www.w3.org/2005/xpath-functions", "timezone-from-time", 1, BuiltIn::TimezoneFromDate, params, result);
        let params = params_1(SequenceType::zero_or_one(ItemType::AtomicOrUnionType(xs_name("time"))));
        let result = SequenceType::zero_or_one(ItemType::AtomicOrUnionType(xs_name("dayTimeDuration")));
        proof {
            reveal_with_fuel(item_type_view, 3);
            reveal_with_fuel(seq_type_view, 3);
            assert(seq_types_view(params@) =~~= seq![st_v(ItemTypeV::AtomicOrUnionType(xs_qname_view("time"@)), OccurrenceIndicator::ZeroOrOne)]);
            assert(result@ =~~= st_v(ItemTypeV::AtomicOrUnionType(xs_qname_view("dayTimeDuration"@)), OccurrenceIndicator::ZeroOrOne));
        }
        self.register("http://www.w3.org/2005/xpath-functions", "timezone-from-time", 1, BuiltIn::TimezoneFromTime, params, result);
        let params = params_2(SequenceType::zero_or_more(ItemType::Item), SequenceType::exactly_one(ItemType::Function { args: Some(params_1(SequenceType::exactly_one(ItemType::Item))), st: Some(Box::new(SequenceType::zero_or_more(ItemType::Item))) }));
        let result = SequenceType::zero_or_one(ItemType::AtomicOrUnionType(xs_name("integer")));
        proof {
            reveal_with_fuel(item_type_view, 3);
            reveal_with_fuel(seq_type_view, 3);
            assert(seq_types_view(params@) =~~= seq![st_v(ItemTypeV::Item, OccurrenceIndicator::ZeroOrMore), st_v(ItemTypeV::Function { args: Some(seq![st_v(ItemTypeV::Item, OccurrenceIndicator::ExactlyOne)]), st: Some(Box::new(st_v(ItemTypeV::Item, OccurrenceIndicator::ZeroOrMore))) }, OccurrenceIndicator::ExactlyOne)]);
            assert(result@ =~~= st_v(ItemTypeV::AtomicOrUnionType(xs_qname_view("integer"@)), OccurrenceIndicator::ZeroOrOne));
        }
        self.register("http://www.w3.org/2005/xpath-functions", "for-each", 2, BuiltIn::ForEach, params, result);
        let params = params_2(SequenceType::zero_or_more(ItemType::Item), SequenceType::exactly_one(ItemType::Function { args: Some(params_1(SequenceType::exactly_one(ItemType::Item))), st: Some(Box::new(SequenceType::exactly_one(ItemType::AtomicOrUnionType(xs_name("boolean"))))) }));
        let result = SequenceType::zero_or_more(ItemType::Item);
        proof {
            reveal_with_fuel(item_type_view, 3);
            reveal_with_fuel(seq_type_view, 3);
            assert(seq_types_view(params@) =~~= seq![st_v(ItemTypeV::Item, OccurrenceIndicator::ZeroOrMore), st_v(ItemTypeV::Function { args: Some(seq![st_v(ItemTypeV::Item, OccurrenceIndicator::ExactlyOne)]), st: Some(Box::new(st_v(ItemTypeV::AtomicOrUnionType(xs_qname_view("boolean"@)), OccurrenceIndicator::ExactlyOne))) }, OccurrenceIndicator::ExactlyOne)]);
            assert(result@ =~~= st_v(ItemTypeV::Item, OccurrenceIndicator::ZeroOrMore));
        }
        self.register("http://www.w3.org/2005/xpath-functions", "filter", 2, BuiltIn::Filter, params, result);
        let params = params_3(SequenceType::zero_or_more(ItemType::Item), SequenceType::zero_or_more(ItemType::Item), SequenceType::exactly_one(ItemType::Function { args: Some(params_2(SequenceType::zero_or_more(ItemType::Item), SequenceType::exactly_one(ItemType::Item))), st: Some(Box::new(SequenceType::zero_or_more(ItemType::Item))) }));
        let result = SequenceType::zero_or_more(ItemType::Item);
        proof {
            reveal_with_fuel(item_type_view, 3);
            reveal_with_fuel(seq_type_view, 3);
            assert(seq_types_view(params@) =~~= seq![st_v(ItemTypeV::Item, OccurrenceIndicator::ZeroOrMore), st_v(ItemTypeV::Item, OccurrenceIndicator::ZeroOrMore), st_v(ItemTypeV::Function { args: Some(seq![st_v(ItemTypeV::Item, OccurrenceIndicator::ZeroOrMore), st_v(ItemTypeV::Item, OccurrenceIndicator::ExactlyOne)]), st: Some(Box::new(st_v(ItemTypeV::Item, OccurrenceIndicator::ZeroOrMore))) }, OccurrenceIndicator::ExactlyOne)]);
            assert(result@ =~~= st_v(ItemTypeV::Item, OccurrenceIndicator::ZeroOrMore));
        }
        self.register("http://www.w3.org/2005/xpath-functions", "fold-left", 3, BuiltIn::FoldLeft, params, result);
        let params = params_3(SequenceType::zero_or_more(ItemType::Item), SequenceType::zero_or_more(ItemType::Item), SequenceType::exactly_one(ItemType::Function { args: Some(params_2(SequenceType::exactly_one(ItemType::Item), SequenceType::zero_or_more(ItemType::Item))), st: Some(Box::new(SequenceType::zero_or_more(ItemType::Item))) }));
        let result = SequenceType::zero_or_more(ItemType::Item);
        proof {
            reveal_with_fuel(item_type_view, 3);
            reveal_with_fuel(seq_type_view, 3);
            assert(seq_types_view(params@) =~~= seq![st_v(ItemTypeV::Item, OccurrenceIndicator::ZeroOrMore), st_v(ItemTypeV::Item, OccurrenceIndicator::ZeroOrMore), st_v(ItemTypeV::Function { args: Some(seq![st_v(ItemTypeV::Item, OccurrenceIndicator::ExactlyOne), st_v(ItemTypeV::Item, OccurrenceIndicator::ZeroOrMore)]), st: Some(Box::new(st_v(ItemTypeV::Item, OccurrenceIndicator::ZeroOrMore))) }, OccurrenceIndicator::ExactlyOne)]);
            assert(result@ =~~= st_v(ItemTypeV::Item, OccurrenceIndicator::ZeroOrMore));
        }
        self.register("http://www.w3.org/2005/xpath-functions", "fold-right", 3, BuiltIn::FoldRight, params, result);
        let params = params_3(SequenceType::zero_or_more(ItemType::Item), SequenceType::zero_or_more(ItemType::Item), SequenceType::exactly_one(ItemType::Function { args: Some(params_2(SequenceType::exactly_one(ItemType::Item), SequenceType::zero_or_more(ItemType::Item))), st: Some(Box::new(SequenceType::zero_or_more(ItemType::Item))) }));
        let result = SequenceType::zero_or_more(ItemType::Item);
        proof {
            reveal_with_fuel(item_type_view, 3);
            reveal_with_fuel(seq_type_view, 3);
            assert(seq_types_view(params@) =~~= seq![st_v(ItemTypeV::Item, OccurrenceIndicator::ZeroOrMore), st_v(ItemTypeV::Item, OccurrenceIndicator::ZeroOrMore), st_v(ItemTypeV::Function { args: Some(seq![st_v(ItemTypeV::Item, OccurrenceIndicator::ExactlyOne), st_v(ItemTypeV::Item, OccurrenceIndicator::ZeroOrMore)]), st: Some(Box::new(st_v(ItemTypeV::Item, OccurrenceIndicator::ZeroOrMore))) }, OccurrenceIndicator::ExactlyOne)]);
            assert(result@ =~~= st_v(ItemTypeV::Item, OccurrenceIndicator::ZeroOrMore));
        }
        self.register("http://www.w3.org/2005/xpath-functions", "for-each-pair", 3, BuiltIn::ForEachPair, params, result);
        let params = params_1(SequenceType::zero_or_more(ItemType::Item));
        let result = SequenceType::zero_or_more(ItemType::Item);
        proof {
            reveal_with_fuel(item_type_view, 3);
            reveal_with_fuel(seq_type_view, 3);
            assert(seq_types_view(params@) =~~= seq![st_v(ItemTypeV::Item, OccurrenceIndicator::ZeroOrMore)]);
            assert(result@ =~~= st_v(ItemTypeV::Item, OccurrenceIndicator::ZeroOrMore));
        }
        self.register("http://www.w3.org/2005/xpath-functions", "sort", 1, BuiltIn::Sort1, params, result);
        let params = params_2(SequenceType::zero_or_more(ItemType::Item), SequenceType::zero_or_one(ItemType::AtomicOrUnionType(xs_name("string"))));
        let result = SequenceType::zero_or_more(ItemType::Item);
        proof {
            reveal_with_fuel(item_type_view, 3);
            reveal_with_fuel(seq_type_view, 3);
            assert(seq_types_view(params@) =~~= seq![st_v(ItemTypeV::Item, OccurrenceIndicator::ZeroOrMore), st_v(ItemTypeV::AtomicOrUnionType(xs_qname_view("string"@)), OccurrenceIndicator::ZeroOrOne)]);
            assert(result@ =~~= st_v(ItemTypeV::Item, OccurrenceIndicator::ZeroOrMore));
        }
        self.register("http://www.w3.org/2005/xpath-functions", "sort", 2, BuiltIn::Sort2, params, result);
        proof {
            assert(entries_view(self.functions@) =~~= before + builtin_part_9());
        }
    }

    #[verifier::rlimit(80)]
    fn register_part_10(&mut self)
        ensures
            entries_view(final(self).functions@) == entries_view(old(self).functions@) + builtin_part_10(),
    {
        let ghost before = entries_view(self.functions@);
        let params = params_3(SequenceType::zero_or_more(ItemType::Item), SequenceType::zero_or_one(ItemType::AtomicOrUnionType(xs_name("string"))), SequenceType::exactly_one(ItemType::Function { args: Some(params_1(SequenceType::exactly_one(ItemType::Item))), st: Some(Box::new(SequenceType::zero_or_more(ItemType::AnyAtomicType))) }));
        let result = SequenceType::zero_or_more(ItemType::Item);
        proof {
            reveal_with_fuel(item_type_view, 3);
            reveal_with_fuel(seq_type_view, 3);
            assert(seq_types_view(params@) =~~= seq![st_v(ItemTypeV::Item, OccurrenceIndicator::ZeroOrMore), st_v(ItemTypeV::AtomicOrUnionType(xs_qname_view("string"@)), OccurrenceIndicator::ZeroOrOne), st_v(ItemTypeV::Function { args: Some(seq![st_v(ItemTypeV::Item, OccurrenceIndicator::ExactlyOne)]), st: Some(Box::new(st_v(ItemTypeV::AnyAtomicType, OccurrenceIndicator::ZeroOrMore))) }, OccurrenceIndicator::ExactlyOne)]);
            assert(result@ =~~= st_v(ItemTypeV::Item, OccurrenceIndicator::ZeroOrMore));
        }
        self.register("http://www.w3.org/2005/xpath-functions", "sort", 3, BuiltIn::Sort3, params, result);
        let params = params_2(SequenceType::exactly_one(ItemType::Function { args: None, st: None }), SequenceType::exactly_one(ItemType::Array(None)));
        let result = SequenceType::zero_or_more(ItemType::Item);
        proof {
            reveal_with_fuel(item_type_view, 3);
            reveal_with_fuel(seq_type_view, 3);
            assert(seq_types_view(params@) =~~= seq![st_v(ItemTypeV::Function { args: None, st: None }, OccurrenceIndicator::ExactlyOne), st_v(ItemTypeV::Array(None), OccurrenceIndicator::ExactlyOne)]);
            assert(result@ =~~= st_v(ItemTypeV::Item, OccurrenceIndicator::ZeroOrMore));
        }
        self.register("http://www.w3.org/2005/xpath-functions", "apply", 2, BuiltIn::Apply, params, result);
        let params = params_0();
        let result = SequenceType::none();
        proof {
            reveal_with_fuel(item_type_view, 3);
            reveal_with_fuel(seq_type_view, 3);
            assert(seq_types_view(params@) =~~= seq![]);
            assert(result@ =~~= st_v(ItemTypeV::NoneType, OccurrenceIndicator::ExactlyOne));
        }
        self.register("http://www.w3.org/2005/xpath-functions", "error", 0, BuiltIn::Error0, params, result);
        let params = params_1(SequenceType::zero_or_one(ItemType::AtomicOrUnionType(xs_name("QName"))));
        let result = SequenceType::none();
        proof {
            reveal_with_fuel(item_type_view, 3);
            reveal_with_fuel(seq_type_view, 3);
            assert(seq_types_view(params@) =~~= seq![st_v(ItemTypeV::AtomicOrUnionType(xs_qname_view("QName"@)), OccurrenceIndicator::ZeroOrOne)]);
            assert(result@ =~~= st_v(ItemTypeV::NoneType, OccurrenceIndicator::ExactlyOne));
        }
        self.register("http://www.w3.org/2005/xpath-functions", "error", 1, BuiltIn::Error1, params, result);
        let params = params_2(SequenceType::zero_or_one(ItemType::AtomicOrUnionType(xs_name("QName"))), SequenceType::exactly_one(ItemType::AtomicOrUnionType(xs_name("string"))));
        let result = SequenceType::none();
        proof {
            reveal_with_fuel(item_type_view, 3);
            reveal_with_fuel(seq_type_view, 3);
            assert(seq_types_view(params@) =~~= seq![st_v(ItemTypeV::AtomicOrUnionType(xs_qname_view("QName"@)), OccurrenceIndicator::ZeroOrOne), st_v(ItemTypeV::AtomicOrUnionType(xs_qname_view("string"@)), OccurrenceIndicator::ExactlyOne)]);
            assert(result@ =~~= st_v(ItemTypeV::NoneType, OccurrenceIndicator::ExactlyOne));
        }
        self.register("http://www.w3.org/2005/xpath-functions", "error", 2, BuiltIn::Error2, params, result);
        let params = params_3(SequenceType::zero_or_one(ItemType::AtomicOrUnionType(xs_name("QName"))), SequenceType::exactly_one(ItemType::AtomicOrUnionType(xs_name("string"))), SequenceType::zero_or_more(ItemType::Item));
        let result = SequenceType::none();
        proof {
            reveal_with_fuel(item_type_view, 3);
            reveal_with_fuel(seq_type_view, 3);
            assert(seq_types_view(params@) =~~= seq![st_v(ItemTypeV::AtomicOrUnionType(xs_qname_view("QName"@)), OccurrenceIndicator::ZeroOrOne), st_v(ItemTypeV::AtomicOrUnionType(xs_qname_view("string"@)), OccurrenceIndicator::ExactlyOne), st_v(ItemTypeV::Item, OccurrenceIndicator::ZeroOrMore)]);
            assert(result@ =~~= st_v(ItemTypeV::NoneType, OccurrenceIndicator::ExactlyOne));
        }
        self.register("http://www.w3.org/2005/xpath-functions", "error", 3, BuiltIn::Error3, params, result);
        let params = params_2(SequenceType::zero_or_one(ItemType::AtomicOrUnionType(xs_name("numeric"))), SequenceType::exactly_one(ItemType::AtomicOrUnionType(xs_name("string"))));
        let result = SequenceType::exactly_one(ItemType::AtomicOrUnionType(xs_name("string")));
        proof {
            reveal_with_fuel(item_type_view, 3);
            reveal_with_fuel(seq_type_view, 3);
            assert(seq_types_view(params@) =~~= seq![st_v(ItemTypeV::AtomicOrUnionType(xs_qname_view("numeric"@)), OccurrenceIndicator::ZeroOrOne), st_v(ItemTypeV::AtomicOrUnionType(xs_qname_view("string"@)), OccurrenceIndicator::ExactlyOne)]);
            assert(result@ =~~= st_v(ItemTypeV::AtomicOrUnionType(xs_qname_view("string"@)), OccurrenceIndicator::ExactlyOne));
        }
        self.register("http://www.w3.org/2005/xpath-functions", "format-number", 2, BuiltIn::MathFormatNumber2, params, result);
        let params = params_3(SequenceType::zero_or_one(ItemType::AtomicOrUnionType(xs_name("numeric"))), SequenceType::exactly_one(ItemType::AtomicOrUnionType(xs_name("string"))), SequenceType::zero_or_one(ItemType::AtomicOrUnionType(xs_name("string"))));
        let result = SequenceType::exactly_one(ItemType::AtomicOrUnionType(xs_name("string")));
        proof {
            reveal_with_fuel(item_type_view, 3);
            reveal_with_fuel(seq_type_view, 3);
            assert(seq_types_view(params@) =~~= seq![st_v(ItemTypeV::AtomicOrUnionType(xs_qname_view("numeric"@)), OccurrenceIndicator::ZeroOrOne), st_v(ItemTypeV::AtomicOrUnionType(xs_qname_view("string"@)), OccurrenceIndicator::ExactlyOne), st_v(ItemTypeV::AtomicOrUnionType(xs_qname_view("string"@)), OccurrenceIndicator::ZeroOrOne)]);
            assert(result@ =~~= st_v(ItemTypeV::AtomicOrUnionType(xs_qname_view("string"@)), OccurrenceIndicator::ExactlyOne));
        }
        self.register("http://www.w3.org/2005/xpath-functions", "format-number", 3, BuiltIn::MathFormatNumber3, params, result);
        let params = params_0();
        let result = SequenceType::exactly_one(ItemType::AtomicOrUnionType(xs_name("double")));
        proof {
            reveal_with_fuel(item_type_view, 3);
            reveal_with_fuel(seq_type_view, 3);
            assert(seq_types_view(params@) =~~= seq![]);
            assert(result@ =~~= st_v(ItemTypeV::AtomicOrUnionType(xs_qname_view("double"@)), OccurrenceIndicator::ExactlyOne));
        }
        self.register("http://www.w3.org/2005/xpath-functions", "number", 0, BuiltIn::MathNumber0, params, result);
        let params = params_1(SequenceType::zero_or_one(ItemType::AnyAtomicType));
        let result = SequenceType::exactly_one(ItemType::AtomicOrUnionType(xs_name("double")));
        proof {
            reveal_with_fuel(item_type_view, 3);
            reveal_with_fuel(seq_type_view, 3);
            assert(seq_types_view(params@) =~~= seq![st_v(ItemTypeV::AnyAtomicType, OccurrenceIndicator::ZeroOrOne)]);
            assert(result@ =~~= st_v(ItemTypeV::AtomicOrUnionType(xs_qname_view("double"@)), OccurrenceIndicator::ExactlyOne));
        }
        self.register("http://www.w3.org/2005/xpath-functions", "number", 1, BuiltIn::MathNumber1, params, result);
        proof {
            assert(entries_view(self.functions@) =~~= before + builtin_part_10());
        }
    }

    #[verifier::rlimit(80)]
    fn register_part_11(&mut self)
        ensures
            entries_view(final(self).functions@) == entries_view(old(self).functions@) + builtin_part_11(),
    {
        let ghost before = entries_view(self.functions@);
        let params = params_1(SequenceType::zero_or_more(ItemType::Item));
        let result = SequenceType::exactly_one(ItemType::AtomicOrUnionType(xs_name("integer")));
        proof {
            reveal_with_fuel(item_type_view, 3);
            reveal_with_fuel(seq_type_view, 3);
            assert(seq_types_view(params@) =~~= seq![st_v(ItemTypeV::Item, OccurrenceIndicator::ZeroOrMore)]);
            assert(result@ =~~= st_v(ItemTypeV::AtomicOrUnionType(xs_qname_view("integer"@)), OccurrenceIndicator::ExactlyOne));
        }
        self.register("http://www.w3.org/2005/xpath-functions", "count", 1, BuiltIn::Count, params, result);
        let params = params_1(SequenceType::zero_or_more(ItemType::AnyAtomicType));
        let result = SequenceType::zero_or_one(ItemType::AnyAtomicType);
        proof {
            reveal_with_fuel(item_type_view, 3);
            reveal_with_fuel(seq_type_view, 3);
            assert(seq_types_view(params@) =~~= seq![st_v(ItemTypeV::AnyAtomicType, OccurrenceIndicator::ZeroOrMore)]);
            assert(result@ =~~= st_v(ItemTypeV::AnyAtomicType, OccurrenceIndicator::ZeroOrOne));
        }
        self.register("http://www.w3.org/2005/xpath-functions", "avg", 1, BuiltIn::Avg, params, result);
        let params = params_1(SequenceType::zero_or_more(ItemType::AnyAtomicType));
        let result = SequenceType::zero_or_one(ItemType::AnyAtomicType);
        proof {
            reveal_with_fuel(item_type_view, 3);
            reveal_with_fuel(seq_type_view, 3);
            assert(seq_types_view(params@) =~~= seq![st_v(ItemTypeV::AnyAtomicType, OccurrenceIndicator::ZeroOrMore)]);
            assert(result@ =~~= st_v(ItemTypeV::AnyAtomicType, OccurrenceIndicator::ZeroOrOne));
        }
        self.register("http://www.w3.org/2005/xpath-functions", "max", 1, BuiltIn::Max1, params, result);
        let params = params_2(SequenceType::zero_or_more(ItemType::AnyAtomicType), SequenceType::exactly_one(ItemType::AtomicOrUnionType(xs_name("string"))));
        let result = SequenceType::zero_or_one(ItemType::AnyAtomicType);
        proof {
            reveal_with_fuel(item_type_view, 3);
            reveal_with_fuel(seq_type_view, 3);
            assert(seq_types_view(params@) =~~= seq![st_v(ItemTypeV::AnyAtomicType, OccurrenceIndicator::ZeroOrMore), st_v(ItemTypeV::AtomicOrUnionType(xs_qname_view("string"@)), OccurrenceIndicator::ExactlyOne)]);
            assert(result@ =~~= st_v(ItemTypeV::AnyAtomicType, OccurrenceIndicator::ZeroOrOne));
        }
        self.register("http://www.w3.org/2005/xpath-functions", "max", 2, BuiltIn::Max2, params, result);
        let params = params_1(SequenceType::zero_or_more(ItemType::AnyAtomicType));
        let result = SequenceType::zero_or_one(ItemType::AnyAtomicType);
        proof {
            reveal_with_fuel(item_type_view, 3);
            reveal_with_fuel(seq_type_view, 3);
            assert(seq_types_view(params@) =~~= seq![st_v(ItemTypeV::AnyAtomicType, OccurrenceIndicator::ZeroOrMore)]);
            assert(result@ =~~= st_v(ItemTypeV::AnyAtomicType, OccurrenceIndicator::ZeroOrOne));
        }
        self.register("http://www.w3.org/2005/xpath-functions", "min", 1, BuiltIn::Min1, params, result);
        let params = params_2(SequenceType::zero_or_more(ItemType::AnyAtomicType), SequenceType::exactly_one(ItemType::AtomicOrUnionType(xs_name("string"))));
        let result = SequenceType::zero_or_one(ItemType::AnyAtomicType);
        proof {
            reveal_with_fuel(item_type_view, 3);
            reveal_with_fuel(seq_type_view, 3);
            assert(seq_types_view(params@) =~~= seq![st_v(ItemTypeV::AnyAtomicType, OccurrenceIndicator::ZeroOrMore), st_v(ItemTypeV::AtomicOrUnionType(xs_qname_view("string"@)), OccurrenceIndicator::ExactlyOne)]);
            assert(result@ =~~= st_v(ItemTypeV::AnyAtomicType, OccurrenceIndicator::ZeroOrOne));
        }
        self.register("http://www.w3.org/2005/xpath-functions", "min", 2, BuiltIn::Min2, params, result);
        let params = params_1(SequenceType::zero_or_more(ItemType::AnyAtomicType));
        let result = SequenceType::zero_or_one(ItemType::AnyAtomicType);
        proof {
            reveal_with_fuel(item_type_view, 3);
            reveal_with_fuel(seq_type_view, 3);
            assert(seq_types_view(params@) =~~= seq![st_v(ItemTypeV::AnyAtomicType, OccurrenceIndicator::ZeroOrMore)]);
            assert(result@ =~~= st_v(ItemTypeV::AnyAtomicType, OccurrenceIndicator::ZeroOrOne));
        }
        self.register("http://www.w3.org/2005/xpath-functions", "sum", 1, BuiltIn::Sum1, params, result);
        let params = params_2(SequenceType::zero_or_more(ItemType::AnyAtomicType), SequenceType::zero_or_one(ItemType::AnyAtomicType));
        let result = SequenceType::zero_or_one(ItemType::AnyAtomicType);
        proof {
            reveal_with_fuel(item_type_view, 3);
            reveal_with_fuel(seq_type_view, 3);
            assert(seq_types_view(params@) =~~= seq![st_v(ItemTypeV::AnyAtomicType, OccurrenceIndicator::ZeroOrMore), st_v(ItemTypeV::AnyAtomicType, OccurrenceIndicator::ZeroOrOne)]);
            assert(result@ =~~= st_v(ItemTypeV::AnyAtomicType, OccurrenceIndicator::ZeroOrOne));
        }
        self.register("http://www.w3.org/2005/xpath-functions", "sum", 2, BuiltIn::Sum2, params, result);
        let params = params_0();
        let result = SequenceType::exactly_one(ItemType::AtomicOrUnionType(xs_name("double")));
        proof {
            reveal_with_fuel(item_type_view, 3);
            reveal_with_fuel(seq_type_view, 3);
            assert(seq_types_view(params@) =~~= seq![]);
            assert(result@ =~~= st_v(ItemTypeV::AtomicOrUnionType(xs_qname_view("double"@)), OccurrenceIndicator::ExactlyOne));
        }
        self.register("http://www.w3.org/2005/xpath-functions/math", "pi", 0, BuiltIn::MathPi, params, result);
        let params = params_1(SequenceType::zero_or_one(ItemType::AtomicOrUnionType(xs_name("numeric"))));
        let result = SequenceType::zero_or_one(ItemType::AtomicOrUnionType(xs_name("numeric")));
        proof {
            reveal_with_fuel(item_type_view, 3);
            reveal_with_fuel(seq_type_view, 3);
            assert(seq_types_view(params@) =~~= seq![st_v(ItemTypeV::AtomicOrUnionType(xs_qname_view("numeric"@)), OccurrenceIndicator::ZeroOrOne)]);
            assert(result@ =~~= st_v(ItemTypeV::AtomicOrUnionType(xs_qname_view("numeric"@)), OccurrenceIndicator::ZeroOrOne));
        }
        self.register("http://www.w3.org/2005/xpath-functions", "abs", 1, BuiltIn::MathAbs, params, result);
        proof {
            assert(entries_view(self.functions@) =~~= before + builtin_part_11());
        }
    }

    #[verifier::rlimit(80)]
    fn register_part_12(&mut self)
        ensures
            entries_view(final(self).functions@) == entries_view(old(self).functions@) + builtin_part_12(),
    {
        let ghost before = entries_view(self.functions@);
        let params = params_1(SequenceType::zero_or_one(ItemType::AtomicOrUnionType(xs_name("numeric"))));
        let result = SequenceType::zero_or_one(ItemType::AtomicOrUnionType(xs_name("numeric")));
        proof {
            reveal_with_fuel(item_type_view, 3);
            reveal_with_fuel(seq_type_view, 3);
            assert(seq_types_view(params@) =~~= seq![st_v(ItemTypeV::AtomicOrUnionType(xs_qname_view("numeric"@)), OccurrenceIndicator::ZeroOrOne)]);
            assert(result@ =~~= st_v(ItemTypeV::AtomicOrUnionType(xs_qname_view("numeric"@)), OccurrenceIndicator::ZeroOrOne));
        }
        self.register("http://www.w3.org/2005/xpath-functions", "ceiling", 1, BuiltIn::MathCeiling, params, result);
        let params = params_1(SequenceType::zero_or_one(ItemType::AtomicOrUnionType(xs_name("numeric"))));
        let result = SequenceType::zero_or_one(ItemType::AtomicOrUnionType(xs_name("numeric")));
        proof {
            reveal_with_fuel(item_type_view, 3);
            reveal_with_fuel(seq_type_view, 3);
            assert(seq_types_view(params@) =~~= seq![st_v(ItemTypeV::AtomicOrUnionType(xs_qname_view("numeric"@)), OccurrenceIndicator::ZeroOrOne)]);
            assert(result@ =~~= st_v(ItemTypeV::AtomicOrUnionType(xs_qname_view("numeric"@)), OccurrenceIndicator::ZeroOrOne));
        }
        self.register("http://www.w3.org/2005/xpath-functions", "floor", 1, BuiltIn::MathFloor, params, result);
        let params = params_1(SequenceType::zero_or_one(ItemType::AtomicOrUnionType(xs_name("numeric"))));
        let result = SequenceType::zero_or_one(ItemType::AtomicOrUnionType(xs_name("numeric")));
        proof {
            reveal_with_fuel(item_type_view, 3);
            reveal_with_fuel(seq_type_view, 3);
            assert(seq_types_view(params@) =~~= seq![st_v(ItemTypeV::AtomicOrUnionType(xs_qname_view("numeric"@)), OccurrenceIndicator::ZeroOrOne)]);
            assert(result@ =~~= st_v(ItemTypeV::AtomicOrUnionType(xs_qname_view("numeric"@)), OccurrenceIndicator::ZeroOrOne));
        }
        self.register("http://www.w3.org/2005/xpath-functions", "round", 1, BuiltIn::MathRound1, params, result);
        let params = params_2(SequenceType::zero_or_one(ItemType::AtomicOrUnionType(xs_name("numeric"))), SequenceType::exactly_one(ItemType::AtomicOrUnionType(xs_name("integer"))));
        let result = SequenceType::zero_or_one(ItemType::AtomicOrUnionType(xs_name("numeric")));
        proof {
            reveal_with_fuel(item_type_view, 3);
            reveal_with_fuel(seq_type_view, 3);
            assert(seq_types_view(params@) =~~= seq![st_v(ItemTypeV::AtomicOrUnionType(xs_qname_view("numeric"@)), OccurrenceIndicator::ZeroOrOne), st_v(ItemTypeV::AtomicOrUnionType(xs_qname_view("integer"@)), OccurrenceIndicator::ExactlyOne)]);
            assert(result@ =~~= st_v(ItemTypeV::AtomicOrUnionType(xs_qname_view("numeric"@)), OccurrenceIndicator::ZeroOrOne));
        }
        self.register("http://www.w3.org/2005/xpath-functions", "round", 2, BuiltIn::MathRound2, params, result);
        let params = params_1(SequenceType::zero_or_one(ItemType::AtomicOrUnionType(xs_name("numeric"))));
        let result = SequenceType::zero_or_one(ItemType::AtomicOrUnionType(xs_name("numeric")));
        proof {
            reveal_with_fuel(item_type_view, 3);
            reveal_with_fuel(seq_type_view, 3);
            assert(seq_types_view(params@) =~~= seq![st_v(ItemTypeV::AtomicOrUnionType(xs_qname_view("numeric"@)), OccurrenceIndicator::ZeroOrOne)]);
            assert(result@ =~~= st_v(ItemTypeV::AtomicOrUnionType(xs_qname_view("numeric"@)), OccurrenceIndicator::ZeroOrOne));
        }
        self.register("http://www.w3.org/2005/xpath-functions", "round-half-to-even", 1, BuiltIn::MathRoundHalfToEven1, params, result);
        let params = params_2(SequenceType::zero_or_one(ItemType::AtomicOrUnionType(xs_name("numeric"))), SequenceType::exactly_one(ItemType::AtomicOrUnionType(xs_name("integer"))));
        let result = SequenceType::zero_or_one(ItemType::AtomicOrUnionType(xs_name("numeric")));
        proof {
            reveal_with_fuel(item_type_view, 3);
            reveal_with_fuel(seq_type_view, 3);
            assert(seq_types_view(params@) =~~= seq![st_v(ItemTypeV::AtomicOrUnionType(xs_qname_view("numeric"@)), OccurrenceIndicator::ZeroOrOne), st_v(ItemTypeV::AtomicOrUnionType(xs_qname_view("integer"@)), OccurrenceIndicator::ExactlyOne)]);
            assert(result@ =~~= st_v(ItemTypeV::AtomicOrUnionType(xs_qname_view("numeric"@)), OccurrenceIndicator::ZeroOrOne));
        }
        self.register("http://www.w3.org/2005/xpath-functions", "round-half-to-even", 2, BuiltIn::MathRoundHalfToEven2, params, result);
        let params = params_1(SequenceType::zero_or_more(ItemType::Item));
        let result = SequenceType::exactly_one(ItemType::AtomicOrUnionType(xs_name("boolean")));
        proof {
            reveal_with_fuel(item_type_view, 3);
            reveal_with_fuel(seq_type_view, 3);
            assert(seq_types_view(params@) =~~= seq![st_v(ItemTypeV::Item, OccurrenceIndicator::ZeroOrMore)]);
            assert(result@ =~~= st_v(ItemTypeV::AtomicOrUnionType(xs_qname_view("boolean"@)), OccurrenceIndicator::ExactlyOne));
        }
        self.register("http://www.w3.org/2005/xpath-functions", "boolean", 1, BuiltIn::Boolean, params, result);
        let params = params_0();
        let result = SequenceType::exactly_one(ItemType::AtomicOrUnionType(xs_name("boolean")));
        proof {
            reveal_with_fuel(item_type_view, 3);
            reveal_with_fuel(seq_type_view, 3);
            assert(seq_types_view(params@) =~~= seq![]);
            assert(result@ =~~= st_v(ItemTypeV::AtomicOrUnionType(xs_qname_view("boolean"@)), OccurrenceIndicator::ExactlyOne));
        }
        self.register("http://www.w3.org/2005/xpath-functions", "true", 0, BuiltIn::True, params, result);
        let params = params_0();
        let result = SequenceType::exactly_one(ItemType::AtomicOrUnionType(xs_name("boolean")));
        proof {
            reveal_with_fuel(item_type_view, 3);
            reveal_with_fuel(seq_type_view, 3);
            assert(seq_types_view(params@) =~~= seq![]);
            assert(result@ =~~= st_v(ItemTypeV::AtomicOrUnionType(xs_qname_view("boolean"@)), OccurrenceIndicator::ExactlyOne));
        }
        self.register("http://www.w3.org/2005/xpath-functions", "false", 0, BuiltIn::False, params, result);
        let params = params_1(SequenceType::zero_or_more(ItemType::Item));
        let result = SequenceType::exactly_one(ItemType::AtomicOrUnionType(xs_name("boolean")));
        proof {
            reveal_with_fuel(item_type_view, 3);
            reveal_with_fuel(seq_type_view, 3);
            assert(seq_types_view(params@) =~~= seq![st_v(ItemTypeV::Item, OccurrenceIndicator::ZeroOrMore)]);
            assert(result@ =~~= st_v(ItemTypeV::AtomicOrUnionType(xs_qname_view("boolean"@)), OccurrenceIndicator::ExactlyOne));
        }
        self.register("http://www.w3.org/2005/xpath-functions", "not", 1, BuiltIn::Not, params, result);
        proof {
            assert(entries_view(self.functions@) =~~= before + builtin_part_12());
        }
    }

    #[verifier::rlimit(80)]
    fn register_part_13(&mut self)
        ensures
            entries_view(final(self).functions@) == entries_view(old(self).functions@) + builtin_part_13(),
    {
        let ghost before = entries_view(self.functions@);
        let params = params_0();
        let result = SequenceType::exactly_one(ItemType::AtomicOrUnionType(xs_name("string")));
        proof {
            reveal_with_fuel(item_type_view, 3);
            reveal_with_fuel(seq_type_view, 3);
            assert(seq_types_view(params@) =~~= seq![]);
            assert(result@ =~~= st_v(ItemTypeV::AtomicOrUnionType(xs_qname_view("string"@)), OccurrenceIndicator::ExactlyOne));
        }
        self.register("http://www.w3.org/2005/xpath-functions", "string", 0, BuiltIn::String0, params, result);
        let params = params_1(SequenceType::zero_or_one(ItemType::Item));
        let result = SequenceType::exactly_one(ItemType::AtomicOrUnionType(xs_name("string")));
        proof {
            reveal_with_fuel(item_type_view, 3);
            reveal_with_fuel(seq_type_view, 3);
            assert(seq_types_view(params@) =~~= seq![st_v(ItemTypeV::Item, OccurrenceIndicator::ZeroOrOne)]);
            assert(result@ =~~= st_v(ItemTypeV::AtomicOrUnionType(xs_qname_view("string"@)), OccurrenceIndicator::ExactlyOne));
        }
        self.register("http://www.w3.org/2005/xpath-functions", "string", 1, BuiltIn::String1, params, result);
        let params = params_1(SequenceType::zero_or_more(ItemType::AtomicOrUnionType(xs_name("integer"))));
        let result = SequenceType::exactly_one(ItemType::AtomicOrUnionType(xs_name("string")));
        proof {
            reveal_with_fuel(item_type_view, 3);
            reveal_with_fuel(seq_type_view, 3);
            assert(seq_types_view(params@) =~~= seq![st_v(ItemTypeV::AtomicOrUnionType(xs_qname_view("integer"@)), OccurrenceIndicator::ZeroOrMore)]);
            assert(result@ =~~= st_v(ItemTypeV::AtomicOrUnionType(xs_qname_view("string"@)), OccurrenceIndicator::ExactlyOne));
        }
        self.register("http://www.w3.org/2005/xpath-functions", "codepoints-to-string", 1, BuiltIn::CodepointsToString, params, result);
        let params = params_1(SequenceType::zero_or_one(ItemType::AtomicOrUnionType(xs_name("string"))));
        let result = SequenceType::zero_or_more(ItemType::AtomicOrUnionType(xs_name("integer")));
        proof {
            reveal_with_fuel(item_type_view, 3);
            reveal_with_fuel(seq_type_view, 3);
            assert(seq_types_view(params@) =~~= seq![st_v(ItemTypeV::AtomicOrUnionType(xs_qname_view("string"@)), OccurrenceIndicator::ZeroOrOne)]);
            assert(result@ =~~= st_v(ItemTypeV::AtomicOrUnionType(xs_qname_view("integer"@)), OccurrenceIndicator::ZeroOrMore));
        }
        self.register("http://www.w3.org/2005/xpath-functions", "string-to-codepoints", 1, BuiltIn::StringToCodepoints, params, result);
        let params = params_1(SequenceType::zero_or_more(ItemType::AnyAtomicType));
        let result = SequenceType::exactly_one(ItemType::AtomicOrUnionType(xs_name("string")));
        proof {
            reveal_with_fuel(item_type_view, 3);
            reveal_with_fuel(seq_type_view, 3);
            assert(seq_types_view(params@) =~~= seq![st_v(ItemTypeV::AnyAtomicType, OccurrenceIndicator::ZeroOrMore)]);
            assert(result@ =~~= st_v(ItemTypeV::AtomicOrUnionType(xs_qname_view("string"@)), OccurrenceIndicator::ExactlyOne));
        }
        self.register("http://www.w3.org/2005/xpath-functions", "string-join", 1, BuiltIn::StringJoin1, params, result);
        let params = params_2(SequenceType::zero_or_more(ItemType::AnyAtomicType), SequenceType::exactly_one(ItemType::AtomicOrUnionType(xs_name("string"))));
        let result = SequenceType::exactly_one(ItemType::AtomicOrUnionType(xs_name("string")));
        proof {
            reveal_with_fuel(item_type_view, 3);
            reveal_with_fuel(seq_type_view, 3);
            assert(seq_types_view(params@) =~~= seq![st_v(ItemTypeV::AnyAtomicType, OccurrenceIndicator::ZeroOrMore), st_v(ItemTypeV::AtomicOrUnionType(xs_qname_view("string"@)), OccurrenceIndicator::ExactlyOne)]);
            assert(result@ =~~= st_v(ItemTypeV::AtomicOrUnionType(xs_qname_view("string"@)), OccurrenceIndicator::ExactlyOne));
        }
        self.register("http://www.w3.org/2005/xpath-functions", "string-join", 2, BuiltIn::StringJoin2, params, result);
        let params = params_0();
        let result = SequenceType::exactly_one(ItemType::AtomicOrUnionType(xs_name("integer")));
        proof {
            reveal_with_fuel(item_type_view, 3);
            reveal_with_fuel(seq_type_view, 3);
            assert(seq_types_view(params@) =~~= seq![]);
            assert(result@ =~~= st_v(ItemTypeV::AtomicOrUnionType(xs_qname_view("integer"@)), OccurrenceIndicator::ExactlyOne));
        }
        self.register("http://www.w3.org/2005/xpath-functions", "string-length", 0, BuiltIn::StringLength0, params, result);
        let params = params_1(SequenceType::zero_or_one(ItemType::AtomicOrUnionType(xs_name("string"))));
        let result = SequenceType::exactly_one(ItemType::AtomicOrUnionType(xs_name("integer")));
        proof {
            reveal_with_fuel(item_type_view, 3);
            reveal_with_fuel(seq_type_view, 3);
            assert(seq_types_view(params@) =~~= seq![st_v(ItemTypeV::AtomicOrUnionType(xs_qname_view("string"@)), OccurrenceIndicator::ZeroOrOne)]);
            assert(result@ =~~= st_v(ItemTypeV::AtomicOrUnionType(xs_qname_view("integer"@)), OccurrenceIndicator::ExactlyOne));
        }
        self.register("http://www.w3.org/2005/xpath-functions", "string-length", 1, BuiltIn::StringLength1, params, result);
        let params = params_0();
        let result = SequenceType::exactly_one(ItemType::AtomicOrUnionType(xs_name("integer")));
        proof {
            reveal_with_fuel(item_type_view, 3);
            reveal_with_fuel(seq_type_view, 3);
            assert(seq_types_view(params@) =~~= seq![]);
            assert(result@ =~~= st_v(ItemTypeV::AtomicOrUnionType(xs_qname_view("integer"@)), OccurrenceIndicator::ExactlyOne));
        }
        self.register("http://www.w3.org/2005/xpath-functions", "normalize-space", 0, BuiltIn::NormalizeSpace0, params, result);
        let params = params_1(SequenceType::zero_or_one(ItemType::AtomicOrUnionType(xs_name("string"))));
        let result = SequenceType::exactly_one(ItemType::AtomicOrUnionType(xs_name("integer")));
        proof {
            reveal_with_fuel(item_type_view, 3);
            reveal_with_fuel(seq_type_view, 3);
            assert(seq_types_view(params@) =~~= seq![st_v(ItemTypeV::AtomicOrUnionType(xs_qname_view("string"@)), OccurrenceIndicator::ZeroOrOne)]);
            assert(result@ =~~= st_v(ItemTypeV::AtomicOrUnionType(xs_qname_view("integer"@)), OccurrenceIndicator::ExactlyOne));
        }
        self.register("http://www.w3.org/2005/xpath-functions", "normalize-space", 1, BuiltIn::NormalizeSpace1, params, result);
        proof {
            assert(entries_view(self.functions@) =~~= before + builtin_part_13());
        }
    }

    #[verifier::rlimit(80)]
    fn register_part_14(&mut self)
        ensures
            entries_view(final(self).functions@) == entries_view(old(self).functions@) + builtin_part_14(),
    {
        let ghost before = entries_view(self.functions@);
        let params = params_1(SequenceType::zero_or_one(ItemType::AtomicOrUnionType(xs_name("string"))));
        let result = SequenceType::exactly_one(ItemType::AtomicOrUnionType(xs_name("string")));
        proof {
            reveal_with_fuel(item_type_view, 3);
            reveal_with_fuel(seq_type_view, 3);
            assert(seq_types_view(params@) =~~= seq![st_v(ItemTypeV::AtomicOrUnionType(xs_qname_view("string"@)), OccurrenceIndicator::ZeroOrOne)]);
            assert(result@ =~~= st_v(ItemTypeV::AtomicOrUnionType(xs_qname_view("string"@)), OccurrenceIndicator::ExactlyOne));
        }
        self.register("http://www.w3.org/2005/xpath-functions", "upper-case", 1, BuiltIn::UpperCase, params, result);
        let params = params_1(SequenceType::zero_or_one(ItemType::AtomicOrUnionType(xs_name("string"))));
        let result = SequenceType::exactly_one(ItemType::AtomicOrUnionType(xs_name("string")));
        proof {
            reveal_with_fuel(item_type_view, 3);
            reveal_with_fuel(seq_type_view, 3);
            assert(seq_types_view(params@) =~~= seq![st_v(ItemTypeV::AtomicOrUnionType(xs_qname_view("string"@)), OccurrenceIndicator::ZeroOrOne)]);
            assert(result@ =~~= st_v(ItemTypeV::AtomicOrUnionType(xs_qname_view("string"@)), OccurrenceIndicator::ExactlyOne));
        }
        self.register("http://www.w3.org/2005/xpath-functions", "lower-case", 1, BuiltIn::LowerCase, params, result);
        let params = params_2(SequenceType::zero_or_one(ItemType::AtomicOrUnionType(xs_name("string"))), SequenceType::zero_or_one(ItemType::AtomicOrUnionType(xs_name("string"))));
        let result = SequenceType::exactly_one(ItemType::AtomicOrUnionType(xs_name("boolean")));
        proof {
            reveal_with_fuel(item_type_view, 3);
            reveal_with_fuel(seq_type_view, 3);
            assert(seq_types_view(params@) =~~= seq![st_v(ItemTypeV::AtomicOrUnionType(xs_qname_view("string"@)), OccurrenceIndicator::ZeroOrOne), st_v(ItemTypeV::AtomicOrUnionType(xs_qname_view("string"@)), OccurrenceIndicator::ZeroOrOne)]);
            assert(result@ =~~= st_v(ItemTypeV::AtomicOrUnionType(xs_qname_view("boolean"@)), OccurrenceIndicator::ExactlyOne));
        }
        self.register("http://www.w3.org/2005/xpath-functions", "starts-with", 2, BuiltIn::StartsWith2, params, result);
        let params = params_3(SequenceType::zero_or_one(ItemType::AtomicOrUnionType(xs_name("string"))), SequenceType::zero_or_one(ItemType::AtomicOrUnionType(xs_name("string"))), SequenceType::exactly_one(ItemType::AtomicOrUnionType(xs_name("string"))));
        let result = SequenceType::exactly_one(ItemType::AtomicOrUnionType(xs_name("boolean")));
        proof {
            reveal_with_fuel(item_type_view, 3);
            reveal_with_fuel(seq_type_view, 3);
            assert(seq_types_view(params@) =~~= seq![st_v(ItemTypeV::AtomicOrUnionType(xs_qname_view("string"@)), OccurrenceIndicator::ZeroOrOne), st_v(ItemTypeV::AtomicOrUnionType(xs_qname_view("string"@)), OccurrenceIndicator::ZeroOrOne), st_v(ItemTypeV::AtomicOrUnionType(xs_qname_view("string"@)), OccurrenceIndicator::ExactlyOne)]);
            assert(result@ =~~= st_v(ItemTypeV::AtomicOrUnionType(xs_qname_view("boolean"@)), OccurrenceIndicator::ExactlyOne));
        }
        self.register("http://www.w3.org/2005/xpath-functions", "starts-with", 3, BuiltIn::StartsWith3, params, result);
        let params = params_2(SequenceType::zero_or_one(ItemType::AtomicOrUnionType(xs_name("string"))), SequenceType::zero_or_one(ItemType::AtomicOrUnionType(xs_name("string"))));
        let result = SequenceType::exactly_one(ItemType::AtomicOrUnionType(xs_name("boolean")));
        proof {
            reveal_with_fuel(item_type_view, 3);
            reveal_with_fuel(seq_type_view, 3);
            assert(seq_types_view(params@) =~~= seq![st_v(ItemTypeV::AtomicOrUnionType(xs_qname_view("string"@)), OccurrenceIndicator::ZeroOrOne), st_v(ItemTypeV::AtomicOrUnionType(xs_qname_view("string"@)), OccurrenceIndicator::ZeroOrOne)]);
            assert(result@ =~~= st_v(ItemTypeV::AtomicOrUnionType(xs_qname_view("boolean"@)), OccurrenceIndicator::ExactlyOne));
        }
        self.register("http://www.w3.org/2005/xpath-functions", "ends-with", 2, BuiltIn::EndsWith2, params, result);
        let params = params_3(SequenceType::zero_or_one(ItemType::AtomicOrUnionType(xs_name("string"))), SequenceType::zero_or_one(ItemType::AtomicOrUnionType(xs_name("string"))), SequenceType::exactly_one(ItemType::AtomicOrUnionType(xs_name("string"))));
        let result = SequenceType::exactly_one(ItemType::AtomicOrUnionType(xs_name("boolean")));
        proof {
            reveal_with_fuel(item_type_view, 3);
            reveal_with_fuel(seq_type_view, 3);
            assert(seq_types_view(params@) =~~= seq![st_v(ItemTypeV::AtomicOrUnionType(xs_qname_view("string"@)), OccurrenceIndicator::ZeroOrOne), st_v(ItemTypeV::AtomicOrUnionType(xs_qname_view("string"@)), OccurrenceIndicator::ZeroOrOne), st_v(ItemTypeV::AtomicOrUnionType(xs_qname_view("string"@)), OccurrenceIndicator::ExactlyOne)]);
            assert(result@ =~~= st_v(ItemTypeV::AtomicOrUnionType(xs_qname_view("boolean"@)), OccurrenceIndicator::ExactlyOne));
        }
        self.register("http://www.w3.org/2005/xpath-functions", "ends-with", 3, BuiltIn::EndsWith3, params, result);
        let params = params_0();
        let result = SequenceType::exactly_one(ItemType::AtomicOrUnionType(xs_name("integer")));
        proof {
            reveal_with_fuel(item_type_view, 3);
            reveal_with_fuel(seq_type_view, 3);
            assert(seq_types_view(params@) =~~= seq![]);
            assert(result@ =~~= st_v(ItemTypeV::AtomicOrUnionType(xs_qname_view("integer"@)), OccurrenceIndicator::ExactlyOne));
        }
        self.register("http://www.w3.org/2005/xpath-functions", "position", 0, BuiltIn::Position, params, result);
        let params = params_0();
        let result = SequenceType::exactly_one(ItemType::AtomicOrUnionType(xs_name("integer")));
        proof {
            reveal_with_fuel(item_type_view, 3);
            reveal_with_fuel(seq_type_view, 3);
            assert(seq_types_view(params@) =~~= seq![]);
            assert(result@ =~~= st_v(ItemTypeV::AtomicOrUnionType(xs_qname_view("integer"@)), OccurrenceIndicator::ExactlyOne));
        }
        self.register("http://www.w3.org/2005/xpath-functions", "last", 0, BuiltIn::Last, params, result);
        let params = params_0();
        let result = SequenceType::exactly_one(ItemType::AtomicOrUnionType(xs_name("string")));
        proof {
            reveal_with_fuel(item_type_view, 3);
            reveal_with_fuel(seq_type_view, 3);
            assert(seq_types_view(params@) =~~= seq![]);
            assert(result@ =~~= st_v(ItemTypeV::AtomicOrUnionType(xs_qname_view("string"@)), OccurrenceIndicator::ExactlyOne));
        }
        self.register("http://www.w3.org/2005/xpath-functions", "default-collation", 0, BuiltIn::DefaultCollation, params, result);
        let params = params_0();
        let result = SequenceType::exactly_one(ItemType::AtomicOrUnionType(xs_name("language")));
        proof {
            reveal_with_fuel(item_type_view, 3);
            reveal_with_fuel(seq_type_view, 3);
            assert(seq_types_view(params@) =~~= seq![]);
            assert(result@ =~~= st_v(ItemTypeV::AtomicOrUnionType(xs_qname_view("language"@)), OccurrenceIndicator::ExactlyOne));
        }
        self.register("http://www.w3.org/2005/xpath-functions", "default-language", 0, BuiltIn::DefaultLanguage, params, result);
        proof {
            assert(entries_view(self.functions@) =~~= before + builtin_part_14());
        }
    }

    #[verifier::rlimit(80)]
    fn register_part_15(&mut self)
        ensures
            entries_view(final(self).functions@) == entries_view(old(self).functions@) + builtin_part_15(),
    {
        let ghost before = entries_view(self.functions@);
        let params = params_0();
        let result = SequenceType::exactly_one(ItemType::AtomicOrUnionType(xs_name("anyURI")));
        proof {
            reveal_with_fuel(item_type_view, 3);
            reveal_with_fuel(seq_type_view, 3);
            assert(seq_types_view(params@) =~~= seq![]);
            assert(result@ =~~= st_v(ItemTypeV::AtomicOrUnionType(xs_qname_view("anyURI"@)), OccurrenceIndicator::ExactlyOne));
        }
        self.register("http://www.w3.org/2005/xpath-functions", "static-base-uri", 0, BuiltIn::StaticBaseUri, params, result);
        let params = params_2(SequenceType::exactly_one(ItemType::AtomicOrUnionType(xs_name("QName"))), SequenceType::exactly_one(ItemType::AtomicOrUnionType(xs_name("integer"))));
        let result = SequenceType::exactly_one(ItemType::Function { args: None, st: None });
        proof {
            reveal_with_fuel(item_type_view, 3);
            reveal_with_fuel(seq_type_view, 3);
            assert(seq_types_view(params@) =~~= seq![st_v(ItemTypeV::AtomicOrUnionType(xs_qname_view("QName"@)), OccurrenceIndicator::ExactlyOne), st_v(ItemTypeV::AtomicOrUnionType(xs_qname_view("integer"@)), OccurrenceIndicator::ExactlyOne)]);
            assert(result@ =~~= st_v(ItemTypeV::Function { args: None, st: None }, OccurrenceIndicator::ExactlyOne));
        }
        self.register("http://www.w3.org/2005/xpath-functions", "function-lookup", 0, BuiltIn::FunctionLookup, params, result);
        let params = params_1(SequenceType::exactly_one(ItemType::Function { args: None, st: None }));
        let result = SequenceType::zero_or_one(ItemType::AtomicOrUnionType(xs_name("QName")));
        proof {
            reveal_with_fuel(item_type_view, 3);
            reveal_with_fuel(seq_type_view, 3);
            assert(seq_types_view(params@) =~~= seq![st_v(ItemTypeV::Function { args: None, st: None }, OccurrenceIndicator::ExactlyOne)]);
            assert(result@ =~~= st_v(ItemTypeV::AtomicOrUnionType(xs_qname_view("QName"@)), OccurrenceIndicator::ZeroOrOne));
        }
        self.register("http://www.w3.org/2005/xpath-functions", "function-name", 0, BuiltIn::FunctionName, params, result);
        let params = params_1(SequenceType::exactly_one(ItemType::Function { args: None, st: None }));
        let result = SequenceType::zero_or_one(ItemType::AtomicOrUnionType(xs_name("integer")));
        proof {
            reveal_with_fuel(item_type_view, 3);
            reveal_with_fuel(seq_type_view, 3);
            assert(seq_types_view(params@) =~~= seq![st_v(ItemTypeV::Function { args: None, st: None }, OccurrenceIndicator::ExactlyOne)]);
            assert(result@ =~~= st_v(ItemTypeV::AtomicOrUnionType(xs_qname_view("integer"@)), OccurrenceIndicator::ZeroOrOne));
        }
        self.register("http://www.w3.org/2005/xpath-functions", "function-arity", 0, BuiltIn::FunctionArity, params, result);
        let params = params_0();
        let result = SequenceType::zero_or_more(ItemType::AnyAtomicType);
        proof {
            reveal_with_fuel(item_type_view, 3);
            reveal_with_fuel(seq_type_view, 3);
            assert(seq_types_view(params@) =~~= seq![]);
            assert(result@ =~~= st_v(ItemTypeV::AnyAtomicType, OccurrenceIndicator::ZeroOrMore));
        }
        self.register("http://www.w3.org/2005/xpath-functions", "data", 0, BuiltIn::Data0, params, result);
        let params = params_1(SequenceType::zero_or_more(ItemType::Item));
        let result = SequenceType::zero_or_more(ItemType::AnyAtomicType);
        proof {
            reveal_with_fuel(item_type_view, 3);
            reveal_with_fuel(seq_type_view, 3);
            assert(seq_types_view(params@) =~~= seq![st_v(ItemTypeV::Item, OccurrenceIndicator::ZeroOrMore)]);
            assert(result@ =~~= st_v(ItemTypeV::AnyAtomicType, OccurrenceIndicator::ZeroOrMore));
        }
        self.register("http://www.w3.org/2005/xpath-functions", "data", 1, BuiltIn::Data1, params, result);
        let params = params_1(SequenceType::zero_or_more(ItemType::Item));
        let result = SequenceType::exactly_one(ItemType::AtomicOrUnionType(xs_name("boolean")));
        proof {
            reveal_with_fuel(item_type_view, 3);
            reveal_with_fuel(seq_type_view, 3);
            assert(seq_types_view(params@) =~~= seq![st_v(ItemTypeV::Item, OccurrenceIndicator::ZeroOrMore)]);
            assert(result@ =~~= st_v(ItemTypeV::AtomicOrUnionType(xs_qname_view("boolean"@)), OccurrenceIndicator::ExactlyOne));
        }
        self.register("http://www.w3.org/2005/xpath-functions", "empty", 1, BuiltIn::Empty, params, result);
        let params = params_1(SequenceType::zero_or_more(ItemType::Item));
        let result = SequenceType::exactly_one(ItemType::AtomicOrUnionType(xs_name("boolean")));
        proof {
            reveal_with_fuel(item_type_view, 3);
            reveal_with_fuel(seq_type_view, 3);
            assert(seq_types_view(params@) =~~= seq![st_v(ItemTypeV::Item, OccurrenceIndicator::ZeroOrMore)]);
            assert(result@ =~~= st_v(ItemTypeV::AtomicOrUnionType(xs_qname_view("boolean"@)), OccurrenceIndicator::ExactlyOne));
        }
        self.register("http://www.w3.org/2005/xpath-functions", "exists", 1, BuiltIn::Exists, params, result);
        let params = params_2(SequenceType::zero_or_more(ItemType::Item), SequenceType::exactly_one(ItemType::AtomicOrUnionType(xs_name("integer"))));
        let result = SequenceType::zero_or_more(ItemType::Item);
        proof {
            reveal_with_fuel(item_type_view, 3);
            reveal_with_fuel(seq_type_view, 3);
            assert(seq_types_view(params@) =~~= seq![st_v(ItemTypeV::Item, OccurrenceIndicator::ZeroOrMore), st_v(ItemTypeV::AtomicOrUnionType(xs_qname_view("integer"@)), OccurrenceIndicator::ExactlyOne)]);
            assert(result@ =~~= st_v(ItemTypeV::Item, OccurrenceIndicator::ZeroOrMore));
        }
        self.register("http://www.w3.org/2005/xpath-functions", "remove", 2, BuiltIn::Remove, params, result);
        let params = params_1(SequenceType::zero_or_more(ItemType::Item));
        let result = SequenceType::zero_or_more(ItemType::Item);
        proof {
            reveal_with_fuel(item_type_view, 3);
            reveal_with_fuel(seq_type_view, 3);
            assert(seq_types_view(params@) =~~= seq![st_v(ItemTypeV::Item, OccurrenceIndicator::ZeroOrMore)]);
            assert(result@ =~~= st_v(ItemTypeV::Item, OccurrenceIndicator::ZeroOrMore));
        }
        self.register("http://www.w3.org/2005/xpath-functions", "reverse", 1, BuiltIn::Reverse, params, result);
        proof {
            assert(entries_view(self.functions@) =~~= before + builtin_part_15());
        }
    }

    #[verifier::rlimit(80)]
    fn register_part_16(&mut self)
        ensures
            entries_view(final(self).functions@) == entries_view(old(self).functions@) + builtin_part_16(),
    {
        let ghost before = entries_view(self.functions@);
        let params = params_2(SequenceType::zero_or_more(ItemType::Item), SequenceType::exactly_one(ItemType::AtomicOrUnionType(xs_name("double"))));
        let result = SequenceType::zero_or_more(ItemType::Item);
        proof {
            reveal_with_fuel(item_type_view, 3);
            reveal_with_fuel(seq_type_view, 3);
            assert(seq_types_view(params@) =~~= seq![st_v(ItemTypeV::Item, OccurrenceIndicator::ZeroOrMore), st_v(ItemTypeV::AtomicOrUnionType(xs_qname_view("double"@)), OccurrenceIndicator::ExactlyOne)]);
            assert(result@ =~~= st_v(ItemTypeV::Item, OccurrenceIndicator::ZeroOrMore));
        }
        self.register("http://www.w3.org/2005/xpath-functions", "subsequence", 2, BuiltIn::Subsequence2, params, result);
        let params = params_3(SequenceType::zero_or_more(ItemType::Item), SequenceType::exactly_one(ItemType::AtomicOrUnionType(xs_name("double"))), SequenceType::exactly_one(ItemType::AtomicOrUnionType(xs_name("double"))));
        let result = SequenceType::zero_or_more(ItemType::Item);
        proof {
            reveal_with_fuel(item_type_view, 3);
            reveal_with_fuel(seq_type_view, 3);
            assert(seq_types_view(params@) =~~= seq![st_v(ItemTypeV::Item, OccurrenceIndicator::ZeroOrMore), st_v(ItemTypeV::AtomicOrUnionType(xs_qname_view("double"@)), OccurrenceIndicator::ExactlyOne), st_v(ItemTypeV::AtomicOrUnionType(xs_qname_view("double"@)), OccurrenceIndicator::ExactlyOne)]);
            assert(result@ =~~= st_v(ItemTypeV::Item, OccurrenceIndicator::ZeroOrMore));
        }
        self.register("http://www.w3.org/2005/xpath-functions", "subsequence", 3, BuiltIn::Subsequence3, params, result);
        let params = params_1(SequenceType::zero_or_more(ItemType::Item));
        let result = SequenceType::zero_or_one(ItemType::Item);
        proof {
            reveal_with_fuel(item_type_view, 3);
            reveal_with_fuel(seq_type_view, 3);
            assert(seq_types_view(params@) =~~= seq![st_v(ItemTypeV::Item, OccurrenceIndicator::ZeroOrMore)]);
            assert(result@ =~~= st_v(ItemTypeV::Item, OccurrenceIndicator::ZeroOrOne));
        }
        self.register("http://www.w3.org/2005/xpath-functions", "zero-or-one", 1, BuiltIn::ZeroOrOne, params, result);
        let params = params_1(SequenceType::zero_or_more(ItemType::Item));
        let result = SequenceType::one_or_more(ItemType::Item);
        proof {
            reveal_with_fuel(item_type_view, 3);
            reveal_with_fuel(seq_type_view, 3);
            assert(seq_types_view(params@) =~~= seq![st_v(ItemTypeV::Item, OccurrenceIndicator::ZeroOrMore)]);
            assert(result@ =~~= st_v(ItemTypeV::Item, OccurrenceIndicator::OneOrMore));
        }
        self.register("http://www.w3.org/2005/xpath-functions", "one-or-more", 1, BuiltIn::OneOrMore, params, result);
        let params = params_1(SequenceType::zero_or_more(ItemType::Item));
        let result = SequenceType::exactly_one(ItemType::Item);
        proof {
            reveal_with_fuel(item_type_view, 3);
            reveal_with_fuel(seq_type_view, 3);
            assert(seq_types_view(params@) =~~= seq![st_v(ItemTypeV::Item, OccurrenceIndicator::ZeroOrMore)]);
            assert(result@ =~~= st_v(ItemTypeV::Item, OccurrenceIndicator::ExactlyOne));
        }
        self.register("http://www.w3.org/2005/xpath-functions", "exactly-one", 1, BuiltIn::ExactlyOne, params, result);
        let params = params_2(SequenceType::zero_or_more(ItemType::Item), SequenceType::zero_or_more(ItemType::Item));
        let result = SequenceType::exactly_one(ItemType::AtomicOrUnionType(xs_name("boolean")));
        proof {
            reveal_with_fuel(item_type_view, 3);
            reveal_with_fuel(seq_type_view, 3);
            assert(seq_types_view(params@) =~~= seq![st_v(ItemTypeV::Item, OccurrenceIndicator::ZeroOrMore), st_v(ItemTypeV::Item, OccurrenceIndicator::ZeroOrMore)]);
            assert(result@ =~~= st_v(ItemTypeV::AtomicOrUnionType(xs_qname_view("boolean"@)), OccurrenceIndicator::ExactlyOne));
        }
        self.register("http://www.w3.org/2005/xpath-functions", "deep-equal", 2, BuiltIn::DeepEqual2, params, result);
        let params = params_3(SequenceType::zero_or_more(ItemType::Item), SequenceType::zero_or_more(ItemType::Item), SequenceType::exactly_one(ItemType::AtomicOrUnionType(xs_name("string"))));
        let result = SequenceType::exactly_one(ItemType::AtomicOrUnionType(xs_name("boolean")));
        proof {
            reveal_with_fuel(item_type_view, 3);
            reveal_with_fuel(seq_type_view, 3);
            assert(seq_types_view(params@) =~~= seq![st_v(ItemTypeV::Item, OccurrenceIndicator::ZeroOrMore), st_v(ItemTypeV::Item, OccurrenceIndicator::ZeroOrMore), st_v(ItemTypeV::AtomicOrUnionType(xs_qname_view("string"@)), OccurrenceIndicator::ExactlyOne)]);
            assert(result@ =~~= st_v(ItemTypeV::AtomicOrUnionType(xs_qname_view("boolean"@)), OccurrenceIndicator::ExactlyOne));
        }
        self.register("http://www.w3.org/2005/xpath-functions", "deep-equal", 3, BuiltIn::DeepEqual3, params, result);
        let params = params_0();
        let result = SequenceType::exactly_one(ItemType::AtomicOrUnionType(xs_name("string")));
        proof {
            reveal_with_fuel(item_type_view, 3);
            reveal_with_fuel(seq_type_view, 3);
            assert(seq_types_view(params@) =~~= seq![]);
            assert(result@ =~~= st_v(ItemTypeV::AtomicOrUnionType(xs_qname_view("string"@)), OccurrenceIndicator::ExactlyOne));
        }
        self.register("http://www.w3.org/2005/xpath-functions", "name", 0, BuiltIn::Name0, params, result);
        let params = params_1(SequenceType::zero_or_one(ItemType::node()));
        let result = SequenceType::exactly_one(ItemType::AtomicOrUnionType(xs_name("string")));
        proof {
            reveal_with_fuel(item_type_view, 3);
            reveal_with_fuel(seq_type_view, 3);
            assert(seq_types_view(params@) =~~= seq![st_v(ItemTypeV::Node(Box::new(NodeTestV::AnyKind)), OccurrenceIndicator::ZeroOrOne)]);
            assert(result@ =~~= st_v(ItemTypeV::AtomicOrUnionType(xs_qname_view("string"@)), OccurrenceIndicator::ExactlyOne));
        }
        self.register("http://www.w3.org/2005/xpath-functions", "name", 1, BuiltIn::Name1, params, result);
        let params = params_0();
        let result = SequenceType::exactly_one(ItemType::AtomicOrUnionType(xs_name("string")));
        proof {
            reveal_with_fuel(item_type_view, 3);
            reveal_with_fuel(seq_type_view, 3);
            assert(seq_types_view(params@) =~~= seq![]);
            assert(result@ =~~= st_v(ItemTypeV::AtomicOrUnionType(xs_qname_view("string"@)), OccurrenceIndicator::ExactlyOne));
        }
        self.register("http://www.w3.org/2005/xpath-functions", "local-name", 0, BuiltIn::LocalName0, params, result);
        proof {
            assert(entries_view(self.functions@) =~~= before + builtin_part_16());
        }
    }

    #[verifier::rlimit(80)]
    fn register_part_17(&mut self)
        ensures
            entries_view(final(self).functions@) == entries_view(old(self).functions@) + builtin_part_17(),
    {
        let ghost before = entries_view(self.functions@);
        let params = params_1(SequenceType::zero_or_one(ItemType::node()));
        let result = SequenceType::exactly_one(ItemType::AtomicOrUnionType(xs_name("string")));
        proof {
            reveal_with_fuel(item_type_view, 3);
            reveal_with_fuel(seq_type_view, 3);
            assert(seq_types_view(params@) =~~= seq![st_v(ItemTypeV::Node(Box::new(NodeTestV::AnyKind)), OccurrenceIndicator::ZeroOrOne)]);
            assert(result@ =~~= st_v(ItemTypeV::AtomicOrUnionType(xs_qname_view("string"@)), OccurrenceIndicator::ExactlyOne));
        }
        self.register("http://www.w3.org/2005/xpath-functions", "local-name", 1, BuiltIn::LocalName1, params, result);
        let params = params_0();
        let result = SequenceType::exactly_one(ItemType::AtomicOrUnionType(xs_name("anyURI")));
        proof {
            reveal_with_fuel(item_type_view, 3);
            reveal_with_fuel(seq_type_view, 3);
            assert(seq_types_view(params@) =~~= seq![]);
            assert(result@ =~~= st_v(ItemTypeV::AtomicOrUnionType(xs_qname_view("anyURI"@)), OccurrenceIndicator::ExactlyOne));
        }
        self.register("http://www.w3.org/2005/xpath-functions", "namespace-uri", 0, BuiltIn::NamespaceUri0, params, result);
        let params = params_1(SequenceType::zero_or_one(ItemType::node()));
        let result = SequenceType::exactly_one(ItemType::AtomicOrUnionType(xs_name("anyURI")));
        proof {
            reveal_with_fuel(item_type_view, 3);
            reveal_with_fuel(seq_type_view, 3);
            assert(seq_types_view(params@) =~~= seq![st_v(ItemTypeV::Node(Box::new(NodeTestV::AnyKind)), OccurrenceIndicator::ZeroOrOne)]);
            assert(result@ =~~= st_v(ItemTypeV::AtomicOrUnionType(xs_qname_view("anyURI"@)), OccurrenceIndicator::ExactlyOne));
        }
        self.register("http://www.w3.org/2005/xpath-functions", "namespace-uri", 1, BuiltIn::NamespaceUri1, params, result);
        let params = params_1(SequenceType::zero_or_one(ItemType::AtomicOrUnionType(xs_name("string"))));
        let result = SequenceType::exactly_one(ItemType::AtomicOrUnionType(xs_name("boolean")));
        proof {
            reveal_with_fuel(item_type_view, 3);
            reveal_with_fuel(seq_type_view, 3);
            assert(seq_types_view(params@) =~~= seq![st_v(ItemTypeV::AtomicOrUnionType(xs_qname_view("string"@)), OccurrenceIndicator::ZeroOrOne)]);
            assert(result@ =~~= st_v(ItemTypeV::AtomicOrUnionType(xs_qname_view("boolean"@)), OccurrenceIndicator::ExactlyOne));
        }
        self.register("http://www.w3.org/2005/xpath-functions", "lang", 1, BuiltIn::Lang1, params, result);
        let params = params_2(SequenceType::zero_or_one(ItemType::AtomicOrUnionType(xs_name("string"))), SequenceType::exactly_one(ItemType::node()));
        let result = SequenceType::exactly_one(ItemType::AtomicOrUnionType(xs_name("boolean")));
        proof {
            reveal_with_fuel(item_type_view, 3);
            reveal_with_fuel(seq_type_view, 3);
            assert(seq_types_view(params@) =~~= seq![st_v(ItemTypeV::AtomicOrUnionType(xs_qname_view("string"@)), OccurrenceIndicator::ZeroOrOne), st_v(ItemTypeV::Node(Box::new(NodeTestV::AnyKind)), OccurrenceIndicator::ExactlyOne)]);
            assert(result@ =~~= st_v(ItemTypeV::AtomicOrUnionType(xs_qname_view("boolean"@)), OccurrenceIndicator::ExactlyOne));
        }
        self.register("http://www.w3.org/2005/xpath-functions", "lang", 2, BuiltIn::Lang2, params, result);
        let params = params_0();
        let result = SequenceType::exactly_one(ItemType::node());
        proof {
            reveal_with_fuel(item_type_view, 3);
            reveal_with_fuel(seq_type_view, 3);
            assert(seq_types_view(params@) =~~= seq![]);
            assert(result@ =~~= st_v(ItemTypeV::Node(Box::new(NodeTestV::AnyKind)), OccurrenceIndicator::ExactlyOne));
        }
        self.register("http://www.w3.org/2005/xpath-functions", "root", 0, BuiltIn::Root0, params, result);
        let params = params_1(SequenceType::zero_or_one(ItemType::node()));
        let result = SequenceType::zero_or_one(ItemType::node());
        proof {
            reveal_with_fuel(item_type_view, 3);
            reveal_with_fuel(seq_type_view, 3);
            assert(seq_types_view(params@) =~~= seq![st_v(ItemTypeV::Node(Box::new(NodeTestV::AnyKind)), OccurrenceIndicator::ZeroOrOne)]);
            assert(result@ =~~= st_v(ItemTypeV::Node(Box::new(NodeTestV::AnyKind)), OccurrenceIndicator::ZeroOrOne));
        }
        self.register("http://www.w3.org/2005/xpath-functions", "root", 1, BuiltIn::Root1, params, result);
        let params = params_0();
        let result = SequenceType::zero_or_one(ItemType::AtomicOrUnionType(xs_name("string")));
        proof {
            reveal_with_fuel(item_type_view, 3);
            reveal_with_fuel(seq_type_view, 3);
            assert(seq_types_view(params@) =~~= seq![]);
            assert(result@ =~~= st_v(ItemTypeV::AtomicOrUnionType(xs_qname_view("string"@)), OccurrenceIndicator::ZeroOrOne));
        }
        self.register("http://www.w3.org/2005/xpath-functions", "path", 0, BuiltIn::Path0, params, result);
        let params = params_1(SequenceType::zero_or_one(ItemType::node()));
        let result = SequenceType::zero_or_one(ItemType::AtomicOrUnionType(xs_name("string")));
        proof {
            reveal_with_fuel(item_type_view, 3);
            reveal_with_fuel(seq_type_view, 3);
            assert(seq_types_view(params@) =~~= seq![st_v(ItemTypeV::Node(Box::new(NodeTestV::AnyKind)), OccurrenceIndicator::ZeroOrOne)]);
            assert(result@ =~~= st_v(ItemTypeV::AtomicOrUnionType(xs_qname_view("string"@)), OccurrenceIndicator::ZeroOrOne));
        }
        self.register("http://www.w3.org/2005/xpath-functions", "path", 1, BuiltIn::Path1, params, result);
        let params = params_0();
        let result = SequenceType::exactly_one(ItemType::AtomicOrUnionType(xs_name("boolean")));
        proof {
            reveal_with_fuel(item_type_view, 3);
            reveal_with_fuel(seq_type_view, 3);
            assert(seq_types_view(params@) =~~= seq![]);
            assert(result@ =~~= st_v(ItemTypeV::AtomicOrUnionType(xs_qname_view("boolean"@)), OccurrenceIndicator::ExactlyOne));
        }
        self.register("http://www.w3.org/2005/xpath-functions", "has-children", 0, BuiltIn::HasChildren0, params, result);
        proof {
            assert(entries_view(self.functions@) =~~= before + builtin_part_17());
        }
    }

    #[verifier::rlimit(80)]
    fn register_part_18(&mut self)
        ensures
            entries_view(final(self).functions@) == entries_view(old(self).functions@) + builtin_part_18(),
    {
        let ghost before = entries_view(self.functions@);
        let params = params_1(SequenceType::zero_or_one(ItemType::node()));
        let result = SequenceType::exactly_one(ItemType::AtomicOrUnionType(xs_name("boolean")));
        proof {
            reveal_with_fuel(item_type_view, 3);
            reveal_with_fuel(seq_type_view, 3);
            assert(seq_types_view(params@) =~~= seq![st_v(ItemTypeV::Node(Box::new(NodeTestV::AnyKind)), OccurrenceIndicator::ZeroOrOne)]);
            assert(result@ =~~= st_v(ItemTypeV::AtomicOrUnionType(xs_qname_view("boolean"@)), OccurrenceIndicator::ExactlyOne));
        }
        self.register("http://www.w3.org/2005/xpath-functions", "has-children", 1, BuiltIn::HasChildren1, params, result);
        let params = params_1(SequenceType::zero_or_more(ItemType::node()));
        let result = SequenceType::zero_or_more(ItemType::node());
        proof {
            reveal_with_fuel(item_type_view, 3);
            reveal_with_fuel(seq_type_view, 3);
            assert(seq_types_view(params@) =~~= seq![st_v(ItemTypeV::Node(Box::new(NodeTestV::AnyKind)), OccurrenceIndicator::ZeroOrMore)]);
            assert(result@ =~~= st_v(ItemTypeV::Node(Box::new(NodeTestV::AnyKind)), OccurrenceIndicator::ZeroOrMore));
        }
        self.register("http://www.w3.org/2005/xpath-functions", "innermost", 1, BuiltIn::Innermost, params, result);
        let params = params_1(SequenceType::zero_or_more(ItemType::node()));
        let result = SequenceType::zero_or_more(ItemType::node());
        proof {
            reveal_with_fuel(item_type_view, 3);
            reveal_with_fuel(seq_type_view, 3);
            assert(seq_types_view(params@) =~~= seq![st_v(ItemTypeV::Node(Box::new(NodeTestV::AnyKind)), OccurrenceIndicator::ZeroOrMore)]);
            assert(result@ =~~= st_v(ItemTypeV::Node(Box::new(NodeTestV::AnyKind)), OccurrenceIndicator::ZeroOrMore));
        }
        self.register("http://www.w3.org/2005/xpath-functions", "outermost", 1, BuiltIn::Outermost, params, result);
        proof {
            assert(entries_view(self.functions@) =~~= before + builtin_part_18());
        }
    }

    /// Binds `fun`, with its signature, to a name and an arity, replacing an
    /// earlier binding of them.
    pub fn register(
        &mut self,
        uri: &str,
        local_part: &str,
        arity: usize,
        fun: BuiltIn,
        params: Vec<SequenceType>,
        result: SequenceType,
    )
        ensures
            entries_view(final(self).functions@) == entries_view(old(self).functions@).push(
                entry_v(uri@, local_part@, arity, fun, seq_types_view(params@), result@),
            ),
            final(self).functions@ == old(self).functions@.push(final(self).functions@.last()),
    {
        let e = RegisterEntry { url: uri.to_string(), local_part: local_part.to_string(), arity, fun, params, result };
        self.functions.push(e);
        proof {
            assert(self.functions@ =~= old(self).functions@.push(self.functions@.last()));
            assert(entries_view(self.functions@) =~= entries_view(old(self).functions@).push(
                entry_v(uri@, local_part@, arity, fun, seq_types_view(params@), result@),
            ));
        }
    }

    /// The binding of a name and an arity, if any (see `spec_register_get`).
    pub fn get(&self, qname: &QNameResolved, arity: usize) -> (r: Option<&RegisterEntry>)
        ensures
            match spec_register_get(self.functions@, qname@, arity) {
                Some(e) => r matches Some(x) && *x == e,
                None => r is None,
            },
    {
        let mut i: usize = self.functions.len();
        proof {
            assert(self.functions@.subrange(0, i as int) =~= self.functions@);
        }
        while i > 0
            invariant
                i <= self.functions.len(),
                spec_register_get(self.functions@, qname@, arity) == spec_register_get(
                    self.functions@.subrange(0, i as int),
                    qname@,
                    arity,
                ),
            decreases i,
        {
            let e = &self.functions[i - 1];
            let ghost pre = self.functions@.subrange(0, i as int);
            proof {
                assert(pre.drop_last() =~= self.functions@.subrange(0, i - 1));
                assert(pre.last() == *e);
            }
            if str_eq(e.url.as_str(), qname.url.as_str()) && str_eq(e.local_part.as_str(), qname.local_part.as_str())
                && e.arity == arity {
                return Some(e);
            }
            i = i - 1;
        }
        None
    }
}

} // verus!
