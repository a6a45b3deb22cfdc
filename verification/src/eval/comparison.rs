use vstd::prelude::*;
use crate::errors::{ErrorCode, ErrorInfo};
use crate::eval::environment::Environment;
use crate::eval::atomic::{
    general_comparison_for_types, spec_compare_types, spec_general_types, spec_type_order, spec_type_to_i128, type_order,
    type_to_i128, value_comparison_for_types,
};
use crate::value::{lemma_objects_view, object_eq, object_ok, object_same, node_string, node_to_number, node_typed_value, objects_view, spec_node_number, Object, ObjectV, Type, TypeV};

verus! {

/// The comparison operators: general (`=`, `!=`, `<`, `<=`, `>`, `>=`),
/// value (`eq`, `ne`, `lt`, `le`, `gt`, `ge`) and node (`is`, `<<`, `>>`).
#[derive(PartialEq, Eq, Structural, Clone, Copy, Debug)]
pub enum OperatorComparison {
    GeneralEquals,
    GeneralNotEquals,
    GeneralLessThan,
    GeneralLessOrEquals,
    GeneralGreaterThan,
    GeneralGreaterOrEquals,
    ValueEquals,
    ValueNotEquals,
    ValueLessThan,
    ValueLessOrEquals,
    ValueGreaterThan,
    ValueGreaterOrEquals,
    NodeIs,
    NodePrecedes,
    NodeFollows,
}

/// A comparison of two values, whatever its kind.
#[derive(PartialEq, Eq, Structural, Clone, Copy, Debug)]
pub enum Comparison {
    Equals,
    NotEquals,
    LessThan,
    LessOrEquals,
    GreaterThan,
    GreaterOrEquals,
}

/// The kinds of comparison.
#[derive(PartialEq, Eq, Structural, Clone, Copy, Debug)]
pub enum ComparisonType {
    General,
    Value,
    Node,
}

/// How two values compare.
#[derive(PartialEq, Eq, Structural, Clone, Copy, Debug)]
pub enum ValueOrdering {
    Less,
    Equal,
    QNameEqual,
    QNameNotEqual,
    AlwaysNotEqual,
    Greater,
}

/// The kind of comparison an operator makes.
pub open spec fn spec_to_type(op: OperatorComparison) -> ComparisonType {
    match op {
        OperatorComparison::GeneralEquals | OperatorComparison::GeneralNotEquals
        | OperatorComparison::GeneralLessThan | OperatorComparison::GeneralLessOrEquals
        | OperatorComparison::GeneralGreaterThan | OperatorComparison::GeneralGreaterOrEquals =>
            ComparisonType::General,
        OperatorComparison::ValueEquals | OperatorComparison::ValueNotEquals | OperatorComparison::ValueLessThan
        | OperatorComparison::ValueLessOrEquals | OperatorComparison::ValueGreaterThan
        | OperatorComparison::ValueGreaterOrEquals => ComparisonType::Value,
        OperatorComparison::NodeIs | OperatorComparison::NodePrecedes | OperatorComparison::NodeFollows =>
            ComparisonType::Node,
    }
}

/// The kind of comparison an operator makes.
pub fn to_type(operator: &OperatorComparison) -> (r: ComparisonType)
    ensures
        r == spec_to_type(*operator),
{
    match operator {
        OperatorComparison::GeneralEquals | OperatorComparison::GeneralNotEquals
        | OperatorComparison::GeneralLessThan | OperatorComparison::GeneralLessOrEquals
        | OperatorComparison::GeneralGreaterThan | OperatorComparison::GeneralGreaterOrEquals =>
            ComparisonType::General,
        OperatorComparison::ValueEquals | OperatorComparison::ValueNotEquals | OperatorComparison::ValueLessThan
        | OperatorComparison::ValueLessOrEquals | OperatorComparison::ValueGreaterThan
        | OperatorComparison::ValueGreaterOrEquals => ComparisonType::Value,
        OperatorComparison::NodeIs | OperatorComparison::NodePrecedes | OperatorComparison::NodeFollows =>
            ComparisonType::Node,
    }
}

/// The comparison a general or value operator makes.
pub open spec fn spec_to_comparison(op: OperatorComparison) -> Comparison {
    match op {
        OperatorComparison::GeneralEquals | OperatorComparison::ValueEquals => Comparison::Equals,
        OperatorComparison::GeneralNotEquals | OperatorComparison::ValueNotEquals => Comparison::NotEquals,
        OperatorComparison::GeneralLessThan | OperatorComparison::ValueLessThan => Comparison::LessThan,
        OperatorComparison::GeneralLessOrEquals | OperatorComparison::ValueLessOrEquals => Comparison::LessOrEquals,
        OperatorComparison::GeneralGreaterThan | OperatorComparison::ValueGreaterThan => Comparison::GreaterThan,
        _ => Comparison::GreaterOrEquals,
    }
}

impl OperatorComparison {
    /// The comparison a general or value operator makes.
    pub fn to_comparison(&self) -> (r: Comparison)
        requires
            spec_to_type(*self) != ComparisonType::Node,
        ensures
            r == spec_to_comparison(*self),
    {
        match self {
            OperatorComparison::GeneralEquals | OperatorComparison::ValueEquals => Comparison::Equals,
            OperatorComparison::GeneralNotEquals | OperatorComparison::ValueNotEquals => Comparison::NotEquals,
            OperatorComparison::GeneralLessThan | OperatorComparison::ValueLessThan => Comparison::LessThan,
            OperatorComparison::GeneralLessOrEquals | OperatorComparison::ValueLessOrEquals =>
                Comparison::LessOrEquals,
            OperatorComparison::GeneralGreaterThan | OperatorComparison::ValueGreaterThan => Comparison::GreaterThan,
            _ => Comparison::GreaterOrEquals,
        }
    }
}

/// Whether an ordering of two values satisfies a comparison.
pub open spec fn spec_is_it(c: Comparison, v: ValueOrdering) -> bool {
    match c {
        Comparison::Equals => v == ValueOrdering::Equal,
        Comparison::NotEquals => v != ValueOrdering::Equal,
        Comparison::LessThan => v == ValueOrdering::Less,
        Comparison::LessOrEquals => v != ValueOrdering::Greater,
        Comparison::GreaterThan => v == ValueOrdering::Greater,
        Comparison::GreaterOrEquals => v != ValueOrdering::Less,
    }
}

/// Whether an ordering is one of less, equal and greater.
pub open spec fn is_order(v: ValueOrdering) -> bool {
    v == ValueOrdering::Less || v == ValueOrdering::Equal || v == ValueOrdering::Greater
}

impl Comparison {
    /// Whether an ordering of two values satisfies the comparison.
    pub fn is_it(&self, v: ValueOrdering) -> (r: Result<bool, ErrorInfo>)
        requires
            is_order(v),
        ensures
            r matches Ok(b) && b == spec_is_it(*self, v),
    {
        let b = match self {
            Comparison::Equals => v == ValueOrdering::Equal,
            Comparison::NotEquals => v != ValueOrdering::Equal,
            Comparison::LessThan => v == ValueOrdering::Less,
            Comparison::LessOrEquals => v != ValueOrdering::Greater,
            Comparison::GreaterThan => v == ValueOrdering::Greater,
            Comparison::GreaterOrEquals => v != ValueOrdering::Less,
        };
        Ok(b)
    }
}

/// The ordering of a comparison of `std`.
pub fn value_ordering_of(v: core::cmp::Ordering) -> (r: ValueOrdering)
    ensures
        is_order(r),
        (v == core::cmp::Ordering::Less) == (r == ValueOrdering::Less),
        (v == core::cmp::Ordering::Equal) == (r == ValueOrdering::Equal),
        (v == core::cmp::Ordering::Greater) == (r == ValueOrdering::Greater),
{
    match v {
        core::cmp::Ordering::Less => ValueOrdering::Less,
        core::cmp::Ordering::Equal => ValueOrdering::Equal,
        core::cmp::Ordering::Greater => ValueOrdering::Greater,
    }
}

/// Whether a value is untyped.
pub fn is_untyped(value: &Type) -> (r: bool)
    ensures
        r == value is Untyped,
{
    match value {
        Type::Untyped(..) => true,
        _ => false,
    }
}

/// Whether a value is a number.
pub fn is_numeric(value: &Type) -> (r: bool)
    ensures
        r == (value is Integer || value is Decimal || value is Float || value is Double),
{
    match value {
        Type::Integer(..) | Type::Decimal { .. } | Type::Float { .. } | Type::Double { .. } => true,
        _ => false,
    }
}

/// The error code of a result, its message left out.
pub open spec fn code_of(r: Result<bool, ErrorInfo>) -> Result<bool, ErrorCode> {
    match r {
        Ok(b) => Ok(b),
        Err((c, _)) => Err(c),
    }
}

/// Whether an integer lies between two bounds, in either order.
pub open spec fn in_range(n: Option<i128>, min: i128, max: i128) -> bool {
    match n {
        Some(num) => if min <= max {
            num >= min && num <= max
        } else {
            num >= max && num <= min
        },
        None => false,
    }
}

/// Whether the integer that an atomic value stands for (see
/// `spec_type_to_i128`) lies between `min` and `max`, in either order.
pub fn type_in_range(t: &Type, min: &i128, max: &i128) -> (r: Result<bool, ErrorInfo>)
    ensures
        r matches Ok(b) && b == in_range(spec_type_to_i128(t@), *min, *max),
{
    let n = type_to_i128(t);
    if let Some(num) = n {
        if *min <= *max {
            Ok(num >= *min && num <= *max)
        } else {
            Ok(num >= *max && num <= *min)
        }
    } else {
        Ok(false)
    }
}


/// Whether two integer ranges, each given by its bounds in either order,
/// overlap.
pub open spec fn ranges_overlap(l_min: i128, l_max: i128, r_min: i128, r_max: i128) -> bool {
    let (a, b) = if l_min <= l_max { (l_min, l_max) } else { (l_max, l_min) };
    let (c, d) = if r_min <= r_max { (r_min, r_max) } else { (r_max, r_min) };
    a <= d && b >= c
}

/// How an atomic value compares with one item of a sequence in a general
/// comparison: atomic items as they are, nodes by their typed value, other
/// items not at all.
pub open spec fn item_outcome(op: OperatorComparison, lt: TypeV, item: ObjectV) -> Result<bool, ErrorCode> {
    match item {
        ObjectV::Atomic(rt) => spec_general_types(op, lt, rt),
        ObjectV::Node(n) => spec_general_types(op, lt, TypeV::Untyped(node_string(n))),
        _ => Ok(false),
    }
}

/// An atomic value compared with the items of a sequence, in order, until
/// one compares true: atomic items as they are, nodes by their typed value
/// as untyped values; other items are passed over.
pub open spec fn any_item(op: OperatorComparison, lt: TypeV, items: Seq<ObjectV>) -> Result<bool, ErrorCode>
    decreases items.len(),
{
    if items.len() == 0 {
        Ok(false)
    } else {
        match item_outcome(op, lt, items[0]) {
            Err(e) => Err(e),
            Ok(true) => Ok(true),
            Ok(false) => any_item(op, lt, items.subrange(1, items.len() as int)),
        }
    }
}

/// The general comparison of two values: true if some pair of their items
/// compares true (atomic values by `spec_general_types`), tried in order;
/// the first error stops it. Ranges compare by the integers that
/// `spec_type_to_i128` reads, nodes by their typed values as
/// untyped values, and a node with itself (the same position) as equal.
pub open spec fn spec_general_comparison(
    op: OperatorComparison,
    l: ObjectV,
    r: ObjectV,
) -> Result<bool, ErrorCode>
    decreases l, 0int, 0int,
{
    match l {
        ObjectV::Empty => Ok(false),
        ObjectV::Atomic(lt) => match r {
            ObjectV::Atomic(rt) => spec_general_types(op, lt, rt),
            ObjectV::Range { min, max } => Ok(in_range(spec_type_to_i128(lt), min, max)),
            ObjectV::Node(n) => spec_general_types(op, lt, TypeV::Untyped(node_string(n))),
            ObjectV::Sequence(items) => any_item(op, lt, items),
            _ => Ok(false),
        },
        ObjectV::Range { min: l_min, max: l_max } => match r {
            ObjectV::Range { min: r_min, max: r_max } => Ok(ranges_overlap(l_min, l_max, r_min, r_max)),
            ObjectV::Atomic(rt) => Ok(in_range(spec_type_to_i128(rt), l_min, l_max)),
            _ => Ok(false),
        },
        ObjectV::Array(li) => match r {
            ObjectV::Atomic(_) => any_left(op, li, r),
            ObjectV::Array(ri) => any_pair(op, li, ri),
            ObjectV::Sequence(ri) => any_pair(op, li, ri),
            _ => Ok(false),
        },
        ObjectV::Sequence(li) => match r {
            ObjectV::Atomic(_) => any_left(op, li, r),
            ObjectV::Array(ri) => any_pair(op, li, ri),
            ObjectV::Sequence(ri) => any_pair(op, li, ri),
            _ => Ok(false),
        },
        ObjectV::Node(ln) => match r {
            ObjectV::Atomic(rt) => spec_general_types(op, TypeV::Untyped(node_string(ln)), rt),
            ObjectV::Node(rn) => if spec_node_number(ln) == spec_node_number(rn) {
                Ok(spec_is_it(spec_to_comparison(op), ValueOrdering::Equal))
            } else {
                spec_general_types(op, TypeV::Untyped(node_string(ln)), TypeV::Untyped(node_string(rn)))
            },
            _ => Ok(false),
        },
        _ => Ok(false),
    }
}

/// Each item of `li` compared with `r` in turn, until one compares true.
pub open spec fn any_left(
    op: OperatorComparison,
    li: Seq<ObjectV>,
    r: ObjectV,
) -> Result<bool, ErrorCode>
    decreases li, 0int, 0int,
{
    if li.len() == 0 {
        Ok(false)
    } else {
        match spec_general_comparison(op, li[0], r) {
            Err(e) => Err(e),
            Ok(true) => Ok(true),
            Ok(false) => any_left(op, li.subrange(1, li.len() as int), r),
        }
    }
}

/// Each item of `li` compared with each item of `ri`, row by row, until a
/// pair compares true.
pub open spec fn any_pair(
    op: OperatorComparison,
    li: Seq<ObjectV>,
    ri: Seq<ObjectV>,
) -> Result<bool, ErrorCode>
    decreases li, 0int, 0int,
{
    if li.len() == 0 {
        Ok(false)
    } else {
        match any_row(op, li[0], ri) {
            Err(e) => Err(e),
            Ok(true) => Ok(true),
            Ok(false) => any_pair(op, li.subrange(1, li.len() as int), ri),
        }
    }
}

/// `lo` compared with each item of `ri` in turn, until one compares true.
pub open spec fn any_row(
    op: OperatorComparison,
    lo: ObjectV,
    ri: Seq<ObjectV>,
) -> Result<bool, ErrorCode>
    decreases lo, 1int, ri.len(),
{
    if ri.len() == 0 {
        Ok(false)
    } else {
        match spec_general_comparison(op, lo, ri[0]) {
            Err(e) => Err(e),
            Ok(true) => Ok(true),
            Ok(false) => any_row(op, lo, ri.subrange(1, ri.len() as int)),
        }
    }
}

/// Whether the general comparison of two values is defined: the pairs of
/// kinds it compares, and, within sequences and arrays, the items it
/// reaches before an answer.
pub open spec fn general_defined(
    op: OperatorComparison,
    l: ObjectV,
    r: ObjectV,
) -> bool
    decreases l, 0int, 0int,
{
    match l {
        ObjectV::Empty => true,
        ObjectV::Atomic(_) => r is Empty || r is Atomic || r is Range || r is Node || r is Sequence,
        ObjectV::Range { .. } => r is Empty || r is Range || r is Atomic,
        ObjectV::Array(li) => match r {
            ObjectV::Empty => true,
            ObjectV::Atomic(_) => left_defined(op, li, r),
            ObjectV::Array(ri) => pair_defined(op, li, ri),
            ObjectV::Sequence(ri) => pair_defined(op, li, ri),
            _ => false,
        },
        ObjectV::Sequence(li) => match r {
            ObjectV::Empty => true,
            ObjectV::Atomic(_) => left_defined(op, li, r),
            ObjectV::Array(ri) => pair_defined(op, li, ri),
            ObjectV::Sequence(ri) => pair_defined(op, li, ri),
            _ => false,
        },
        ObjectV::Node(_) => r is Empty || r is Atomic || r is Node,
        _ => false,
    }
}

pub open spec fn left_defined(
    op: OperatorComparison,
    li: Seq<ObjectV>,
    r: ObjectV,
) -> bool
    decreases li, 0int, 0int,
{
    li.len() == 0 || (general_defined(op, li[0], r) && (spec_general_comparison(op, li[0], r)
        == Ok::<bool, ErrorCode>(false) ==> left_defined(op, li.subrange(1, li.len() as int), r)))
}

pub open spec fn pair_defined(
    op: OperatorComparison,
    li: Seq<ObjectV>,
    ri: Seq<ObjectV>,
) -> bool
    decreases li, 0int, 0int,
{
    li.len() == 0 || (row_defined(op, li[0], ri) && (any_row(op, li[0], ri) == Ok::<bool, ErrorCode>(
        false,
    ) ==> pair_defined(op, li.subrange(1, li.len() as int), ri)))
}

pub open spec fn row_defined(
    op: OperatorComparison,
    lo: ObjectV,
    ri: Seq<ObjectV>,
) -> bool
    decreases lo, 1int, ri.len(),
{
    ri.len() == 0 || (general_defined(op, lo, ri[0]) && (spec_general_comparison(op, lo, ri[0]) == Ok::<
        bool,
        ErrorCode,
    >(false) ==> row_defined(op, lo, ri.subrange(1, ri.len() as int))))
}


/// A value in its environment.
pub type ObjectRefInEnv<'a> = (&'a Box<Environment>, &'a Object);

/// The general comparison of two values (see `spec_general_comparison`):
/// atomic values are compared by `general_comparison_for_types`, and read
/// as integers beside a range by `type_to_i128`.
pub fn general_comparison(
    op: &OperatorComparison,
    left: ObjectRefInEnv,
    right: ObjectRefInEnv,
) -> (r: Result<bool, ErrorInfo>)
    requires
        spec_to_type(*op) == ComparisonType::General,
        general_defined(*op, left.1@, right.1@),
    ensures
        code_of(r) == spec_general_comparison(*op, left.1@, right.1@),
    decreases left.1@,
{
    match left.1 {
        Object::Empty => Ok(false),
        Object::Atomic(lt) => match right.1 {
            Object::Empty => Ok(false),
            Object::Atomic(rt) => general_comparison_for_types(op, lt, rt),
            Object::Range { min, max } => type_in_range(lt, min, max),
            Object::Node(r_rf) => {
                let rv = Type::Untyped(node_typed_value(r_rf));
                general_comparison_for_types(op, lt, &rv)
            },
            Object::Sequence(items) => {
                let ghost v = objects_view(items@);
                proof {
                    lemma_objects_view(items@);
                    assert(v.subrange(0, v.len() as int) =~= v);
                }
                let ghost whole = spec_general_comparison(*op, left.1@, right.1@);
                proof {
                    assert(whole == any_item(*op, lt@, v));
                }
                let mut i: usize = 0;
                while i < items.len()
                    invariant
                        whole == spec_general_comparison(*op, left.1@, right.1@),
                        whole == any_item(*op, lt@, v),
                        spec_to_type(*op) == ComparisonType::General,
                        i <= items@.len(),
                        v == objects_view(items@),
                        v.len() == items@.len(),
                        forall|j: int| 0 <= j < items@.len() ==> #[trigger] v[j] == items@[j]@,
                        any_item(*op, lt@, v) == any_item(*op, lt@, v.subrange(i as int, v.len() as int)),
                    decreases items@.len() - i,
                {
                    let ghost w = v.subrange(i as int, v.len() as int);
                    proof {
                        assert(w.subrange(1, w.len() as int) =~= v.subrange(i + 1, v.len() as int));
                        assert(w[0] == v[i as int]);
                    }
                    match &items[i] {
                        Object::Atomic(rt) => {
                            let res = general_comparison_for_types(op, lt, rt);
                            proof {
                                assert(v[i as int] == ObjectV::Atomic(rt@));
                            }
                            match res {
                                Ok(true) => {
                                    return Ok(true);
                                },
                                Ok(false) => {},
                                Err(e) => {
                                    return Err(e);
                                },
                            }
                        },
                        Object::Node(rf) => {
                            let rv = Type::Untyped(node_typed_value(rf));
                            let res = general_comparison_for_types(op, lt, &rv);
                            match res {
                                Ok(true) => {
                                    return Ok(true);
                                },
                                Ok(false) => {},
                                Err(e) => {
                                    return Err(e);
                                },
                            }
                        },
                        _ => {},
                    }
                    i = i + 1;
                }
                Ok(false)
            },
            _ => Ok(false),
        },
        Object::Range { min: l_min, max: l_max } => match right.1 {
            Object::Empty => Ok(false),
            Object::Range { min: r_min, max: r_max } => {
                let (l_min, l_max) = if *l_min <= *l_max {
                    (*l_min, *l_max)
                } else {
                    (*l_max, *l_min)
                };
                let (r_min, r_max) = if *r_min <= *r_max {
                    (*r_min, *r_max)
                } else {
                    (*r_max, *r_min)
                };
                Ok((l_min <= r_max) && (l_max >= r_min))
            },
            Object::Atomic(rt) => type_in_range(rt, l_min, l_max),
            _ => Ok(false),
        },
        Object::Array(left_items) | Object::Sequence(left_items) => {
            let ghost lv = objects_view(left_items@);
            proof {
                lemma_objects_view(left_items@);
                assert(lv.subrange(0, lv.len() as int) =~= lv);
                assert(decreases_to!(left.1@ => lv));
            }
            match right.1 {
                Object::Empty => Ok(false),
                Object::Atomic(..) => {
                    let ghost whole = spec_general_comparison(*op, left.1@, right.1@);
                    proof {
                        assert(whole == any_left(*op, lv, right.1@));
                    }
                    let mut i: usize = 0;
                    while i < left_items.len()
                        invariant
                            whole == spec_general_comparison(*op, left.1@, right.1@),
                            whole == any_left(*op, lv, right.1@),
                            spec_to_type(*op) == ComparisonType::General,
                            i <= left_items@.len(),
                            lv == objects_view(left_items@),
                            lv.len() == left_items@.len(),
                            forall|j: int| 0 <= j < left_items@.len() ==> #[trigger] lv[j] == left_items@[j]@,
                            decreases_to!(left.1@ => lv),
                            any_left(*op, lv, right.1@) == any_left(
                                *op,
                                lv.subrange(i as int, lv.len() as int),
                                right.1@,
                            ),
                            left_defined(*op, lv.subrange(i as int, lv.len() as int), right.1@),
                        decreases left_items@.len() - i,
                    {
                        let ghost w = lv.subrange(i as int, lv.len() as int);
                        proof {
                            assert(w.subrange(1, w.len() as int) =~= lv.subrange(i + 1, lv.len() as int));
                            assert(w[0] == lv[i as int]);
                            assert(decreases_to!(lv => lv[i as int]));
                        }
                        let lo = &left_items[i];
                        match general_comparison(op, (left.0, lo), right) {
                            Ok(true) => {
                                return Ok(true);
                            },
                            Ok(false) => {},
                            Err(e) => {
                                return Err(e);
                            },
                        }
                        i = i + 1;
                    }
                    Ok(false)
                },
                Object::Array(right_items) | Object::Sequence(right_items) => {
                    let ghost rv = objects_view(right_items@);
                    proof {
                        lemma_objects_view(right_items@);
                    }
                    let ghost whole = spec_general_comparison(*op, left.1@, right.1@);
                    proof {
                        assert(whole == any_pair(*op, lv, rv));
                    }
                    let mut i: usize = 0;
                    while i < left_items.len()
                        invariant
                            whole == spec_general_comparison(*op, left.1@, right.1@),
                            whole == any_pair(*op, lv, rv),
                            spec_to_type(*op) == ComparisonType::General,
                            i <= left_items@.len(),
                            lv == objects_view(left_items@),
                            lv.len() == left_items@.len(),
                            forall|j: int| 0 <= j < left_items@.len() ==> #[trigger] lv[j] == left_items@[j]@,
                            rv == objects_view(right_items@),
                            rv.len() == right_items@.len(),
                            forall|j: int| 0 <= j < right_items@.len() ==> #[trigger] rv[j] == right_items@[j]@,
                            decreases_to!(left.1@ => lv),
                            any_pair(*op, lv, rv) == any_pair(
                                *op,
                                lv.subrange(i as int, lv.len() as int),
                                rv,
                            ),
                            pair_defined(*op, lv.subrange(i as int, lv.len() as int), rv),
                        decreases left_items@.len() - i,
                    {
                        let ghost w = lv.subrange(i as int, lv.len() as int);
                        proof {
                            assert(w.subrange(1, w.len() as int) =~= lv.subrange(i + 1, lv.len() as int));
                            assert(w[0] == lv[i as int]);
                            assert(decreases_to!(lv => lv[i as int]));
                            assert(rv.subrange(0, rv.len() as int) =~= rv);
                        }
                        let left_item = &left_items[i];
                        let ghost lo = lv[i as int];
                        let mut j: usize = 0;
                        while j < right_items.len()
                            invariant
                                whole == spec_general_comparison(*op, left.1@, right.1@),
                                whole == any_pair(*op, w, rv),
                                w.len() > 0,
                                w[0] == lo,
                                any_pair(*op, w, rv) == match any_row(*op, lo, rv) {
                                    Err(e) => Err(e),
                                    Ok(true) => Ok(true),
                                    Ok(false) => any_pair(*op, w.subrange(1, w.len() as int), rv),
                                },
                                spec_to_type(*op) == ComparisonType::General,
                                j <= right_items@.len(),
                                lo == left_item@,
                                decreases_to!(left.1@ => lo),
                                rv == objects_view(right_items@),
                                rv.len() == right_items@.len(),
                                forall|k: int| 0 <= k < right_items@.len() ==> #[trigger] rv[k] == right_items@[k]@,
                                any_row(*op, lo, rv) == any_row(
                                    *op,
                                    lo,
                                    rv.subrange(j as int, rv.len() as int),
                                ),
                                row_defined(*op, lo, rv.subrange(j as int, rv.len() as int)),
                            decreases right_items@.len() - j,
                        {
                            let ghost u = rv.subrange(j as int, rv.len() as int);
                            proof {
                                assert(u.subrange(1, u.len() as int) =~= rv.subrange(j + 1, rv.len() as int));
                                assert(u[0] == rv[j as int]);
                            }
                            let right_item = &right_items[j];
                            match general_comparison(op, (left.0, left_item), (right.0, right_item)) {
                                Ok(true) => {
                                    return Ok(true);
                                },
                                Ok(false) => {},
                                Err(e) => {
                                    return Err(e);
                                },
                            }
                            j = j + 1;
                        }
                        i = i + 1;
                    }
                    Ok(false)
                },
                _ => Ok(false),
            }
        },
        Object::Node(l_rf) => match right.1 {
            Object::Empty => Ok(false),
            Object::Atomic(rt) => {
                let lv = Type::Untyped(node_typed_value(l_rf));
                general_comparison_for_types(op, &lv, rt)
            },
            Object::Node(r_rf) => {
                if node_to_number(l_rf) == node_to_number(r_rf) {
                    op.to_comparison().is_it(ValueOrdering::Equal)
                } else {
                    let lv = Type::Untyped(node_typed_value(l_rf));
                    let rv = Type::Untyped(node_typed_value(r_rf));
                    general_comparison_for_types(op, &lv, &rv)
                }
            },
            _ => Ok(false),
        },
        _ => Ok(false),
    }
}


/// The bounds of a range, lower first.
pub open spec fn ordered(min: i128, max: i128) -> (i128, i128) {
    if min <= max {
        (min, max)
    } else {
        (max, min)
    }
}

/// The number of integers in a range as a `usize` (truncated).
pub open spec fn range_count(min: i128, max: i128) -> usize {
    let (lo, hi) = ordered(min, max);
    (hi - lo + 1) as usize
}

/// The deep equality of two values: equal values are deep-equal; atomic
/// values as `eq` compares them (see `spec_compare_types`); ranges by their bounds, or item by item
/// with a sequence; sequences of one length item by item; nodes by their
/// position. The item-by-item comparisons answer false as soon as a pair
/// IS deep-equal, and true when no pair is.
pub open spec fn spec_deep_eq(l: ObjectV, r: ObjectV) -> Result<bool, ErrorCode>
    decreases (if r is Atomic { 0int } else { 1int }), l, 0int,
{
    if object_same(l, r) {
        Ok(true)
    } else {
        match l {
            ObjectV::Atomic(lt) => match r {
                ObjectV::Atomic(rt) => spec_compare_types(Comparison::Equals, lt, rt),
                _ => Ok(false),
            },
            ObjectV::Range { min: l_min, max: l_max } => match r {
                ObjectV::Range { min: r_min, max: r_max } => Ok(l_min == r_min && l_max == r_max),
                ObjectV::Sequence(ri) => seq_and_range(ri, l_min, l_max),
                _ => Ok(false),
            },
            ObjectV::Sequence(li) => match r {
                ObjectV::Range { min, max } => seq_and_range(li, min, max),
                ObjectV::Sequence(ri) => if li.len() != ri.len() {
                    Ok(false)
                } else {
                    pairwise(li, ri)
                },
                _ => Ok(false),
            },
            ObjectV::Node(ln) => match r {
                ObjectV::Node(rn) => Ok(spec_node_number(ln) == spec_node_number(rn)),
                _ => Ok(false),
            },
            _ => Ok(false),
        }
    }
}

/// Items of two sequences compared in pairs, in order.
pub open spec fn pairwise(li: Seq<ObjectV>, ri: Seq<ObjectV>) -> Result<bool, ErrorCode>
    decreases 1int, li, 0int,
{
    if li.len() == 0 || ri.len() == 0 {
        Ok(true)
    } else {
        match spec_deep_eq(li[0], ri[0]) {
            Err(e) => Err(e),
            Ok(true) => Ok(false),
            Ok(false) => pairwise(li.subrange(1, li.len() as int), ri.subrange(1, ri.len() as int)),
        }
    }
}

/// A sequence compared with the integers of a range, upwards from its lower
/// bound, when it has as many items as the range (counted as a `usize`).
pub open spec fn seq_and_range(items: Seq<ObjectV>, min: i128, max: i128) -> Result<bool, ErrorCode>
    decreases 0int, items, 1int,
{
    let (lo, hi) = ordered(min, max);
    if items.len() != range_count(min, max) {
        Ok(false)
    } else {
        walk(items, lo as int, hi)
    }
}

/// Items compared with `k`, `k + 1`, ... in turn; at the end, whether the
/// last integer reached is `hi`.
pub open spec fn walk(items: Seq<ObjectV>, k: int, hi: i128) -> Result<bool, ErrorCode>
    decreases 0int, items, 0int,
{
    if items.len() == 0 {
        Ok(k - 1 == hi)
    } else {
        match spec_deep_eq(items[0], ObjectV::Atomic(TypeV::Integer(k as i128))) {
            Err(e) => Err(e),
            Ok(true) => Ok(false),
            Ok(false) => walk(items.subrange(1, items.len() as int), k + 1, hi),
        }
    }
}

/// Whether deep equality is defined for two values: their decimals are in
/// range, the kinds of the pair are ones it compares, and the pairs of
/// items it reaches are defined too; the integers of ranges it walks fit.
pub open spec fn deep_eq_defined(l: ObjectV, r: ObjectV) -> bool
    decreases (if r is Atomic { 0int } else { 1int }), l, 0int,
{
    object_ok(l) && object_ok(r) && (object_same(l, r) || match l {
        ObjectV::Atomic(_) => true,
        ObjectV::Range { min: l_min, max: l_max } => match r {
            ObjectV::Range { .. } => true,
            ObjectV::Sequence(ri) => seq_and_range_defined(ri, l_min, l_max),
            _ => false,
        },
        ObjectV::Sequence(li) => match r {
            ObjectV::Range { min, max } => seq_and_range_defined(li, min, max),
            ObjectV::Sequence(ri) => li.len() != ri.len() || pairwise_defined(li, ri),
            _ => true,
        },
        ObjectV::Node(_) => true,
        _ => false,
    })
}

pub open spec fn pairwise_defined(li: Seq<ObjectV>, ri: Seq<ObjectV>) -> bool
    decreases 1int, li, 0int,
{
    li.len() == 0 || ri.len() == 0 || (deep_eq_defined(li[0], ri[0]) && (spec_deep_eq(li[0], ri[0]) == Ok::<
        bool,
        ErrorCode,
    >(false) ==> pairwise_defined(li.subrange(1, li.len() as int), ri.subrange(1, ri.len() as int))))
}

pub open spec fn seq_and_range_defined(items: Seq<ObjectV>, min: i128, max: i128) -> bool
    decreases 0int, items, 1int,
{
    let (lo, hi) = ordered(min, max);
    &&& hi - lo < i128::MAX
    &&& items.len() == range_count(min, max) ==> lo + items.len() <= i128::MAX && lo > i128::MIN && walk_defined(
        items,
        lo as int,
        hi,
    )
}

pub open spec fn walk_defined(items: Seq<ObjectV>, k: int, hi: i128) -> bool
    decreases 0int, items, 0int,
{
    items.len() == 0 || (deep_eq_defined(items[0], ObjectV::Atomic(TypeV::Integer(k as i128))) && (spec_deep_eq(
        items[0],
        ObjectV::Atomic(TypeV::Integer(k as i128)),
    ) == Ok::<bool, ErrorCode>(false) ==> walk_defined(items.subrange(1, items.len() as int), k + 1, hi)))
}


/// The deep equality of two values (see `spec_deep_eq`).
pub fn deep_eq(
    left: ObjectRefInEnv,
    right: ObjectRefInEnv,
) -> (r: Result<bool, ErrorInfo>)
    requires
        deep_eq_defined(left.1@, right.1@),
    ensures
        code_of(r) == spec_deep_eq(left.1@, right.1@),
    decreases (if right.1@ is Atomic { 0int } else { 1int }), left.1@, 0int,
{
    if object_eq(left.1, right.1) {
        Ok(true)
    } else {
        match left.1 {
            Object::Atomic(lt) => match right.1 {
                Object::Atomic(rt) => {
                    value_comparison_for_types(&Comparison::Equals, lt, rt)
                },
                _ => Ok(false),
            },
            Object::Range { min: left_min, max: left_max } => match right.1 {
                Object::Range { min: right_min, max: right_max } => Ok(
                    *left_min == *right_min && *left_max == *right_max,
                ),
                Object::Sequence(right_items) => deep_eq_sequence_and_range(
                    right.0,
                    right_items,
                    *left_min,
                    *left_max,
                ),
                _ => Ok(false),
            },
            Object::Sequence(left_items) => match right.1 {
                Object::Range { min, max } => deep_eq_sequence_and_range(left.0, left_items, *min, *max),
                Object::Sequence(right_items) => {
                    proof {
                        lemma_objects_view(left_items@);
                        lemma_objects_view(right_items@);
                    }
                    if left_items.len() != right_items.len() {
                        Ok(false)
                    } else {
                        let ghost lv = objects_view(left_items@);
                        let ghost rv = objects_view(right_items@);
                        let ghost whole = spec_deep_eq(left.1@, right.1@);
                        proof {
                            lemma_objects_view(left_items@);
                            lemma_objects_view(right_items@);
                            assert(lv.subrange(0, lv.len() as int) =~= lv);
                            assert(rv.subrange(0, rv.len() as int) =~= rv);
                            assert(decreases_to!(left.1@ => lv));
                            assert(whole == pairwise(lv, rv));
                        }
                        let mut i: usize = 0;
                        while i < left_items.len()
                            invariant
                                whole == spec_deep_eq(left.1@, right.1@),
                                whole == pairwise(
                                    lv.subrange(i as int, lv.len() as int),
                                    rv.subrange(i as int, rv.len() as int),
                                ),
                                pairwise_defined(
                                    lv.subrange(i as int, lv.len() as int),
                                    rv.subrange(i as int, rv.len() as int),
                                ),
                                i <= left_items@.len(),
                                left_items@.len() == right_items@.len(),
                                lv == objects_view(left_items@),
                                rv == objects_view(right_items@),
                                lv.len() == left_items@.len(),
                                rv.len() == right_items@.len(),
                                forall|j: int| 0 <= j < left_items@.len() ==> #[trigger] lv[j] == left_items@[j]@,
                                forall|j: int| 0 <= j < right_items@.len() ==> #[trigger] rv[j] == right_items@[j]@,
                                decreases_to!(left.1@ => lv),
                                !(right.1@ is Atomic),
                            decreases left_items@.len() - i,
                        {
                            let ghost wl = lv.subrange(i as int, lv.len() as int);
                            let ghost wr = rv.subrange(i as int, rv.len() as int);
                            proof {
                                assert(wl.subrange(1, wl.len() as int) =~= lv.subrange(i + 1, lv.len() as int));
                                assert(wr.subrange(1, wr.len() as int) =~= rv.subrange(i + 1, rv.len() as int));
                                assert(wl[0] == lv[i as int]);
                                assert(wr[0] == rv[i as int]);
                                assert(decreases_to!(lv => lv[i as int]));
                            }
                            match deep_eq((left.0, &left_items[i]), (right.0, &right_items[i])) {
                                Ok(true) => {
                                    return Ok(false);
                                },
                                Ok(false) => {},
                                Err(e) => {
                                    return Err(e);
                                },
                            }
                            i = i + 1;
                        }
                        Ok(true)
                    }
                },
                _ => Ok(false),
            },
            Object::Node(l_rf) => match right.1 {
                Object::Node(r_rf) => Ok(node_to_number(l_rf) == node_to_number(r_rf)),
                _ => Ok(false),
            },
            _ => Ok(false),
        }
    }
}

/// A sequence compared with the integers of a range (see `seq_and_range`).
pub fn deep_eq_sequence_and_range(
    env: &Box<Environment>,
    left_items: &Vec<Object>,
    min: i128,
    max: i128,
) -> (r: Result<bool, ErrorInfo>)
    requires
        seq_and_range_defined(objects_view(left_items@), min, max),
    ensures
        code_of(r) == seq_and_range(objects_view(left_items@), min, max),
    decreases 0int, objects_view(left_items@), 1int,
{
    let ghost v = objects_view(left_items@);
    let ghost whole = seq_and_range(v, min, max);
    proof {
        lemma_objects_view(left_items@);
    }
    let (lo, hi) = if min <= max {
        (min, max)
    } else {
        (max, min)
    };
    let d: i128 = hi - lo;
    let d: i128 = if d < 0 { -d } else { d };
    let c: i128 = d + 1;
    let c: i128 = if c < 0 { 0 } else { c };
    if left_items.len() != #[verifier::truncate] (c as usize) {
        return Ok(false);
    }
    let mut right_item: i128 = lo;
    let step: i128 = 1;
    proof {
        assert(v.subrange(0, v.len() as int) =~= v);
        assert(whole == walk(v, lo as int, hi));
    }
    let mut i: usize = 0;
    while i < left_items.len()
        invariant
            whole == seq_and_range(v, min, max),
            whole == walk(v.subrange(i as int, v.len() as int), right_item as int, hi),
            walk_defined(v.subrange(i as int, v.len() as int), right_item as int, hi),
            right_item == lo + i,
            lo + v.len() <= i128::MAX,
            lo > i128::MIN,
            step == 1,
            i <= left_items@.len(),
            v == objects_view(left_items@),
            v.len() == left_items@.len(),
            forall|j: int| 0 <= j < left_items@.len() ==> #[trigger] v[j] == left_items@[j]@,
        decreases left_items@.len() - i,
    {
        let ghost w = v.subrange(i as int, v.len() as int);
        proof {
            assert(w.subrange(1, w.len() as int) =~= v.subrange(i + 1, v.len() as int));
            assert(w[0] == v[i as int]);
            assert(decreases_to!(v => v[i as int]));
        }
        let n = Object::Atomic(Type::Integer(right_item));
        match deep_eq((env, &left_items[i]), (env, &n)) {
            Ok(true) => {
                return Ok(false);
            },
            Ok(false) => {},
            Err(e) => {
                return Err(e);
            },
        }
        right_item = right_item + step;
        i = i + 1;
    }
    Ok((right_item - step) == hi)
}


/// A general comparison with the empty sequence on either side is false.
pub proof fn law_general_comparison_with_empty(
    op: OperatorComparison,
    other: ObjectV,
)
    ensures
        spec_general_comparison(op, ObjectV::Empty, other) == Ok::<bool, ErrorCode>(false),
        other is Atomic || other is Range || other is Array || other is Sequence || other is Node
            ==> spec_general_comparison(op, other, ObjectV::Empty) == Ok::<bool, ErrorCode>(false),
{
}

/// Every value is deep-equal to itself.
pub proof fn law_deep_eq_reflexive(o: ObjectV)
    ensures
        spec_deep_eq(o, o) == Ok::<bool, ErrorCode>(true),
{
    crate::value::law_object_same_reflexive(o);
}


/// The error code of an ordering result, its message left out.
pub open spec fn order_code_of(r: Result<ValueOrdering, ErrorInfo>) -> Result<ValueOrdering, ErrorCode> {
    match r {
        Ok(v) => Ok(v),
        Err((c, _)) => Err(c),
    }
}

/// The value comparison of two values: the empty sequence for an empty
/// operand; true for equal operands under `eq`, `le` and `ge`; else, for two
/// atomic values, whether their ordering satisfies the comparison.
pub open spec fn spec_value_comparison(
    op: OperatorComparison,
    l: ObjectV,
    r: ObjectV,
) -> Result<ObjectV, ErrorCode> {
    let c = spec_to_comparison(op);
    if l is Empty {
        Ok(ObjectV::Empty)
    } else if object_same(l, r) && (c == Comparison::GreaterOrEquals || c == Comparison::LessOrEquals || c
        == Comparison::Equals) {
        Ok(ObjectV::Atomic(TypeV::Boolean(true)))
    } else {
        match (l, r) {
            (ObjectV::Atomic(_), ObjectV::Empty) => Ok(ObjectV::Empty),
            (ObjectV::Atomic(lt), ObjectV::Atomic(rt)) => match spec_type_order(lt, rt) {
                Ok(v) => Ok(ObjectV::Atomic(TypeV::Boolean(spec_is_it(c, v)))),
                Err(e) => Err(e),
            },
            _ => Err(ErrorCode::TODO),
        }
    }
}

/// Whether the value comparison of two values is defined: their decimals
/// are in range, and an operand that is not empty is atomic, compared with
/// the empty sequence or an atomic value, unless the two are equal.
pub open spec fn value_comparison_defined(op: OperatorComparison, l: ObjectV, r: ObjectV) -> bool {
    let c = spec_to_comparison(op);
    &&& object_ok(l)
    &&& object_ok(r)
    &&& spec_to_type(op) == ComparisonType::Value
    &&& (l is Empty || (object_same(l, r) && (c == Comparison::GreaterOrEquals || c == Comparison::LessOrEquals || c
        == Comparison::Equals)) || (l is Atomic && (r is Empty || r is Atomic)))
}

pub open spec fn object_result_of(r: Result<Object, ErrorInfo>) -> Result<ObjectV, ErrorCode> {
    match r {
        Ok(o) => Ok(o@),
        Err((c, _)) => Err(c),
    }
}

/// The value comparison of two values (see `spec_value_comparison`); atomic
/// values are ordered by `type_order`.
pub fn value_comparison(
    op: &OperatorComparison,
    left: ObjectRefInEnv,
    right: ObjectRefInEnv,
) -> (r: Result<Object, ErrorInfo>)
    requires
        value_comparison_defined(*op, left.1@, right.1@),
    ensures
        object_result_of(r) == spec_value_comparison(*op, left.1@, right.1@),
{
    let empty = Object::Empty;
    if object_eq(left.1, &empty) {
        return Ok(Object::Empty);
    } else if object_eq(left.1, right.1) {
        match op.to_comparison() {
            Comparison::GreaterOrEquals | Comparison::LessOrEquals | Comparison::Equals => {
                return Ok(Object::Atomic(Type::Boolean(true)));
            },
            Comparison::NotEquals | Comparison::LessThan | Comparison::GreaterThan => {},
        }
    }
    match left.1 {
        Object::Empty => Ok(Object::Empty),
        Object::Atomic(lt) => match right.1 {
            Object::Empty => Ok(Object::Empty),
            Object::Atomic(rt) => {
                let ordered = type_order(lt, rt);
                match ordered {
                    Ok(v) => match op.to_comparison().is_it(v) {
                        Ok(value) => Ok(Object::Atomic(Type::Boolean(value))),
                        Err(e) => Err(e),
                    },
                    Err(e) => Err(e),
                }
            },
            _ => Err((ErrorCode::TODO, todo_text())),
        },
        _ => Err((ErrorCode::TODO, todo_text())),
    }
}

fn todo_text() -> (r: String)
    ensures
        r@ == "TODO"@,
{
    String::from_str("TODO")
}

/// The name of a QName value.
pub fn object_to_qname_if_qname(obj: &Object) -> (r: Option<crate::qname::QName>)
    ensures
        match obj@ {
            ObjectV::QName { prefix, url, local_part } => r matches Some(n) && crate::xqts::model::opt_view(n.prefix)
                == Some(prefix) && crate::xqts::model::opt_view(n.url) == Some(url) && n.local_part@ == local_part,
            _ => r is None,
        },
{
    match obj {
        Object::QName { url, prefix, local_part } => Some(
            crate::qname::QName { url: Some(url.clone()), prefix: Some(prefix.clone()), local_part: local_part.clone() },
        ),
        _ => None,
    }
}

/// What comparing two items answers as a value: a boolean for a general
/// comparison, the value comparison's result for a value comparison.
pub open spec fn spec_comparison_of_items(op: OperatorComparison, l: ObjectV, r: ObjectV) -> Result<ObjectV, ErrorCode> {
    if spec_to_type(op) == ComparisonType::General {
        match spec_general_comparison(op, l, r) {
            Ok(b) => Ok(ObjectV::Atomic(TypeV::Boolean(b))),
            Err(c) => Err(c),
        }
    } else {
        spec_value_comparison(op, l, r)
    }
}

/// Compares two items by a general or a value comparison operator (see
/// `spec_comparison_of_items`); node comparisons are not made here.
pub fn comparison_of_items(
    op: &OperatorComparison,
    left: ObjectRefInEnv,
    right: ObjectRefInEnv,
) -> (r: Result<Object, ErrorInfo>)
    requires
        spec_to_type(*op) != ComparisonType::Node,
        spec_to_type(*op) == ComparisonType::General ==> general_defined(
            *op,
            left.1@,
            right.1@,
        ),
        spec_to_type(*op) == ComparisonType::Value ==> value_comparison_defined(*op, left.1@, right.1@),
    ensures
        object_result_of(r) == spec_comparison_of_items(
            *op,
            left.1@,
            right.1@,
        ),
{
    match to_type(op) {
        ComparisonType::General => {
            match general_comparison(op, left, right) {
                Ok(value) => Ok(Object::Atomic(Type::Boolean(value))),
                Err(e) => Err(e),
            }
        },
        _ => value_comparison(op, left, right),
    }
}

/// The general comparison of an atomic value with a sequence is true
/// exactly when some item compares true, where no item errs; where some
/// item errs and every item before it compares false, that error is the
/// answer.
#[verifier::spinoff_prover]
#[verifier::rlimit(50)]
pub proof fn law_general_comparison_some_item(
    op: OperatorComparison,
    lt: TypeV,
    items: Seq<ObjectV>,
)
    ensures
        (forall|i: int| 0 <= i < items.len() ==> #[trigger] item_outcome(op, lt, items[i]) is Ok) ==> spec_general_comparison(
            op,
            ObjectV::Atomic(lt),
            ObjectV::Sequence(items),
        ) == Ok::<bool, ErrorCode>(exists|i: int| 0 <= i < items.len() && #[trigger] item_outcome(op, lt, items[i]) == Ok::<bool, ErrorCode>(true)),
        forall|k: int| 0 <= k < items.len() && #[trigger] item_outcome(op, lt, items[k]) is Err && (forall|j: int| 0 <= j < k ==> #[trigger] item_outcome(op, lt, items[j]) == Ok::<bool, ErrorCode>(false))
            ==> spec_general_comparison(op, ObjectV::Atomic(lt), ObjectV::Sequence(items)) == item_outcome(op, lt, items[k]),
    decreases items.len(),
{
    if items.len() > 0 {
        let rest = items.subrange(1, items.len() as int);
        law_general_comparison_some_item(op, lt, rest);
        assert(spec_general_comparison(op, ObjectV::Atomic(lt), ObjectV::Sequence(items)) == any_item(op, lt, items));
        assert(spec_general_comparison(op, ObjectV::Atomic(lt), ObjectV::Sequence(rest)) == any_item(op, lt, rest));
        assert forall|i: int| 0 <= i < rest.len() implies #[trigger] rest[i] == items[i + 1] by {}
        if forall|i: int| 0 <= i < items.len() ==> #[trigger] item_outcome(op, lt, items[i]) is Ok {
            assert forall|i: int| 0 <= i < rest.len() implies #[trigger] item_outcome(op, lt, rest[i]) is Ok by {
                assert(item_outcome(op, lt, items[i + 1]) is Ok);
            }
            if item_outcome(op, lt, items[0]) == Ok::<bool, ErrorCode>(false) {
                if exists|i: int| 0 <= i < items.len() && #[trigger] item_outcome(op, lt, items[i]) == Ok::<bool, ErrorCode>(true) {
                    let i0 = choose|i: int| 0 <= i < items.len() && #[trigger] item_outcome(op, lt, items[i]) == Ok::<bool, ErrorCode>(true);
                    assert(item_outcome(op, lt, rest[i0 - 1]) == Ok::<bool, ErrorCode>(true));
                }
                if exists|i: int| 0 <= i < rest.len() && #[trigger] item_outcome(op, lt, rest[i]) == Ok::<bool, ErrorCode>(true) {
                    let i0 = choose|i: int| 0 <= i < rest.len() && #[trigger] item_outcome(op, lt, rest[i]) == Ok::<bool, ErrorCode>(true);
                    assert(item_outcome(op, lt, items[i0 + 1]) == Ok::<bool, ErrorCode>(true));
                }
            } else {
                assert(item_outcome(op, lt, items[0]) == Ok::<bool, ErrorCode>(true));
            }
        }
        assert forall|k: int| 0 <= k < items.len() && #[trigger] item_outcome(op, lt, items[k]) is Err && (forall|j: int| 0 <= j < k ==> #[trigger] item_outcome(op, lt, items[j]) == Ok::<bool, ErrorCode>(false))
            implies spec_general_comparison(op, ObjectV::Atomic(lt), ObjectV::Sequence(items)) == item_outcome(op, lt, items[k]) by {
            if k > 0 {
                assert(item_outcome(op, lt, items[0]) == Ok::<bool, ErrorCode>(false));
                assert(item_outcome(op, lt, rest[k - 1]) is Err);
                assert forall|j: int| 0 <= j < k - 1 implies #[trigger] item_outcome(op, lt, rest[j]) == Ok::<bool, ErrorCode>(false) by {
                    assert(item_outcome(op, lt, items[j + 1]) == Ok::<bool, ErrorCode>(false));
                }
            }
        }
    }
}

/// The general comparison of an atomic value with a sequence of atomic
/// values and nodes, where no item errs, is true exactly when the value
/// compares true with some item of the sequence; where an item errs and
/// every item before it compares false, that error is the answer.
pub proof fn law_general_comparison_exists_item(op: OperatorComparison, lt: TypeV, items: Seq<ObjectV>)
    requires
        forall|i: int| 0 <= i < items.len() ==> (#[trigger] items[i] is Atomic || items[i] is Node),
    ensures
        (forall|i: int| 0 <= i < items.len() ==> #[trigger] spec_general_comparison(op, ObjectV::Atomic(lt), items[i]) is Ok)
            ==> spec_general_comparison(op, ObjectV::Atomic(lt), ObjectV::Sequence(items)) == Ok::<bool, ErrorCode>(
            exists|i: int|
                0 <= i < items.len() && #[trigger] spec_general_comparison(op, ObjectV::Atomic(lt), items[i]) == Ok::<
                    bool,
                    ErrorCode,
                >(true),
        ),
        forall|k: int|
            0 <= k < items.len() && #[trigger] spec_general_comparison(op, ObjectV::Atomic(lt), items[k]) is Err && (
            forall|j: int|
                0 <= j < k ==> #[trigger] spec_general_comparison(op, ObjectV::Atomic(lt), items[j]) == Ok::<
                    bool,
                    ErrorCode,
                >(false)) ==> spec_general_comparison(op, ObjectV::Atomic(lt), ObjectV::Sequence(items))
                == spec_general_comparison(op, ObjectV::Atomic(lt), items[k]),
{
    assert forall|i: int| 0 <= i < items.len() implies #[trigger] item_outcome(op, lt, items[i])
        == spec_general_comparison(op, ObjectV::Atomic(lt), items[i]) by {
        assert(items[i] is Atomic || items[i] is Node);
    }
    law_general_comparison_some_item(op, lt, items);
    if forall|i: int| 0 <= i < items.len() ==> #[trigger] spec_general_comparison(op, ObjectV::Atomic(lt), items[i]) is Ok {
        assert forall|i: int| 0 <= i < items.len() implies #[trigger] item_outcome(op, lt, items[i]) is Ok by {
            assert(spec_general_comparison(op, ObjectV::Atomic(lt), items[i]) is Ok);
        }
        if exists|i: int| 0 <= i < items.len() && #[trigger] item_outcome(op, lt, items[i]) == Ok::<bool, ErrorCode>(true) {
            let w = choose|i: int| 0 <= i < items.len() && #[trigger] item_outcome(op, lt, items[i]) == Ok::<bool, ErrorCode>(true);
            assert(spec_general_comparison(op, ObjectV::Atomic(lt), items[w]) == Ok::<bool, ErrorCode>(true));
        }
        if exists|i: int| 0 <= i < items.len() && #[trigger] spec_general_comparison(op, ObjectV::Atomic(lt), items[i]) == Ok::<bool, ErrorCode>(true) {
            let w = choose|i: int| 0 <= i < items.len() && #[trigger] spec_general_comparison(op, ObjectV::Atomic(lt), items[i]) == Ok::<bool, ErrorCode>(true);
            assert(item_outcome(op, lt, items[w]) == Ok::<bool, ErrorCode>(true));
        }
    }
    assert forall|k: int|
        0 <= k < items.len() && #[trigger] spec_general_comparison(op, ObjectV::Atomic(lt), items[k]) is Err && (forall|j: int|
            0 <= j < k ==> #[trigger] spec_general_comparison(op, ObjectV::Atomic(lt), items[j]) == Ok::<bool, ErrorCode>(false))
        implies spec_general_comparison(op, ObjectV::Atomic(lt), ObjectV::Sequence(items)) == spec_general_comparison(
        op,
        ObjectV::Atomic(lt),
        items[k],
    ) by {
        assert(item_outcome(op, lt, items[k]) is Err);
        assert forall|j: int| 0 <= j < k implies #[trigger] item_outcome(op, lt, items[j]) == Ok::<bool, ErrorCode>(false) by {
            assert(spec_general_comparison(op, ObjectV::Atomic(lt), items[j]) == Ok::<bool, ErrorCode>(false));
        }
    }
}

/// The verdict of a comparison is fixed by the ordering of its operands:
/// `>=` is the negation of `<`, `<=` of `>`, and `!=` of `=`; operands
/// ordered as equal satisfy `=`, `<=` and `>=`, and neither `<` nor `>`.
pub proof fn law_comparison_verdicts(v: ValueOrdering)
    ensures
        spec_is_it(Comparison::GreaterOrEquals, v) == !spec_is_it(Comparison::LessThan, v),
        spec_is_it(Comparison::LessOrEquals, v) == !spec_is_it(Comparison::GreaterThan, v),
        spec_is_it(Comparison::NotEquals, v) == !spec_is_it(Comparison::Equals, v),
        spec_is_it(Comparison::Equals, ValueOrdering::Equal),
        spec_is_it(Comparison::LessOrEquals, ValueOrdering::Equal),
        spec_is_it(Comparison::GreaterOrEquals, ValueOrdering::Equal),
        !spec_is_it(Comparison::LessThan, ValueOrdering::Equal),
        !spec_is_it(Comparison::GreaterThan, ValueOrdering::Equal),
{
}

/// Two atomic values that order as equal compare true under `eq`, `le`
/// and `ge`, and, unless one is untyped (and so read as another kind
/// first), under `=`, `<=` and `>=`: in particular every such value
/// compares `>=` to itself.
pub proof fn law_equal_values_compare_true(x: TypeV, y: TypeV)
    requires
        spec_type_order(x, y) == Ok::<ValueOrdering, ErrorCode>(ValueOrdering::Equal),
    ensures
        spec_value_comparison(OperatorComparison::ValueEquals, ObjectV::Atomic(x), ObjectV::Atomic(y))
            == Ok::<ObjectV, ErrorCode>(ObjectV::Atomic(TypeV::Boolean(true))),
        spec_value_comparison(OperatorComparison::ValueLessOrEquals, ObjectV::Atomic(x), ObjectV::Atomic(y))
            == Ok::<ObjectV, ErrorCode>(ObjectV::Atomic(TypeV::Boolean(true))),
        spec_value_comparison(OperatorComparison::ValueGreaterOrEquals, ObjectV::Atomic(x), ObjectV::Atomic(y))
            == Ok::<ObjectV, ErrorCode>(ObjectV::Atomic(TypeV::Boolean(true))),
        !(x is Untyped) && !(y is Untyped) ==> spec_general_comparison(
            OperatorComparison::GeneralEquals,
            ObjectV::Atomic(x),
            ObjectV::Atomic(y),
        ) == Ok::<bool, ErrorCode>(true),
        !(x is Untyped) && !(y is Untyped) ==> spec_general_comparison(
            OperatorComparison::GeneralLessOrEquals,
            ObjectV::Atomic(x),
            ObjectV::Atomic(y),
        ) == Ok::<bool, ErrorCode>(true),
        !(x is Untyped) && !(y is Untyped) ==> spec_general_comparison(
            OperatorComparison::GeneralGreaterOrEquals,
            ObjectV::Atomic(x),
            ObjectV::Atomic(y),
        ) == Ok::<bool, ErrorCode>(true),
{
    law_comparison_verdicts(ValueOrdering::Equal);
}

/// Ranges that are deep-equal list the same integers: ranges of different
/// lengths, or from different ends, are never deep-equal.
pub proof fn law_deep_equal_ranges_list_same_integers(a: i128, b: i128, c: i128, d: i128)
    requires
        spec_deep_eq(ObjectV::Range { min: a, max: b }, ObjectV::Range { min: c, max: d }) == Ok::<bool, ErrorCode>(
            true,
        ),
    ensures
        crate::eval::range_items(a, b) == crate::eval::range_items(c, d),
        crate::eval::range_items(a, b).len() == crate::eval::range_items(c, d).len(),
{
}

} // verus!
