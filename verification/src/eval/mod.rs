use vstd::prelude::*;
use crate::errors::{ErrorCode, ErrorInfo};
use crate::eval::environment::Environment;
use crate::value::{duplicate_objects, node_string, node_typed_value, objects_view, Object, ObjectV, Type, TypeV};

pub mod prolog;
pub mod environment;
pub mod sequence_type;
pub mod helpers;
pub mod primary;
pub mod castable;
pub mod atomic;
pub mod comparison;
pub mod arithmetic;

verus! {

/// Where a path starts: at the root, or below it.
#[derive(PartialEq, Eq, Structural, Clone, Copy, Debug)]
pub enum INS {
    Root,
    RootDescendantOrSelf,
    DescendantOrSelf,
}

/// The dynamic context of evaluation: the context item, its position and
/// the size of its sequence.
pub struct DynamicContext {
    pub initial_node_sequence: Option<INS>,
    pub item: Object,
    pub position: Option<usize>,
    pub last: Option<usize>,
}

impl DynamicContext {
    /// The context with no item.
    pub fn nothing() -> (r: DynamicContext)
        ensures
            r.initial_node_sequence is None,
            r.item is Nothing,
            r.position is None,
            r.last is None,
    {
        DynamicContext { initial_node_sequence: None, item: Object::Nothing, position: None, last: None }
    }
}

/// The axes of path steps.
#[derive(PartialEq, Eq, Structural, Clone, Copy, Debug)]
pub enum Axis {
    ForwardSelf,
    ForwardAttribute,
    ForwardChild,
    ForwardDescendant,
    ForwardDescendantOrSelf,
    ForwardFollowing,
    ForwardFollowingSibling,
    ReverseParent,
    ReverseAncestor,
    ReverseAncestorOrSelf,
    ReversePreceding,
    ReversePrecedingSibling,
}


/// The integers from `min` to `max`, upwards or downwards, one at a time.
pub struct RangeIterator {
    pub till: i128,
    pub next: i128,
    pub step: i128,
}

impl RangeIterator {
    /// The iterator from `min` to `max`, and a size hint, which is always 0.
    pub fn create(min: i128, max: i128) -> (r: (RangeIterator, usize))
        requires
            min > max ==> min - max <= i128::MAX,
            min <= max ==> max - min <= i128::MAX,
        ensures
            r.0.next == min,
            r.0.till == max,
            r.0.step == if min > max { -1int } else { 1int },
            r.1 == 0,
    {
        if min > max {
            let d: i128 = min - max;
            let m: i128 = if d < 0 { d } else { 0 };
            (RangeIterator::new(min, -1, max), m as usize)
        } else {
            let d: i128 = max - min;
            let m: i128 = if d < 0 { d } else { 0 };
            (RangeIterator::new(min, 1, max), m as usize)
        }
    }

    pub fn new(next: i128, step: i128, till: i128) -> (r: RangeIterator)
        ensures
            r.next == next,
            r.step == step,
            r.till == till,
    {
        RangeIterator { till, next, step }
    }

    /// The current integer while it has not passed the end, as a value; the
    /// iterator moves one step on either way.
    pub fn next(&mut self) -> (r: Option<Object>)
        requires
            i128::MIN <= old(self).next + old(self).step <= i128::MAX,
        ensures
            final(self).next == old(self).next + old(self).step,
            final(self).step == old(self).step,
            final(self).till == old(self).till,
            r == if (old(self).step > 0 && old(self).next <= old(self).till) || (old(self).step < 0
                && old(self).next >= old(self).till) {
                Some(Object::Atomic(Type::Integer(old(self).next)))
            } else {
                None::<Object>
            },
    {
        let curr = self.next;
        self.next = self.next + self.step;
        if (self.step > 0 && curr <= self.till) || (self.step < 0 && curr >= self.till) {
            Some(Object::Atomic(Type::Integer(curr)))
        } else {
            None
        }
    }
}

/// The integers from `min` to `max` as values, upwards or downwards.
pub open spec fn range_items(min: i128, max: i128) -> Seq<Object> {
    if min <= max {
        Seq::new((max - min + 1) as nat, |i: int| Object::Atomic(Type::Integer((min + i) as i128)))
    } else {
        Seq::new((min - max + 1) as nat, |i: int| Object::Atomic(Type::Integer((min - i) as i128)))
    }
}

/// Whether the integers from `min` to `max` can be listed: the distance
/// fits in an `i128`, and so do the two steps past `max` that the iterator
/// takes before it stops.
pub open spec fn range_listable(min: i128, max: i128) -> bool {
    &&& (min > max ==> min - max <= i128::MAX && max > i128::MIN + 1)
    &&& (min <= max ==> max - min <= i128::MAX && max < i128::MAX - 1)
}

/// The integers from `min` to `max`, in order.
fn range_to_vec(min: i128, max: i128) -> (r: Vec<Object>)
    requires
        range_listable(min, max),
    ensures
        r@ == range_items(min, max),
{
    let (mut it, _count) = RangeIterator::create(min, max);
    let mut result: Vec<Object> = Vec::new();
    let ghost step: int = if min > max { -1 } else { 1 };
    let ghost total = range_items(min, max);
    loop
        invariant_except_break
            it.step == step,
            it.till == max,
            range_listable(min, max),
            total == range_items(min, max),
            step == 1 ==> min <= it.next <= max + 1 && result@ == total.subrange(0, it.next - min),
            step == -1 ==> max - 1 <= it.next <= min && result@ == total.subrange(0, min - it.next),
            step == 1 || step == -1,
            step == 1 <==> min <= max,
        ensures
            result@ == total,
        decreases (if step == 1 { max + 1 - it.next } else { it.next - (max - 1) }),
    {
        let ghost before = result@;
        match it.next() {
            Some(item) => {
                result.push(item);
                proof {
                    if step == 1 {
                        assert(result@ =~= total.subrange(0, it.next - min));
                    } else {
                        assert(result@ =~= total.subrange(0, min - it.next));
                    }
                }
            },
            None => {
                proof {
                    if step == 1 {
                        assert(total.subrange(0, total.len() as int) =~= total);
                    } else {
                        assert(total.subrange(0, total.len() as int) =~= total);
                    }
                }
                break;
            },
        }
    }
    result
}

/// Whether a value can be listed item by item: the empty sequence, a node,
/// an atomic value, an array, a sequence, or a range that can be listed.
pub open spec fn iterable(o: Object) -> bool {
    match o {
        Object::Empty | Object::Node(_) | Object::Atomic(_) | Object::Array(_) | Object::Sequence(_) => true,
        Object::Range { min, max } => range_listable(min, max),
        _ => false,
    }
}

/// The items of a value: none for the empty sequence, the value itself for
/// a node or an atomic value, the integers of a range, the items of an array
/// or a sequence.
pub open spec fn spec_range_to_sequence(o: Object) -> Seq<Object> {
    match o {
        Object::Empty => Seq::empty(),
        Object::Range { min, max } => range_items(min, max),
        Object::Array(items) => items@,
        Object::Sequence(items) => items@,
        _ => seq![o],
    }
}

/// The items of a value, copied (see `spec_range_to_sequence`).
pub fn object_to_iterator(object: &Object) -> (r: Vec<Object>)
    requires
        iterable(*object),
    ensures
        objects_view(r@) == objects_view(spec_range_to_sequence(*object)),
{
    match object {
        Object::Empty => Vec::new(),
        Object::Node(..) | Object::Atomic(..) => {
            let mut result = Vec::new();
            result.push(object.duplicate());
            proof {
                assert(result@.subrange(0, 0) =~= Seq::<Object>::empty());
                assert(seq![*object].subrange(0, 0) =~= Seq::<Object>::empty());
            }
            result
        },
        Object::Range { min, max } => range_to_vec(*min, *max),
        Object::Array(items) => duplicate_objects(items),
        Object::Sequence(items) => duplicate_objects(items),
        _ => Vec::new(),
    }
}

/// Whether a value can be taken apart into its items without listing a
/// range: the empty sequence, a range, a node, an atomic value, an array or
/// a sequence.
pub open spec fn owned_listable(o: Object) -> bool {
    match o {
        Object::Empty | Object::Range { .. } | Object::Node(_) | Object::Atomic(_) | Object::Array(_)
        | Object::Sequence(_) => true,
        _ => false,
    }
}

/// The items of a value with a range kept whole: none for the empty
/// sequence, the members of an array or a sequence, else the value itself.
pub open spec fn spec_owned_to_sequence(o: Object) -> Seq<Object> {
    match o {
        Object::Empty => Seq::empty(),
        Object::Array(items) => items@,
        Object::Sequence(items) => items@,
        _ => seq![o],
    }
}

/// The items of a value, a range kept as one item (see
/// `spec_owned_to_sequence`).
pub fn object_owned_to_sequence(object: Object) -> (r: Vec<Object>)
    requires
        owned_listable(object),
    ensures
        r@ == spec_owned_to_sequence(object),
{
    match object {
        Object::Empty => Vec::new(),
        Object::Range { .. } | Object::Node(..) | Object::Atomic(..) => {
            let mut result = Vec::new();
            result.push(object);
            proof {
                assert(result@ =~= seq![object]);
            }
            result
        },
        Object::Array(items) => items,
        Object::Sequence(items) => items,
        _ => Vec::new(),
    }
}

/// The items of a value, a range listed integer by integer (see
/// `spec_range_to_sequence`).
pub fn range_to_sequence(object: Object) -> (r: Vec<Object>)
    requires
        iterable(object),
    ensures
        r@ == spec_range_to_sequence(object),
{
    match object {
        Object::Empty => Vec::new(),
        Object::Node(..) | Object::Atomic(..) => {
            let mut result = Vec::new();
            result.push(object);
            proof {
                assert(result@ =~= seq![object]);
            }
            result
        },
        Object::Range { min, max } => range_to_vec(min, max),
        Object::Array(items) | Object::Sequence(items) => items,
        _ => Vec::new(),
    }
}

/// The value of a string of decimal digits.
pub open spec fn digits_value(d: Seq<char>) -> int
    decreases d.len(),
{
    if d.len() == 0 {
        0
    } else {
        digits_value(d.drop_last()) * 10 + (d.last() as int - '0' as int)
    }
}

/// The integer that `i128`'s `from_str` reads: an optional sign, then one
/// or more ASCII digits, within the range of `i128`.
pub open spec fn spec_parse_i128(s: Seq<char>) -> Option<i128> {
    let neg = s.len() > 0 && s[0] == '-';
    let digits = if s.len() > 0 && (s[0] == '-' || s[0] == '+') { s.drop_first() } else { s };
    if digits.len() == 0 || !(forall|i: int| 0 <= i < digits.len() ==> '0' <= #[trigger] digits[i] <= '9') {
        None
    } else {
        let v = if neg { -digits_value(digits) } else { digits_value(digits) };
        if i128::MIN <= v <= i128::MAX {
            Some(v as i128)
        } else {
            None
        }
    }
}

/// Reads an integer (`<i128 as FromStr>::from_str`): an optional sign and
/// decimal digits, `None` for anything else or a value out of range.
#[verifier::external_body]
pub(crate) fn parse_i128(s: &str) -> (r: Option<i128>)
    ensures
        r == spec_parse_i128(s@),
{
    s.parse::<i128>().ok()
}

/// The text of a value as the error messages show it (its `Debug` form).
#[verifier::external_body]
pub(crate) fn debug_text<T: std::fmt::Debug>(o: &T) -> String {
    format!("{:?}", o)
}

/// The message of a value that is not an integer.
fn not_an_integer<T: std::fmt::Debug>(o: &T) -> (r: String)
    ensures
        r@.len() >= "can't convert to int "@.len(),
        r@.subrange(0, "can't convert to int "@.len() as int) == "can't convert to int "@,
{
    let mut m = String::from_str("can't convert to int ");
    let ghost prefix = m@;
    m.append(debug_text(o).as_str());
    proof {
        assert(m@.subrange(0, prefix.len() as int) =~= prefix);
    }
    m
}

/// The integer a value stands for: an integer, or the text of an untyped
/// value or of a node read as an integer; anything else is `XPTY0004`.
pub open spec fn spec_object_to_integer(o: ObjectV) -> Result<i128, ErrorCode> {
    match o {
        ObjectV::Atomic(TypeV::Integer(n)) => Ok(n),
        ObjectV::Atomic(TypeV::Untyped(s)) => match spec_parse_i128(s) {
            Some(v) => Ok(v),
            None => Err(ErrorCode::XPTY0004),
        },
        ObjectV::Node(n) => match spec_parse_i128(node_string(n)) {
            Some(v) => Ok(v),
            None => Err(ErrorCode::XPTY0004),
        },
        _ => Err(ErrorCode::XPTY0004),
    }
}

/// The integer a value stands for (see `spec_object_to_integer`).
pub fn object_to_integer(env: &Box<Environment>, object: Object) -> (r: Result<i128, ErrorInfo>)
    ensures
        match r {
            Ok(v) => spec_object_to_integer(object@) == Ok::<i128, ErrorCode>(v),
            Err((code, _)) => spec_object_to_integer(object@) == Err::<i128, ErrorCode>(code),
        },
{
    match &object {
        Object::Atomic(Type::Integer(num)) => Ok(*num),
        Object::Atomic(Type::Untyped(num)) => match parse_i128(num.as_str()) {
            Some(v) => Ok(v),
            None => Err((ErrorCode::XPTY0004, not_an_integer(num))),
        },
        Object::Atomic(t) => Err((ErrorCode::XPTY0004, not_an_integer(t))),
        Object::Node(rf) => {
            let num = node_typed_value(rf);
            match parse_i128(num.as_str()) {
                Some(v) => Ok(v),
                None => Err((ErrorCode::XPTY0004, not_an_integer(&num))),
            }
        },
        _ => Err((ErrorCode::XPTY0004, not_an_integer(&object))),
    }
}


/// The integers of a range run from its first bound to its second, one
/// step at a time: there are `|max - min| + 1` of them, the first is `min`
/// and the last is `max`.
pub proof fn law_range_items(min: i128, max: i128)
    ensures
        range_items(min, max).len() == if min <= max { max - min + 1 } else { min - max + 1 },
        range_items(min, max)[0] == Object::Atomic(Type::Integer(min)),
        range_items(min, max)[range_items(min, max).len() - 1] == Object::Atomic(Type::Integer(max)),
{
}

/// An iterator made by `create(min, max)` holds `min + k * step` after `k`
/// calls of `next` (its step is 1 upwards, -1 downwards); the call that
/// starts there gives an integer exactly while `k` is less than the number
/// of integers of the range, and that integer is the `k`-th of the range.
pub proof fn law_range_iterator_yields(min: i128, max: i128, k: int)
    requires
        0 <= k,
    ensures
        ({
            let step: int = if min > max { -1 } else { 1 };
            let v = min + k * step;
            &&& ((step > 0 && v <= max) || (step < 0 && v >= max)) <==> k < range_items(min, max).len()
            &&& k < range_items(min, max).len() ==> range_items(min, max)[k] == Object::Atomic(
                Type::Integer(v as i128),
            )
        }),
{
}

} // verus!
