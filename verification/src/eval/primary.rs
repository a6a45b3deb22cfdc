use vstd::prelude::*;
use crate::errors::ErrorCode;
use crate::eval::environment::{Environment, EvalResult};
use crate::eval::helpers::{relax, relax_sequences, relaxed};
use crate::eval::{
    range_items, object_owned_to_sequence, object_to_integer, owned_listable, spec_object_to_integer, spec_owned_to_sequence,
    DynamicContext,
};
use crate::value::{lemma_objects_view, object_view, Object, ObjectV, Type, TypeV};

verus! {

/// A boolean literal.
pub struct Boolean {
    pub bool: bool,
}

impl Boolean {
    /// The boolean as a value; the scope is unchanged.
    pub fn eval(&self, env: Box<Environment>, context: &DynamicContext) -> (r: EvalResult)
        ensures
            r matches Ok((e, Object::Atomic(Type::Boolean(b)))) && e == env && b == self.bool,
    {
        Ok((env, Object::Atomic(Type::Boolean(self.bool))))
    }
}

/// Whether a numeric predicate can select from a value: a position that is
/// not positive selects nothing; else the value is empty, an item, a range
/// whose length and selected integer are in range, an array or a sequence.
pub open spec fn integer_predicate_defined(pos: i128, value: ObjectV) -> bool {
    pos <= 0 || match value {
        ObjectV::Empty | ObjectV::Atomic(_) | ObjectV::Node(_) | ObjectV::Array(_) | ObjectV::Sequence(_) => true,
        ObjectV::Range { min, max } => {
            &&& i128::MIN <= max - min
            &&& max - min + 1 <= i128::MAX
            &&& (pos > max - min + 1 || min + pos <= i128::MAX)
        },
        _ => false,
    }
}

/// The item at the 1-based position `pos` of a value: nothing for a
/// position that is not positive; an item is its own first item; the
/// integers of a range count from its first bound up; the members of an
/// array or a sequence are indexed by the position less one, taken as a
/// `usize`.
pub open spec fn spec_integer_predicate(pos: i128, value: ObjectV) -> ObjectV {
    if pos <= 0 {
        ObjectV::Empty
    } else {
        match value {
            ObjectV::Atomic(_) | ObjectV::Node(_) => if pos == 1 {
                value
            } else {
                ObjectV::Empty
            },
            ObjectV::Range { min, max } => if pos > max - min + 1 {
                ObjectV::Empty
            } else {
                ObjectV::Atomic(TypeV::Integer((min + pos - 1) as i128))
            },
            ObjectV::Array(items) | ObjectV::Sequence(items) => {
                let i = ((pos - 1) as i128) as usize;
                if i < items.len() {
                    items[i as int]
                } else {
                    ObjectV::Empty
                }
            },
            _ => ObjectV::Empty,
        }
    }
}

/// An integer literal.
pub struct Integer {
    pub number: i128,
}

impl Integer {
    /// The integer as a value; the scope is unchanged.
    pub fn eval(&self, env: Box<Environment>, context: &DynamicContext) -> (r: EvalResult)
        ensures
            r matches Ok((e, Object::Atomic(Type::Integer(n)))) && e == env && n == self.number,
    {
        Ok((env, Object::Atomic(Type::Integer(self.number))))
    }

    /// The integer used as a predicate: the item of `value` at that position
    /// (see `spec_integer_predicate`).
    pub fn predicate(&self, env: Box<Environment>, context: &DynamicContext, value: Object) -> (r: EvalResult)
        requires
            integer_predicate_defined(self.number, value@),
        ensures
            r matches Ok((e, o)) && e == env && o@ == spec_integer_predicate(self.number, value@),
    {
        let pos = self.number;
        if pos <= 0 {
            Ok((env, Object::Empty))
        } else {
            match value {
                Object::Empty => Ok((env, Object::Empty)),
                Object::Atomic(..) | Object::Node(..) => {
                    if pos == 1 {
                        Ok((env, value))
                    } else {
                        Ok((env, Object::Empty))
                    }
                },
                Object::Range { min, max } => {
                    let len = max - min + 1;
                    if pos > len {
                        Ok((env, Object::Empty))
                    } else {
                        let num = min + pos - 1;
                        Ok((env, Object::Atomic(Type::Integer(num))))
                    }
                },
                Object::Array(items) | Object::Sequence(items) => {
                    let i = (pos - 1) as usize;
                    proof {
                        lemma_objects_view(items@);
                    }
                    if i < items.len() {
                        Ok((env, items[i].duplicate()))
                    } else {
                        Ok((env, Object::Empty))
                    }
                },
                _ => Ok((env, Object::Empty)),
            }
        }
    }
}

/// A string literal.
pub struct StringExpr {
    pub string: String,
}

impl StringExpr {
    /// The string as a value; the scope is unchanged.
    pub fn eval(&self, env: Box<Environment>, context: &DynamicContext) -> (r: EvalResult)
        ensures
            r matches Ok((e, o)) && e == env && (o matches Object::Atomic(Type::String(s)) && s@ == self.string@),
    {
        Ok((env, Object::Atomic(Type::String(self.string.clone()))))
    }
}

/// The context item `.`.
pub struct ContextItem {}

impl ContextItem {
    /// The item of the dynamic context; the scope is unchanged.
    pub fn eval(&self, env: Box<Environment>, context: &DynamicContext) -> (r: EvalResult)
        ensures
            r matches Ok((e, o)) && e == env && o@ == context.item@,
    {
        Ok((env, context.item.duplicate()))
    }
}

/// The empty sequence `()`.
pub struct SequenceEmpty {}

impl SequenceEmpty {
    /// The empty sequence; the scope is unchanged.
    pub fn eval(&self, env: Box<Environment>, context: &DynamicContext) -> (r: EvalResult)
        ensures
            r matches Ok((e, Object::Empty)) && e == env,
    {
        Ok((env, Object::Empty))
    }
}

/// What a range expression `from to till` gives for its evaluated bounds:
/// the empty sequence if either bound is, an error if either is not an
/// integer, else the integers from the first bound up to the second (none
/// where the first is greater, one integer where they are equal).
pub open spec fn spec_range_of_bounds(from: ObjectV, till: ObjectV) -> Result<ObjectV, ErrorCode> {
    if from is Empty || till is Empty {
        Ok(ObjectV::Empty)
    } else {
        match spec_object_to_integer(from) {
            Err(c) => Err(c),
            Ok(min) => match spec_object_to_integer(till) {
                Err(c) => Err(c),
                Ok(max) => Ok(
                    if min > max {
                        ObjectV::Empty
                    } else if min == max {
                        ObjectV::Atomic(TypeV::Integer(min))
                    } else {
                        ObjectV::Range { min, max }
                    },
                ),
            },
        }
    }
}

/// The value of a range expression from its evaluated bounds (see
/// `spec_range_of_bounds`).
pub fn range_of_bounds(env: Box<Environment>, from: Object, till: Object) -> (r: EvalResult)
    ensures
        match spec_range_of_bounds(from@, till@) {
            Ok(v) => r matches Ok((e, o)) && e == env && o@ == v,
            Err(c) => r matches Err((code, _)) && code == c,
        },
{
    if let Object::Empty = from {
        return Ok((env, Object::Empty));
    }
    if let Object::Empty = till {
        return Ok((env, Object::Empty));
    }
    let min = match object_to_integer(&env, from) {
        Ok(num) => num,
        Err(e) => return Err(e),
    };
    let max = match object_to_integer(&env, till) {
        Ok(num) => num,
        Err(e) => return Err(e),
    };
    if min > max {
        Ok((env, Object::Empty))
    } else if min == max {
        Ok((env, Object::Atomic(Type::Integer(min))))
    } else {
        Ok((env, Object::Range { min, max }))
    }
}

/// What a parenthesized expression gives for its evaluated content: its
/// items with nested sequences spliced in and empty ones left out, as one
/// value (none, the one item, or a sequence).
pub fn sequence_of_value(env: Box<Environment>, value: Object) -> (r: EvalResult)
    requires
        owned_listable(value),
    ensures
        r matches Ok((e, o)) && e == env && ({
            let s = relaxed(spec_owned_to_sequence(value));
            &&& s.len() == 0 ==> o is Empty
            &&& s.len() == 1 ==> o == s[0]
            &&& s.len() > 1 ==> (o matches Object::Sequence(v) && v@ == s)
        }),
{
    let items = object_owned_to_sequence(value);
    let mut result: Vec<Object> = Vec::new();
    relax_sequences(&mut result, items);
    proof {
        assert(result@ =~= relaxed(spec_owned_to_sequence(value)));
    }
    relax(env, result)
}

/// Whether an evaluated value can be the content of a curly array
/// constructor.
pub open spec fn array_content(o: Object) -> bool {
    match o {
        Object::Empty | Object::Array(_) | Object::Sequence(_) | Object::Range { .. } | Object::Node(_)
        | Object::Atomic(_) => true,
        _ => false,
    }
}

/// What a curly array constructor gives for its evaluated content: an
/// array of its items, a range, node or atomic value being one member.
pub fn curly_array_of(env: Box<Environment>, evaluated: Object) -> (r: EvalResult)
    requires
        array_content(evaluated),
    ensures
        r matches Ok((e, Object::Array(values))) && e == env && values@ == spec_owned_to_sequence(evaluated),
{
    let values = match evaluated {
        Object::Empty => Vec::new(),
        Object::Array(items) | Object::Sequence(items) => items,
        _ => {
            let mut items: Vec<Object> = Vec::new();
            items.push(evaluated);
            items
        },
    };
    Ok((env, Object::Array(values)))
}

/// A positional predicate on an ascending range selects the integer at
/// that position of the range's listing.
pub proof fn law_integer_predicate_on_range(pos: i128, min: i128, max: i128)
    requires
        min <= max,
        1 <= pos <= max - min + 1,
    ensures
        spec_integer_predicate(pos, ObjectV::Range { min, max }) == object_view(range_items(min, max)[pos - 1]),
{
}

/// A positional predicate on a sequence selects its member at that
/// position, for every position within it (a sequence holds at most
/// `usize::MAX` members).
pub proof fn law_integer_predicate_on_sequence(pos: i128, items: Seq<ObjectV>)
    requires
        items.len() <= usize::MAX,
        1 <= pos <= items.len(),
    ensures
        spec_integer_predicate(pos, ObjectV::Sequence(items)) == items[pos - 1],
{
}

} // verus!
