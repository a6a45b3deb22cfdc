use vstd::prelude::*;
use crate::eval::environment::{Environment, EvalResult};
use crate::eval::{range_items, DynamicContext};
use crate::value::{Object, Type};

verus! {

/// How many items one member of a sequence stands for: a range counts the
/// integers from one bound to the other, anything else counts one.
pub open spec fn item_count(o: Object) -> int {
    match o {
        Object::Range { min, max } => if min <= max {
            max - min + 1
        } else {
            min - max + 1
        },
        _ => 1,
    }
}

/// The number of items the members of a sequence stand for.
pub open spec fn items_count(items: Seq<Object>) -> int
    decreases items.len(),
{
    if items.len() == 0 {
        0
    } else {
        items_count(items.drop_last()) + item_count(items.last())
    }
}

/// Whether `fn:count` takes this argument: one value that is the empty
/// sequence, an atomic value, a range, a sequence or a node.
pub open spec fn count_arguments(arguments: Seq<Object>) -> bool {
    &&& arguments.len() == 1
    &&& match arguments[0] {
        Object::Empty | Object::Atomic(_) | Object::Range { .. } | Object::Sequence(_) | Object::Node(_) => true,
        _ => false,
    }
}

/// The number of items in a value.
pub open spec fn spec_count(o: Object) -> int {
    match o {
        Object::Empty => 0,
        Object::Range { .. } => item_count(o),
        Object::Sequence(items) => items_count(items@),
        _ => 1,
    }
}

proof fn lemma_items_count_prefix(items: Seq<Object>, j: int)
    requires
        0 <= j <= items.len(),
    ensures
        j <= items_count(items.subrange(0, j)) <= items_count(items),
    decreases items.len(),
{
    if j == items.len() {
        assert(items.subrange(0, j) =~= items);
        if items.len() > 0 {
            lemma_items_count_prefix(items.drop_last(), j - 1);
            assert(items.drop_last().subrange(0, j - 1) =~= items.drop_last());
        }
    } else {
        lemma_items_count_prefix(items.drop_last(), j);
        assert(items.drop_last().subrange(0, j) =~= items.subrange(0, j));
    }
}

/// `fn:count`: the number of items in the argument, ranges counted by
/// their integers.
pub fn fn_count(env: Box<Environment>, arguments: Vec<Object>, _context: &DynamicContext) -> (r: EvalResult)
    requires
        count_arguments(arguments@),
        spec_count(arguments@[0]) <= i128::MAX,
    ensures
        r matches Ok((e, Object::Atomic(Type::Integer(n)))) && e == env && n == spec_count(arguments@[0]),
{
    match &arguments[0] {
        Object::Range { min, max } => {
            let count = if *min <= *max {
                *max - *min + 1
            } else {
                *min - *max + 1
            };
            Ok((env, Object::Atomic(Type::Integer(count))))
        },
        Object::Sequence(items) => {
            let mut count: i128 = 0;
            let mut i: usize = 0;
            proof {
                assert(items@.subrange(0, 0) =~= Seq::<Object>::empty());
            }
            while i < items.len()
                invariant
                    i <= items.len(),
                    items_count(items@) <= i128::MAX,
                    count == items_count(items@.subrange(0, i as int)),
                decreases items.len() - i,
            {
                proof {
                    lemma_items_count_prefix(items@, i as int);
                    lemma_items_count_prefix(items@, i + 1);
                    assert(items@.subrange(0, i + 1).drop_last() =~= items@.subrange(0, i as int));
                }
                match &items[i] {
                    Object::Range { min, max } => {
                        if *min <= *max {
                            count = count + ((*max - *min) + 1);
                        } else {
                            count = count + ((*min - *max) + 1);
                        }
                    },
                    _ => {
                        count = count + 1;
                    },
                }
                i = i + 1;
            }
            proof {
                assert(items@.subrange(0, items@.len() as int) =~= items@);
            }
            Ok((env, Object::Atomic(Type::Integer(count))))
        },
        Object::Empty => Ok((env, Object::Atomic(Type::Integer(0)))),
        _ => Ok((env, Object::Atomic(Type::Integer(1)))),
    }
}

/// `fn:count` of a range is the number of integers its listing holds.
pub proof fn law_count_of_range(min: i128, max: i128)
    ensures
        spec_count(Object::Range { min, max }) == range_items(min, max).len(),
{
}

} // verus!
