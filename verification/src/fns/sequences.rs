use vstd::prelude::*;
use crate::errors::ErrorCode;
use crate::eval::environment::{Environment, EvalResult};
use crate::eval::helpers::relax;
use crate::eval::DynamicContext;
use crate::value::{
    duplicate_objects, lemma_objects_view, lemma_objects_view_push, node_string, node_typed_value, objects_view,
    Object, ObjectV, Type, TypeV,
};

verus! {

/// Whether the typed data of a value is defined: atomic values, nodes, and
/// arrays and sequences of such, at any depth.
pub open spec fn data_defined(o: ObjectV) -> bool
    decreases o,
{
    match o {
        ObjectV::Atomic(_) => true,
        ObjectV::Node(_) => true,
        ObjectV::Array(items) => items_data_defined(items),
        ObjectV::Sequence(items) => items_data_defined(items),
        _ => false,
    }
}

pub open spec fn items_data_defined(items: Seq<ObjectV>) -> bool
    decreases items,
{
    items.len() == 0 || (items_data_defined(items.subrange(0, items.len() - 1)) && data_defined(
        items[items.len() - 1],
    ))
}

/// The typed data of a value: an atomic value itself, a node's typed value
/// as an untyped value, the data of the items of an array or a sequence.
pub open spec fn spec_data(o: ObjectV) -> Seq<ObjectV>
    decreases o,
{
    match o {
        ObjectV::Atomic(_) => seq![o],
        ObjectV::Node(n) => seq![ObjectV::Atomic(TypeV::Untyped(node_string(n)))],
        ObjectV::Array(items) => items_data(items),
        ObjectV::Sequence(items) => items_data(items),
        _ => Seq::empty(),
    }
}

pub open spec fn items_data(items: Seq<ObjectV>) -> Seq<ObjectV>
    decreases items,
{
    if items.len() == 0 {
        Seq::empty()
    } else {
        items_data(items.subrange(0, items.len() - 1)) + spec_data(items[items.len() - 1])
    }
}

/// Appends the typed data of `obj` to `result` (see `spec_data`).
pub fn data(env: Box<Environment>, obj: Object, result: &mut Vec<Object>) -> (r: Result<Box<Environment>, String>)
    requires
        data_defined(obj@),
    ensures
        r matches Ok(e) && e == env,
        objects_view(final(result)@) == objects_view(old(result)@) + spec_data(obj@),
    decreases obj@, 1int,
{
    match obj {
        Object::Atomic(..) => {
            let ghost before = result@;
            result.push(obj);
            proof {
                lemma_objects_view_push(before, obj);
            }
            Ok(env)
        },
        Object::Node(rf) => {
            let ghost before = result@;
            let item = Object::Atomic(Type::Untyped(node_typed_value(&rf)));
            result.push(item);
            proof {
                lemma_objects_view_push(before, item);
            }
            Ok(env)
        },
        Object::Array(items) | Object::Sequence(items) => data_of_vec(env, items, result),
        _ => Ok(env),
    }
}

/// Appends the typed data of each item in turn to `result`.
pub fn data_of_vec(env: Box<Environment>, items: Vec<Object>, result: &mut Vec<Object>) -> (r: Result<Box<Environment>, String>)
    requires
        items_data_defined(objects_view(items@)),
    ensures
        r matches Ok(e) && e == env,
        objects_view(final(result)@) == objects_view(old(result)@) + items_data(objects_view(items@)),
    decreases objects_view(items@), 2int,
{
    let ghost v = objects_view(items@);
    let ghost whole = items@;
    proof {
        lemma_objects_view(items@);
        assert(v.subrange(0, 0) =~= Seq::<ObjectV>::empty());
        assert(objects_view(result@) =~= objects_view(old(result)@) + items_data(v.subrange(0, 0)));
    }
    let n: usize = items.len();
    let mut rest = items;
    let mut current_env = env;
    let mut i: usize = 0;
    while i < n
        invariant
            n == v.len(),
            whole.len() == n,
            v == objects_view(whole),
            v == objects_view(items@),
            forall|j: int| 0 <= j < n ==> #[trigger] v[j] == whole[j]@,
            items_data_defined(v),
            i <= n,
            rest@ == whole.subrange(i as int, n as int),
            current_env == env,
            objects_view(result@) == objects_view(old(result)@) + items_data(v.subrange(0, i as int)),
        decreases n - i,
    {
        let item = rest.remove(0);
        let ghost pre = v.subrange(0, i + 1);
        proof {
            assert(item == whole[i as int]);
            assert(pre.subrange(0, pre.len() - 1) =~= v.subrange(0, i as int));
            lemma_items_data_defined(v, i as int);
            assert(decreases_to!(v => v[i as int]));
        }
        match data(current_env, item, result) {
            Ok(e) => {
                current_env = e;
            },
            Err(msg) => {
                return Err(msg);
            },
        }
        proof {
            assert(objects_view(result@) =~= objects_view(old(result)@) + items_data(pre));
            assert(rest@ =~= whole.subrange(i + 1, n as int));
        }
        i = i + 1;
    }
    proof {
        assert(v.subrange(0, n as int) =~= v);
    }
    Ok(current_env)
}

proof fn lemma_items_data_defined(items: Seq<ObjectV>, i: int)
    requires
        items_data_defined(items),
        0 <= i < items.len(),
    ensures
        data_defined(items[i]),
    decreases items.len(),
{
    if i < items.len() - 1 {
        let p = items.subrange(0, items.len() - 1);
        lemma_items_data_defined(p, i);
        assert(p[i] == items[i]);
    }
}

/// A list of values as one value: none is the empty sequence, one is
/// itself, more are a sequence.
pub open spec fn relaxed_view(s: Seq<ObjectV>) -> ObjectV {
    if s.len() == 0 {
        ObjectV::Empty
    } else if s.len() == 1 {
        s[0]
    } else {
        ObjectV::Sequence(s)
    }
}

/// `fn:data`: the typed data of the argument, or of the context item when
/// there is none.
pub fn fn_data(env: Box<Environment>, arguments: Vec<Object>, context: &DynamicContext) -> (r: EvalResult)
    requires
        data_defined(if arguments@.len() == 0 { context.item@ } else { arguments@[0]@ }),
    ensures
        r matches Ok((e, o)) && e == env && o@ == relaxed_view(
            spec_data(if arguments@.len() == 0 { context.item@ } else { arguments@[0]@ }),
        ),
{
    let item = if arguments.len() == 0 {
        &context.item
    } else {
        &arguments[0]
    };
    let mut result: Vec<Object> = Vec::new();
    proof {
        assert(objects_view(result@) =~= Seq::<ObjectV>::empty());
    }
    match data(env, item.duplicate(), &mut result) {
        Ok(env) => {
            proof {
                lemma_objects_view(result@);
            }
            relax(env, result)
        },
        Err(msg) => Err((ErrorCode::TODO, msg)),
    }
}

/// What `fn:empty` answers: whether its one argument is the empty
/// sequence, or a range from an integer to itself.
pub open spec fn spec_fn_empty(arguments: Seq<Object>) -> bool {
    arguments.len() == 1 && match arguments[0] {
        Object::Empty => true,
        Object::Range { min, max } => min == max,
        _ => false,
    }
}

/// `fn:empty` (see `spec_fn_empty`).
pub fn fn_empty(env: Box<Environment>, arguments: Vec<Object>, _context: &DynamicContext) -> (r: EvalResult)
    ensures
        r matches Ok((e, Object::Atomic(Type::Boolean(b)))) && e == env && b == spec_fn_empty(arguments@),
{
    let result = if arguments.len() == 1 {
        match &arguments[0] {
            Object::Empty => true,
            Object::Range { min, max } => *min == *max,
            _ => false,
        }
    } else {
        false
    };
    Ok((env, Object::Atomic(Type::Boolean(result))))
}

/// What `fn:exists` answers: false for the empty sequence alone, else true.
pub open spec fn spec_fn_exists(arguments: Seq<Object>) -> bool {
    !(arguments.len() == 1 && arguments[0] is Empty)
}

/// `fn:exists` (see `spec_fn_exists`).
pub fn fn_exists(env: Box<Environment>, arguments: Vec<Object>, _context: &DynamicContext) -> (r: EvalResult)
    ensures
        r matches Ok((e, Object::Atomic(Type::Boolean(b)))) && e == env && b == spec_fn_exists(arguments@),
{
    let result = if arguments.len() == 1 {
        match &arguments[0] {
            Object::Empty => false,
            _ => true,
        }
    } else {
        true
    };
    Ok((env, Object::Atomic(Type::Boolean(result))))
}

/// Whether `fn:remove` can take its arguments: the empty sequence first, or
/// a sequence and an integer position.
pub open spec fn remove_arguments(arguments: Seq<Object>) -> bool {
    &&& arguments.len() >= 1
    &&& match arguments[0] {
        Object::Empty => true,
        Object::Sequence(_) => arguments.len() == 2 && (arguments[1] matches Object::Atomic(Type::Integer(pos))
            && pos > i128::MIN),
        _ => false,
    }
}

/// `fn:remove`: the sequence without the item at the (1-based) position,
/// or unchanged where the position is outside it; the result is a sequence
/// whatever its length.
pub fn fn_remove(env: Box<Environment>, arguments: Vec<Object>, _context: &DynamicContext) -> (r: EvalResult)
    requires
        remove_arguments(arguments@),
    ensures
        r matches Ok((e, o)) && e == env && o@ == match arguments@[0] {
            Object::Sequence(items) => {
                let pos = arguments@[1]->Atomic_0->Integer_0 - 1;
                ObjectV::Sequence(
                    if 0 <= pos < items@.len() {
                        objects_view(items@).remove(pos)
                    } else {
                        objects_view(items@)
                    },
                )
            },
            _ => ObjectV::Empty,
        },
{
    match &arguments[0] {
        Object::Sequence(items) => {
            let pos = match &arguments[1] {
                Object::Atomic(Type::Integer(p)) => *p,
                _ => 1,
            };
            let position = pos - 1;
            let mut result = duplicate_objects(items);
            proof {
                lemma_objects_view(items@);
                lemma_objects_view(result@);
            }
            if position >= 0 && position < items.len() as i128 {
                let ghost before = result@;
                result.remove(position as usize);
                proof {
                    lemma_objects_view(result@);
                    assert(objects_view(result@) =~= objects_view(items@).remove(position as int));
                }
            }
            Ok((env, Object::Sequence(result)))
        },
        _ => Ok((env, Object::Empty)),
    }
}

/// `fn:reverse` of the empty sequence or of a range: the range with its
/// bounds exchanged.
pub fn fn_reverse(env: Box<Environment>, arguments: Vec<Object>, _context: &DynamicContext) -> (r: EvalResult)
    requires
        arguments@.len() == 1,
        arguments@[0] is Empty || arguments@[0] is Range,
    ensures
        r matches Ok((e, o)) && e == env && o == match arguments@[0] {
            Object::Range { min, max } => Object::Range { min: max, max: min },
            _ => Object::Empty,
        },
{
    match &arguments[0] {
        Object::Range { min, max } => Ok((env, Object::Range { min: *max, max: *min })),
        _ => Ok((env, Object::Empty)),
    }
}

fn message(text: &str) -> (r: String)
    ensures
        r@ == text@,
{
    text.to_owned()
}

/// `fn:position`: the context position; `XPDY0002` where it is unknown.
pub fn fn_position(env: Box<Environment>, arguments: Vec<Object>, context: &DynamicContext) -> (r: EvalResult)
    ensures
        match context.position {
            Some(p) => r matches Ok((e, Object::Atomic(Type::Integer(n)))) && e == env && n == p,
            None => r matches Err((code, _)) && code == ErrorCode::XPDY0002,
        },
{
    if let Some(position) = context.position {
        Ok((env, Object::Atomic(Type::Integer(position as i128))))
    } else {
        Err((ErrorCode::XPDY0002, message("context position unknown")))
    }
}

/// `fn:last`: the context size; `XPDY0002` where it is unknown.
pub fn fn_last(env: Box<Environment>, arguments: Vec<Object>, context: &DynamicContext) -> (r: EvalResult)
    ensures
        match context.last {
            Some(l) => r matches Ok((e, Object::Atomic(Type::Integer(n)))) && e == env && n == l,
            None => r matches Err((code, _)) && code == ErrorCode::XPDY0002,
        },
{
    if let Some(last) = context.last {
        Ok((env, Object::Atomic(Type::Integer(last as i128))))
    } else {
        Err((ErrorCode::XPDY0002, message("context size unknown")))
    }
}

/// `fn:zero-or-one`: the argument if it holds at most one item (a range is
/// refused); else `FORG0003`.
pub fn fn_zero_or_one(env: Box<Environment>, arguments: Vec<Object>, _context: &DynamicContext) -> (r: EvalResult)
    requires
        arguments@.len() >= 1,
    ensures
        match arguments@[0] {
            Object::Empty => r matches Ok((e, Object::Empty)) && e == env,
            Object::Atomic(_) | Object::Node(_) => r matches Ok((e, o)) && e == env && o == arguments@[0],
            Object::Sequence(items) => if items@.len() > 1 {
                r matches Err((code, _)) && code == ErrorCode::FORG0003
            } else {
                r matches Ok((e, o)) && e == env && o == arguments@[0]
            },
            _ => r matches Err((code, _)) && code == ErrorCode::FORG0003,
        },
{
    let mut arguments = arguments;
    let arg = arguments.remove(0);
    match arg {
        Object::Empty => Ok((env, Object::Empty)),
        Object::Range { .. } => Err((ErrorCode::FORG0003, message("TODO"))),
        Object::Atomic(..) | Object::Node(..) => Ok((env, arg)),
        Object::Sequence(items) => {
            if items.len() > 1 {
                Err((ErrorCode::FORG0003, message("TODO")))
            } else {
                Ok((env, Object::Sequence(items)))
            }
        },
        _ => Err((ErrorCode::FORG0003, message("TODO"))),
    }
}

/// `fn:one-or-more`: the argument if it holds an item (a range does);
/// else `FORG0004`.
pub fn fn_one_or_more(env: Box<Environment>, arguments: Vec<Object>, _context: &DynamicContext) -> (r: EvalResult)
    requires
        arguments@.len() >= 1,
    ensures
        match arguments@[0] {
            Object::Range { .. } | Object::Atomic(_) | Object::Node(_) => r matches Ok((e, o)) && e == env && o
                == arguments@[0],
            Object::Sequence(items) => if items@.len() == 0 {
                r matches Err((code, _)) && code == ErrorCode::FORG0004
            } else {
                r matches Ok((e, o)) && e == env && o == arguments@[0]
            },
            _ => r matches Err((code, _)) && code == ErrorCode::FORG0004,
        },
{
    let mut arguments = arguments;
    let arg = arguments.remove(0);
    match arg {
        Object::Empty => Err((ErrorCode::FORG0004, message("TODO"))),
        Object::Range { .. } | Object::Atomic(..) | Object::Node(..) => Ok((env, arg)),
        Object::Sequence(items) => {
            if items.len() == 0 {
                Err((ErrorCode::FORG0004, message("TODO")))
            } else {
                Ok((env, Object::Sequence(items)))
            }
        },
        _ => Err((ErrorCode::FORG0004, message("TODO"))),
    }
}

/// `fn:exactly-one`: the argument if it is one item, a range, or a
/// sequence of one item; else `FORG0005`.
pub fn fn_exactly_one(env: Box<Environment>, arguments: Vec<Object>, _context: &DynamicContext) -> (r: EvalResult)
    requires
        arguments@.len() >= 1,
    ensures
        match arguments@[0] {
            Object::Range { .. } | Object::Atomic(_) | Object::Node(_) => r matches Ok((e, o)) && e == env && o
                == arguments@[0],
            Object::Sequence(items) => if items@.len() != 1 {
                r matches Err((code, _)) && code == ErrorCode::FORG0005
            } else {
                r matches Ok((e, o)) && e == env && o == arguments@[0]
            },
            _ => r matches Err((code, _)) && code == ErrorCode::FORG0005,
        },
{
    let mut arguments = arguments;
    let arg = arguments.remove(0);
    match arg {
        Object::Empty => Err((ErrorCode::FORG0005, message("TODO"))),
        Object::Range { .. } | Object::Atomic(..) | Object::Node(..) => Ok((env, arg)),
        Object::Sequence(items) => {
            if items.len() != 1 {
                Err((ErrorCode::FORG0005, message("TODO")))
            } else {
                Ok((env, Object::Sequence(items)))
            }
        },
        _ => Err((ErrorCode::FORG0005, message("TODO"))),
    }
}

/// For one argument that is not a range from an integer to itself,
/// `fn:exists` answers the negation of `fn:empty`.
pub proof fn law_exists_is_not_empty(argument: Object)
    requires
        !(argument matches Object::Range { min, max } && min == max),
    ensures
        spec_fn_exists(seq![argument]) == !spec_fn_empty(seq![argument]),
{
}

} // verus!
