use vstd::prelude::*;
use crate::eval::environment::{Environment, EvalResult};
use crate::eval::DynamicContext;
use crate::value::{duplicate_objects, lemma_objects_view_push, objects_view, Object, ObjectV, Type};

verus! {

/// `array:size`: the number of members of the array.
pub fn array_size(env: Box<Environment>, arguments: Vec<Object>, _context: &DynamicContext) -> (r: EvalResult)
    requires
        arguments@.len() == 1,
        arguments@[0] is Array,
    ensures
        r matches Ok((e, Object::Atomic(Type::Integer(n)))) && e == env && n == arguments@[0]->Array_0@.len(),
{
    match &arguments[0] {
        Object::Array(array) => {
            let size = array.len();
            Ok((env, Object::Atomic(Type::Integer(size as i128))))
        },
        _ => Ok((env, Object::Empty)),
    }
}

/// `array:append`: the array with the second argument added as its last
/// member.
pub fn array_append(env: Box<Environment>, arguments: Vec<Object>, _context: &DynamicContext) -> (r: EvalResult)
    requires
        arguments@.len() == 2,
        arguments@[0] is Array,
    ensures
        r matches Ok((e, o)) && e == env && o@ == ObjectV::Array(
            objects_view(arguments@[0]->Array_0@).push(arguments@[1]@),
        ),
{
    match &arguments[0] {
        Object::Array(array) => {
            let mut result = duplicate_objects(array);
            let item = arguments[1].duplicate();
            let ghost before = result@;
            result.push(item);
            proof {
                lemma_objects_view_push(before, item);
            }
            Ok((env, Object::Array(result)))
        },
        _ => Ok((env, Object::Empty)),
    }
}

} // verus!
