use vstd::prelude::*;
use crate::eval::environment::Environment;
use crate::value::{Object, Type};

verus! {

/// `xs:anyURI` of one string: the same text as a URI; anything else gives
/// the empty sequence.
pub fn xs_anyuri_eval(env: Box<Environment>, arguments: Vec<Object>) -> (r: (Box<Environment>, Object))
    ensures
        r.0 == env,
        r.1 == if arguments@.len() == 1 {
            match arguments@[0] {
                Object::Atomic(Type::String(s)) => Object::Atomic(Type::AnyURI(s)),
                _ => Object::Empty,
            }
        } else {
            Object::Empty
        },
{
    if arguments.len() == 1 {
        match &arguments[0] {
            Object::Atomic(Type::String(string)) => (env, Object::Atomic(Type::AnyURI(string.clone()))),
            _ => (env, Object::Empty),
        }
    } else {
        (env, Object::Empty)
    }
}

} // verus!
