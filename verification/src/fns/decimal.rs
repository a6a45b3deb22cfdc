use vstd::prelude::*;
use crate::eval::environment::Environment;
use crate::eval::{parse_i128, spec_parse_i128};
use crate::value::{Object, Type};

verus! {

/// Whether `xs:decimal` can read its arguments: a string it reads must
/// hold an integer.
pub open spec fn decimal_argument(arguments: Seq<Object>) -> bool {
    arguments.len() == 1 ==> match arguments[0] {
        Object::Atomic(Type::String(s)) => spec_parse_i128(s@) is Some,
        _ => true,
    }
}

/// `xs:decimal` of one argument: a string is read as an integer, an integer
/// stays; anything else gives the empty sequence.
pub fn xs_decimal_eval(env: Box<Environment>, arguments: Vec<Object>) -> (r: (Box<Environment>, Object))
    requires
        decimal_argument(arguments@),
    ensures
        r.0 == env,
        r.1 == if arguments@.len() == 1 {
            match arguments@[0] {
                Object::Atomic(Type::String(s)) => Object::Atomic(Type::Integer(spec_parse_i128(s@)->0)),
                Object::Atomic(Type::Integer(i)) => Object::Atomic(Type::Integer(i)),
                _ => Object::Empty,
            }
        } else {
            Object::Empty
        },
{
    if arguments.len() == 1 {
        match &arguments[0] {
            Object::Atomic(Type::String(string)) => {
                let n = match parse_i128(string.as_str()) {
                    Some(n) => n,
                    None => 0,
                };
                (env, Object::Atomic(Type::Integer(n)))
            },
            Object::Atomic(Type::Integer(integer)) => (env, Object::Atomic(Type::Integer(*integer))),
            _ => (env, Object::Empty),
        }
    } else {
        (env, Object::Empty)
    }
}

} // verus!
