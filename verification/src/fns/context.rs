use vstd::prelude::*;
use crate::eval::environment::{Environment, EvalResult};
use crate::eval::DynamicContext;
use crate::value::{Object, Type};

verus! {

/// `fn:static-base-uri`: the static base URI of the scope, if declared.
pub fn fn_static_base_uri(env: Box<Environment>, arguments: Vec<Object>, context: &DynamicContext) -> (r: EvalResult)
    ensures
        r matches Ok((e, o)) && e == env && match env.static_base_uri {
            Some(u) => o == Object::Atomic(Type::AnyURI(u)),
            None => o is Empty,
        },
{
    let result = if let Some(uri) = &env.static_base_uri {
        Object::Atomic(Type::AnyURI(uri.clone()))
    } else {
        Object::Empty
    };
    Ok((env, result))
}

} // verus!
