use vstd::prelude::*;
use crate::eval::environment::{Environment, EvalResult};
use crate::eval::DynamicContext;
use crate::value::{Object, Type};

verus! {

/// `fn:true`.
pub fn fn_true(env: Box<Environment>, _arguments: Vec<Object>, _context: &DynamicContext) -> (r: EvalResult)
    ensures
        r matches Ok((e, Object::Atomic(Type::Boolean(true)))) && e == env,
{
    Ok((env, Object::Atomic(Type::Boolean(true))))
}

/// `fn:false`.
pub fn fn_false(env: Box<Environment>, _arguments: Vec<Object>, _context: &DynamicContext) -> (r: EvalResult)
    ensures
        r matches Ok((e, Object::Atomic(Type::Boolean(false)))) && e == env,
{
    Ok((env, Object::Atomic(Type::Boolean(false))))
}

} // verus!
