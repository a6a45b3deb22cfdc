use vstd::prelude::*;
use crate::eval::comparison::{deep_eq, deep_eq_defined, spec_deep_eq};
use crate::eval::environment::{Environment, EvalResult};
use crate::eval::DynamicContext;
use crate::value::{Object, Type};

verus! {

/// `fn:deep-equal` of its first two arguments (see `spec_deep_eq`).
pub fn fn_deep_equal(
    env: Box<Environment>,
    arguments: Vec<Object>,
    _context: &DynamicContext,
) -> (r: EvalResult)
    requires
        arguments@.len() >= 2,
        deep_eq_defined(arguments@[0]@, arguments@[1]@),
    ensures
        match spec_deep_eq(arguments@[0]@, arguments@[1]@) {
            Ok(b) => r matches Ok((e, Object::Atomic(Type::Boolean(v)))) && e == env && v == b,
            Err(c) => r matches Err((code, _)) && code == c,
        },
{
    let mut arguments = arguments;
    let o1 = arguments.remove(0);
    let o2 = arguments.remove(0);
    match deep_eq((&env, &o1), (&env, &o2)) {
        Ok(v) => Ok((env, Object::Atomic(Type::Boolean(v)))),
        Err(e) => Err(e),
    }
}

} // verus!
