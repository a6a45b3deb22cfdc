use vstd::prelude::*;
use crate::eval::environment::Environment;
use crate::value::{Object, Type};

verus! {

/// Whether the days of a duration can be read from the arguments: one
/// argument, the empty sequence or a duration.
pub open spec fn days_argument(arguments: Seq<Object>) -> bool {
    arguments.len() == 1 && match arguments[0] {
        Object::Empty => true,
        Object::Atomic(Type::Duration { .. }) => true,
        Object::Atomic(Type::YearMonthDuration { .. }) => true,
        Object::Atomic(Type::DayTimeDuration { .. }) => true,
        _ => false,
    }
}

/// The signed days of a duration argument: none for the empty sequence, 0
/// for a year-month duration.
pub open spec fn spec_days(argument: Object) -> Object {
    match argument {
        Object::Atomic(Type::Duration { positive, days, .. }) => Object::Atomic(
            Type::Integer(if positive { days as i128 } else { -days as i128 }),
        ),
        Object::Atomic(Type::YearMonthDuration { .. }) => Object::Atomic(Type::Integer(0)),
        Object::Atomic(Type::DayTimeDuration { positive, days, .. }) => Object::Atomic(
            Type::Integer(if positive { days as i128 } else { -days as i128 }),
        ),
        _ => Object::Empty,
    }
}

/// `fn:days-from-duration`: the days of a duration, signed.
pub fn fn_days_from_duration(env: Box<Environment>, arguments: Vec<Object>, context_item: &Object) -> (r: (
    Box<Environment>,
    Object,
))
    requires
        days_argument(arguments@),
    ensures
        r.0 == env,
        r.1 == spec_days(arguments@[0]),
{
    match &arguments[0] {
        Object::Empty => (env, Object::Empty),
        Object::Atomic(Type::Duration { positive, days, .. }) => {
            let d = *days as i128;
            (env, Object::Atomic(Type::Integer(if *positive { d } else { -d })))
        },
        Object::Atomic(Type::YearMonthDuration { .. }) => (env, Object::Atomic(Type::Integer(0))),
        Object::Atomic(Type::DayTimeDuration { positive, days, .. }) => {
            let d = *days as i128;
            (env, Object::Atomic(Type::Integer(if *positive { d } else { -d })))
        },
        _ => (env, Object::Empty),
    }
}

} // verus!
