use vstd::prelude::*;
use crate::eval::environment::{Environment, EvalResult};
use crate::eval::DynamicContext;
use crate::value::{Object, Type};

verus! {

/// A count of units brought into the range `1..=max`: the value left and how
/// many times `max` was taken off it.
pub open spec fn spec_norm(value: u32, max: u32) -> (u32, u32) {
    if value <= max {
        (value, 0)
    } else {
        ((((value - 1) as int) % (max as int) + 1) as u32, (((value - 1) as int) / (max as int)) as u32)
    }
}

/// Takes `max` off `value` until it is at most `max`; returns what is left
/// and how many times it was taken off.
pub fn norm(value: u32, max: u32) -> (r: (u32, u32))
    requires
        max > 0 || value == 0,
    ensures
        r == spec_norm(value, max),
{
    let mut v = value;
    let mut count: u32 = 0;
    while v > max
        invariant
            max > 0 || value == 0,
            v as int + count as int * max as int == value as int,
            v > 0 || value == 0,
            v <= value,
            value <= max ==> count == 0,
            count <= value,
        decreases v,
    {
        proof {
            assert(count as int <= count as int * max as int) by (nonlinear_arith)
                requires
                    max as int >= 1,
                    count as int >= 0,
            ;
            assert(count as int * max as int + max as int <= value as int);
            assert((count as int + 1) * max as int == count as int * max as int + max as int) by (nonlinear_arith);
        }
        v = v - max;
        count = count + 1;
        proof {
            assert(count as int <= value as int) by (nonlinear_arith)
                requires
                    count as int * max as int <= value as int,
                    max as int >= 1,
            ;
        }
    }
    proof {
        if value > max {
            let q = count as int;
            let rr = v as int - 1;
            assert(value as int - 1 == q * (max as int) + rr);
            assert(0 <= rr < max as int);
            vstd::arithmetic::div_mod::lemma_fundamental_div_mod_converse(value as int - 1, max as int, q, rr);
        }
    }
    (v, count)
}


/// `norm` leaves a positive value in `1..=max` and counts how many times
/// `max` went: what is left plus the count times `max` is the value.
pub proof fn law_norm(value: u32, max: u32)
    requires
        max > 0,
        value > 0,
    ensures
        1 <= spec_norm(value, max).0 <= max,
        spec_norm(value, max).0 as int + spec_norm(value, max).1 as int * max as int == value as int,
{
    if value > max {
        let x = (value - 1) as int;
        let m = max as int;
        vstd::arithmetic::div_mod::lemma_fundamental_div_mod(x, m);
        vstd::arithmetic::div_mod::lemma_mod_bound(x, m);
        vstd::arithmetic::div_mod::lemma_div_pos_is_pos(x, m);
        vstd::arithmetic::div_mod::lemma_div_is_ordered_by_denominator(x, 1, m);
        assert(x / m <= x);
        assert(m * (x / m) == (x / m) * m) by (nonlinear_arith);
    }
}

/// Whether a component can be read from the arguments: one argument, the
/// empty sequence or a date.
pub open spec fn date_argument(arguments: Seq<Object>) -> bool {
    arguments.len() == 1 && (arguments[0] is Empty || arguments[0] matches Object::Atomic(Type::Date { .. }))
}

/// `fn:year-from-date`: the year of a date; the empty sequence for none.
pub fn fn_year_from_date(env: Box<Environment>, arguments: Vec<Object>, _context: &DynamicContext) -> (r: EvalResult)
    requires
        date_argument(arguments@),
    ensures
        r matches Ok((e, o)) && e == env && match arguments@[0] {
            Object::Atomic(Type::Date { y, .. }) => o == Object::Atomic(Type::Integer(y as i128)),
            _ => o is Empty,
        },
{
    match &arguments[0] {
        Object::Atomic(Type::Date { y, .. }) => Ok((env, Object::Atomic(Type::Integer(*y as i128)))),
        _ => Ok((env, Object::Empty)),
    }
}

/// `fn:month-from-date`: the month of a date; the empty sequence for none.
pub fn fn_month_from_date(env: Box<Environment>, arguments: Vec<Object>, _context: &DynamicContext) -> (r: EvalResult)
    requires
        date_argument(arguments@),
    ensures
        r matches Ok((e, o)) && e == env && match arguments@[0] {
            Object::Atomic(Type::Date { m, .. }) => o == Object::Atomic(Type::Integer(m as i128)),
            _ => o is Empty,
        },
{
    match &arguments[0] {
        Object::Atomic(Type::Date { m, .. }) => Ok((env, Object::Atomic(Type::Integer(*m as i128)))),
        _ => Ok((env, Object::Empty)),
    }
}

/// `fn:day-from-date`: the day of a date; the empty sequence for none.
pub fn fn_day_from_date(env: Box<Environment>, arguments: Vec<Object>, _context: &DynamicContext) -> (r: EvalResult)
    requires
        date_argument(arguments@),
    ensures
        r matches Ok((e, o)) && e == env && match arguments@[0] {
            Object::Atomic(Type::Date { d, .. }) => o == Object::Atomic(Type::Integer(d as i128)),
            _ => o is Empty,
        },
{
    match &arguments[0] {
        Object::Atomic(Type::Date { d, .. }) => Ok((env, Object::Atomic(Type::Integer(*d as i128)))),
        _ => Ok((env, Object::Empty)),
    }
}

} // verus!
