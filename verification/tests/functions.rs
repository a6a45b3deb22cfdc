use xquery::eval::environment::Environment;
use xquery::eval::DynamicContext;
use xquery::fns::datetime::{fn_day_from_date, fn_month_from_date, fn_year_from_date, norm};
use xquery::fns::decimal::xs_decimal_eval;
use xquery::fns::duration::fn_days_from_duration;
use xquery::fns::url::xs_anyuri_eval;
use xquery::fns::{Occurrence, Param};
use xquery::qname::QName;
use xquery::value::{Object, Type};

#[test]
fn norm_brings_values_into_range() {
    assert_eq!(norm(5, 2), (1, 2));
    assert_eq!(norm(4, 2), (2, 1));
    assert_eq!(norm(2, 2), (2, 0));
    assert_eq!(norm(25, 12), (1, 2));
    assert_eq!(norm(24, 12), (12, 1));
    assert_eq!(norm(0, 0), (0, 0));
}

#[test]
fn days_from_durations() {
    let d = Object::Atomic(Type::Duration {
        positive: false, years: 1, months: 2, days: 3, hours: 4, minutes: 5, seconds: 6, microseconds: 7,
    });
    let (_, r) = fn_days_from_duration(Environment::create(), vec![d], &Object::Nothing);
    assert!(matches!(r, Object::Atomic(Type::Integer(-3))));
    let d = Object::Atomic(Type::DayTimeDuration { positive: true, days: 10, hours: 0, minutes: 0, seconds: 0, microseconds: 0 });
    let (_, r) = fn_days_from_duration(Environment::create(), vec![d], &Object::Nothing);
    assert!(matches!(r, Object::Atomic(Type::Integer(10))));
    let d = Object::Atomic(Type::YearMonthDuration { positive: true, years: 1, months: 1 });
    let (_, r) = fn_days_from_duration(Environment::create(), vec![d], &Object::Nothing);
    assert!(matches!(r, Object::Atomic(Type::Integer(0))));
    let (_, r) = fn_days_from_duration(Environment::create(), vec![Object::Empty], &Object::Nothing);
    assert!(matches!(r, Object::Empty));
}

#[test]
fn any_uri_and_decimal_constructors() {
    let (_, r) = xs_anyuri_eval(Environment::create(), vec![Object::Atomic(Type::String("http://x".to_string()))]);
    assert!(matches!(r, Object::Atomic(Type::AnyURI(ref s)) if s == "http://x"));
    let (_, r) = xs_anyuri_eval(Environment::create(), vec![Object::Atomic(Type::Integer(1))]);
    assert!(matches!(r, Object::Empty));
    let (_, r) = xs_decimal_eval(Environment::create(), vec![Object::Atomic(Type::String("-15".to_string()))]);
    assert!(matches!(r, Object::Atomic(Type::Integer(-15))));
    let (_, r) = xs_decimal_eval(Environment::create(), vec![Object::Atomic(Type::Integer(4))]);
    assert!(matches!(r, Object::Atomic(Type::Integer(4))));
    let (_, r) = xs_decimal_eval(Environment::create(), vec![]);
    assert!(matches!(r, Object::Empty));
}

#[test]
fn parameters_and_occurrences() {
    let p = Param { name: QName { prefix: None, url: None, local_part: "x".to_string() }, sequence_type: None };
    assert_eq!(p.name.local_part, "x");
    assert_eq!(Occurrence::Arity(2), Occurrence::Arity(2));
    assert_ne!(Occurrence::ZeroOrOne, Occurrence::OneOrMore);
}

#[test]
fn date_components() {
    let date = || Object::Atomic(Type::Date { y: 2021, m: 3, d: 14, tz_h: 0, tz_m: 0 });
    let ctx = DynamicContext::nothing();
    let component = |r: xquery::eval::environment::EvalResult| match r {
        Ok((_, Object::Atomic(Type::Integer(n)))) => Some(n),
        Ok((_, Object::Empty)) => None,
        _ => panic!("unexpected result"),
    };
    assert_eq!(component(fn_year_from_date(Environment::create(), vec![date()], &ctx)), Some(2021));
    assert_eq!(component(fn_month_from_date(Environment::create(), vec![date()], &ctx)), Some(3));
    assert_eq!(component(fn_day_from_date(Environment::create(), vec![date()], &ctx)), Some(14));
    assert_eq!(component(fn_year_from_date(Environment::create(), vec![Object::Empty], &ctx)), None);
}
