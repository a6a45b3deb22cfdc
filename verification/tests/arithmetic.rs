use xquery::errors::ErrorCode;
use xquery::eval::arithmetic::{object_to_items, truncated_rem, VInteger};
use xquery::value::{Object, Type};

fn v(n: i128) -> VInteger {
    VInteger { number: n }
}

#[test]
fn checked_integer_arithmetic() {
    assert_eq!(v(2).add(&v(3)).unwrap().number, 5);
    assert_eq!(v(2).sub(&v(3)).unwrap().number, -1);
    assert_eq!(v(2).rev_sub(&v(3)).unwrap().number, 1);
    assert_eq!(v(-4).mul(&v(3)).unwrap().number, -12);
    assert_eq!(v(i128::MAX).add(&v(1)).unwrap_err(), ErrorCode::FOAR0002);
    assert_eq!(v(i128::MIN).sub(&v(1)).unwrap_err(), ErrorCode::FOAR0002);
    assert_eq!(v(i128::MAX).mul(&v(2)).unwrap_err(), ErrorCode::FOAR0002);
    assert_eq!(v(5).rev_add(&v(6)).unwrap().number, 11);
    assert_eq!(v(5).rev_mul(&v(6)).unwrap().number, 30);
}

#[test]
fn remainders_take_the_sign_of_the_dividend() {
    assert_eq!(v(7).remainder(&v(2)).unwrap().number, 1);
    assert_eq!(v(-7).remainder(&v(2)).unwrap().number, -1);
    assert_eq!(v(7).remainder(&v(-2)).unwrap().number, 1);
    assert_eq!(v(-7).remainder(&v(-2)).unwrap().number, -1);
    assert_eq!(v(7).remainder(&v(0)).unwrap_err(), ErrorCode::FOAR0001);
    assert_eq!(v(2).rev_remainder(&v(7)).unwrap().number, 1);
    assert_eq!(v(2).rev_remainder(&v(0)).unwrap_err(), ErrorCode::FOAR0001);
    assert_eq!(truncated_rem(5, i128::MIN), 5);
    assert_eq!(truncated_rem(i128::MIN, i128::MIN), 0);
    assert_eq!(truncated_rem(-9, 4), -1);
}

#[test]
fn integer_operand_basics() {
    assert_eq!(v(3).negative().unwrap().number, -3);
    assert!(v(0).is_zero());
    assert_eq!(v(8).level(), 1);
    assert_eq!(v(8).to_integer(), 8);
    assert!(matches!(v(8).to_atomic(), Object::Atomic(Type::Integer(8))));
}

#[test]
fn an_operand_is_one_item() {
    let items = object_to_items(&Object::Range { min: 1, max: 3 });
    assert_eq!(items.len(), 1);
    assert!(matches!(items[0], Object::Range { min: 1, max: 3 }));
    let items = object_to_items(&Object::Atomic(Type::Integer(4)));
    assert!(matches!(items[0], Object::Atomic(Type::Integer(4))));
}

#[test]
fn integer_division_through_decimals() {
    assert_eq!(v(6).idiv(&v(3)).unwrap().number, 2);
    assert_eq!(v(-6).idiv(&v(3)).unwrap().number, -2);
    assert_eq!(v(10).idiv(&v(3)).unwrap().number, 3);
    // the decimal quotient is rounded half away from zero
    assert_eq!(v(7).idiv(&v(2)).unwrap().number, 4);
    assert_eq!(v(-7).idiv(&v(2)).unwrap().number, -4);
    assert_eq!(v(5).idiv(&v(-3)).unwrap().number, -2);
    assert_eq!(v(0).idiv(&v(5)).unwrap().number, 0);
    assert_eq!(v(1).idiv(&v(2)).unwrap().number, 1);
    assert_eq!(v(-1).idiv(&v(2)).unwrap().number, -1);
    assert_eq!(v(1).idiv(&v(3)).unwrap().number, 0);
    assert_eq!(v(-2).idiv(&v(-3)).unwrap().number, 1);
    assert_eq!(v(1).idiv(&v(30)).unwrap().number, 0);
    assert_eq!(v(i64::MAX as i128).idiv(&v(2)).unwrap().number, 1i128 << 62);
    assert_eq!(v(i64::MIN as i128).idiv(&v(1)).unwrap().number, i64::MIN as i128);
    assert_eq!(v(7).idiv(&v(0)).unwrap_err(), ErrorCode::FOAR0001);
    assert_eq!(v(1i128 << 70).idiv(&v(2)).unwrap_err(), ErrorCode::FOAR0002);
    assert_eq!(v(4).idiv(&v(1i128 << 70)).unwrap_err(), ErrorCode::FOAR0002);
    assert_eq!(v(2).rev_idiv(&v(7)).unwrap().number, 4);
    assert_eq!(v(3).rev_idiv(&v(9)).unwrap().number, 3);
    assert_eq!(v(3).rev_idiv(&v(0)).unwrap_err(), ErrorCode::FOAR0001);
}
