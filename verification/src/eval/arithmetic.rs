use vstd::prelude::*;
use bigdecimal::{BigDecimal, FromPrimitive, ToPrimitive};
use crate::errors::ErrorCode;
use crate::value::{Object, Type};

verus! {

/// An integer operand of arithmetic.
#[derive(Clone, Copy, Debug)]
pub struct VInteger {
    pub number: i128,
}

/// The result of an arithmetic operation on integers.
pub open spec fn checked(v: int) -> Result<VInteger, ErrorCode> {
    if i128::MIN <= v <= i128::MAX {
        Ok(VInteger { number: v as i128 })
    } else {
        Err(ErrorCode::FOAR0002)
    }
}

/// The remainder of a division truncated toward zero, as Rust computes it.
pub open spec fn spec_rem(a: int, b: int) -> int {
    if a >= 0 {
        if b > 0 { a % b } else { a % (-b) }
    } else {
        if b > 0 { -((-a) % b) } else { -((-a) % (-b)) }
    }
}

/// The remainder of `a` divided by `b`, truncated toward zero (Rust's `%`).
pub fn truncated_rem(a: i128, b: i128) -> (r: i128)
    requires
        b != 0,
        !(a == i128::MIN && b == -1),
    ensures
        r == spec_rem(a as int, b as int),
{
    if b > 0 {
        let r = a % b;
        proof {
            if a < 0 {
                assert(r == -((-(a as int)) % (b as int)));
            }
        }
        r
    } else if b == i128::MIN {
        if a == i128::MIN {
            0
        } else {
            proof {
                if a >= 0 {
                    assert((a as int) % (-(b as int)) == a as int) by (nonlinear_arith)
                        requires
                            0 <= a < -(b as int),
                    ;
                } else {
                    assert((-(a as int)) % (-(b as int)) == -(a as int)) by (nonlinear_arith)
                        requires
                            0 <= -(a as int) < -(b as int),
                    ;
                }
            }
            a
        }
    } else {
        let c = -b;
        let r = a % c;
        proof {
            if a < 0 {
                assert(r == -((-(a as int)) % (c as int)));
            }
        }
        r
    }
}

/// The quotient of `a` by `b` rounded to the nearest integer, a half away
/// from zero: the quotient of the magnitudes, one more where twice the
/// remainder reaches the divisor, signed as the operands' signs give.
pub open spec fn rounded_quotient(a: int, b: int) -> int {
    let m = if a < 0 { -a } else { a };
    let n = if b < 0 { -b } else { b };
    let q = if 2 * (m % n) >= n { m / n + 1 } else { m / n };
    if (a < 0) != (b < 0) { -q } else { q }
}

/// Whether an integer converts to a `bigdecimal::BigDecimal` through
/// `FromPrimitive::from_i128`, whose default goes through `to_i64`.
pub open spec fn in_i64(n: i128) -> bool {
    i64::MIN <= n <= i64::MAX
}

/// Divides `a` by `b` as decimals: `BigDecimal::from_i128` of each (`None`
/// where either is outside the `i64` range), then `/`, `round(0)` and
/// `to_i128`. As the crate's source shows, the division of two integers
/// carries the exact digits of the quotient (at least the first after the
/// point, rounded only at the hundredth), `round(0)` moves away from zero
/// where that first digit is 5 or more, and `to_i128` goes through `to_i64`:
/// the result is `rounded_quotient`, found unless it is 2^63 (`a` is
/// `i64::MIN` and `b` is -1).
#[verifier::external_body]
fn decimal_rounded_quotient(a: i128, b: i128) -> (r: Option<Option<i128>>)
    requires
        b != 0,
    ensures
        r is Some <==> (in_i64(a) && in_i64(b)),
        r is Some ==> r.unwrap() == (if a == i64::MIN && b == -1 {
            None
        } else {
            Some(rounded_quotient(a as int, b as int) as i128)
        }),
{
    let x = BigDecimal::from_i128(a)?;
    let y = BigDecimal::from_i128(b)?;
    Some((x / y).round(0).to_i128())
}

impl VInteger {
    /// The sum; `FOAR0002` where it overflows.
    pub fn add(&self, rhs: &VInteger) -> (r: Result<VInteger, ErrorCode>)
        ensures
            r == checked(self.number + rhs.number),
    {
        match self.number.checked_add(rhs.number) {
            Some(number) => Ok(VInteger { number }),
            None => Err(ErrorCode::FOAR0002),
        }
    }

    /// The sum with the operands the other way round; `FOAR0002` where it
    /// overflows.
    pub fn rev_add(&self, rhs: &VInteger) -> (r: Result<VInteger, ErrorCode>)
        ensures
            r == checked(self.number + rhs.number),
    {
        match self.number.checked_add(rhs.number) {
            Some(number) => Ok(VInteger { number }),
            None => Err(ErrorCode::FOAR0002),
        }
    }

    /// The difference `self - rhs`; `FOAR0002` where it overflows.
    pub fn sub(&self, rhs: &VInteger) -> (r: Result<VInteger, ErrorCode>)
        ensures
            r == checked(self.number - rhs.number),
    {
        match self.number.checked_sub(rhs.number) {
            Some(number) => Ok(VInteger { number }),
            None => Err(ErrorCode::FOAR0002),
        }
    }

    /// The difference `rhs - self`; `FOAR0002` where it overflows.
    pub fn rev_sub(&self, rhs: &VInteger) -> (r: Result<VInteger, ErrorCode>)
        ensures
            r == checked(rhs.number - self.number),
    {
        match rhs.number.checked_sub(self.number) {
            Some(number) => Ok(VInteger { number }),
            None => Err(ErrorCode::FOAR0002),
        }
    }

    /// The product; `FOAR0002` where it overflows.
    pub fn mul(&self, rhs: &VInteger) -> (r: Result<VInteger, ErrorCode>)
        ensures
            r == checked(self.number * rhs.number),
    {
        match self.number.checked_mul(rhs.number) {
            Some(number) => Ok(VInteger { number }),
            None => Err(ErrorCode::FOAR0002),
        }
    }

    /// The product with the operands the other way round; `FOAR0002` where
    /// it overflows.
    pub fn rev_mul(&self, rhs: &VInteger) -> (r: Result<VInteger, ErrorCode>)
        ensures
            r == checked(self.number * rhs.number),
    {
        match self.number.checked_mul(rhs.number) {
            Some(number) => Ok(VInteger { number }),
            None => Err(ErrorCode::FOAR0002),
        }
    }

    /// Integer division `self idiv rhs`: `FOAR0001` for division by zero,
    /// `FOAR0002` where an operand is outside the range of the decimal
    /// conversion, else the quotient rounded to the nearest integer, a half
    /// away from zero (see `rounded_quotient`).
    pub fn idiv(&self, rhs: &VInteger) -> (r: Result<VInteger, ErrorCode>)
        requires
            !(self.number == i64::MIN && rhs.number == -1),
        ensures
            rhs.number == 0 ==> r == Err::<VInteger, ErrorCode>(ErrorCode::FOAR0001),
            rhs.number != 0 && !(in_i64(self.number) && in_i64(rhs.number)) ==> r == Err::<VInteger, ErrorCode>(
                ErrorCode::FOAR0002,
            ),
            rhs.number != 0 && in_i64(self.number) && in_i64(rhs.number) ==> r == Ok::<VInteger, ErrorCode>(
                VInteger { number: rounded_quotient(self.number as int, rhs.number as int) as i128 },
            ),
    {
        if rhs.is_zero() {
            Err(ErrorCode::FOAR0001)
        } else {
            match decimal_rounded_quotient(self.number, rhs.number) {
                Some(Some(number)) => Ok(VInteger { number }),
                _ => Err(ErrorCode::FOAR0002),
            }
        }
    }

    /// Integer division `rhs idiv self`; `FOAR0001` where `rhs` is zero,
    /// `FOAR0002` where an operand is outside the range of the decimal
    /// conversion.
    pub fn rev_idiv(&self, rhs: &VInteger) -> (r: Result<VInteger, ErrorCode>)
        requires
            self.number != 0,
            !(rhs.number == i64::MIN && self.number == -1),
        ensures
            rhs.number == 0 ==> r == Err::<VInteger, ErrorCode>(ErrorCode::FOAR0001),
            rhs.number != 0 && !(in_i64(self.number) && in_i64(rhs.number)) ==> r == Err::<VInteger, ErrorCode>(
                ErrorCode::FOAR0002,
            ),
            rhs.number != 0 && in_i64(self.number) && in_i64(rhs.number) ==> r == Ok::<VInteger, ErrorCode>(
                VInteger { number: rounded_quotient(rhs.number as int, self.number as int) as i128 },
            ),
    {
        if rhs.is_zero() {
            Err(ErrorCode::FOAR0001)
        } else {
            match decimal_rounded_quotient(rhs.number, self.number) {
                Some(Some(number)) => Ok(VInteger { number }),
                _ => Err(ErrorCode::FOAR0002),
            }
        }
    }

    /// The remainder of `self` divided by `rhs`, truncated toward zero;
    /// `FOAR0001` for division by zero.
    pub fn remainder(&self, rhs: &VInteger) -> (r: Result<VInteger, ErrorCode>)
        requires
            !(self.number == i128::MIN && rhs.number == -1),
        ensures
            rhs.number == 0 ==> r == Err::<VInteger, ErrorCode>(ErrorCode::FOAR0001),
            rhs.number != 0 ==> r == Ok::<VInteger, ErrorCode>(VInteger { number: spec_rem(self.number as int, rhs.number as int) as i128 }),
    {
        if rhs.is_zero() {
            Err(ErrorCode::FOAR0001)
        } else {
            Ok(VInteger { number: truncated_rem(self.number, rhs.number) })
        }
    }

    /// The remainder of `rhs` divided by `self`, truncated toward zero;
    /// `FOAR0001` where `rhs` is zero.
    pub fn rev_remainder(&self, rhs: &VInteger) -> (r: Result<VInteger, ErrorCode>)
        requires
            self.number != 0,
            !(rhs.number == i128::MIN && self.number == -1),
        ensures
            rhs.number == 0 ==> r == Err::<VInteger, ErrorCode>(ErrorCode::FOAR0001),
            rhs.number != 0 ==> r == Ok::<VInteger, ErrorCode>(VInteger { number: spec_rem(rhs.number as int, self.number as int) as i128 }),
    {
        if rhs.is_zero() {
            Err(ErrorCode::FOAR0001)
        } else {
            Ok(VInteger { number: truncated_rem(rhs.number, self.number) })
        }
    }

    /// The negated integer.
    pub fn negative(&self) -> (r: Result<VInteger, ErrorCode>)
        requires
            self.number != i128::MIN,
        ensures
            r == Ok::<VInteger, ErrorCode>(VInteger { number: (-self.number) as i128 }),
    {
        Ok(VInteger { number: -self.number })
    }

    pub fn is_zero(&self) -> (r: bool)
        ensures
            r == (self.number == 0),
    {
        self.number == 0
    }

    /// The rank of integers among the numeric types.
    pub fn level(&self) -> (r: u8)
        ensures
            r == 1,
    {
        1
    }

    pub fn to_integer(&self) -> (r: i128)
        ensures
            r == self.number,
    {
        self.number
    }

    /// The integer as a value.
    pub fn to_atomic(&self) -> (r: Object)
        ensures
            r == Object::Atomic(Type::Integer(self.number)),
    {
        Object::Atomic(Type::Integer(self.number))
    }
}


/// Addition and multiplication of integers do not depend on the order of
/// the operands.
pub proof fn law_integer_operand_order(a: VInteger, b: VInteger)
    ensures
        checked(a.number + b.number) == checked(b.number + a.number),
        checked(a.number * b.number) == checked(b.number * a.number),
{
    assert(a.number * b.number == b.number * a.number) by (nonlinear_arith);
}

/// The remainder is smaller than the divisor in magnitude and has the sign
/// of the dividend.
pub proof fn law_remainder_bounds(a: int, b: int)
    requires
        b != 0,
    ensures
        a >= 0 ==> spec_rem(a, b) >= 0,
        a <= 0 ==> spec_rem(a, b) <= 0,
        -(if b > 0 { b } else { -b }) < spec_rem(a, b) < (if b > 0 { b } else { -b }),
{
    if a == 0 {
        let d: nat = (if b > 0 { b } else { -b }) as nat;
        vstd::arithmetic::div_mod::lemma_small_mod(0, d);
    }
}

/// The items an operand of arithmetic stands for: the value itself, as
/// one item.
pub fn object_to_items(object: &Object) -> (r: Vec<Object>)
    ensures
        r@.len() == 1,
        r@[0]@ == object@,
{
    let mut items: Vec<Object> = Vec::new();
    items.push(object.duplicate());
    items
}

/// The quotient of `a` by `b` truncated toward zero.
pub open spec fn truncated_quotient(a: int, b: int) -> int {
    let m = if a < 0 { -a } else { a };
    let n = if b < 0 { -b } else { b };
    if (a < 0) == (b < 0) { m / n } else { -(m / n) }
}

/// The remainder completes the truncated division: `a` is `b` times the
/// quotient truncated toward zero, plus the remainder; so a dividend
/// between zero and the divisor is its own remainder.
pub proof fn law_remainder_completes_truncated_division(a: int, b: int)
    requires
        b != 0,
    ensures
        a == b * truncated_quotient(a, b) + spec_rem(a, b),
        0 <= a < (if b > 0 { b } else { -b }) ==> spec_rem(a, b) == a,
{
    let m: int = if a < 0 { -a } else { a };
    let n: int = if b < 0 { -b } else { b };
    vstd::arithmetic::div_mod::lemma_fundamental_div_mod(m, n);
    let q = m / n;
    let r = m % n;
    assert(m == n * q + r);
    if a >= 0 && b > 0 {
        assert(a == b * q + r);
    } else if a >= 0 && b < 0 {
        assert(b * (-q) == n * q) by (nonlinear_arith)
            requires
                n == -b,
        ;
    } else if a < 0 && b > 0 {
        assert(b * (-q) == -(n * q)) by (nonlinear_arith)
            requires
                n == b,
        ;
    } else {
        assert(b * q == -(n * q)) by (nonlinear_arith)
            requires
                n == -b,
        ;
    }
    if 0 <= a < n {
        vstd::arithmetic::div_mod::lemma_small_mod(a as nat, n as nat);
    }
}

} // verus!
