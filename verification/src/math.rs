//! Common math types.
use crate::decimal::{signed_decimal, signed_decimal_of};
use vstd::prelude::*;

verus! {

/// A rational number represented as a fraction.
#[derive(Debug, Copy, Clone)]
pub struct Rational {
    num: i32,
    den: i32,
}

impl Rational {
    /// The numerator (model).
    pub closed spec fn spec_num(self) -> i32 {
        self.num
    }

    /// The denominator (model).
    pub closed spec fn spec_den(self) -> i32 {
        self.den
    }

    /// Create a new rational number.
    pub fn new(num: i32, den: i32) -> (r: Rational)
        ensures
            r.spec_num() == num,
            r.spec_den() == den,
    {
        Rational { num, den }
    }

    /// Get the numerator.
    pub fn num(&self) -> (r: i32)
        ensures
            r == self.spec_num(),
    {
        self.num
    }

    /// Human readable form: `num/den`.
    pub fn to_debug_string(&self) -> (r: String)
        ensures
            r@ == signed_decimal_of(self.spec_num() as int) + "/"@ + signed_decimal_of(
                self.spec_den() as int,
            ),
    {
        let res = signed_decimal(self.num as i64);
        let res = res.concat("/");
        res.concat(signed_decimal(self.den as i64).as_str())
    }

    /// Get the denominator.
    pub fn den(&self) -> (r: i32)
        ensures
            r == self.spec_den(),
    {
        self.den
    }
}

} // verus!
