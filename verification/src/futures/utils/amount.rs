//! Decimal amounts: order sizes, prices and the bounds that rules put on them.
//!
//! An `Amount` is a whole number of units and the number of decimal places
//! those units stand at, so `units = 1050, places = 2` is 10.50. It can hold
//! exactly what a 96-bit decimal with at most 28 places can hold. Amounts are
//! compared and added by value: 10.5 and 10.50 are the same amount.

use vstd::prelude::*;
use vstd::std_specs::cmp::PartialEqSpecImpl;
use crate::futures::utils::ranking::Rank;

verus! {

/// The largest number of units an amount can have: 2^96 - 1.
pub const MAX_UNITS: i128 = 0x0000_0000_FFFF_FFFF_FFFF_FFFF_FFFF_FFFF;

/// The largest number of decimal places an amount can have.
pub const MAX_PLACES: u32 = 28;

/// Ten to the power of `n`; one for a negative `n`.
pub open spec fn pow10(n: int) -> int
    decreases n,
{
    if n <= 0 {
        1
    } else {
        10 * pow10(n - 1)
    }
}

/// The value of `units` at `places` decimal places, counted in units of
/// 10^-28 so that values at different places compare as integers.
pub open spec fn scaled_value(units: int, places: int) -> int {
    units * pow10(28 - places)
}

/// The sum that the decimal arithmetic gives for two amounts, each given by
/// its units and places, or `None` where the sum does not fit.
pub uninterp spec fn decimal_sum(a_units: int, a_places: int, b_units: int, b_places: int) -> Option<(int, int)>;

/// The quotient that the decimal arithmetic gives for two amounts, each given
/// by its units and places, rounded to what an amount can hold, or `None`
/// where the divisor is zero or the quotient does not fit.
pub uninterp spec fn decimal_quotient(a_units: int, a_places: int, b_units: int, b_places: int) -> Option<(int, int)>;

#[derive(Clone, Copy, Debug)]
pub struct Amount {
    units: i128,
    places: u32,
}

impl Amount {
    #[verifier::type_invariant]
    spec fn in_range(self) -> bool {
        &&& self.places <= MAX_PLACES
        &&& -MAX_UNITS <= self.units <= MAX_UNITS
    }

    pub closed spec fn units(self) -> int {
        self.units as int
    }

    pub closed spec fn places(self) -> int {
        self.places as int
    }

    /// The amount's value in units of 10^-28.
    pub open spec fn scaled(self) -> int {
        scaled_value(self.units(), self.places())
    }

    /// The same value without trailing zeros in its fraction; zero at no
    /// places.
    pub closed spec fn normal_form(self) -> Amount
        decreases self.places(),
    {
        if self.units == 0 {
            Amount { units: 0, places: 0 }
        } else if self.places > 0 && self.units % 10 == 0 {
            (Amount { units: (self.units / 10) as i128, places: (self.places - 1) as u32 }).normal_form()
        } else {
            self
        }
    }

    /// The two parts as a pair, as the decimal arithmetic is stated over them.
    pub open spec fn parts(self) -> (int, int) {
        (self.units(), self.places())
    }

    /// The amount `mantissa * 10^-scale`, where an amount can hold it.
    pub fn new(mantissa: i128, scale: u32) -> (r: Option<Amount>)
        ensures
            r is Some == (scale <= MAX_PLACES && -MAX_UNITS <= mantissa <= MAX_UNITS),
            r is Some ==> r->0.units() == mantissa && r->0.places() == scale,
    {
        if scale <= MAX_PLACES && -MAX_UNITS <= mantissa && mantissa <= MAX_UNITS {
            Some(Amount { units: mantissa, places: scale })
        } else {
            None
        }
    }

    /// The whole amount `n`.
    pub fn whole(n: u64) -> (r: Amount)
        ensures
            r.units() == n,
            r.places() == 0,
    {
        Amount { units: n as i128, places: 0 }
    }

    pub fn mantissa(&self) -> (r: i128)
        ensures
            r == self.units(),
            -MAX_UNITS <= r <= MAX_UNITS,
    {
        proof {
            use_type_invariant(self);
        }
        self.units
    }

    pub fn scale(&self) -> (r: u32)
        ensures
            r == self.places(),
            r <= MAX_PLACES,
    {
        proof {
            use_type_invariant(self);
        }
        self.places
    }

    /// How this amount stands to another, by value.
    pub fn rank(&self, other: &Amount) -> (r: Rank)
        ensures
            (r is Before) == (self.scaled() < other.scaled()),
            (r is After) == (self.scaled() > other.scaled()),
    {
        decimal_rank(self, other)
    }

    /// `self <= other`, by value.
    pub fn at_most(&self, other: &Amount) -> (r: bool)
        ensures
            r == (self.scaled() <= other.scaled()),
    {
        match decimal_rank(self, other) {
            Rank::After => false,
            _ => true,
        }
    }

    /// The same value without trailing zeros in its fraction.
    pub fn normalize(&self) -> (r: Amount)
        ensures
            r == self.normal_form(),
            r.scaled() == self.scaled(),
            r.places() <= self.places(),
            r.places() == 0 || r.units() % 10 != 0,
    {
        proof {
            use_type_invariant(self);
            self.normal_form_keeps_value();
        }
        decimal_normalize(self)
    }

    /// The normal form of an amount has the amount's value, no more places
    /// than it, and no trailing zero in its fraction.
    pub proof fn normal_form_keeps_value(self)
        requires
            0 <= self.places() <= MAX_PLACES,
        ensures
            self.normal_form().scaled() == self.scaled(),
            0 <= self.normal_form().places() <= self.places(),
            self.normal_form().places() == 0 || self.normal_form().units() % 10 != 0,
        decreases self.places(),
    {
        if self.units == 0 {
            assert(0 * pow10(28 - self.places()) == 0 * pow10(28));
        } else if self.places > 0 && self.units % 10 == 0 {
            let next = Amount { units: (self.units / 10) as i128, places: (self.places - 1) as u32 };
            next.normal_form_keeps_value();
            let k = self.units as int / 10;
            let p = pow10(28 - self.places);
            assert(pow10(28 - next.places) == 10 * p);
            assert(self.units as int == k * 10);
            assert(k * (10 * p) == (k * 10) * p) by (nonlinear_arith);
        }
    }

    /// The sum of two amounts as the decimal arithmetic gives it.
    pub fn plus(&self, other: &Amount) -> (r: Option<Amount>)
        ensures
            sum_is(*self, *other, r),
    {
        decimal_add(self, other)
    }

    /// The quotient of two amounts as the decimal arithmetic gives it.
    pub fn over(&self, other: &Amount) -> (r: Option<Amount>)
        ensures
            quotient_is(*self, *other, r),
    {
        decimal_div(self, other)
    }
}

/// Amounts are equal where their values are: 10.5 equals 10.50.
impl PartialEq for Amount {
    fn eq(&self, other: &Self) -> (r: bool) {
        match decimal_rank(self, other) {
            Rank::Same => true,
            _ => false,
        }
    }
}

impl PartialEqSpecImpl for Amount {
    open spec fn obeys_eq_spec() -> bool {
        true
    }

    open spec fn eq_spec(&self, other: &Self) -> bool {
        self.scaled() == other.scaled()
    }
}

impl Eq for Amount {

}

/// `r` is the sum of `a` and `b`.
pub open spec fn sum_is(a: Amount, b: Amount, r: Option<Amount>) -> bool {
    match r {
        Some(x) => decimal_sum(a.units(), a.places(), b.units(), b.places()) == Some(x.parts()),
        None => decimal_sum(a.units(), a.places(), b.units(), b.places()) is None,
    }
}

/// `r` is the quotient of `a` by `b`.
pub open spec fn quotient_is(a: Amount, b: Amount, r: Option<Amount>) -> bool {
    match r {
        Some(x) => decimal_quotient(a.units(), a.places(), b.units(), b.places()) == Some(
            x.parts(),
        ),
        None => decimal_quotient(a.units(), a.places(), b.units(), b.places()) is None,
    }
}

/// Compares two amounts with `rust_decimal::Decimal::cmp`, which orders
/// decimals by numeric value whatever their scale. Each amount becomes a
/// decimal through `Decimal::from_i128_with_scale`, which takes every
/// mantissa and scale an `Amount` can hold.
#[verifier::external_body]
fn decimal_rank(a: &Amount, b: &Amount) -> (r: Rank)
    ensures
        (r is Before) == (a.scaled() < b.scaled()),
        (r is After) == (a.scaled() > b.scaled()),
{
    let x = rust_decimal::Decimal::from_i128_with_scale(a.units, a.places);
    let y = rust_decimal::Decimal::from_i128_with_scale(b.units, b.places);
    match x.cmp(&y) {
        std::cmp::Ordering::Less => Rank::Before,
        std::cmp::Ordering::Equal => Rank::Same,
        std::cmp::Ordering::Greater => Rank::After,
    }
}

/// Strips an amount's trailing zeros with `rust_decimal::Decimal::normalize`:
/// zero becomes zero at no places; otherwise the mantissa is divided by ten
/// and the scale lowered by one for as long as the scale is above zero and
/// the mantissa ends in zero.
#[verifier::external_body]
fn decimal_normalize(a: &Amount) -> (r: Amount)
    ensures
        r == a.normal_form(),
{
    let z = rust_decimal::Decimal::from_i128_with_scale(a.units, a.places).normalize();
    Amount { units: z.mantissa(), places: z.scale() }
}

/// Adds two amounts with `rust_decimal::Decimal::checked_add`, which gives
/// `None` on overflow. The contract only gives the result its name.
#[verifier::external_body]
fn decimal_add(a: &Amount, b: &Amount) -> (r: Option<Amount>)
    ensures
        r is Some ==> decimal_sum(a.units(), a.places(), b.units(), b.places()) == Some(
            r->0.parts(),
        ),
        r is None ==> decimal_sum(a.units(), a.places(), b.units(), b.places()) is None,
{
    let x = rust_decimal::Decimal::from_i128_with_scale(a.units, a.places);
    let y = rust_decimal::Decimal::from_i128_with_scale(b.units, b.places);
    x.checked_add(y).map(|z| Amount { units: z.mantissa(), places: z.scale() })
}

/// Divides two amounts with `rust_decimal::Decimal::checked_div`, which gives
/// `None` for a zero divisor and on overflow. The contract only gives the
/// result its name.
#[verifier::external_body]
fn decimal_div(a: &Amount, b: &Amount) -> (r: Option<Amount>)
    ensures
        r is Some ==> decimal_quotient(a.units(), a.places(), b.units(), b.places()) == Some(
            r->0.parts(),
        ),
        r is None ==> decimal_quotient(a.units(), a.places(), b.units(), b.places()) is None,
{
    let x = rust_decimal::Decimal::from_i128_with_scale(a.units, a.places);
    let y = rust_decimal::Decimal::from_i128_with_scale(b.units, b.places);
    x.checked_div(y).map(|z| Amount { units: z.mantissa(), places: z.scale() })
}

} // verus!
