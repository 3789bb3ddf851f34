use vstd::prelude::*;
use vstd::std_specs::convert::FromSpecImpl;
use rust_decimal::Decimal;

verus! {

/// `rust_decimal::Decimal`: a decimal number, opaque to the verifier.
#[verifier::external_type_specification]
#[verifier::external_body]
pub struct ExDecimal(Decimal);

/// The raw value that stands for "no price".
pub const NO_PRICE: i64 = i64::MIN;

/// The largest number of decimal places that a decimal number can have.
pub const MAX_DECIMALS: u8 = 28;

/// A price as an integer and the number of its decimal places.
#[derive(Debug, Copy, Clone, PartialEq, Eq, Structural)]
pub struct Price {
    raw: i64,
    decimals: u8,
}

/// The decimal number `mantissa / 10^scale`, as `Decimal::from_i128_with_scale` builds it.
pub uninterp spec fn decimal_of(mantissa: i128, scale: u32) -> Decimal;

/// `Decimal::from_i128_with_scale`: the decimal number with that mantissa
/// and scale. It panics on a scale above 28 and on a mantissa of more than
/// 96 bits.
#[verifier::external_body]
pub(crate) fn decimal_from_i128_with_scale(mantissa: i128, scale: u32) -> (number: Decimal)
    requires
        scale <= 28,
        -0x1_0000_0000_0000_0000_0000_0000 < mantissa < 0x1_0000_0000_0000_0000_0000_0000,
    ensures
        number == decimal_of(mantissa, scale),
{
    Decimal::from_i128_with_scale(mantissa, scale)
}

impl Price {
    /// The integer that the price holds.
    pub closed spec fn raw_value(self) -> i64 {
        self.raw
    }

    /// The number of decimal places of the price.
    pub closed spec fn decimal_places(self) -> u8 {
        self.decimals
    }

    /// A price without decimal places.
    #[inline]
    pub fn new(raw: i64) -> (price: Self)
        ensures
            price.raw_value() == raw,
            price.decimal_places() == 0,
    {
        Self { raw, decimals: 0 }
    }

    /// A price with `decimals` decimal places.
    #[inline]
    pub fn new_with_decimals(raw: i64, decimals: u8) -> (price: Self)
        ensures
            price.raw_value() == raw,
            price.decimal_places() == decimals,
    {
        Self { raw, decimals }
    }

    /// The integer that the price holds.
    #[inline]
    pub fn raw(self) -> (raw: i64)
        ensures
            raw == self.raw_value(),
    {
        self.raw
    }

    /// The number of decimal places.
    #[inline]
    pub fn decimals(self) -> (decimals: u8)
        ensures
            decimals == self.decimal_places(),
    {
        self.decimals
    }

    /// Whether this is "no price".
    #[inline]
    pub fn is_none(self) -> (none: bool)
        ensures
            none == (self.raw_value() == NO_PRICE),
    {
        self.raw == NO_PRICE
    }

    /// The same price with another number of decimal places.
    #[inline]
    pub fn set_decimals(self, decimals: u8) -> (price: Self)
        ensures
            price.raw_value() == self.raw_value(),
            price.decimal_places() == decimals,
    {
        Self { raw: self.raw, decimals }
    }

    /// The price as a decimal number; `None` for "no price".
    #[inline]
    pub fn as_decimal(self) -> (number: Option<Decimal>)
        requires
            self.decimal_places() <= MAX_DECIMALS,
        ensures
            number == if self.raw_value() == NO_PRICE {
                None::<Decimal>
            } else {
                Some(decimal_of(self.raw_value() as i128, self.decimal_places() as u32))
            },
    {
        if self.is_none() {
            return None;
        }
        Some(decimal_from_i128_with_scale(self.raw as i128, self.decimals as u32))
    }
}

impl From<i64> for Price {
    fn from(v: i64) -> (price: Self) {
        Price::new(v)
    }
}

impl FromSpecImpl<i64> for Price {
    open spec fn obeys_from_spec() -> bool {
        true
    }

    closed spec fn from_spec(v: i64) -> Self {
        Price { raw: v, decimals: 0 }
    }
}

impl From<Price> for i64 {
    fn from(p: Price) -> (raw: Self) {
        p.raw
    }
}

impl FromSpecImpl<Price> for i64 {
    open spec fn obeys_from_spec() -> bool {
        true
    }

    open spec fn from_spec(p: Price) -> Self {
        p.raw_value()
    }
}

} // verus!
