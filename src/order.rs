use vstd::prelude::*;

verus! {

/// A sample representation whose values are totally ordered by an integer key
/// that agrees with the order of the values they stand for.
pub trait Ordered: Copy + Sized {
    /// Whether the value takes part in the order (a float that is not NaN).
    spec fn valid(&self) -> bool;

    /// Position of the value in the order; equal keys mean equal values.
    spec fn key(&self) -> int;

    /// Key of the value one.
    spec fn one_key() -> int;

    /// Whether the value is ordered.
    fn valid_exec(&self) -> (r: bool)
        ensures
            r == self.valid(),
    ;

    /// The order key of an ordered value.
    fn order_key(&self) -> (r: i64)
        requires
            self.valid(),
        ensures
            r as int == self.key(),
    ;

    /// The order key of one.
    fn unit_key() -> (r: i64)
        ensures
            r as int == Self::one_key(),
            r > 0,
    ;
}

/// An IEEE-754 single-precision float, held as its bit pattern.
#[derive(Clone, Copy, Debug, PartialEq, Eq, Structural)]
pub struct F32Bits(pub u32);

impl Ordered for F32Bits {
    fn valid_exec(&self) -> (r: bool) {
        self.0 & 0x7fff_ffff <= 0x7f80_0000
    }

    open spec fn valid(&self) -> bool {
        self.0 & 0x7fff_ffff <= 0x7f80_0000
    }

    open spec fn key(&self) -> int {
        let m = (self.0 & 0x7fff_ffff) as int;
        if self.0 >= 0x8000_0000 { -m } else { m }
    }

    open spec fn one_key() -> int {
        0x3f80_0000
    }

    fn order_key(&self) -> (r: i64) {
        let m = (self.0 & 0x7fff_ffff) as i64;
        if self.0 >= 0x8000_0000 { -m } else { m }
    }

    fn unit_key() -> (r: i64) {
        0x3f80_0000
    }
}

/// An IEEE-754 half-precision float, held as its bit pattern.
#[derive(Clone, Copy, Debug, PartialEq, Eq, Structural)]
pub struct F16Bits(pub u16);

impl Ordered for F16Bits {
    fn valid_exec(&self) -> (r: bool) {
        self.0 & 0x7fff <= 0x7c00
    }

    open spec fn valid(&self) -> bool {
        self.0 & 0x7fff <= 0x7c00
    }

    open spec fn key(&self) -> int {
        let m = (self.0 & 0x7fff) as int;
        if self.0 >= 0x8000 { -m } else { m }
    }

    open spec fn one_key() -> int {
        0x3c00
    }

    fn order_key(&self) -> (r: i64) {
        let m = (self.0 & 0x7fff) as i64;
        if self.0 >= 0x8000 { -m } else { m }
    }

    fn unit_key() -> (r: i64) {
        0x3c00
    }
}

/// An unsigned fixed-point number in [0, 2) with seven fractional bits,
/// held as its bit pattern: the value is the pattern divided by 128.
#[derive(Clone, Copy, Debug, PartialEq, Eq, Structural)]
pub struct U1F7Bits(pub u8);

impl Ordered for U1F7Bits {
    fn valid_exec(&self) -> (r: bool) {
        true
    }

    open spec fn valid(&self) -> bool {
        true
    }

    open spec fn key(&self) -> int {
        self.0 as int
    }

    open spec fn one_key() -> int {
        128
    }

    fn order_key(&self) -> (r: i64) {
        self.0 as i64
    }

    fn unit_key() -> (r: i64) {
        128
    }
}

/// An unsigned fixed-point number in [0, 2) with fifteen fractional bits,
/// held as its bit pattern: the value is the pattern divided by 32768.
#[derive(Clone, Copy, Debug, PartialEq, Eq, Structural)]
pub struct U1F15Bits(pub u16);

impl Ordered for U1F15Bits {
    fn valid_exec(&self) -> (r: bool) {
        true
    }

    open spec fn valid(&self) -> bool {
        true
    }

    open spec fn key(&self) -> int {
        self.0 as int
    }

    open spec fn one_key() -> int {
        32768
    }

    fn order_key(&self) -> (r: i64) {
        self.0 as i64
    }

    fn unit_key() -> (r: i64) {
        32768
    }
}

/// A signed byte stands for its own integer value.
impl Ordered for i8 {
    fn valid_exec(&self) -> (r: bool) {
        true
    }

    open spec fn valid(&self) -> bool {
        true
    }

    open spec fn key(&self) -> int {
        *self as int
    }

    open spec fn one_key() -> int {
        1
    }

    fn order_key(&self) -> (r: i64) {
        *self as i64
    }

    fn unit_key() -> (r: i64) {
        1
    }
}

} // verus!
