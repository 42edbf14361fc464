//! Scroll speed, and the position on screen that it gives a time difference.
//!
//! A position is the product of the scroll speed, the time difference in
//! 1/100 ms units, and a multiplier held in thousandths. Taking a position
//! back to a time difference divides the same factors out again, each
//! quotient rounded toward zero.

use crate::timing::div_toward_zero;
use crate::timing::fits_i32;
use crate::timing::order_of_units;
use crate::timing::GameTimestampDifference;
use core::cmp::Ordering;
use vstd::prelude::*;
use vstd::std_specs::cmp::PartialOrdSpecImpl;
use vstd::std_specs::ops::DivSpecImpl;
use vstd::std_specs::ops::MulSpecImpl;

verus! {

/// The multiplier, in thousandths, that every position is scaled by.
pub const POSITION_SCALE: i32 = 1000;

/// A position along the lane, in scaled units.
#[derive(Debug, PartialEq, Eq, Ord, Clone, Copy, Structural)]
pub struct Position(pub i64);

/// How fast the lanes scroll.
#[derive(Debug, PartialEq, Eq, Ord, Clone, Copy, Structural)]
pub struct ScrollSpeed(pub u8);

/// A factor on the scroll speed, in thousandths, at least -2^24 and less
/// than 2^24.
#[derive(Debug, PartialEq, Eq, Ord, Clone, Copy)]
pub struct ScrollSpeedMultiplier(i32);

impl View for Position {
    type V = int;

    open spec fn view(&self) -> int {
        self.0 as int
    }
}

impl View for ScrollSpeed {
    type V = int;

    open spec fn view(&self) -> int {
        self.0 as int
    }
}

impl View for ScrollSpeedMultiplier {
    type V = int;

    /// The multiplier in thousandths.
    closed spec fn view(&self) -> int {
        self.0 as int
    }
}

impl PartialOrd for Position {
    fn partial_cmp(&self, other: &Position) -> (r: Option<Ordering>) {
        self.0.partial_cmp(&other.0)
    }
}

impl PartialOrdSpecImpl for Position {
    open spec fn obeys_partial_cmp_spec() -> bool {
        true
    }

    open spec fn partial_cmp_spec(&self, other: &Position) -> Option<Ordering> {
        order_of_units(self@, other@)
    }
}

impl PartialOrd for ScrollSpeed {
    fn partial_cmp(&self, other: &ScrollSpeed) -> (r: Option<Ordering>) {
        self.0.partial_cmp(&other.0)
    }
}

impl PartialOrdSpecImpl for ScrollSpeed {
    open spec fn obeys_partial_cmp_spec() -> bool {
        true
    }

    open spec fn partial_cmp_spec(&self, other: &ScrollSpeed) -> Option<Ordering> {
        order_of_units(self@, other@)
    }
}

impl PartialOrd for ScrollSpeedMultiplier {
    fn partial_cmp(&self, other: &ScrollSpeedMultiplier) -> (r: Option<Ordering>) {
        self.0.partial_cmp(&other.0)
    }
}

impl PartialOrdSpecImpl for ScrollSpeedMultiplier {
    open spec fn obeys_partial_cmp_spec() -> bool {
        true
    }

    open spec fn partial_cmp_spec(&self, other: &ScrollSpeedMultiplier) -> Option<Ordering> {
        order_of_units(self@, other@)
    }
}

impl ScrollSpeedMultiplier {
    /// Whether a number of thousandths is in the range of a multiplier.
    pub open spec fn in_range(value: int) -> bool {
        -0x100_0000 <= value < 0x100_0000
    }

    #[verifier::type_invariant]
    spec fn inv(self) -> bool {
        Self::in_range(self.0 as int)
    }

    /// The multiplier of `value` thousandths.
    pub fn new(value: i32) -> (r: Self)
        requires
            Self::in_range(value as int),
        ensures
            r@ == value,
    {
        ScrollSpeedMultiplier(value)
    }

    /// The multiplier in thousandths.
    pub fn thousandths(self) -> (r: i32)
        ensures
            r == self@,
            Self::in_range(r as int),
    {
        proof {
            use_type_invariant(&self);
        }
        self.0
    }
}

/// Two multipliers of the same number of thousandths are the same
/// multiplier.
pub proof fn lemma_multiplier_is_its_thousandths(a: ScrollSpeedMultiplier, b: ScrollSpeedMultiplier)
    requires
        a@ == b@,
    ensures
        a == b,
{
}

impl Default for ScrollSpeedMultiplier {
    /// The multiplier 1.000.
    fn default() -> (r: Self)
        ensures
            r@ == 1000,
    {
        ScrollSpeedMultiplier(POSITION_SCALE)
    }
}

/// The position that `speed` gives the time difference `difference`.
pub open spec fn position_of(speed: ScrollSpeed, difference: GameTimestampDifference) -> Position {
    Position((speed@ * difference@ * 1000) as i64)
}

/// The time difference that `speed` gives the position `position`.
pub open spec fn difference_of(position: Position, speed: ScrollSpeed) -> int {
    div_toward_zero(div_toward_zero(position@, speed@), 1000)
}

/// The product of a speed, a time difference and the scale fits in 64 bits.
pub proof fn lemma_position_fits(speed: ScrollSpeed, difference: GameTimestampDifference)
    ensures
        position_of(speed, difference)@ == speed@ * difference@ * 1000,
        -0x80_0000_0000 <= speed@ * difference@ <= 0x80_0000_0000,
{
    let s = speed@;
    let d = difference@;
    assert(-0x80_0000_0000 <= s * d <= 0x80_0000_0000) by (nonlinear_arith)
        requires
            0 <= s <= 0xff,
            -0x8000_0000 <= d <= 0x8000_0000,
    ;
}

/// At a fixed scroll speed, a time difference that is not smaller gives a
/// position that is not smaller.
pub proof fn lemma_position_monotonic(
    speed: ScrollSpeed,
    a: GameTimestampDifference,
    b: GameTimestampDifference,
)
    requires
        a@ <= b@,
    ensures
        position_of(speed, a)@ <= position_of(speed, b)@,
{
    lemma_position_fits(speed, a);
    lemma_position_fits(speed, b);
    let s = speed@;
    let x = a@;
    let y = b@;
    assert(s * x <= s * y) by (nonlinear_arith)
        requires
            0 <= s,
            x <= y,
    ;
}

/// At a fixed scroll speed above zero, a greater time difference gives a
/// greater position.
pub proof fn lemma_position_strictly_monotonic(
    speed: ScrollSpeed,
    a: GameTimestampDifference,
    b: GameTimestampDifference,
)
    requires
        speed@ > 0,
        a@ < b@,
    ensures
        position_of(speed, a)@ < position_of(speed, b)@,
{
    lemma_position_fits(speed, a);
    lemma_position_fits(speed, b);
    let s = speed@;
    let x = a@;
    let y = b@;
    assert(s * x < s * y) by (nonlinear_arith)
        requires
            0 < s,
            x < y,
    ;
}

/// At a scroll speed above zero, the position of a time difference is taken
/// back to that time difference.
pub proof fn lemma_difference_of_position(speed: ScrollSpeed, difference: GameTimestampDifference)
    requires
        speed@ > 0,
    ensures
        difference_of(position_of(speed, difference), speed) == difference@,
{
    lemma_position_fits(speed, difference);
    let s = speed@;
    let d = difference@;
    let p = position_of(speed, difference)@;
    if d >= 0 {
        assert(p >= 0 && p / s == d * 1000) by (nonlinear_arith)
            requires
                s > 0,
                d >= 0,
                p == s * d * 1000,
        ;
    } else {
        assert(p < 0 && (-p) / s == (-d) * 1000) by (nonlinear_arith)
            requires
                s > 0,
                d < 0,
                p == s * d * 1000,
        ;
    }
}

impl core::ops::Mul<GameTimestampDifference> for ScrollSpeed {
    type Output = Position;

    fn mul(self, rhs: GameTimestampDifference) -> (r: Position) {
        proof {
            lemma_position_fits(self, rhs);
        }
        let scale = ScrollSpeedMultiplier::default().thousandths();
        let scaled_time = (self.0 as i64) * (rhs.into_milli_hundreds() as i64);
        Position(scaled_time * (scale as i64))
    }
}

impl MulSpecImpl<GameTimestampDifference> for ScrollSpeed {
    open spec fn obeys_mul_spec() -> bool {
        true
    }

    open spec fn mul_req(self, rhs: GameTimestampDifference) -> bool {
        true
    }

    open spec fn mul_spec(self, rhs: GameTimestampDifference) -> Position {
        position_of(self, rhs)
    }
}

impl core::ops::Mul<ScrollSpeed> for GameTimestampDifference {
    type Output = Position;

    fn mul(self, rhs: ScrollSpeed) -> (r: Position) {
        rhs * self
    }
}

impl MulSpecImpl<ScrollSpeed> for GameTimestampDifference {
    open spec fn obeys_mul_spec() -> bool {
        true
    }

    open spec fn mul_req(self, rhs: ScrollSpeed) -> bool {
        true
    }

    open spec fn mul_spec(self, rhs: ScrollSpeed) -> Position {
        position_of(rhs, self)
    }
}

impl core::ops::Div<ScrollSpeed> for Position {
    type Output = GameTimestampDifference;

    fn div(self, rhs: ScrollSpeed) -> (r: GameTimestampDifference) {
        let scale = ScrollSpeedMultiplier::default().thousandths();
        let value = self.0 / (rhs.0 as i64) / (scale as i64);
        GameTimestampDifference::from_milli_hundreds(value as i32)
    }
}

impl DivSpecImpl<ScrollSpeed> for Position {
    open spec fn obeys_div_spec() -> bool {
        true
    }

    /// The speed must not be zero, and the time difference must fit in
    /// 32 bits.
    open spec fn div_req(self, rhs: ScrollSpeed) -> bool {
        rhs@ != 0 && fits_i32(difference_of(self, rhs))
    }

    open spec fn div_spec(self, rhs: ScrollSpeed) -> GameTimestampDifference {
        GameTimestampDifference::of_units(difference_of(self, rhs))
    }
}

} // verus!
