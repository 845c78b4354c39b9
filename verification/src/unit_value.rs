//! A value between zero and one, kept in billionths.
use vstd::prelude::*;

verus! {

/// How many billionths make one.
pub const UNIT_VALUE_SCALE: u32 = 1_000_000_000;

/// A value of the unit interval, in steps of a billionth.
#[derive(Copy, Clone, PartialEq, Eq, Debug)]
pub struct UnitValue {
    billionths: u32,
}

/// Which part of `length` the position `position` is, in billionths: nothing
/// before the start or where the length is zero or unknown, everything from
/// the end on, and the quotient, rounded down, in between.
pub open spec fn proportional_billionths(position: int, length: Option<nat>) -> nat {
    match length {
        None => 0,
        Some(length) => if length == 0 || position <= 0 {
            0
        } else if position >= length {
            UNIT_VALUE_SCALE as nat
        } else {
            ((position * UNIT_VALUE_SCALE) / (length as int)) as nat
        },
    }
}

/// A proportion is never more than one.
pub proof fn proportion_within_unit(position: int, length: Option<nat>)
    ensures
        proportional_billionths(position, length) <= UNIT_VALUE_SCALE,
{
    match length {
        Some(length) => {
            if length != 0 && 0 < position < length {
                lemma_quotient_below_scale(position, length as int, UNIT_VALUE_SCALE as int);
            }
        },
        None => {},
    }
}

/// A length as contracts speak of it.
pub open spec fn length_in_nat(length: Option<u64>) -> Option<nat> {
    match length {
        Some(length) => Some(length as nat),
        None => None,
    }
}

/// The part of `whole` that the unit value `billionths` stands for, rounded
/// down.
pub open spec fn scaled_part(billionths: nat, whole: nat) -> nat {
    ((billionths * whole) as int / (UNIT_VALUE_SCALE as int)) as nat
}

proof fn lemma_quotient_below_scale(position: int, length: int, scale: int)
    requires
        0 <= position < length,
        0 < scale,
    ensures
        0 <= (position * scale) / length < scale,
{
    assert(position * scale < length * scale) by (nonlinear_arith)
        requires
            0 <= position < length,
            0 < scale,
    ;
    assert(0 <= position * scale) by (nonlinear_arith)
        requires
            0 <= position,
            0 < scale,
    ;
    assert(length * scale == scale * length) by (nonlinear_arith);
    vstd::arithmetic::div_mod::lemma_div_pos_is_pos(position * scale, length);
    vstd::arithmetic::div_mod::lemma_div_by_multiple_is_strongly_ordered(
        position * scale,
        scale * length,
        scale,
        length,
    );
    vstd::arithmetic::div_mod::lemma_div_by_multiple(scale, length);
}

proof fn lemma_part_within_whole(billionths: int, whole: int, scale: int)
    requires
        0 <= billionths <= scale,
        0 <= whole,
        0 < scale,
    ensures
        0 <= (billionths * whole) / scale <= whole,
{
    assert(0 <= billionths * whole <= scale * whole) by (nonlinear_arith)
        requires
            0 <= billionths <= scale,
            0 <= whole,
    ;
    vstd::arithmetic::div_mod::lemma_div_pos_is_pos(billionths * whole, scale);
    vstd::arithmetic::div_mod::lemma_div_is_ordered(billionths * whole, scale * whole, scale);
    assert(scale * whole == whole * scale) by (nonlinear_arith);
    vstd::arithmetic::div_mod::lemma_div_by_multiple(whole, scale);
}

impl UnitValue {
    #[verifier::type_invariant]
    spec fn within_unit(&self) -> bool {
        self.billionths <= UNIT_VALUE_SCALE
    }

    /// The value in billionths.
    pub closed spec fn billionths(&self) -> nat {
        self.billionths as nat
    }

    /// The unit value of so many billionths.
    pub closed spec fn of_billionths(billionths: nat) -> Self {
        UnitValue { billionths: billionths as u32 }
    }

    /// A unit value is known by its billionths.
    pub proof fn known_by_billionths(&self)
        ensures
            *self == Self::of_billionths(self.billionths()),
    {
    }

    /// The unit value of so many billionths has so many billionths, as long
    /// as they are no more than make one.
    pub proof fn billionths_of_billionths(billionths: nat)
        requires
            billionths <= UNIT_VALUE_SCALE,
        ensures
            Self::of_billionths(billionths).billionths() == billionths,
    {
    }

    /// Zero.
    pub fn min_value() -> (value: Self)
        ensures
            value.billionths() == 0,
            value == Self::of_billionths(0),
    {
        UnitValue { billionths: 0 }
    }

    /// One.
    pub fn max_value() -> (value: Self)
        ensures
            value.billionths() == UNIT_VALUE_SCALE,
            value == Self::of_billionths(UNIT_VALUE_SCALE as nat),
    {
        UnitValue { billionths: UNIT_VALUE_SCALE }
    }

    /// The unit value of so many billionths.
    pub fn new(billionths: u32) -> (value: Self)
        requires
            billionths <= UNIT_VALUE_SCALE,
        ensures
            value.billionths() == billionths,
            value == Self::of_billionths(billionths as nat),
    {
        UnitValue { billionths }
    }

    /// The unit value of so many billionths, or one where they are more than
    /// that.
    pub fn new_clamped(billionths: u64) -> (value: Self)
        ensures
            value.billionths() == if billionths > UNIT_VALUE_SCALE {
                UNIT_VALUE_SCALE as nat
            } else {
                billionths as nat
            },
    {
        if billionths > UNIT_VALUE_SCALE as u64 {
            UnitValue { billionths: UNIT_VALUE_SCALE }
        } else {
            UnitValue { billionths: billionths as u32 }
        }
    }

    /// The value in billionths, which are never more than a billion.
    pub fn get(&self) -> (billionths: u32)
        ensures
            billionths == self.billionths(),
            billionths <= UNIT_VALUE_SCALE,
    {
        proof {
            use_type_invariant(self);
        }
        self.billionths
    }

    /// Which part of `length` the position `position` is.
    pub fn proportion(position: i64, length: Option<u64>) -> (value: Self)
        ensures
            value == Self::of_billionths(
                proportional_billionths(position as int, length_in_nat(length)),
            ),
            value.billionths() == proportional_billionths(
                position as int,
                length_in_nat(length),
            ),
    {
        match length {
            None => Self::min_value(),
            Some(length) => {
                if length == 0 || position <= 0 {
                    Self::min_value()
                } else if position as u64 >= length {
                    Self::max_value()
                } else {
                    proof {
                        lemma_quotient_below_scale(
                            position as int,
                            length as int,
                            UNIT_VALUE_SCALE as int,
                        );
                        assert(position * UNIT_VALUE_SCALE < 0x1_0000_0000_0000_0000
                            * 0x1_0000_0000) by (nonlinear_arith)
                            requires
                                0 <= position < 0x1_0000_0000_0000_0000,
                                UNIT_VALUE_SCALE < 0x1_0000_0000,
                        ;
                    }
                    let scaled: u128 = position as u128 * UNIT_VALUE_SCALE as u128;
                    let quotient: u128 = scaled / length as u128;
                    UnitValue { billionths: quotient as u32 }
                }
            },
        }
    }

    /// The part of `whole` that this value stands for, rounded down.
    pub fn of(&self, whole: u64) -> (part: u64)
        ensures
            part == scaled_part(self.billionths(), whole as nat),
            part <= whole,
    {
        proof {
            use_type_invariant(self);
            lemma_part_within_whole(
                self.billionths as int,
                whole as int,
                UNIT_VALUE_SCALE as int,
            );
            assert(self.billionths * whole < 0x1_0000_0000 * 0x1_0000_0000_0000_0000)
                by (nonlinear_arith)
                requires
                    0 <= self.billionths < 0x1_0000_0000,
                    0 <= whole < 0x1_0000_0000_0000_0000,
            ;
        }
        let scaled: u128 = self.billionths as u128 * whole as u128;
        let quotient: u128 = scaled / UNIT_VALUE_SCALE as u128;
        quotient as u64
    }
}

} // verus!
