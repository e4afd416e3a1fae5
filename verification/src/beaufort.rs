//! The Beaufort wind scale: wind force on one side, wind speed in metres per
//! second on the other. The scale is banded, so the two directions are not
//! inverse to each other.

use vstd::prelude::*;
use crate::binary64::{
    doubled_floor, doubled_magnitude_floor, from_halves, halves, is_nan, is_negative, lemma_halves,
    lemma_magnitude_nonnegative, magnitude, value,
};
use crate::conversion::UnitConversion;

verus! {

/// A number cut off at its decimal point: rounded toward zero.
pub open spec fn truncated(x: real) -> int {
    if x >= 0 as real {
        x.floor()
    } else {
        -((-x).floor())
    }
}

/// Twice the wind speed, in metres per second, that stands for a wind force.
/// Forces outside the scale count as the strongest one.
pub open spec fn doubled_speed_of_force(force: int) -> int {
    if force == 0 {
        0
    } else if force == 1 {
        3
    } else if force == 2 {
        6
    } else if force == 3 {
        10
    } else if force == 4 {
        15
    } else if force == 5 {
        20
    } else if force == 6 {
        25
    } else if force == 7 {
        31
    } else if force == 8 {
        37
    } else if force == 9 {
        44
    } else if force == 10 {
        52
    } else if force == 11 {
        60
    } else {
        70
    }
}

/// The wind speed, in metres per second, that stands for a wind force given
/// as a number: the number is cut off at its decimal point first.
pub open spec fn speed_of_force(force: real) -> real {
    doubled_speed_of_force(truncated(force)) as real / 2 as real
}

/// The band of the scale that a doubled wind speed, in metres per second,
/// falls into.
pub open spec fn force_of_doubled_speed(doubled: real) -> int {
    if doubled < 1 as real {
        0
    } else if doubled < 4 as real {
        1
    } else if doubled < 8 as real {
        2
    } else if doubled < 12 as real {
        3
    } else if doubled < 18 as real {
        4
    } else if doubled < 22 as real {
        5
    } else if doubled < 28 as real {
        6
    } else if doubled < 34 as real {
        7
    } else if doubled < 42 as real {
        8
    } else if doubled < 48 as real {
        9
    } else if doubled < 56 as real {
        10
    } else if doubled < 66 as real {
        11
    } else {
        12
    }
}

/// The wind force of a wind speed in metres per second.
pub open spec fn force_of_speed(speed: real) -> real {
    force_of_doubled_speed(speed * 2 as real) as real
}

/// The pattern of the wind speed that stands for the wind force that a
/// pattern holds. A not-a-number is no force of the scale and so gets the
/// speed of the strongest one.
pub open spec fn spec_beaufort_to_mps(beaufort: u64) -> u64 {
    if is_nan(beaufort) {
        halves(70)
    } else {
        halves(doubled_speed_of_force(truncated(value(beaufort))) as nat)
    }
}

/// The pattern of the wind force of the wind speed that a pattern holds. A
/// not-a-number is below no limit of a band and so counts as the strongest
/// force.
pub open spec fn spec_mps_to_beaufort(mps: u64) -> u64 {
    if is_nan(mps) {
        halves(24)
    } else {
        halves((2 * force_of_doubled_speed(value(mps) * 2 as real)) as nat)
    }
}

/// On numbers, the wind speed of a wind force is the one that the scale
/// gives.
pub proof fn lemma_beaufort_to_mps_value(beaufort: u64)
    requires
        !is_nan(beaufort),
    ensures
        value(spec_beaufort_to_mps(beaufort)) == speed_of_force(value(beaufort)),
        !is_nan(spec_beaufort_to_mps(beaufort)),
{
    lemma_halves(doubled_speed_of_force(truncated(value(beaufort))) as nat);
}

/// On numbers, the wind force of a wind speed is the one that the scale
/// gives.
pub proof fn lemma_mps_to_beaufort_value(mps: u64)
    requires
        !is_nan(mps),
    ensures
        value(spec_mps_to_beaufort(mps)) == force_of_speed(value(mps)),
        !is_nan(spec_mps_to_beaufort(mps)),
{
    let force = force_of_doubled_speed(value(mps) * 2 as real);
    lemma_halves((2 * force) as nat);
    assert((2 * force) as real / 2 as real == force as real);
}

impl UnitConversion {
    /// Turns a Beaufort wind force into a wind speed in metres per second.
    /// Both are double-precision numbers given by their bit patterns. The
    /// force is cut off at its decimal point; forces outside the scale, and
    /// what is no number at all, get the speed of the strongest one.
    pub fn beaufort_to_mps(beaufort: u64) -> (mps: u64)
        ensures
            mps == spec_beaufort_to_mps(beaufort),
    {
        if is_nan(beaufort) {
            return from_halves(70);
        }
        let whole = doubled_floor(beaufort) / 2;
        assert(whole == 0 <==> magnitude(beaufort).floor() == 0);
        assert(whole < 13 ==> magnitude(beaufort).floor() == whole);
        assert(whole >= 13 ==> magnitude(beaufort).floor() >= 13);
        if is_negative(beaufort) {
            if whole == 0 {
                from_halves(0)
            } else {
                from_halves(70)
            }
        } else if whole == 0 {
            from_halves(0)
        } else if whole == 1 {
            from_halves(3)
        } else if whole == 2 {
            from_halves(6)
        } else if whole == 3 {
            from_halves(10)
        } else if whole == 4 {
            from_halves(15)
        } else if whole == 5 {
            from_halves(20)
        } else if whole == 6 {
            from_halves(25)
        } else if whole == 7 {
            from_halves(31)
        } else if whole == 8 {
            from_halves(37)
        } else if whole == 9 {
            from_halves(44)
        } else if whole == 10 {
            from_halves(52)
        } else if whole == 11 {
            from_halves(60)
        } else {
            from_halves(70)
        }
    }

    /// Turns a wind speed in metres per second into a Beaufort wind force.
    /// Both are double-precision numbers given by their bit patterns.
    pub fn mps_to_beaufort(mps: u64) -> (beaufort: u64)
        ensures
            beaufort == spec_mps_to_beaufort(mps),
    {
        if is_nan(mps) {
            return from_halves(24);
        }
        if is_negative(mps) {
            proof {
                lemma_magnitude_nonnegative(mps);
            }
            return from_halves(0);
        }
        let doubled = doubled_floor(mps);
        assert(doubled_magnitude_floor(mps) == (value(mps) * (2 as real)).floor());
        if doubled < 1 {
            from_halves(0)
        } else if doubled < 4 {
            from_halves(2)
        } else if doubled < 8 {
            from_halves(4)
        } else if doubled < 12 {
            from_halves(6)
        } else if doubled < 18 {
            from_halves(8)
        } else if doubled < 22 {
            from_halves(10)
        } else if doubled < 28 {
            from_halves(12)
        } else if doubled < 34 {
            from_halves(14)
        } else if doubled < 42 {
            from_halves(16)
        } else if doubled < 48 {
            from_halves(18)
        } else if doubled < 56 {
            from_halves(20)
        } else if doubled < 66 {
            from_halves(22)
        } else {
            from_halves(24)
        }
    }
}

} // verus!
