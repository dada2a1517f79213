use vstd::prelude::*;
use crate::units::{Unit, is_energy, base_units_in};

verus! {

/// BTU in one cubic foot of gas.
pub const BTU_PER_CUBIC_FOOT: u64 = 1038;

/// Cubic feet per BTU, in ten-millionths (0.0009634).
pub const CUBIC_FEET_PER_BTU_E7: u64 = 9634;

/// Ten to the seventh: the denominator of `CUBIC_FEET_PER_BTU_E7`.
pub const TEN_MILLION: u64 = 10000000;

/// How a figure is brought from one unit to another: multiplied by an exact
/// fraction, or divided by a whole number.
#[derive(Clone, Copy, Debug, PartialEq, Eq, Structural)]
pub enum Factor {
    /// Multiply by `numerator / denominator`.
    Times { numerator: u64, denominator: u64 },
    /// Divide by `divisor`.
    Over { divisor: u64 },
}

/// The exact rate of a factor, as numerator and denominator.
pub open spec fn factor_ratio(f: Factor) -> (nat, nat) {
    match f {
        Factor::Times { numerator, denominator } => (numerator as nat, denominator as nat),
        Factor::Over { divisor } => (1, divisor as nat),
    }
}

/// The rate that converts a figure in `from` to one in `to`, as numerator and
/// denominator.
///
/// Within a kind it is the ratio of the units' sizes. From volume to energy a
/// cubic foot holds 1038 BTU. From energy to volume the table takes 0.0009634
/// per BTU and scales it by the size of the target unit in cubic feet.
pub open spec fn rate(from: Unit, to: Unit) -> (nat, nat) {
    if is_energy(from) == is_energy(to) {
        (base_units_in(from), base_units_in(to))
    } else if is_energy(to) {
        (base_units_in(from) * (BTU_PER_CUBIC_FOOT as nat), base_units_in(to))
    } else {
        (base_units_in(from) * (CUBIC_FEET_PER_BTU_E7 as nat) * base_units_in(to), TEN_MILLION as nat)
    }
}

/// Whether two rates, as numerator and denominator, are the same number.
pub open spec fn same_rate(a: (nat, nat), b: (nat, nat)) -> bool {
    a.0 * b.1 == b.0 * a.1
}

/// Whether converting from `from` to `to` divides: within one kind, towards a
/// larger unit.
pub open spec fn divides(from: Unit, to: Unit) -> bool {
    is_energy(from) == is_energy(to) && base_units_in(to) > base_units_in(from)
}

/// The factor that converts a figure in `from` into one in `to`.
///
/// It divides by a whole number where the target is a larger unit of the same
/// kind, and otherwise multiplies by a fraction whose parts are exact in a
/// double-precision float.
pub fn conversion_factor(from: Unit, to: Unit) -> (r: Factor)
    ensures
        same_rate(factor_ratio(r), rate(from, to)),
        factor_ratio(r).1 > 0,
        divides(from, to) ==> r == (Factor::Over {
            divisor: (base_units_in(to) / base_units_in(from)) as u64,
        }),
        !divides(from, to) ==> r == (Factor::Times {
            numerator: rate(from, to).0 as u64,
            denominator: rate(from, to).1 as u64,
        }),
        factor_ratio(r).0 <= 0x20000000000000,
        factor_ratio(r).1 <= 0x20000000000000,
{
    let a = from.base_units();
    let b = to.base_units();
    if from.is_energy() == to.is_energy() {
        if b > a {
            assert(b % a == 0 && b / a > 0) by {
                assert(a == 1 || a == 100 || a == 1000);
            }
            let d = b / a;
            assert(d * a == b) by (nonlinear_arith)
                requires b % a == 0, d == b / a, a > 0;
            Factor::Over { divisor: d }
        } else {
            Factor::Times { numerator: a, denominator: b }
        }
    } else if to.is_energy() {
        Factor::Times { numerator: a * BTU_PER_CUBIC_FOOT, denominator: b }
    } else {
        assert(a * CUBIC_FEET_PER_BTU_E7 * b <= 1000000 * 9634 * 1000) by (nonlinear_arith)
            requires a <= 1000000, b <= 1000;
        Factor::Times { numerator: a * CUBIC_FEET_PER_BTU_E7 * b, denominator: TEN_MILLION }
    }
}

/// Converting within one kind and back is exact: the two rates multiply to
/// one.
pub proof fn lemma_round_trip_within_kind(a: Unit, b: Unit)
    requires
        is_energy(a) == is_energy(b),
    ensures
        rate(a, b).0 * rate(b, a).0 == rate(a, b).1 * rate(b, a).1,
{
    assert(base_units_in(a) * base_units_in(b) == base_units_in(b) * base_units_in(a))
        by (nonlinear_arith);
}

} // verus!
