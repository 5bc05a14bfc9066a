//! Evacuation-flow speed through a transit opening.
//!
//! The piecewise model: below the free-flow density the speed is the base
//! speed; above it, a velocity-density relation is corrected by a congestion
//! multiplier, and near jam density a width-based capacity ceiling replaces
//! the velocity-based flow intensity.
//!
//! All values are exact rationals. The one transcendental ingredient, the
//! natural logarithm of `density / d0`, is not computable over the rationals:
//! callers evaluate it (for example in floating point) and pass the value in
//! as a rational, and every contract here is exact in that supplied value.

use vstd::prelude::*;

use crate::rational::Rat;
use crate::rational::Ratio;
use crate::rational::lemma_mul_in_range;
use crate::rational::rat_add;
use crate::rational::rat_div;
use crate::rational::rat_from_int;
use crate::rational::rat_in_bound;
use crate::rational::rat_le;
use crate::rational::rat_lt;
use crate::rational::rat_mul;
use crate::rational::rat_sub;

verus! {

/// A logarithm or a division was asked for outside its domain: a
/// non-positive argument to the logarithm, or a zero reduced density
/// in the congested regime.
#[derive(Clone, Copy, Debug, PartialEq, Eq, Structural)]
pub struct InvalidDomainError;

/// Base (unobstructed) flow speed, 100 m/min.
pub open spec fn base_speed() -> Rat {
    Rat { n: 100, d: 1 }
}

/// Path-kind coefficient of the velocity relation, 0.295.
pub open spec fn path_coefficient() -> Rat {
    Rat { n: 59, d: 200 }
}

/// Free-flow density threshold, 0.65 persons/m^2.
pub open spec fn free_density() -> Rat {
    Rat { n: 13, d: 20 }
}

/// Reduced density up to which the congestion multiplier stays 1, 0.5.
pub open spec fn multiplier_knee() -> Rat {
    Rat { n: 1, d: 2 }
}

/// Intercept of the decreasing part of the congestion multiplier, 1.25.
pub open spec fn multiplier_base() -> Rat {
    Rat { n: 5, d: 4 }
}

/// Reduced density at which the jam capacity ceiling takes over, 0.9.
pub open spec fn jam_density() -> Rat {
    Rat { n: 9, d: 10 }
}

/// Opening width below which the narrow-opening ceiling applies, 1.6 m.
pub open spec fn narrow_width() -> Rat {
    Rat { n: 8, d: 5 }
}

/// Intercept of the narrow-opening ceiling, 2.5.
pub open spec fn narrow_base() -> Rat {
    Rat { n: 5, d: 2 }
}

/// Slope of the narrow-opening ceiling, 3.75.
pub open spec fn narrow_slope() -> Rat {
    Rat { n: 15, d: 4 }
}

/// Capacity ceiling of a wide opening, 8.5.
pub open spec fn wide_ceiling() -> Rat {
    Rat { n: 17, d: 2 }
}

/// The base velocity-density relation `v0 * (1 - a * ln_ratio)`, where
/// `ln_ratio` stands for the natural logarithm of `d / d0`.
pub open spec fn spec_velocity(v0: Rat, a: Rat, ln_ratio: Rat) -> Rat {
    rat_mul(v0, rat_sub(rat_from_int(1), rat_mul(a, ln_ratio)))
}

/// Reduced density: crowd density times the projection area of the element.
pub open spec fn spec_reduced_density(density: Rat, projection_area: Rat) -> Rat {
    rat_mul(density, projection_area)
}

/// Congestion multiplier: 1 up to the knee, then `1.25 - 0.5 * d`.
pub open spec fn spec_congestion_multiplier(d: Rat) -> Rat {
    if rat_le(d, multiplier_knee()) {
        rat_from_int(1)
    } else {
        rat_sub(multiplier_base(), rat_mul(multiplier_knee(), d))
    }
}

/// Width-based flow-intensity ceiling under jam density:
/// `2.5 + 3.75 * width` for a narrow opening, 8.5 otherwise.
pub open spec fn spec_jam_ceiling(width: Rat) -> Rat {
    if rat_lt(width, narrow_width()) {
        rat_add(narrow_base(), rat_mul(narrow_slope(), width))
    } else {
        wide_ceiling()
    }
}

/// The full piecewise transit-speed model. Meaningful whenever
/// `spec_transit_domain_ok` holds of the inputs.
pub open spec fn spec_speed_through_transit(
    projection_area: Rat,
    width: Rat,
    density: Rat,
    ln_ratio: Rat,
) -> Rat {
    if rat_le(density, free_density()) {
        base_speed()
    } else {
        let d = spec_reduced_density(density, projection_area);
        if rat_le(jam_density(), d) {
            rat_div(spec_jam_ceiling(width), d)
        } else {
            rat_div(
                rat_mul(
                    rat_mul(spec_velocity(base_speed(), path_coefficient(), ln_ratio), d),
                    spec_congestion_multiplier(d),
                ),
                d,
            )
        }
    }
}

/// The transit-speed model has no domain error: either the flow is free, or
/// the reduced density is nonzero so the final division is defined.
pub open spec fn spec_transit_domain_ok(projection_area: Rat, density: Rat) -> bool {
    rat_le(density, free_density()) || spec_reduced_density(density, projection_area).n != 0
}

/// Base velocity-density relation.
///
/// `ln_ratio` must be the natural logarithm of `d / d0`, evaluated by the
/// caller (the logarithm itself is not a rational function); the result is
/// then exactly `v0 * (1 - a * ln_ratio)`. The call fails with
/// `InvalidDomainError` exactly when `d0 <= 0` or `d <= 0`, the inputs on
/// which that logarithm is undefined.
///
/// Inputs are bounded by 4096 in numerator and denominator so that every
/// intermediate `i128` product provably fits.
pub fn velocity(v0: Ratio, a: Ratio, d0: Ratio, d: Ratio, ln_ratio: Ratio) -> (result: Result<
    Ratio,
    InvalidDomainError,
>)
    requires
        rat_in_bound(v0@, 4096),
        rat_in_bound(a@, 4096),
        rat_in_bound(d0@, 4096),
        rat_in_bound(d@, 4096),
        rat_in_bound(ln_ratio@, 4096),
    ensures
        result is Ok <==> (d0@.n > 0 && d@.n > 0),
        result matches Ok(r) ==> r.wf(),
        result matches Ok(r) ==> r@ == spec_velocity(v0@, a@, ln_ratio@),
        result matches Ok(r) ==> rat_in_bound(r@, 137438953472),
{
    if d0.num <= 0 || d.num <= 0 {
        return Err(InvalidDomainError);
    }
    proof {
        lemma_mul_in_range(a.num as int, ln_ratio.num as int, 4096, 4096);
        lemma_mul_in_range(a.den as int, ln_ratio.den as int, 4096, 4096);
    }
    let a_ln = a.times(&ln_ratio);
    let one_minus = Ratio::from_int(1).minus(&a_ln);
    proof {
        lemma_mul_in_range(v0.num as int, one_minus.num as int, 4096, 33554432);
        lemma_mul_in_range(v0.den as int, one_minus.den as int, 4096, 16777216);
    }
    Ok(v0.times(&one_minus))
}

/// Evacuation-flow speed through an opening, in m/min.
///
/// Below the free-flow density the result is the base speed, 100 m/min,
/// whatever the projection area and width. Above it, the flow intensity
/// `velocity * d * m` (with `d` the reduced density and `m` the congestion
/// multiplier) is divided by `d`; at jam density, `d >= 0.9`, the intensity
/// is replaced by the width-based capacity ceiling first. The call fails
/// with `InvalidDomainError` exactly when the congested branch is entered
/// with a reduced density of zero, where that division is undefined.
///
/// `ln_density_ratio` must be the natural logarithm of `density / 0.65`,
/// evaluated by the caller; it is only consulted in the congested regime,
/// where `density / 0.65 > 1` keeps the logarithm well defined.
///
/// Inputs are bounded by 4096 in numerator and denominator so that every
/// intermediate `i128` product provably fits.
pub fn speed_through_transit(
    projection_area: Ratio,
    width: Ratio,
    density: Ratio,
    ln_density_ratio: Ratio,
) -> (result: Result<Ratio, InvalidDomainError>)
    requires
        rat_in_bound(projection_area@, 4096),
        rat_in_bound(width@, 4096),
        rat_in_bound(density@, 4096),
        rat_in_bound(ln_density_ratio@, 4096),
    ensures
        result is Ok <==> spec_transit_domain_ok(projection_area@, density@),
        result matches Ok(r) ==> r.wf(),
        result matches Ok(r) ==> r@ == spec_speed_through_transit(
            projection_area@,
            width@,
            density@,
            ln_density_ratio@,
        ),
{
    let d0 = Ratio::new(13, 20);
    if density.is_le(&d0) {
        return Ok(Ratio::from_int(100));
    }
    proof {
        lemma_mul_in_range(density.num as int, projection_area.num as int, 4096, 4096);
        lemma_mul_in_range(density.den as int, projection_area.den as int, 4096, 4096);
    }
    let d = density.times(&projection_area);
    if d.num == 0 {
        return Err(InvalidDomainError);
    }
    let half = Ratio::new(1, 2);
    let m = if d.is_le(&half) {
        Ratio::from_int(1)
    } else {
        Ratio::new(5, 4).minus(&half.times(&d))
    };
    assert(-234881024 <= m.num <= 234881024 && 0 < m.den <= 134217728);
    let v = match velocity(Ratio::from_int(100), Ratio::new(59, 200), d0, density, ln_density_ratio) {
        Ok(v) => v,
        Err(e) => {
            return Err(e);
        },
    };
    proof {
        lemma_mul_in_range(v.num as int, d.num as int, 137438953472, 16777216);
        lemma_mul_in_range(v.den as int, d.den as int, 137438953472, 16777216);
    }
    let q_velocity = v.times(&d);
    proof {
        lemma_mul_in_range(q_velocity.num as int, m.num as int, 2305843009213693952, 234881024);
        lemma_mul_in_range(q_velocity.den as int, m.den as int, 2305843009213693952, 134217728);
    }
    let jam = Ratio::new(9, 10);
    let q = if jam.is_le(&d) {
        if width.is_lt(&Ratio::new(8, 5)) {
            Ratio::new(5, 2).plus(&Ratio::new(15, 4).times(&width))
        } else {
            Ratio::new(17, 2)
        }
    } else {
        q_velocity.times(&m)
    };
    assert(-541598767187353870268366848 <= q.num <= 541598767187353870268366848);
    assert(0 < q.den <= 541598767187353870268366848);
    proof {
        lemma_mul_in_range(q.num as int, d.den as int, 541598767187353870268366848, 16777216);
        lemma_mul_in_range(q.den as int, d.num as int, 541598767187353870268366848, 16777216);
    }
    Ok(q.div_by(&d))
}

} // verus!
