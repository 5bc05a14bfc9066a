//! Proved laws of the transit-speed model.
//!
//! Each proof function here states a property of the piecewise flow model as
//! a whole — behaviour that relates several of its pieces, or several calls,
//! and that a single function contract does not spell out on its own.

use vstd::prelude::*;

use crate::flow::base_speed;
use crate::flow::free_density;
use crate::flow::jam_density;
use crate::flow::multiplier_base;
use crate::flow::multiplier_knee;
use crate::flow::path_coefficient;
use crate::flow::spec_congestion_multiplier;
use crate::flow::spec_jam_ceiling;
use crate::flow::spec_reduced_density;
use crate::flow::spec_speed_through_transit;
use crate::flow::spec_velocity;
use crate::rational::Rat;
use crate::rational::rat_div;
use crate::rational::lemma_rat_div_antitone;
use crate::rational::lemma_rat_div_product_cancel;
use crate::rational::lemma_rat_div_wf;
use crate::rational::lemma_rat_le_congruence;
use crate::rational::lemma_rat_le_trans;
use crate::rational::lemma_rat_mul_le_left;
use crate::rational::lemma_rat_mul_le_nonneg;
use crate::rational::lemma_rat_mul_le_right;
use crate::rational::lemma_rat_mul_nonneg;
use crate::rational::lemma_rat_mul_wf;
use crate::rational::lemma_rat_sub_antitone;
use crate::rational::lemma_rat_sub_wf;
use crate::rational::rat_eq;
use crate::rational::rat_from_int;
use crate::rational::rat_le;
use crate::rational::rat_lt;
use crate::rational::rat_mul;
use crate::rational::rat_sub;
use crate::rational::rat_wf;

verus! {

/// Below the free-flow density the transit speed is the base speed exactly,
/// whatever the projection area, the width and the supplied logarithm.
pub proof fn lemma_free_flow_speed(
    projection_area: Rat,
    width: Rat,
    density: Rat,
    ln_ratio: Rat,
)
    requires
        rat_wf(density),
        rat_le(density, free_density()),
    ensures
        spec_speed_through_transit(projection_area, width, density, ln_ratio) == base_speed(),
{
}

/// With a logarithm equal to zero the velocity relation returns the initial
/// speed unchanged, whatever the path coefficient: `v0 * (1 - a * 0) = v0`.
pub proof fn lemma_velocity_zero_log(v0: Rat, a: Rat, ln_ratio: Rat)
    requires
        rat_wf(v0),
        rat_wf(a),
        rat_wf(ln_ratio),
        rat_eq(ln_ratio, rat_from_int(0)),
    ensures
        rat_eq(spec_velocity(v0, a, ln_ratio), v0),
{
    assert(ln_ratio.n == 0);
    assert((v0.n * (1 * (a.d * ln_ratio.d) - a.n * 0 * 1)) * v0.d == v0.n * (v0.d * (1 * (a.d
        * ln_ratio.d)))) by (nonlinear_arith);
}

/// In the congested regime the model switches exactly at the jam threshold:
/// at and above a reduced density of 0.9 the speed is the width ceiling over
/// the reduced density, below it the velocity-based flow intensity over the
/// reduced density.
pub proof fn lemma_jam_override(projection_area: Rat, width: Rat, density: Rat, ln_ratio: Rat)
    requires
        rat_wf(density),
        !rat_le(density, free_density()),
    ensures
        rat_le(jam_density(), spec_reduced_density(density, projection_area))
            ==> spec_speed_through_transit(projection_area, width, density, ln_ratio)
            == rat_div(
            spec_jam_ceiling(width),
            spec_reduced_density(density, projection_area),
        ),
        !rat_le(jam_density(), spec_reduced_density(density, projection_area))
            ==> spec_speed_through_transit(projection_area, width, density, ln_ratio)
            == rat_div(
            rat_mul(
                rat_mul(
                    spec_velocity(base_speed(), path_coefficient(), ln_ratio),
                    spec_reduced_density(density, projection_area),
                ),
                spec_congestion_multiplier(spec_reduced_density(density, projection_area)),
            ),
            spec_reduced_density(density, projection_area),
        ),
{
}

/// The velocity relation is well formed on well-formed inputs.
pub proof fn lemma_velocity_wf(v0: Rat, a: Rat, ln_ratio: Rat)
    requires
        rat_wf(v0),
        rat_wf(a),
        rat_wf(ln_ratio),
    ensures
        rat_wf(spec_velocity(v0, a, ln_ratio)),
{
    lemma_rat_mul_wf(a, ln_ratio);
    lemma_rat_sub_wf(rat_from_int(1), rat_mul(a, ln_ratio));
    lemma_rat_mul_wf(v0, rat_sub(rat_from_int(1), rat_mul(a, ln_ratio)));
}

/// The velocity relation does not increase when the logarithm grows, for a
/// nonnegative initial speed and path coefficient.
pub proof fn lemma_velocity_antitone(v0: Rat, a: Rat, ln1: Rat, ln2: Rat)
    requires
        rat_wf(v0),
        rat_wf(a),
        rat_wf(ln1),
        rat_wf(ln2),
        v0.n >= 0,
        a.n >= 0,
        rat_le(ln1, ln2),
    ensures
        rat_le(spec_velocity(v0, a, ln2), spec_velocity(v0, a, ln1)),
{
    let one = rat_from_int(1);
    lemma_rat_mul_wf(a, ln1);
    lemma_rat_mul_wf(a, ln2);
    lemma_rat_mul_le_left(a, ln1, ln2);
    lemma_rat_sub_antitone(one, rat_mul(a, ln1), rat_mul(a, ln2));
    lemma_rat_sub_wf(one, rat_mul(a, ln1));
    lemma_rat_sub_wf(one, rat_mul(a, ln2));
    lemma_rat_mul_le_left(v0, rat_sub(one, rat_mul(a, ln2)), rat_sub(one, rat_mul(a, ln1)));
}

/// The velocity relation stays nonnegative as long as the congestion term
/// `a * ln_ratio` does not exceed 1.
pub proof fn lemma_velocity_nonneg(v0: Rat, a: Rat, ln_ratio: Rat)
    requires
        rat_wf(v0),
        rat_wf(a),
        rat_wf(ln_ratio),
        v0.n >= 0,
        rat_le(rat_mul(a, ln_ratio), rat_from_int(1)),
    ensures
        rat_le(rat_from_int(0), spec_velocity(v0, a, ln_ratio)),
{
    let one = rat_from_int(1);
    lemma_rat_mul_wf(a, ln_ratio);
    lemma_rat_sub_wf(one, rat_mul(a, ln_ratio));
    assert(rat_le(rat_from_int(0), rat_sub(one, rat_mul(a, ln_ratio))));
    lemma_rat_mul_nonneg(v0, rat_sub(one, rat_mul(a, ln_ratio)));
}

/// With a nonnegative logarithm the velocity relation never exceeds the
/// initial speed.
pub proof fn lemma_velocity_le_base(v0: Rat, a: Rat, ln_ratio: Rat)
    requires
        rat_wf(v0),
        rat_wf(a),
        rat_wf(ln_ratio),
        v0.n >= 0,
        a.n >= 0,
        rat_le(rat_from_int(0), ln_ratio),
    ensures
        rat_le(spec_velocity(v0, a, ln_ratio), v0),
{
    let one = rat_from_int(1);
    let zero = rat_from_int(0);
    lemma_rat_mul_wf(a, ln_ratio);
    lemma_rat_mul_nonneg(a, ln_ratio);
    lemma_rat_sub_antitone(one, zero, rat_mul(a, ln_ratio));
    lemma_rat_sub_wf(one, rat_mul(a, ln_ratio));
    assert(rat_sub(one, zero) == one);
    lemma_rat_mul_le_left(v0, rat_sub(one, rat_mul(a, ln_ratio)), one);
    assert(rat_mul(v0, one) == v0);
}

/// The congestion multiplier is well formed.
pub proof fn lemma_congestion_multiplier_wf(d: Rat)
    requires
        rat_wf(d),
    ensures
        rat_wf(spec_congestion_multiplier(d)),
{
    if !rat_le(d, multiplier_knee()) {
        lemma_rat_mul_wf(multiplier_knee(), d);
        lemma_rat_sub_wf(multiplier_base(), rat_mul(multiplier_knee(), d));
    }
}

/// The congestion multiplier never exceeds 1.
pub proof fn lemma_congestion_multiplier_le_one(d: Rat)
    requires
        rat_wf(d),
    ensures
        rat_le(spec_congestion_multiplier(d), rat_from_int(1)),
{
}

/// Below the jam threshold the congestion multiplier stays nonnegative.
pub proof fn lemma_congestion_multiplier_nonneg(d: Rat)
    requires
        rat_wf(d),
        rat_lt(d, jam_density()),
    ensures
        rat_le(rat_from_int(0), spec_congestion_multiplier(d)),
{
}

/// The congestion multiplier does not increase when the reduced density
/// grows.
pub proof fn lemma_congestion_multiplier_antitone(d1: Rat, d2: Rat)
    requires
        rat_wf(d1),
        rat_wf(d2),
        rat_le(d1, d2),
    ensures
        rat_le(spec_congestion_multiplier(d2), spec_congestion_multiplier(d1)),
{
    let knee = multiplier_knee();
    if rat_le(d2, knee) {
        lemma_rat_le_trans(d1, d2, knee);
    } else if rat_le(d1, knee) {
        // multiplier 1 against the decreasing branch, which is below 1 there
    } else {
        assert((10 * d2.d - 4 * d2.n) * (8 * d1.d) <= (10 * d1.d - 4 * d1.n) * (8 * d2.d))
            by (nonlinear_arith)
            requires
                d1.d > 0,
                d2.d > 0,
                d1.n * d2.d <= d2.n * d1.d,
        ;
    }
}

/// The width-based jam ceiling is well formed and nonnegative for a
/// nonnegative width.
pub proof fn lemma_jam_ceiling_nonneg(width: Rat)
    requires
        rat_wf(width),
        rat_le(rat_from_int(0), width),
    ensures
        rat_wf(spec_jam_ceiling(width)),
        rat_le(rat_from_int(0), spec_jam_ceiling(width)),
{
}

/// Monotonicity below the jam threshold: with the projection area and the
/// width fixed, raising the density (together with its logarithm, since the
/// logarithm is increasing) does not increase the transit speed, as long as
/// the higher reduced density stays below the jam threshold and the
/// congestion term `a * ln2` does not drive the velocity negative.
pub proof fn lemma_speed_antitone_below_jam(
    projection_area: Rat,
    width: Rat,
    density1: Rat,
    density2: Rat,
    ln1: Rat,
    ln2: Rat,
)
    requires
        rat_wf(projection_area),
        rat_wf(width),
        rat_wf(density1),
        rat_wf(density2),
        rat_wf(ln1),
        rat_wf(ln2),
        rat_lt(rat_from_int(0), projection_area),
        rat_le(density1, density2),
        rat_le(ln1, ln2),
        rat_le(rat_from_int(0), ln1),
        rat_le(rat_mul(path_coefficient(), ln2), rat_from_int(1)),
        rat_lt(spec_reduced_density(density2, projection_area), jam_density()),
    ensures
        rat_le(
            spec_speed_through_transit(projection_area, width, density2, ln2),
            spec_speed_through_transit(projection_area, width, density1, ln1),
        ),
{
    let pa = projection_area;
    let base = base_speed();
    let a = path_coefficient();
    let one = rat_from_int(1);
    let zero = rat_from_int(0);
    if rat_le(density2, free_density()) {
        lemma_rat_le_trans(density1, density2, free_density());
    } else {
        let d2 = spec_reduced_density(density2, pa);
        let v2 = spec_velocity(base, a, ln2);
        let m2 = spec_congestion_multiplier(d2);
        lemma_rat_mul_wf(density2, pa);
        assert(density2.n > 0);
        assert(d2.n > 0) by (nonlinear_arith)
            requires
                density2.n > 0,
                pa.n > 0,
                d2.n == density2.n * pa.n,
        ;
        lemma_velocity_wf(base, a, ln2);
        lemma_congestion_multiplier_wf(d2);
        lemma_rat_le_trans(zero, ln1, ln2);
        lemma_velocity_nonneg(base, a, ln2);
        lemma_velocity_le_base(base, a, ln2);
        lemma_congestion_multiplier_le_one(d2);
        lemma_congestion_multiplier_nonneg(d2);
        lemma_rat_div_product_cancel(v2, d2, m2);
        lemma_rat_mul_wf(v2, d2);
        lemma_rat_mul_wf(rat_mul(v2, d2), m2);
        lemma_rat_div_wf(rat_mul(rat_mul(v2, d2), m2), d2);
        lemma_rat_mul_wf(v2, m2);
        let speed2 = spec_speed_through_transit(pa, width, density2, ln2);
        if rat_le(density1, free_density()) {
            lemma_rat_mul_le_nonneg(base, v2, one, m2);
            assert(rat_mul(base, one) == base);
            lemma_rat_le_congruence(speed2, rat_mul(v2, m2), base, base);
        } else {
            let d1 = spec_reduced_density(density1, pa);
            let v1 = spec_velocity(base, a, ln1);
            let m1 = spec_congestion_multiplier(d1);
            lemma_rat_mul_wf(density1, pa);
            assert(density1.n > 0);
            assert(d1.n > 0) by (nonlinear_arith)
                requires
                    density1.n > 0,
                    pa.n > 0,
                    d1.n == density1.n * pa.n,
            ;
            lemma_rat_mul_le_right(pa, density1, density2);
            if rat_le(jam_density(), d1) {
                lemma_rat_le_trans(jam_density(), d1, d2);
                assert(false);
            }
            lemma_velocity_wf(base, a, ln1);
            lemma_congestion_multiplier_wf(d1);
            lemma_velocity_antitone(base, a, ln1, ln2);
            lemma_congestion_multiplier_antitone(d1, d2);
            lemma_rat_div_product_cancel(v1, d1, m1);
            lemma_rat_mul_wf(v1, d1);
            lemma_rat_mul_wf(rat_mul(v1, d1), m1);
            lemma_rat_div_wf(rat_mul(rat_mul(v1, d1), m1), d1);
            lemma_rat_mul_wf(v1, m1);
            lemma_rat_mul_le_nonneg(v1, v2, m1, m2);
            let speed1 = spec_speed_through_transit(pa, width, density1, ln1);
            lemma_rat_le_congruence(speed2, rat_mul(v2, m2), speed1, rat_mul(v1, m1));
        }
    }
}

/// Monotonicity in the jam regime: with the projection area and a
/// nonnegative width fixed, once the lower density already reaches the jam
/// threshold, raising the density does not increase the transit speed. The
/// supplied logarithms play no role there: the ceiling formula ignores them.
pub proof fn lemma_speed_antitone_jam(
    projection_area: Rat,
    width: Rat,
    density1: Rat,
    density2: Rat,
    ln1: Rat,
    ln2: Rat,
)
    requires
        rat_wf(projection_area),
        rat_wf(width),
        rat_wf(density1),
        rat_wf(density2),
        rat_wf(ln1),
        rat_wf(ln2),
        rat_lt(rat_from_int(0), projection_area),
        rat_le(rat_from_int(0), width),
        rat_lt(free_density(), density1),
        rat_le(density1, density2),
        rat_le(jam_density(), spec_reduced_density(density1, projection_area)),
    ensures
        rat_le(
            spec_speed_through_transit(projection_area, width, density2, ln2),
            spec_speed_through_transit(projection_area, width, density1, ln1),
        ),
{
    let pa = projection_area;
    let d1 = spec_reduced_density(density1, pa);
    let d2 = spec_reduced_density(density2, pa);
    lemma_rat_mul_wf(density1, pa);
    lemma_rat_mul_wf(density2, pa);
    if rat_le(density1, free_density()) {
        assert(false);
    }
    if rat_le(density2, free_density()) {
        lemma_rat_le_trans(density1, density2, free_density());
        assert(false);
    }
    lemma_rat_mul_le_right(pa, density1, density2);
    lemma_rat_le_trans(jam_density(), d1, d2);
    assert(d1.n > 0);
    lemma_jam_ceiling_nonneg(width);
    let ceiling = spec_jam_ceiling(width);
    assert(ceiling.n >= 0);
    lemma_rat_div_antitone(ceiling, d1, d2);
}

} // verus!
