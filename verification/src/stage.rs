//! The stages of the adjustment chain and the order in which they run.

use vstd::prelude::*;
use crate::bands::{band_table, has_hsl, mixer_runs};
use crate::scalar::{
    lemma_above_epsilon_patterns,
    lemma_away_from_one_patterns,
    lemma_magnitude_above_epsilon_patterns,
    Scalar,
};
use crate::settings::{neutral_settings, ImageSettings};

verus! {

/// One stage of the per-pixel adjustment chain.
#[derive(Clone, Copy, Debug, PartialEq, Eq, Structural)]
pub enum Stage {
    /// Multiplies by two to the power of the exposure.
    Exposure,
    /// Applies the channel gains of temperature and tint.
    WhiteBalance,
    /// Lifts or lowers the dark tone region.
    Shadows,
    /// Lifts or lowers the bright tone region.
    Highlights,
    /// Scales toward the white point.
    Whites,
    /// Offsets the black point.
    Blacks,
    /// Removes the luminance-proportional veil.
    Dehaze,
    /// Pulls purple fringes toward their luminance.
    Defringe,
    /// Scales the distance from gray.
    Saturation,
    /// Scales the distance from gray, sparing vivid pixels.
    Vibrance,
    /// Scales the distance from the midpoint.
    Contrast,
    /// Raises to the inverse of gamma.
    Gamma,
    /// Looks each channel up in the curve.
    Curve,
    /// Scales the distance from the midpoint, clamped at once.
    MidContrast,
    /// Mixes the eight hue bands.
    ColorMixer,
    /// Darkens toward the corners.
    Vignette,
    /// Adds film grain.
    Grain,
}

/// Number of stages.
pub const STAGE_COUNT: usize = 17;

/// All stages, in the one order in which the chain applies them.
pub open spec fn stage_order() -> Seq<Stage> {
    seq![
        Stage::Exposure,
        Stage::WhiteBalance,
        Stage::Shadows,
        Stage::Highlights,
        Stage::Whites,
        Stage::Blacks,
        Stage::Dehaze,
        Stage::Defringe,
        Stage::Saturation,
        Stage::Vibrance,
        Stage::Contrast,
        Stage::Gamma,
        Stage::Curve,
        Stage::MidContrast,
        Stage::ColorMixer,
        Stage::Vignette,
        Stage::Grain,
    ]
}

/// Place of a stage in the chain, counted from 0.
pub open spec fn stage_rank(stage: Stage) -> int {
    match stage {
        Stage::Exposure => 0,
        Stage::WhiteBalance => 1,
        Stage::Shadows => 2,
        Stage::Highlights => 3,
        Stage::Whites => 4,
        Stage::Blacks => 5,
        Stage::Dehaze => 6,
        Stage::Defringe => 7,
        Stage::Saturation => 8,
        Stage::Vibrance => 9,
        Stage::Contrast => 10,
        Stage::Gamma => 11,
        Stage::Curve => 12,
        Stage::MidContrast => 13,
        Stage::ColorMixer => 14,
        Stage::Vignette => 15,
        Stage::Grain => 16,
    }
}

/// Whether a stage runs under the given settings. A stage is skipped
/// outright, not applied without effect, while the control that drives it
/// is within one millionth of neutral. Defringe and grain run for positive
/// strengths only; saturation always runs; the curve runs when one is in
/// effect.
pub open spec fn stage_runs(stage: Stage, s: ImageSettings, curve: bool) -> bool {
    match stage {
        Stage::Exposure => s.exposure.magnitude_above_epsilon(),
        Stage::WhiteBalance => s.temperature.magnitude_above_epsilon()
            || s.tint.magnitude_above_epsilon(),
        Stage::Shadows => s.shadows.magnitude_above_epsilon(),
        Stage::Highlights => s.highlights.magnitude_above_epsilon(),
        Stage::Whites => s.whites.magnitude_above_epsilon(),
        Stage::Blacks => s.blacks.magnitude_above_epsilon(),
        Stage::Dehaze => s.dehaze.magnitude_above_epsilon(),
        Stage::Defringe => s.defringe.above_epsilon(),
        Stage::Saturation => true,
        Stage::Vibrance => s.vibrance.magnitude_above_epsilon(),
        Stage::Contrast => s.contrast.magnitude_above_epsilon(),
        Stage::Gamma => s.gamma.away_from_one(),
        Stage::Curve => curve,
        Stage::MidContrast => s.mid_contrast.magnitude_above_epsilon(),
        Stage::ColorMixer => mixer_runs(s),
        Stage::Vignette => s.vignette.magnitude_above_epsilon(),
        Stage::Grain => s.grain_amount.above_epsilon(),
    }
}

/// Whether the smoothing pass runs before the chain.
pub open spec fn denoise_runs(s: ImageSettings) -> bool {
    s.denoise.above_epsilon()
}

/// Whether the grain takes its sharpened response rather than the
/// attenuated one.
pub open spec fn grain_is_rough(s: ImageSettings) -> bool {
    s.grain_roughness.above_half()
}

/// The test that picks the running stages out of the chain.
pub open spec fn runs_under(s: ImageSettings, curve: bool) -> spec_fn(Stage) -> bool {
    |stage: Stage| stage_runs(stage, s, curve)
}

/// The stages that run under the given settings, in chain order.
pub open spec fn schedule_of(s: ImageSettings, curve: bool) -> Seq<Stage> {
    stage_order().filter(runs_under(s, curve))
}

/// All stages, in chain order.
pub fn all_stages() -> (r: Vec<Stage>)
    ensures
        r@ == stage_order(),
{
    let mut order: Vec<Stage> = Vec::new();
    order.push(Stage::Exposure);
    order.push(Stage::WhiteBalance);
    order.push(Stage::Shadows);
    order.push(Stage::Highlights);
    order.push(Stage::Whites);
    order.push(Stage::Blacks);
    order.push(Stage::Dehaze);
    order.push(Stage::Defringe);
    order.push(Stage::Saturation);
    order.push(Stage::Vibrance);
    order.push(Stage::Contrast);
    order.push(Stage::Gamma);
    order.push(Stage::Curve);
    order.push(Stage::MidContrast);
    order.push(Stage::ColorMixer);
    order.push(Stage::Vignette);
    order.push(Stage::Grain);
    assert(order@ =~= stage_order());
    order
}

/// Whether a stage runs under the given settings; `curve` says whether a
/// curve is in effect.
pub fn stage_enabled(stage: Stage, s: &ImageSettings, curve: bool) -> (r: bool)
    ensures
        r == stage_runs(stage, *s, curve),
{
    match stage {
        Stage::Exposure => s.exposure.magnitude_exceeds_epsilon(),
        Stage::WhiteBalance => s.temperature.magnitude_exceeds_epsilon()
            || s.tint.magnitude_exceeds_epsilon(),
        Stage::Shadows => s.shadows.magnitude_exceeds_epsilon(),
        Stage::Highlights => s.highlights.magnitude_exceeds_epsilon(),
        Stage::Whites => s.whites.magnitude_exceeds_epsilon(),
        Stage::Blacks => s.blacks.magnitude_exceeds_epsilon(),
        Stage::Dehaze => s.dehaze.magnitude_exceeds_epsilon(),
        Stage::Defringe => s.defringe.exceeds_epsilon(),
        Stage::Saturation => true,
        Stage::Vibrance => s.vibrance.magnitude_exceeds_epsilon(),
        Stage::Contrast => s.contrast.magnitude_exceeds_epsilon(),
        Stage::Gamma => s.gamma.departs_from_one(),
        Stage::Curve => curve,
        Stage::MidContrast => s.mid_contrast.magnitude_exceeds_epsilon(),
        Stage::ColorMixer => has_hsl(s),
        Stage::Vignette => s.vignette.magnitude_exceeds_epsilon(),
        Stage::Grain => s.grain_amount.exceeds_epsilon(),
    }
}

/// Whether the smoothing pass runs before the chain.
pub fn denoise_enabled(s: &ImageSettings) -> (r: bool)
    ensures
        r == denoise_runs(*s),
{
    s.denoise.exceeds_epsilon()
}

/// Whether the grain takes its sharpened response.
pub fn rough_grain(s: &ImageSettings) -> (r: bool)
    ensures
        r == grain_is_rough(*s),
{
    s.grain_roughness.exceeds_half()
}

/// Lists the stages that run under the given settings, in chain order;
/// `curve` says whether a curve is in effect.
pub fn schedule(s: &ImageSettings, curve: bool) -> (r: Vec<Stage>)
    ensures
        r@ == schedule_of(*s, curve),
{
    let order = all_stages();
    let mut running: Vec<Stage> = Vec::new();
    let mut i: usize = 0;
    assert(order@.take(0) =~= Seq::<Stage>::empty());
    assert(Seq::<Stage>::empty().filter(runs_under(*s, curve)) =~= Seq::<Stage>::empty()) by {
        reveal(Seq::filter);
    }
    while i < order.len()
        invariant
            order@ == stage_order(),
            i <= order@.len(),
            running@ == order@.take(i as int).filter(runs_under(*s, curve)),
        decreases order@.len() - i,
    {
        let stage = order[i];
        proof {
            reveal(Seq::filter);
            let grown = order@.take(i + 1);
            assert(grown.drop_last() =~= order@.take(i as int));
            assert(grown.last() == stage);
        }
        if stage_enabled(stage, s, curve) {
            running.push(stage);
        }
        i += 1;
    }
    assert(order@.take(order@.len() as int) =~= order@);
    running
}

/// Rank and chain order agree: the stage in place `k` of the chain has
/// rank `k`, and a stage stands in the place of its rank.
pub proof fn lemma_rank_is_place(k: int)
    requires
        0 <= k < STAGE_COUNT,
    ensures
        stage_order().len() == STAGE_COUNT,
        stage_rank(stage_order()[k]) == k,
{
    let order = stage_order();
    assert(order.len() == 17);
    assert(stage_rank(order[0]) == 0);
    assert(stage_rank(order[1]) == 1);
    assert(stage_rank(order[2]) == 2);
    assert(stage_rank(order[3]) == 3);
    assert(stage_rank(order[4]) == 4);
    assert(stage_rank(order[5]) == 5);
    assert(stage_rank(order[6]) == 6);
    assert(stage_rank(order[7]) == 7);
    assert(stage_rank(order[8]) == 8);
    assert(stage_rank(order[9]) == 9);
    assert(stage_rank(order[10]) == 10);
    assert(stage_rank(order[11]) == 11);
    assert(stage_rank(order[12]) == 12);
    assert(stage_rank(order[13]) == 13);
    assert(stage_rank(order[14]) == 14);
    assert(stage_rank(order[15]) == 15);
    assert(stage_rank(order[16]) == 16);
}

/// The running stages of a prefix of the chain keep the chain's order, and
/// none of them comes from beyond the prefix.
proof fn lemma_prefix_schedule_is_ordered(s: ImageSettings, curve: bool, n: int)
    requires
        0 <= n <= stage_order().len(),
    ensures
        forall|i: int|
            0 <= i < stage_order().take(n).filter(runs_under(s, curve)).len() ==> stage_rank(
                #[trigger] stage_order().take(n).filter(runs_under(s, curve))[i],
            ) < n,
        forall|i: int, j: int|
            0 <= i < j < stage_order().take(n).filter(runs_under(s, curve)).len() ==> stage_rank(
                stage_order().take(n).filter(runs_under(s, curve))[i],
            ) < stage_rank(stage_order().take(n).filter(runs_under(s, curve))[j]),
    decreases n,
{
    reveal(Seq::filter);
    let pred = runs_under(s, curve);
    let grown = stage_order().take(n);
    let q = grown.filter(pred);
    if n == 0 {
        assert(grown.len() == 0);
        assert(q.len() == 0);
    } else {
        lemma_prefix_schedule_is_ordered(s, curve, n - 1);
        lemma_rank_is_place(n - 1);
        let prev = stage_order().take(n - 1);
        let qp = prev.filter(pred);
        assert(grown.drop_last() =~= prev);
        assert(grown.last() == stage_order()[n - 1]);
        assert(q == if pred(grown.last()) {
            qp.push(grown.last())
        } else {
            qp
        });
        assert forall|i: int| 0 <= i < q.len() implies stage_rank(#[trigger] q[i]) < n by {
            if i < qp.len() {
                assert(q[i] == qp[i]);
            }
        }
        assert forall|i: int, j: int| 0 <= i < j < q.len() implies stage_rank(q[i]) < stage_rank(
            q[j],
        ) by {
            assert(q[i] == qp[i]);
            if j < qp.len() {
                assert(q[j] == qp[j]);
            }
        }
    }
}

/// The schedule follows the one fixed order of the chain: of two scheduled
/// stages, the one that comes first in the schedule comes first in the
/// chain. So no stage is scheduled twice.
pub proof fn lemma_schedule_keeps_chain_order(s: ImageSettings, curve: bool)
    ensures
        forall|i: int, j: int|
            0 <= i < j < schedule_of(s, curve).len() ==> stage_rank(schedule_of(s, curve)[i])
                < stage_rank(schedule_of(s, curve)[j]),
{
    lemma_prefix_schedule_is_ordered(s, curve, stage_order().len() as int);
    assert(stage_order().take(stage_order().len() as int) =~= stage_order());
}

/// A stage is scheduled exactly when it runs under the settings.
pub proof fn lemma_schedule_membership(s: ImageSettings, curve: bool, stage: Stage)
    ensures
        schedule_of(s, curve).contains(stage) <==> stage_runs(stage, s, curve),
{
    let order = stage_order();
    let pred = runs_under(s, curve);
    broadcast use vstd::seq_lib::group_filter_ensures;

    if schedule_of(s, curve).contains(stage) {
        let i = choose|i: int| 0 <= i < order.filter(pred).len() && order.filter(pred)[i] == stage;
        order.lemma_filter_pred(pred, i);
    }
    if stage_runs(stage, s, curve) {
        let k = stage_rank(stage);
        lemma_rank_is_place(k);
        assert(order[k] == stage);
        order.lemma_filter_contains(pred, k);
    }
}

/// Under neutral settings nothing is switched on: the smoothing pass is
/// skipped, and of the chain only saturation runs, the one stage that is
/// never skipped, with a factor of exactly one.
pub proof fn lemma_neutral_settings_skip_every_gate()
    ensures
        !denoise_runs(neutral_settings()),
        schedule_of(neutral_settings(), false) == seq![Stage::Saturation],
        forall|stage: Stage|
            stage != Stage::Saturation ==> !stage_runs(stage, neutral_settings(), false),
{
    let s = neutral_settings();
    let zero = Scalar { bits: 0 };
    let one = Scalar { bits: 0x3f80_0000 };
    lemma_above_epsilon_patterns(zero);
    lemma_magnitude_above_epsilon_patterns(zero);
    lemma_away_from_one_patterns(one);
    assert(!mixer_runs(s)) by {
        assert forall|i: int| 0 <= i < band_table(s).len() implies !(
        #[trigger] band_table(s)[i]).changes_pixels() by {}
    }
    assert forall|stage: Stage| stage != Stage::Saturation implies !stage_runs(
        stage,
        s,
        false,
    ) by {}
    let sched = schedule_of(s, false);
    lemma_schedule_membership(s, false, Stage::Saturation);
    lemma_schedule_keeps_chain_order(s, false);
    assert forall|i: int| 0 <= i < sched.len() implies sched[i] == Stage::Saturation by {
        lemma_schedule_membership(s, false, sched[i]);
        assert(sched.contains(sched[i]));
    }
    if sched.len() >= 2 {
        assert(stage_rank(sched[0]) < stage_rank(sched[1]));
    }
    assert(sched =~= seq![Stage::Saturation]);
}

} // verus!
