//! One run of the pipeline over a whole buffer.
//!
//! A run is the smoothing pass, if it is switched on, followed by the
//! adjustment chain. The library owns the flow of the data: which buffer
//! each step reads, which stages a pixel goes through and in what order,
//! which pixel each result is written to, and the shape of what comes out.
//! The arithmetic is handed in by the caller: how a neighbourhood is
//! smoothed, how a pixel becomes a working value and a working value a
//! pixel again, and what one stage does to a working value.

use vstd::prelude::*;
use vstd::slice::slice_to_vec;
use rayon::iter::{IndexedParallelIterator, ParallelIterator};
use rayon::slice::ParallelSliceMut;
use crate::curve::curve_in_effect;
use crate::denoise::{denoise_window, window_of, Tap};
use crate::plan::plan_pipeline;
use crate::raster::{
    get_pixel,
    lemma_position_in_bounds,
    pixel_of,
    pixel_position,
    shape_len,
    Rgb,
    ShapeError,
};
use crate::scalar::{lemma_above_epsilon_patterns, Scalar, SIGN_BIT, ZERO_BITS};
use crate::settings::{neutral_settings, ImageSettings};
use crate::stage::{denoise_runs, lemma_neutral_settings_skip_every_gate, schedule_of, Stage};

verus! {

/// `smooth` may make the pixel `out` of the neighbourhood `window` at the
/// strength `amount`.
pub open spec fn smooths<S: Fn(&Vec<Tap>, Scalar) -> Rgb>(
    smooth: &S,
    window: Seq<Tap>,
    amount: Scalar,
    out: Rgb,
) -> bool {
    exists|taps: Vec<Tap>| taps@ == window && call_ensures(smooth, (&taps, amount), out)
}

/// `out` is `input` after the smoothing pass: it has the same length, and
/// each of its pixels is made by `smooth` of the neighbourhood of that
/// pixel in `input`. No pixel of `out` depends on another pixel of `out`.
pub open spec fn denoised<S: Fn(&Vec<Tap>, Scalar) -> Rgb>(
    input: Seq<u8>,
    width: int,
    height: int,
    amount: Scalar,
    smooth: &S,
    out: Seq<u8>,
) -> bool {
    &&& out.len() == input.len()
    &&& forall|i: int|
        0 <= i < width * height ==> smooths(
            smooth,
            window_of(input, width, height, i % width, i / width),
            amount,
            #[trigger] pixel_of(out, i),
        )
}

/// `step`, applied for each of `stages` in order, may lead from the working
/// value `start` to the working value `end` for the pixel with index `i`.
pub open spec fn chain_makes<T, P: Fn(Stage, usize, T) -> T>(
    step: &P,
    stages: Seq<Stage>,
    i: usize,
    start: T,
    end: T,
) -> bool
    decreases stages.len(),
{
    if stages.len() == 0 {
        end == start
    } else {
        exists|mid: T|
            chain_makes(step, stages.drop_last(), i, start, mid) && #[trigger] call_ensures(
                step,
                (stages.last(), i, mid),
                end,
            )
    }
}

/// The chain may make the pixel `out` of the pixel `p` with index `i`:
/// `enter` gives the working value of `p`, `step` takes it through
/// `stages` in order, and `leave` gives the pixel of what comes out.
pub open spec fn adjusts<
    T,
    E: Fn(Rgb) -> T,
    P: Fn(Stage, usize, T) -> T,
    L: Fn(T) -> Rgb,
>(enter: &E, step: &P, leave: &L, stages: Seq<Stage>, i: usize, p: Rgb, out: Rgb) -> bool {
    exists|first: T, last: T|
        {
            &&& #[trigger] call_ensures(enter, (p,), first)
            &&& chain_makes(step, stages, i, first, last)
            &&& #[trigger] call_ensures(leave, (last,), out)
        }
}

/// `out` is `source` after the adjustment chain: it has the same length,
/// and each of its pixels is made by the chain of the pixel with the same
/// index in `source`, and of nothing else.
pub open spec fn adjusted<
    T,
    E: Fn(Rgb) -> T,
    P: Fn(Stage, usize, T) -> T,
    L: Fn(T) -> Rgb,
>(source: Seq<u8>, stages: Seq<Stage>, enter: &E, step: &P, leave: &L, out: Seq<u8>) -> bool {
    &&& out.len() == source.len()
    &&& forall|i: int|
        0 <= i && 3 * i + 2 < source.len() ==> adjusts(
            enter,
            step,
            leave,
            stages,
            i as usize,
            pixel_of(source, i),
            #[trigger] pixel_of(out, i),
        )
}

/// `source` is the buffer that the adjustment chain reads: the input after
/// the smoothing pass where that pass runs, and else the input itself,
/// byte for byte.
pub open spec fn chain_reads<S: Fn(&Vec<Tap>, Scalar) -> Rgb>(
    input: Seq<u8>,
    width: int,
    height: int,
    s: ImageSettings,
    smooth: &S,
    source: Seq<u8>,
) -> bool {
    if denoise_runs(s) {
        denoised(input, width, height, s.denoise, smooth, source)
    } else {
        source == input
    }
}

/// Fills a buffer pixel by pixel, the pixels computed in parallel.
///
/// Calls rayon's `par_chunks_mut(3)` on the buffer, `enumerate` on the
/// chunks and `for_each` on the numbered chunks; the function handed to
/// `for_each` stores in chunk `i` the pixel that `f` gives for `i`.
/// Trusted: the chunks are the pixels of the buffer, in order and without
/// overlap, each numbered by its index, and `for_each` has run on every one
/// of them when it returns; the buffer keeps its length. The length must be
/// a multiple of three, since a shorter last chunk could not take a pixel.
#[verifier::external_body]
fn fill_pixels<F>(out: &mut Vec<u8>, f: F) where F: Fn(usize) -> Rgb + Sync + Send
    requires
        old(out)@.len() % 3 == 0,
        forall|i: usize| 3 * i + 2 < old(out)@.len() ==> call_requires(f, (i,)),
    ensures
        final(out)@.len() == old(out)@.len(),
        forall|i: usize|
            3 * i + 2 < old(out)@.len() ==> call_ensures(
                f,
                (i,),
                #[trigger] pixel_of(final(out)@, i as int),
            ),
{
    out.par_chunks_mut(3).enumerate().for_each(
        |(i, chunk)|
            {
                let p = f(i);
                chunk[0] = p.r;
                chunk[1] = p.g;
                chunk[2] = p.b;
            },
    );
}

/// The smoothing pass. Where `amount` is more than one millionth, every
/// pixel of the result is what `smooth` makes of the 5x5 neighbourhood of
/// that pixel in the input; the pass reads the input alone and writes a
/// buffer of its own. Otherwise the result is a copy of the input.
pub fn apply_denoise_pass<S>(
    input: &[u8],
    width: usize,
    height: usize,
    amount: Scalar,
    smooth: &S,
) -> (r: Vec<u8>) where S: Fn(&Vec<Tap>, Scalar) -> Rgb + Sync + Send
    requires
        input@.len() == shape_len(width as int, height as int),
        forall|taps: &Vec<Tap>| taps@.len() == 25 ==> call_requires(smooth, (taps, amount)),
    ensures
        if amount.above_epsilon() {
            denoised(input@, width as int, height as int, amount, smooth, r@)
        } else {
            r@ == input@
        },
{
    if !amount.exceeds_epsilon() {
        return slice_to_vec(input);
    }
    let n = input.len();
    let mut out: Vec<u8> = vec![0u8; n];
    let one = |i: usize| -> (p: Rgb)
        requires
            3 * i + 2 < input@.len(),
        ensures
            smooths(
                smooth,
                window_of(
                    input@,
                    width as int,
                    height as int,
                    i as int % width as int,
                    i as int / width as int,
                ),
                amount,
                p,
            ),
        {
            proof {
                lemma_position_in_bounds(i as int, width as int, height as int);
            }
            let (x, y) = pixel_position(i, width);
            let taps = denoise_window(input, width, height, x, y);
            smooth(&taps, amount)
        };
    assert(n % 3 == 0) by {
        assert(n == (width * height) * 3);
    }
    fill_pixels(&mut out, one);
    assert(denoised(input@, width as int, height as int, amount, smooth, out@)) by {
        assert forall|i: int| 0 <= i < width * height implies smooths(
            smooth,
            window_of(input@, width as int, height as int, i % width as int, i / width as int),
            amount,
            #[trigger] pixel_of(out@, i),
        ) by {
            let k = i as usize;
            assert(3 * k + 2 < n);
            assert(call_ensures(one, (k,), pixel_of(out@, k as int)));
        }
    }
    out
}

/// The adjustment chain on one pixel: the pixel becomes a working value,
/// goes through the given stages in their order, each exactly once, and
/// becomes a pixel again.
pub fn adjust_pixel<T, E, P, L>(
    stages: &Vec<Stage>,
    i: usize,
    level: Rgb,
    enter: &E,
    step: &P,
    leave: &L,
) -> (r: Rgb) where E: Fn(Rgb) -> T, P: Fn(Stage, usize, T) -> T, L: Fn(T) -> Rgb
    requires
        call_requires(enter, (level,)),
        forall|stage: Stage, state: T| call_requires(step, (stage, i, state)),
        forall|state: T| call_requires(leave, (state,)),
    ensures
        adjusts(enter, step, leave, stages@, i, level, r),
{
    let mut state = enter(level);
    let ghost first = state;
    let mut k: usize = 0;
    assert(stages@.take(0).len() == 0);
    while k < stages.len()
        invariant
            k <= stages@.len(),
            forall|stage: Stage, state: T| call_requires(step, (stage, i, state)),
            chain_makes(step, stages@.take(k as int), i, first, state),
        decreases stages@.len() - k,
    {
        let ghost before = state;
        state = step(stages[k], i, state);
        proof {
            let grown = stages@.take(k + 1);
            assert(grown.drop_last() =~= stages@.take(k as int));
            assert(grown.last() == stages@[k as int]);
            assert(chain_makes(step, grown.drop_last(), i, first, before));
            assert(call_ensures(step, (grown.last(), i, before), state));
        }
        k += 1;
    }
    assert(stages@.take(stages@.len() as int) =~= stages@);
    let ghost last = state;
    let out = leave(state);
    assert(call_ensures(enter, (level,), first) && chain_makes(step, stages@, i, first, last)
        && call_ensures(leave, (last,), out));
    out
}

/// The adjustment chain over a buffer: every pixel of the result is what
/// the chain makes of the pixel with the same index in `source`.
pub fn adjust_buffer<T, E, P, L>(
    source: &[u8],
    stages: &Vec<Stage>,
    enter: &E,
    step: &P,
    leave: &L,
) -> (r: Vec<u8>) where
    E: Fn(Rgb) -> T + Sync + Send,
    P: Fn(Stage, usize, T) -> T + Sync + Send,
    L: Fn(T) -> Rgb + Sync + Send,

    requires
        source@.len() % 3 == 0,
        forall|p: Rgb| call_requires(enter, (p,)),
        forall|stage: Stage, i: usize, state: T| call_requires(step, (stage, i, state)),
        forall|state: T| call_requires(leave, (state,)),
    ensures
        adjusted(source@, stages@, enter, step, leave, r@),
{
    let n = source.len();
    let mut out: Vec<u8> = vec![0u8; n];
    let one = |i: usize| -> (p: Rgb)
        requires
            3 * i + 2 < source@.len(),
        ensures
            adjusts(enter, step, leave, stages@, i, pixel_of(source@, i as int), p),
        { adjust_pixel(stages, i, get_pixel(source, i), enter, step, leave) };
    fill_pixels(&mut out, one);
    assert(adjusted(source@, stages@, enter, step, leave, out@)) by {
        assert forall|i: int| 0 <= i && 3 * i + 2 < source@.len() implies adjusts(
            enter,
            step,
            leave,
            stages@,
            i as usize,
            pixel_of(source@, i),
            #[trigger] pixel_of(out@, i),
        ) by {
            let k = i as usize;
            assert(call_ensures(one, (k,), pixel_of(out@, k as int)));
        }
    }
    out
}

/// What a run gives: a buffer that is the adjustment chain's result over
/// the buffer that the chain reads.
pub open spec fn pipeline_result<
    T,
    S: Fn(&Vec<Tap>, Scalar) -> Rgb,
    E: Fn(Rgb) -> T,
    P: Fn(Stage, usize, T) -> T,
    L: Fn(T) -> Rgb,
>(
    input: Seq<u8>,
    width: int,
    height: int,
    s: ImageSettings,
    curve: bool,
    smooth: &S,
    enter: &E,
    step: &P,
    leave: &L,
    out: Seq<u8>,
) -> bool {
    exists|source: Seq<u8>|
        {
            &&& #[trigger] chain_reads(input, width, height, s, smooth, source)
            &&& adjusted(source, schedule_of(s, curve), enter, step, leave, out)
        }
}

/// Runs the pipeline on a buffer that is stated to hold `width * height`
/// pixels.
///
/// A buffer of any other length than `width * height * 3` is refused before
/// any work. Otherwise the result has the length of the input. The
/// smoothing pass runs first and to its end where it is switched on; the
/// chain then reads its result, and else the input. Every pixel goes
/// through the stages that the settings switch on, in the one order of the
/// chain. A supplied table that is no curve is treated as absent.
pub fn process_pipeline<T, S, E, P, L>(
    input: &[u8],
    width: usize,
    height: usize,
    settings: &ImageSettings,
    lut: Option<&[u8]>,
    smooth: &S,
    enter: &E,
    step: &P,
    leave: &L,
) -> (r: Result<Vec<u8>, ShapeError>) where
    S: Fn(&Vec<Tap>, Scalar) -> Rgb + Sync + Send,
    E: Fn(Rgb) -> T + Sync + Send,
    P: Fn(Stage, usize, T) -> T + Sync + Send,
    L: Fn(T) -> Rgb + Sync + Send,

    requires
        forall|taps: &Vec<Tap>|
            taps@.len() == 25 ==> call_requires(smooth, (taps, settings.denoise)),
        forall|p: Rgb| call_requires(enter, (p,)),
        forall|stage: Stage, i: usize, state: T| call_requires(step, (stage, i, state)),
        forall|state: T| call_requires(leave, (state,)),
    ensures
        match r {
            Ok(out) => {
                &&& input@.len() == shape_len(width as int, height as int)
                &&& out@.len() == input@.len()
                &&& pipeline_result(
                    input@,
                    width as int,
                    height as int,
                    *settings,
                    curve_in_effect(lut),
                    smooth,
                    enter,
                    step,
                    leave,
                    out@,
                )
            },
            Err(e) => {
                &&& input@.len() != shape_len(width as int, height as int)
                &&& e == (ShapeError { width, height, len: input@.len() as usize })
            },
        },
{
    let plan = match plan_pipeline(input.len(), width, height, settings, lut) {
        Ok(plan) => plan,
        Err(e) => {
            return Err(e);
        },
    };
    assert(input@.len() == (width * height) * 3);
    if plan.denoise {
        let smoothed = apply_denoise_pass(input, width, height, settings.denoise, smooth);
        let out = adjust_buffer(smoothed.as_slice(), &plan.stages, enter, step, leave);
        assert(chain_reads(input@, width as int, height as int, *settings, smooth, smoothed@));
        Ok(out)
    } else {
        let out = adjust_buffer(input, &plan.stages, enter, step, leave);
        assert(chain_reads(input@, width as int, height as int, *settings, smooth, input@));
        Ok(out)
    }
}

/// A smoothing strength of zero, of either sign, switches the pass off: the
/// chain then reads the input itself, byte for byte.
pub proof fn lemma_zero_denoise_reads_input<S: Fn(&Vec<Tap>, Scalar) -> Rgb>(
    input: Seq<u8>,
    width: int,
    height: int,
    s: ImageSettings,
    smooth: &S,
    source: Seq<u8>,
)
    requires
        s.denoise.bits == ZERO_BITS || s.denoise.bits == SIGN_BIT,
    ensures
        chain_reads(input, width, height, s, smooth, source) <==> source == input,
{
    lemma_above_epsilon_patterns(s.denoise);
}

/// Under neutral settings and without a curve, a run hands the chain the
/// input itself and takes every pixel through saturation alone, the one
/// stage that is never skipped.
pub proof fn lemma_neutral_run_skips_every_gate<
    T,
    S: Fn(&Vec<Tap>, Scalar) -> Rgb,
    E: Fn(Rgb) -> T,
    P: Fn(Stage, usize, T) -> T,
    L: Fn(T) -> Rgb,
>(
    input: Seq<u8>,
    width: int,
    height: int,
    smooth: &S,
    enter: &E,
    step: &P,
    leave: &L,
    out: Seq<u8>,
)
    ensures
        pipeline_result(
            input,
            width,
            height,
            neutral_settings(),
            false,
            smooth,
            enter,
            step,
            leave,
            out,
        ) <==> adjusted(input, seq![Stage::Saturation], enter, step, leave, out),
{
    lemma_neutral_settings_skip_every_gate();
    if adjusted(input, seq![Stage::Saturation], enter, step, leave, out) {
        assert(chain_reads(input, width, height, neutral_settings(), smooth, input));
    }
}

/// A chain of one stage is one application of `step`.
pub proof fn lemma_chain_of_one_stage<T, P: Fn(Stage, usize, T) -> T>(
    step: &P,
    stage: Stage,
    i: usize,
    start: T,
    end: T,
)
    ensures
        chain_makes(step, seq![stage], i, start, end) <==> call_ensures(step, (stage, i, start), end),
{
    let one = seq![stage];
    assert(one.len() == 1);
    assert(one.drop_last().len() == 0);
    assert(one.last() == stage);
    if call_ensures(step, (stage, i, start), end) {
        assert(chain_makes(step, one.drop_last(), i, start, start));
    }
    if chain_makes(step, one, i, start, end) {
        let mid = choose|mid: T|
            chain_makes(step, one.drop_last(), i, start, mid) && #[trigger] call_ensures(
                step,
                (one.last(), i, mid),
                end,
            );
        assert(mid == start);
    }
}

} // verus!
