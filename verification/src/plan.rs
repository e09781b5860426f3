//! What one run of the pipeline will do, settled before any pixel is touched.
//!
//! A run either fails on the buffer's shape before any work begins, or it
//! is planned in full: whether the smoothing pass comes first, and which
//! stages of the chain follow.

use vstd::prelude::*;
use crate::curve::{curve_in_effect, usable_curve};
use crate::raster::{check_shape, shape_len, ShapeError};
use crate::settings::ImageSettings;
use crate::stage::{denoise_enabled, denoise_runs, schedule, schedule_of, Stage};

verus! {

/// The plan of one run.
#[derive(Clone, Debug)]
pub struct PipelinePlan {
    /// Width of the image, in pixels.
    pub width: usize,
    /// Height of the image, in pixels.
    pub height: usize,
    /// Number of pixels of the image.
    pub pixels: usize,
    /// Whether the smoothing pass runs, to completion, before the chain.
    pub denoise: bool,
    /// The stages of the chain that run on every pixel, in order.
    pub stages: Vec<Stage>,
}

impl PipelinePlan {
    /// The pixel count is that of the dimensions, and the buffer's length
    /// can be represented.
    pub open spec fn well_formed(&self) -> bool {
        &&& self.pixels == self.width * self.height
        &&& shape_len(self.width as int, self.height as int) <= usize::MAX
    }

    /// The plan is the one that the given run calls for.
    pub open spec fn plans(&self, width: usize, height: usize, s: ImageSettings, curve: bool) -> bool {
        &&& self.well_formed()
        &&& self.width == width
        &&& self.height == height
        &&& self.denoise == denoise_runs(s)
        &&& self.stages@ == schedule_of(s, curve)
    }
}

/// Plans one run over a buffer of `len` bytes that is stated to hold
/// `width * height` pixels.
///
/// The run is refused, before any work, exactly when the length is not
/// `width * height * 3`. Otherwise the plan says whether the smoothing pass
/// runs and lists the stages of the chain that do, in chain order. A
/// supplied table that is no curve is treated as absent.
pub fn plan_pipeline(
    len: usize,
    width: usize,
    height: usize,
    settings: &ImageSettings,
    lut: Option<&[u8]>,
) -> (r: Result<PipelinePlan, ShapeError>)
    ensures
        match r {
            Ok(plan) => {
                &&& len == shape_len(width as int, height as int)
                &&& plan.plans(width, height, *settings, curve_in_effect(lut))
            },
            Err(e) => {
                &&& len != shape_len(width as int, height as int)
                &&& e == (ShapeError { width, height, len })
            },
        },
{
    match check_shape(len, width, height) {
        Ok(pixels) => {
            let curve = usable_curve(lut).is_some();
            Ok(
                PipelinePlan {
                    width,
                    height,
                    pixels,
                    denoise: denoise_enabled(settings),
                    stages: schedule(settings, curve),
                },
            )
        },
        Err(e) => Err(e),
    }
}

} // verus!
