//! Sizes of the sample buffer shared with the spectrum visualizer.

use vstd::prelude::*;

verus! {

/// Samples handed to the visualizer at a time.
pub const SAMPLE_BATCH_SIZE: usize = 512;

/// The most samples the visualizer buffer keeps.
pub const MAX_VISUALIZER_SAMPLES: usize = 4096;

} // verus!
