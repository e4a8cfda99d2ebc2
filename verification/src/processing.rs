//! Decisions taken before recorded speech is handed to the model.
use vstd::prelude::*;

verus! {

/// The sample rate, in Hz, that the speech model was trained on.
pub const SAMPLE_RATE: u32 = 16_000;

/// Whether audio recorded at `rate` Hz must be resampled before it is fed
/// to the model: exactly when its rate is not the model's.
pub fn needs_resampling(rate: u32) -> (r: bool)
    ensures
        r == (rate != SAMPLE_RATE),
{
    rate != SAMPLE_RATE
}

/// Whether audio with `channels` channels can be handled: only one channel
/// is, for now.
pub fn channel_count_supported(channels: u32) -> (r: bool)
    ensures
        r == (channels == 1),
{
    channels == 1
}

} // verus!
