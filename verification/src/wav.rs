//! Layout of the generated waveform in the WAV file.
use vstd::prelude::*;

verus! {

/// Channels and frames of a waveform of the given shape: a 2-D waveform is
/// channels by frames; any other shape is one channel of `dims[0]` frames.
pub open spec fn spec_layout(dims: Seq<usize>) -> (usize, usize) {
    if dims.len() == 2 {
        (dims[0], dims[1])
    } else {
        (1, dims[0])
    }
}

/// Channels and frames of a waveform of shape `dims`.
pub fn waveform_layout(dims: &[usize]) -> (r: (usize, usize))
    requires
        dims@.len() >= 1,
    ensures
        r == spec_layout(dims@),
        dims@.len() == 2 ==> r.0 == dims@[0] && r.1 == dims@[1],
        dims@.len() != 2 ==> r.0 == 1 && r.1 == dims@[0],
{
    if dims.len() == 2 {
        (dims[0], dims[1])
    } else {
        (1, dims[0])
    }
}

/// Only a waveform with at least one frame is written.
pub fn has_audio(frames: usize) -> (r: bool)
    ensures
        r == (frames > 0),
{
    frames > 0
}

/// The channel count written in the WAV header: the count taken modulo
/// 2^16, as a `u16` conversion does.
pub fn wav_channels(channels: usize) -> (r: u16)
    ensures
        r as int == channels as int % 65536,
{
    (channels % 65536) as u16
}

/// The format written in the WAV header.
pub struct WavHeader {
    pub channels: u16,
    pub sample_rate: u32,
    pub bits_per_sample: u16,
    /// Samples are IEEE floating point (otherwise integers).
    pub float_samples: bool,
}

/// The header of the output file: the waveform's channel count (as
/// `wav_channels` writes it), the model's sample rate, and 32-bit
/// floating-point samples.
pub fn wav_header(channels: usize, sample_rate: u32) -> (h: WavHeader)
    ensures
        h.channels as int == channels as int % 65536,
        h.sample_rate == sample_rate,
        h.bits_per_sample == 32,
        h.float_samples,
{
    WavHeader { channels: wav_channels(channels), sample_rate, bits_per_sample: 32, float_samples: true }
}

/// Samples of two channels interleaved frame by frame: left then right.
pub open spec fn spec_interleaved<T>(left: Seq<T>, right: Seq<T>, j: int) -> T {
    if j % 2 == 0 {
        left[j / 2]
    } else {
        right[j / 2]
    }
}

/// The first `frames` samples of `left` and `right`, interleaved:
/// left, right, left, right, ...
pub fn interleave<T: Copy>(left: &[T], right: &[T], frames: usize) -> (r: Vec<T>)
    requires
        frames <= left@.len(),
        frames <= right@.len(),
    ensures
        r@.len() == 2 * frames,
        forall|j: int| 0 <= j < r@.len() ==> #[trigger] r@[j] == spec_interleaved(left@, right@, j),
{
    let mut r: Vec<T> = Vec::new();
    let mut i: usize = 0;
    while i < frames
        invariant
            i <= frames,
            frames <= left@.len(),
            frames <= right@.len(),
            r@.len() == 2 * i,
            forall|j: int| 0 <= j < r@.len() ==> #[trigger] r@[j] == spec_interleaved(left@, right@, j),
        decreases frames - i,
    {
        let ghost before = r@;
        r.push(left[i]);
        r.push(right[i]);
        assert forall|j: int| 0 <= j < r@.len() implies #[trigger] r@[j] == spec_interleaved(left@, right@, j) by {
            if j < 2 * i {
                assert(r@[j] == before[j]);
            } else if j == 2 * i {
                assert(j % 2 == 0 && j / 2 == i);
            } else {
                assert(j % 2 == 1 && j / 2 == i);
            }
        }
        i = i + 1;
    }
    r
}

/// A 2-D waveform of shape [c, f] has c channels of f frames, whatever c
/// is; a 1-D waveform of shape [f] is one channel of f frames.
pub proof fn lemma_layout_of_shapes(c: usize, f: usize)
    ensures
        spec_layout(seq![c, f]) == (c, f),
        spec_layout(seq![f]) == (1usize, f),
{
}

} // verus!
