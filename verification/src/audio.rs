use vstd::prelude::*;

verus! {

/// Sampling rate of what the NPCs hear, in Hz.
pub const SAMPLING_RATE: u32 = 8000;
/// Samples in the near sense interval (175 ms).
pub const MIN_FRAME_SIZE: usize = 1400;
/// Samples in the far sense interval (525 ms): three near intervals.
pub const MAX_FRAME_SIZE: usize = 4200;
/// How many near intervals a far interval spans.
pub const SENSE_INTERVAL_NEAR_TO_FAR: usize = 3;

/// How a read from the audio thread's resampling channel went.
#[derive(Debug, Clone, Copy, PartialEq, Eq, Structural)]
pub enum ReadStatus {
    /// A full frame was read.
    Complete,
    InputNotReady,
    UnderflowOccurred { num_frames_read: usize },
    OverflowCorrected { num_frames_discarded: usize },
}

pub open spec fn spec_incoming_frames(status: ReadStatus) -> int {
    match status {
        ReadStatus::Complete => MAX_FRAME_SIZE as int,
        ReadStatus::InputNotReady => 0,
        ReadStatus::UnderflowOccurred { num_frames_read } => num_frames_read as int,
        ReadStatus::OverflowCorrected { .. } => MAX_FRAME_SIZE as int,
    }
}

/// How many fresh frames a read delivered: a full frame when it went well
/// or an overflow was corrected, none when the input was not ready, and
/// what was read on an underflow.
pub fn incoming_frames(status: ReadStatus) -> (r: usize)
    ensures
        r == spec_incoming_frames(status),
{
    match status {
        ReadStatus::Complete => MAX_FRAME_SIZE,
        ReadStatus::InputNotReady => 0,
        ReadStatus::UnderflowOccurred { num_frames_read } => num_frames_read,
        ReadStatus::OverflowCorrected { .. } => MAX_FRAME_SIZE,
    }
}

/// Slides a window of samples forward: drops its `n` oldest samples and
/// appends the first `n` of `incoming`, so that its length stays the same.
pub fn shift_in<T: Copy>(buffer: &mut Vec<T>, incoming: &[T], n: usize)
    requires
        n <= old(buffer)@.len(),
        n <= incoming@.len(),
    ensures
        final(buffer)@ == old(buffer)@.skip(n as int) + incoming@.take(n as int),
        final(buffer)@.len() == old(buffer)@.len(),
{
    let mut out: Vec<T> = Vec::new();
    let mut i: usize = n;
    while i < buffer.len()
        invariant
            n <= i <= buffer@.len(),
            out@ == buffer@.subrange(n as int, i as int),
        decreases buffer@.len() - i,
    {
        out.push(buffer[i]);
        i = i + 1;
        assert(out@ =~= buffer@.subrange(n as int, i as int));
    }
    let mut j: usize = 0;
    while j < n
        invariant
            j <= n,
            n <= incoming@.len(),
            n <= buffer@.len(),
            out@ == buffer@.skip(n as int) + incoming@.take(j as int),
        decreases n - j,
    {
        out.push(incoming[j]);
        j = j + 1;
        assert(out@ =~= buffer@.skip(n as int) + incoming@.take(j as int));
    }
    *buffer = out;
}

/// Slides a window of samples forward by `n` samples of `fill`.
pub fn shift_in_repeat<T: Copy>(buffer: &mut Vec<T>, fill: T, n: usize)
    requires
        n <= old(buffer)@.len(),
    ensures
        final(buffer)@ == old(buffer)@.skip(n as int) + Seq::new(n as nat, |_i: int| fill),
{
    let mut out: Vec<T> = Vec::new();
    let mut i: usize = n;
    while i < buffer.len()
        invariant
            n <= i <= buffer@.len(),
            out@ == buffer@.subrange(n as int, i as int),
        decreases buffer@.len() - i,
    {
        out.push(buffer[i]);
        i = i + 1;
        assert(out@ =~= buffer@.subrange(n as int, i as int));
    }
    let mut j: usize = 0;
    while j < n
        invariant
            j <= n,
            n <= buffer@.len(),
            out@ == buffer@.skip(n as int) + Seq::new(j as nat, |_i: int| fill),
        decreases n - j,
    {
        out.push(fill);
        j = j + 1;
        assert(out@ =~= buffer@.skip(n as int) + Seq::new(j as nat, |_i: int| fill));
    }
    *buffer = out;
}

/// The window of the last far interval of samples a sound source played,
/// as the engine keeps it between fixed updates.
pub open spec fn advanced_window<T>(
    buffer: Seq<T>,
    despawning: bool,
    elapsed_frames: usize,
    status: Option<ReadStatus>,
    scratch: Seq<T>,
    silence: T,
) -> Seq<T> {
    if despawning {
        let n = if elapsed_frames < MAX_FRAME_SIZE { elapsed_frames as int } else { MAX_FRAME_SIZE as int };
        buffer.skip(n) + Seq::new(n as nat, |_i: int| silence)
    } else {
        match status {
            None => buffer,
            Some(st) => {
                let n = spec_incoming_frames(st);
                buffer.skip(n) + scratch.take(n)
            },
        }
    }
}

/// One fixed update of a source's input window. A source that is being
/// despawned plays silence for the frames that elapsed (at most a full
/// window); otherwise the frames the read delivered are shifted in, and
/// nothing changes when the channel could not be locked (`status` is
/// `None`) or delivered nothing. Returns whether the window changed, i.e.
/// whether its loudness must be recomputed.
pub fn advance_input_window<T: Copy>(
    buffer: &mut Vec<T>,
    despawning: bool,
    elapsed_frames: usize,
    status: Option<ReadStatus>,
    scratch: &[T],
    silence: T,
) -> (r: bool)
    requires
        old(buffer)@.len() == MAX_FRAME_SIZE,
        scratch@.len() == MAX_FRAME_SIZE,
        status matches Some(ReadStatus::UnderflowOccurred { num_frames_read }) ==> num_frames_read <= MAX_FRAME_SIZE,
    ensures
        final(buffer)@ == advanced_window(old(buffer)@, despawning, elapsed_frames, status, scratch@, silence),
        final(buffer)@.len() == MAX_FRAME_SIZE,
        r == (despawning || (status matches Some(st) && spec_incoming_frames(st) != 0)),
{
    if despawning {
        let n = if elapsed_frames < MAX_FRAME_SIZE { elapsed_frames } else { MAX_FRAME_SIZE };
        shift_in_repeat(buffer, silence, n);
        return true;
    }
    match status {
        None => false,
        Some(st) => {
            let n = incoming_frames(st);
            if n == 0 {
                assert(old(buffer)@.skip(0) + scratch@.take(0) =~= old(buffer)@);
                return false;
            }
            shift_in(buffer, scratch, n);
            true
        },
    }
}

/// Where a sound source's samples come from.
#[derive(Debug, Clone, Copy, PartialEq, Eq, Structural)]
pub enum AudioInputSource {
    /// The sum of the sources gathered under it.
    Accumulator,
    /// An accumulator with nothing gathered under it yet: silence.
    Silence,
    /// The source's own input buffer.
    InputBuffer,
}

/// Picks where a source's samples come from: its accumulator if it has
/// one, silence if it is an empty accumulator, else its own input buffer;
/// `None` when it has neither.
pub fn audio_input_source(has_accumulator: bool, is_accumulator: bool, has_input_buffer: bool) -> (r: Option<AudioInputSource>)
    ensures
        r == (if has_accumulator {
            Some(AudioInputSource::Accumulator)
        } else if is_accumulator {
            Some(AudioInputSource::Silence)
        } else if has_input_buffer {
            Some(AudioInputSource::InputBuffer)
        } else {
            None
        }),
{
    if has_accumulator {
        Some(AudioInputSource::Accumulator)
    } else if is_accumulator {
        Some(AudioInputSource::Silence)
    } else if has_input_buffer {
        Some(AudioInputSource::InputBuffer)
    } else {
        None
    }
}

/// The sample ranges a listener processes per sense: one near interval
/// when the player is near, three consecutive ones otherwise.
pub fn listening_frames(near: bool) -> (r: Vec<(usize, usize)>)
    ensures
        r@.len() == (if near { 1int } else { SENSE_INTERVAL_NEAR_TO_FAR as int }),
        forall|i: int| 0 <= i < r@.len() ==> #[trigger] r@[i] == ((i * MIN_FRAME_SIZE) as usize, ((i + 1) * MIN_FRAME_SIZE) as usize),
{
    let repeat: usize = if near { 1 } else { SENSE_INTERVAL_NEAR_TO_FAR };
    let mut out: Vec<(usize, usize)> = Vec::new();
    let mut i: usize = 0;
    while i < repeat
        invariant
            i <= repeat <= 3,
            out@.len() == i,
            forall|k: int| 0 <= k < i ==> #[trigger] out@[k] == ((k * MIN_FRAME_SIZE) as usize, ((k + 1) * MIN_FRAME_SIZE) as usize),
        decreases repeat - i,
    {
        out.push((i * MIN_FRAME_SIZE, (i + 1) * MIN_FRAME_SIZE));
        i = i + 1;
    }
    out
}

/// The window keeps its length whatever happens to it.
pub proof fn law_window_length_preserved<T>(
    buffer: Seq<T>,
    despawning: bool,
    elapsed_frames: usize,
    status: Option<ReadStatus>,
    scratch: Seq<T>,
    silence: T,
)
    requires
        buffer.len() == MAX_FRAME_SIZE,
        scratch.len() == MAX_FRAME_SIZE,
        status matches Some(ReadStatus::UnderflowOccurred { num_frames_read }) ==> num_frames_read <= MAX_FRAME_SIZE,
    ensures
        advanced_window(buffer, despawning, elapsed_frames, status, scratch, silence).len() == MAX_FRAME_SIZE,
{
}

} // verus!
