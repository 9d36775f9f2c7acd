//! The consumer side: which output configuration to ask the device for, and
//! what the hardware callback writes into each frame.

use crate::ring::consumer_limit;
use crate::ring::handed_out;
use crate::ring::popped_samples;
use crate::ring::ring_try_pop;
use crate::ring::sample_or_silence;
use crate::ring::SampleConsumer;
use crate::ring::SILENCE;
use crate::transport::SharedState;
use vstd::prelude::*;

verus! {

/// One configuration that the output device supports: a channel count and a
/// range of sample rates, both ends included.
#[derive(Clone, Copy, Debug, PartialEq, Eq)]
pub struct OutputRange {
    pub channels: u16,
    pub min_sample_rate: u32,
    pub max_sample_rate: u32,
}

impl OutputRange {
    /// Whether the range includes `sample_rate`.
    pub open spec fn supports(self, sample_rate: u32) -> bool {
        self.min_sample_rate <= sample_rate <= self.max_sample_rate
    }

    /// Whether the range includes `sample_rate` and has just `channels`
    /// channels.
    pub open spec fn matches(self, sample_rate: u32, channels: u16) -> bool {
        self.supports(sample_rate) && self.channels == channels
    }

    pub fn supports_rate(&self, sample_rate: u32) -> (yes: bool)
        ensures
            yes == self.supports(sample_rate),
    {
        self.min_sample_rate <= sample_rate && sample_rate <= self.max_sample_rate
    }

    pub fn matches_track(&self, sample_rate: u32, channels: u16) -> (yes: bool)
        ensures
            yes == self.matches(sample_rate, channels),
    {
        self.supports_rate(sample_rate) && self.channels == channels
    }
}

/// Where setting up the sound output failed.
#[derive(Clone, Copy, Debug, PartialEq, Eq)]
pub enum OutputFault {
    /// The host has no output device.
    NoDevice,
    /// The device offers no configuration, not even a default one.
    NoConfiguration,
    /// The device refused to build the stream.
    StreamRejected,
    /// The stream was built and then refused to start.
    StartRejected,
}

/// The configuration to open the output stream with.
#[derive(Clone, Copy, Debug, PartialEq, Eq)]
pub enum OutputChoice {
    /// The supported range at this index, at the track's sample rate.
    Range(usize),
    /// Whatever the device offers as its default.
    DeviceDefault,
}

/// Whether `i` is the first range with the track's rate and channel count.
pub open spec fn is_first_match(ranges: Seq<OutputRange>, sample_rate: u32, channels: u16, i: int) -> bool {
    &&& 0 <= i < ranges.len()
    &&& ranges[i].matches(sample_rate, channels)
    &&& forall|j: int| 0 <= j < i ==> !(#[trigger] ranges[j]).matches(sample_rate, channels)
}

/// Whether `i` is the first range that includes the track's rate.
pub open spec fn is_first_support(ranges: Seq<OutputRange>, sample_rate: u32, i: int) -> bool {
    &&& 0 <= i < ranges.len()
    &&& ranges[i].supports(sample_rate)
    &&& forall|j: int| 0 <= j < i ==> !(#[trigger] ranges[j]).supports(sample_rate)
}

/// Whether `choice` is the one to make among `ranges`: the first range with
/// the track's rate and channel count; failing that, the first that includes
/// the rate; failing that, the device's default.
pub open spec fn is_output_choice(
    ranges: Seq<OutputRange>,
    sample_rate: u32,
    channels: u16,
    choice: OutputChoice,
) -> bool {
    match choice {
        OutputChoice::Range(i) => {
            ||| is_first_match(ranges, sample_rate, channels, i as int)
            ||| {
                &&& is_first_support(ranges, sample_rate, i as int)
                &&& forall|j: int| 0 <= j < ranges.len() ==> !(#[trigger] ranges[j]).matches(sample_rate, channels)
            }
        },
        OutputChoice::DeviceDefault => forall|j: int|
            0 <= j < ranges.len() ==> !(#[trigger] ranges[j]).supports(sample_rate),
    }
}

/// Picks the output configuration for a track of `sample_rate` and
/// `channels`.
pub fn choose_output(ranges: &Vec<OutputRange>, sample_rate: u32, channels: u16) -> (choice: OutputChoice)
    ensures
        is_output_choice(ranges@, sample_rate, channels, choice),
{
    let mut fallback: Option<usize> = None;
    let mut i: usize = 0;
    while i < ranges.len()
        invariant
            i <= ranges.len(),
            forall|j: int| 0 <= j < i ==> !(#[trigger] ranges[j]).matches(sample_rate, channels),
            match fallback {
                Some(k) => k < i && is_first_support(ranges@, sample_rate, k as int),
                None => forall|j: int| 0 <= j < i ==> !(#[trigger] ranges[j]).supports(sample_rate),
            },
        decreases ranges.len() - i,
    {
        if ranges[i].matches_track(sample_rate, channels) {
            return OutputChoice::Range(i);
        }
        if fallback.is_none() && ranges[i].supports_rate(sample_rate) {
            fallback = Some(i);
        }
        i += 1;
    }
    match fallback {
        Some(k) => OutputChoice::Range(k),
        None => OutputChoice::DeviceDefault,
    }
}

/// What the callback hands the hardware for one output channel of one frame.
/// Sample values are floats, which this library carries as bit patterns and
/// never computes with: a mean is named, not evaluated.
#[derive(Clone, Copy, Debug, PartialEq, Eq)]
pub enum OutputSample {
    /// The sample with this bit pattern.
    Bits(u32),
    /// The arithmetic mean of the two samples with these bit patterns.
    Mean(u32, u32),
}

/// The sample that slot `k` of source frame `g` got, when the queue
/// answered the pops of the call with `answers`.
pub open spec fn source_sample(answers: Seq<Option<u32>>, file_ch: int, g: int, k: int) -> u32 {
    sample_or_silence(answers[g * file_ch + k])
}

/// What output channel `c` of frame `g` plays. A channel that the source has
/// plays it; a channel past the source's plays the mean of the first two
/// source channels, or the only one of a mono source.
pub open spec fn channel_sample(answers: Seq<Option<u32>>, file_ch: int, g: int, c: int) -> OutputSample {
    if c < file_ch {
        OutputSample::Bits(source_sample(answers, file_ch, g, c))
    } else if file_ch >= 2 {
        OutputSample::Mean(source_sample(answers, file_ch, g, 0), source_sample(answers, file_ch, g, 1))
    } else if file_ch == 1 {
        OutputSample::Bits(source_sample(answers, file_ch, g, 0))
    } else {
        OutputSample::Bits(SILENCE)
    }
}

/// Whole frames in an output buffer of `len` samples.
pub open spec fn frame_count(len: int, out_ch: int) -> int {
    if out_ch <= 0 {
        0
    } else {
        len / out_ch
    }
}

/// The output buffer after a callback that was not paused: every whole
/// frame is filled from the source frame of the same number, and what is
/// left past the last whole frame stays as it was.
pub open spec fn played(before: Seq<OutputSample>, file_ch: int, out_ch: int, answers: Seq<Option<u32>>) -> Seq<
    OutputSample,
> {
    Seq::new(
        before.len(),
        |i: int|
            if i < frame_count(before.len() as int, out_ch) * out_ch {
                channel_sample(answers, file_ch, i / out_ch, i % out_ch)
            } else {
                before[i]
            },
    )
}

/// A buffer of `len` silent samples.
pub open spec fn silent(len: nat) -> Seq<OutputSample> {
    Seq::new(len, |i: int| OutputSample::Bits(SILENCE))
}

proof fn lemma_slot_in_frame(g: int, f: int, width: int, k: int)
    requires
        0 <= g < f,
        0 <= k < width,
    ensures
        0 <= g * width + k < f * width,
{
    assert(0 <= g * width) by (nonlinear_arith)
        requires
            0 <= g,
            0 <= width,
    ;
    assert((g + 1) * width <= f * width) by (nonlinear_arith)
        requires
            g + 1 <= f,
            0 <= width,
    ;
    assert((g + 1) * width == g * width + width) by (nonlinear_arith);
}

proof fn lemma_index_of_slot(f: int, width: int, c: int)
    requires
        0 <= f,
        0 <= c < width,
    ensures
        (f * width + c) / width == f,
        (f * width + c) % width == c,
{
    vstd::arithmetic::div_mod::lemma_fundamental_div_mod_converse(f * width + c, width, f, c);
}

proof fn lemma_frame_of_index(i: int, f: int, width: int)
    requires
        0 <= i < f * width,
        0 < width,
    ensures
        0 <= i / width < f,
        0 <= i % width < width,
{
    vstd::arithmetic::div_mod::lemma_fundamental_div_mod(i, width);
    vstd::arithmetic::div_mod::lemma_mod_bound(i, width);
    let q = i / width;
    assert(q < f) by (nonlinear_arith)
        requires
            i == width * q + i % width,
            0 <= i % width,
            i < f * width,
            0 < width,
    ;
    assert(0 <= q) by (nonlinear_arith)
        requires
            i == width * q + i % width,
            i % width < width,
            0 <= i,
            0 < width,
    ;
}

/// A sample already played depends only on the answers of its own frame.
proof fn lemma_channel_sample_prefix(
    a: Seq<Option<u32>>,
    b: Seq<Option<u32>>,
    file_ch: int,
    frames: int,
    g: int,
    c: int,
)
    requires
        0 <= g < frames,
        0 <= c,
        0 <= file_ch,
        frames * file_ch <= a.len() <= b.len(),
        forall|j: int| 0 <= j < frames * file_ch ==> a[j] == b[j],
    ensures
        channel_sample(a, file_ch, g, c) == channel_sample(b, file_ch, g, c),
{
    if c < file_ch {
        lemma_slot_in_frame(g, frames, file_ch, c);
    }
    if file_ch >= 1 {
        lemma_slot_in_frame(g, frames, file_ch, 0);
    }
    if file_ch >= 2 {
        lemma_slot_in_frame(g, frames, file_ch, 1);
    }
}

/// Whether a callback that was not paused, and whose pops the queue
/// answered with `answers`, turns the buffer `before` into `after` and the
/// consumer's record of pops from `popped_before` into `popped_after`: one
/// pop for each source channel of each whole frame, in order.
pub open spec fn is_playback(
    before: Seq<OutputSample>,
    after: Seq<OutputSample>,
    file_ch: int,
    out_ch: int,
    answers: Seq<Option<u32>>,
    popped_before: Seq<u32>,
    popped_after: Seq<u32>,
) -> bool {
    &&& answers.len() == frame_count(before.len() as int, out_ch) * file_ch
    &&& after == played(before, file_ch, out_ch, answers)
    &&& popped_after == popped_before + handed_out(answers)
}

/// The sample for an output channel past the source's channels.
fn extra_channel(file_ch: usize, first: u32, second: u32) -> (sample: OutputSample)
    ensures
        file_ch >= 2 ==> sample == OutputSample::Mean(first, second),
        file_ch < 2 ==> sample == OutputSample::Bits(first),
{
    if file_ch >= 2 {
        OutputSample::Mean(first, second)
    } else {
        OutputSample::Bits(first)
    }
}

/// Fills the whole buffer with silence.
pub fn fill_silence(out: &mut Vec<OutputSample>)
    ensures
        final(out)@ == silent(old(out)@.len()),
{
    let n = out.len();
    let mut i: usize = 0;
    while i < n
        invariant
            out.len() == n,
            n == old(out)@.len(),
            i <= n,
            forall|j: int| 0 <= j < i ==> out@[j] == OutputSample::Bits(SILENCE),
        decreases n - i,
    {
        out.set(i, OutputSample::Bits(SILENCE));
        i += 1;
    }
    assert(out@ =~= silent(old(out)@.len()));
}

/// The body of the hardware callback. It never waits. While paused the
/// buffer is filled with silence and the queue is left alone. Otherwise
/// each whole frame takes one sample for each of the `file_ch` source
/// channels out of the queue, an empty queue counting as silence, and maps
/// them onto the `out_ch` output channels.
pub fn render(paused: bool, file_ch: u16, out_ch: u16, consumer: &mut SampleConsumer, out: &mut Vec<OutputSample>)
    ensures
        paused ==> final(out)@ == silent(old(out)@.len()),
        paused ==> popped_samples(*final(consumer)) == popped_samples(*old(consumer)),
        consumer_limit(*final(consumer)) == consumer_limit(*old(consumer)),
        !paused ==> exists|answers: Seq<Option<u32>>|
            is_playback(
                old(out)@,
                final(out)@,
                file_ch as int,
                out_ch as int,
                answers,
                popped_samples(*old(consumer)),
                popped_samples(*final(consumer)),
            ),
{
    if paused {
        fill_silence(out);
        return ;
    }
    let ghost before = out@;
    let ghost popped0 = popped_samples(*consumer);
    let ghost limit0 = consumer_limit(*consumer);
    let ghost mut answers: Seq<Option<u32>> = Seq::empty();
    let n = out.len();
    let width: usize = out_ch as usize;
    let src: usize = file_ch as usize;
    if width == 0 {
        proof {
            assert(out@ =~= played(before, file_ch as int, out_ch as int, answers));
            assert(popped0 + handed_out(answers) =~= popped0);
            assert(is_playback(before, out@, file_ch as int, out_ch as int, answers, popped0, popped0));
        }
        return ;
    }
    let frames: usize = n / width;
    proof {
        vstd::arithmetic::div_mod::lemma_fundamental_div_mod(n as int, width as int);
        vstd::arithmetic::div_mod::lemma_mod_bound(n as int, width as int);
        assert(frames * width <= n) by (nonlinear_arith)
            requires
                n == width * frames + (n as int) % (width as int),
                0 <= (n as int) % (width as int),
        ;
        assert(popped0 + handed_out(answers) =~= popped0);
    }
    let mut f: usize = 0;
    let mut base: usize = 0;
    let ghost mut abase: int = 0;
    while f < frames
        invariant
            out.len() == n,
            before.len() == n,
            width == out_ch,
            width > 0,
            src == file_ch,
            frames * width <= n,
            f <= frames,
            base == f * width,
            abase == f * src,
            answers.len() == abase,
            forall|i: int| 0 <= i < base ==> out@[i] == channel_sample(answers, src as int, i / (width as int), i % (width as int)),
            forall|i: int| base <= i < n ==> out@[i] == before[i],
            popped_samples(*consumer) == popped0 + handed_out(answers),
            consumer_limit(*consumer) == limit0,
        decreases frames - f,
    {
        let ghost a0 = answers;
        proof {
            assert((f + 1) * width <= frames * width) by (nonlinear_arith)
                requires
                    f + 1 <= frames,
                    0 <= width,
            ;
            assert((f + 1) * width == f * width + width) by (nonlinear_arith);
            assert((f + 1) * src == f * src + src) by (nonlinear_arith);
        }
        let mut first: u32 = SILENCE;
        let mut second: u32 = SILENCE;
        let mut k: usize = 0;
        while k < src
            invariant
                out.len() == n,
                before.len() == n,
                width > 0,
                base + width <= n,
                k <= src,
                abase == a0.len(),
                answers.len() == abase + k,
                forall|j: int| 0 <= j < abase ==> answers[j] == a0[j],
                k >= 1 ==> first == sample_or_silence(answers[abase]),
                k >= 2 ==> second == sample_or_silence(answers[abase + 1]),
                k == 0 ==> first == SILENCE,
                forall|i: int| base <= i < base + k && i < base + width ==> out@[i] == OutputSample::Bits(sample_or_silence(answers[abase + (i - base)])),
                forall|i: int| 0 <= i < base ==> out@[i] == channel_sample(a0, src as int, i / (width as int), i % (width as int)),
                forall|i: int| base + width <= i < n ==> out@[i] == before[i],
                popped_samples(*consumer) == popped0 + handed_out(answers),
                consumer_limit(*consumer) == limit0,
            decreases src - k,
        {
            let popped = ring_try_pop(consumer);
            let s: u32 = match popped {
                Some(s) => s,
                None => SILENCE,
            };
            proof {
                let longer = answers.push(popped);
                assert(longer.drop_last() =~= answers);
                assert(longer.last() == popped);
                match popped {
                    Some(v) => {
                        assert(popped0 + handed_out(answers).push(v) =~= (popped0 + handed_out(answers)).push(v));
                    },
                    None => {},
                }
                answers = longer;
            }
            if k == 0 {
                first = s;
            } else if k == 1 {
                second = s;
            }
            if k < width {
                out.set(base + k, OutputSample::Bits(s));
            }
            k += 1;
        }
        let mut c: usize = src;
        while c < width
            invariant
                out.len() == n,
                before.len() == n,
                base + width <= n,
                src <= c,
                src < width ==> c <= width,
                answers.len() == abase + src,
                src >= 1 ==> first == sample_or_silence(answers[abase]),
                src >= 2 ==> second == sample_or_silence(answers[abase + 1]),
                src == 0 ==> first == SILENCE,
                forall|i: int| base <= i < base + src && i < base + width ==> out@[i] == OutputSample::Bits(sample_or_silence(answers[abase + (i - base)])),
                forall|i: int| base + src <= i < base + c ==> out@[i] == (if src >= 2 {
                    OutputSample::Mean(first, second)
                } else {
                    OutputSample::Bits(first)
                }),
                forall|i: int| 0 <= i < base ==> out@[i] == channel_sample(a0, src as int, i / (width as int), i % (width as int)),
                forall|i: int| base + width <= i < n ==> out@[i] == before[i],
            decreases width - c,
        {
            out.set(base + c, extra_channel(src, first, second));
            c += 1;
        }
        proof {
            assert forall|i: int| 0 <= i < base + width implies out@[i] == channel_sample(
                answers,
                src as int,
                i / (width as int),
                i % (width as int),
            ) by {
                if i < base {
                    lemma_frame_of_index(i, f as int, width as int);
                    lemma_channel_sample_prefix(
                        a0,
                        answers,
                        src as int,
                        f as int,
                        i / (width as int),
                        i % (width as int),
                    );
                } else {
                    let d = i - base;
                    lemma_index_of_slot(f as int, width as int, d);
                    assert(i == f * width + d);
                }
            }
        }
        base += width;
        f += 1;
        proof {
            abase = abase + src;
        }
    }
    proof {
        assert(frames as int == frame_count(before.len() as int, out_ch as int));
        assert(out@ =~= played(before, file_ch as int, out_ch as int, answers));
        assert(is_playback(
            before,
            out@,
            file_ch as int,
            out_ch as int,
            answers,
            popped0,
            popped_samples(*consumer),
        ));
    }
}

/// The hardware callback on the shared cells: reads the pause flag once and
/// renders accordingly.
pub fn render_callback(
    shared: &SharedState,
    file_ch: u16,
    out_ch: u16,
    consumer: &mut SampleConsumer,
    out: &mut Vec<OutputSample>,
)
    ensures
        final(out)@.len() == old(out)@.len(),
        consumer_limit(*final(consumer)) == consumer_limit(*old(consumer)),
        ({
            ||| {
                &&& final(out)@ == silent(old(out)@.len())
                &&& popped_samples(*final(consumer)) == popped_samples(*old(consumer))
            }
            ||| exists|answers: Seq<Option<u32>>|
                is_playback(
                    old(out)@,
                    final(out)@,
                    file_ch as int,
                    out_ch as int,
                    answers,
                    popped_samples(*old(consumer)),
                    popped_samples(*final(consumer)),
                )
        }),
{
    let paused = shared.paused();
    render(paused, file_ch, out_ch, consumer, out);
}

/// Wait between two looks at the stop flag by the thread that keeps the
/// output stream alive, in microseconds.
pub const OUTPUT_POLL_MICROS: u64 = 50_000;

/// What the thread that keeps the output stream alive does next.
#[derive(Clone, Copy, Debug, PartialEq, Eq)]
pub enum OutputAction {
    /// Let go of the stream and end.
    Exit,
    /// Wait, then look again.
    Sleep { micros: u64 },
}

/// The stream lives until a stop is asked for.
pub open spec fn supervision(stopping: bool) -> OutputAction {
    if stopping {
        OutputAction::Exit
    } else {
        OutputAction::Sleep { micros: OUTPUT_POLL_MICROS }
    }
}

pub fn supervise(stopping: bool) -> (action: OutputAction)
    ensures
        action == supervision(stopping),
{
    if stopping {
        OutputAction::Exit
    } else {
        OutputAction::Sleep { micros: OUTPUT_POLL_MICROS }
    }
}

/// One look at the stop flag by the thread that keeps the stream alive.
pub fn poll_stop(shared: &SharedState) -> (action: OutputAction)
    ensures
        exists|stopping: bool| action == supervision(stopping),
{
    let stopping = shared.stop_requested();
    let action = supervise(stopping);
    assert(action == supervision(stopping));
    action
}

} // verus!
