//! The recorder: how sound is captured, and what is done when the device stumbles.

use vstd::prelude::*;
use vstd::slice::slice_subrange;

use crate::text::{join, opt_view};

verus! {

/// How many samples a second has on each channel.
pub const SAMPLE_RATE: u32 = 16000;

/// How many channels are recorded.
pub const CHANNELS: u32 = 1;

/// How many bits a sample has.
pub const BITS_PER_SAMPLE: u16 = 16;

/// How many frames are read at a time: a tenth of a second. A frame has a sample for each
/// channel.
pub const FRAMES_PER_PERIOD: usize = 1600;

/// How a sample comes from the device.
#[derive(Clone, Copy, PartialEq, Eq, Structural, Debug)]
pub enum SampleFormat {
    /// As a signed integer of 16 bits, in the byte order of the machine.
    S16,
    /// As a floating point number of 32 bits, in the byte order of the machine.
    Float32,
}

/// How the channels come from the device.
#[derive(Clone, Copy, PartialEq, Eq, Structural, Debug)]
pub enum Access {
    /// Read, with the samples of a frame beside each other.
    Interleaved,
    /// Read, with the samples of a channel beside each other.
    NonInterleaved,
}

/// What the device takes where it does not have the value that is asked for.
#[derive(Clone, Copy, PartialEq, Eq, Structural, Debug)]
pub enum Rounding {
    /// A smaller one.
    Less,
    /// The nearest.
    Nearest,
    /// A greater one.
    Greater,
}

/// How a sample stands in the file.
#[derive(Clone, Copy, PartialEq, Eq, Structural, Debug)]
pub enum FileEncoding {
    /// As an integer.
    Int,
    /// As a floating point number.
    Float,
}

/// How the capture device and the audio file are set up.
#[derive(Clone, Copy, PartialEq, Eq, Structural, Debug)]
pub struct CaptureSettings {
    /// The channels of the device.
    pub channels: u32,
    /// The sample rate of the device and of the file.
    pub rate: u32,
    /// How a sample comes from the device.
    pub format: SampleFormat,
    /// How the channels come from the device.
    pub access: Access,
    /// The frames for which the device has room.
    pub buffer_frames: i64,
    /// The frames that the device hands over at a time.
    pub period_frames: i64,
    /// What the device takes in place of a rate or a period that it does not have.
    pub rounding: Rounding,
    /// The channels of the file.
    pub file_channels: u16,
    /// The bits of a sample, in the file.
    pub bits_per_sample: u16,
    /// How a sample stands in the file.
    pub encoding: FileEncoding,
    /// The samples for which there is room when the device is read.
    pub read_samples: usize,
}

/// How the capture device and the audio file are set up: the device has room for half a second
/// and is read a tenth of a second at a time, and its samples are integers of 16 bits, in the
/// file as they come from the device.
pub fn capture_settings() -> (settings: CaptureSettings)
    ensures
        settings.channels == CHANNELS,
        settings.rate == SAMPLE_RATE,
        settings.format == SampleFormat::S16,
        settings.access == Access::Interleaved,
        settings.buffer_frames == SAMPLE_RATE as int / 2,
        settings.period_frames == SAMPLE_RATE as int / 10,
        settings.rounding == Rounding::Nearest,
        settings.file_channels == CHANNELS,
        settings.bits_per_sample == BITS_PER_SAMPLE,
        settings.encoding == FileEncoding::Int,
        settings.read_samples == FRAMES_PER_PERIOD * CHANNELS,
        FRAMES_PER_PERIOD == SAMPLE_RATE as int / 10,
{
    CaptureSettings {
        channels: CHANNELS,
        rate: SAMPLE_RATE,
        format: SampleFormat::S16,
        access: Access::Interleaved,
        buffer_frames: SAMPLE_RATE as i64 / 2,
        period_frames: SAMPLE_RATE as i64 / 10,
        rounding: Rounding::Nearest,
        file_channels: CHANNELS as u16,
        bits_per_sample: BITS_PER_SAMPLE,
        encoding: FileEncoding::Int,
        read_samples: FRAMES_PER_PERIOD * CHANNELS as usize,
    }
}

/// The part of a buffer that the device filled, given the frames that it says it read.
pub open spec fn captured_part(buffer: Seq<i16>, frames: int) -> Seq<i16> {
    buffer.take(frames * CHANNELS)
}

/// The part of a buffer that the device filled, given the frames that it says it read.
pub fn captured<'a>(buffer: &'a [i16], frames: usize) -> (samples: &'a [i16])
    requires
        frames * CHANNELS <= buffer@.len(),
    ensures
        samples@ == captured_part(buffer@, frames as int),
{
    let count: usize = frames * CHANNELS as usize;
    slice_subrange(buffer, 0, count)
}

/// What has come of a step of the recorder.
#[derive(Clone, Copy, PartialEq, Eq, Structural, Debug)]
pub enum CaptureEvent {
    /// Whether the device is open.
    DeviceOpened(bool),
    /// Whether the device is set up for the recording.
    Configured(bool),
    /// Whether the device has started.
    DeviceStarted(bool),
    /// Whether the file is there.
    FileCreated(bool),
    /// Whether the device can be read sample by sample.
    StreamOpened(bool),
    /// Whether the recorder is told to stop.
    Checked(bool),
    /// So many frames have been read.
    Read(usize),
    /// The device could not be read.
    ReadFailed,
    /// Whether the samples are in the file.
    Written(bool),
    /// The device has recovered, and whether it is running.
    Recovered(bool),
    /// The device has not recovered.
    RecoverFailed,
    /// Whether the device has started again.
    Restarted(bool),
    /// Whether the file is complete.
    Finalized(bool),
    /// The device has been drained.
    Drained,
}

/// A step of the recorder.
#[derive(Clone, Copy, PartialEq, Eq, Structural, Debug)]
pub enum CaptureStep {
    /// Open the device.
    OpenDevice,
    /// Set the device up for the recording.
    Configure,
    /// Start the device.
    StartDevice,
    /// Create the file.
    CreateFile,
    /// Have the device ready to be read sample by sample.
    OpenStream,
    /// See whether the recorder is told to stop.
    CheckStop,
    /// Read the device.
    Read,
    /// Write so many frames of what was read to the file.
    Write(usize),
    /// Have the device recover from what is wrong with it.
    Recover,
    /// Start the device again.
    Restart,
    /// Complete the file.
    Finalize,
    /// Drain the device.
    Drain,
    /// End; the recording is there.
    Done,
    /// End; the recording has failed.
    Abort,
}

/// The step with which a recorder starts.
pub open spec fn first_capture_step() -> CaptureStep {
    CaptureStep::OpenDevice
}

/// The step that follows.
pub open spec fn capture_after(event: CaptureEvent) -> CaptureStep {
    match event {
        CaptureEvent::DeviceOpened(done) => if done {
            CaptureStep::Configure
        } else {
            CaptureStep::Abort
        },
        CaptureEvent::Configured(done) => if done {
            CaptureStep::StartDevice
        } else {
            CaptureStep::Abort
        },
        CaptureEvent::DeviceStarted(done) => if done {
            CaptureStep::CreateFile
        } else {
            CaptureStep::Abort
        },
        CaptureEvent::FileCreated(done) => if done {
            CaptureStep::OpenStream
        } else {
            CaptureStep::Abort
        },
        CaptureEvent::StreamOpened(done) => if done {
            CaptureStep::CheckStop
        } else {
            CaptureStep::Abort
        },
        CaptureEvent::Checked(stop) => if stop {
            CaptureStep::Finalize
        } else {
            CaptureStep::Read
        },
        CaptureEvent::Read(frames) => CaptureStep::Write(frames),
        CaptureEvent::ReadFailed => CaptureStep::Recover,
        CaptureEvent::Written(done) => if done {
            CaptureStep::CheckStop
        } else {
            CaptureStep::Abort
        },
        CaptureEvent::Recovered(running) => if running {
            CaptureStep::CheckStop
        } else {
            CaptureStep::Restart
        },
        CaptureEvent::RecoverFailed => CaptureStep::Finalize,
        CaptureEvent::Restarted(started) => if started {
            CaptureStep::CheckStop
        } else {
            CaptureStep::Finalize
        },
        CaptureEvent::Finalized(done) => if done {
            CaptureStep::Drain
        } else {
            CaptureStep::Abort
        },
        CaptureEvent::Drained => CaptureStep::Done,
    }
}

/// The step with which a recorder starts.
pub fn start_capture() -> (step: CaptureStep)
    ensures
        step == first_capture_step(),
{
    CaptureStep::OpenDevice
}

/// The step that follows.
pub fn next_capture_step(event: CaptureEvent) -> (step: CaptureStep)
    ensures
        step == capture_after(event),
{
    match event {
        CaptureEvent::DeviceOpened(done) => if done {
            CaptureStep::Configure
        } else {
            CaptureStep::Abort
        },
        CaptureEvent::Configured(done) => if done {
            CaptureStep::StartDevice
        } else {
            CaptureStep::Abort
        },
        CaptureEvent::DeviceStarted(done) => if done {
            CaptureStep::CreateFile
        } else {
            CaptureStep::Abort
        },
        CaptureEvent::FileCreated(done) => if done {
            CaptureStep::OpenStream
        } else {
            CaptureStep::Abort
        },
        CaptureEvent::StreamOpened(done) => if done {
            CaptureStep::CheckStop
        } else {
            CaptureStep::Abort
        },
        CaptureEvent::Checked(stop) => if stop {
            CaptureStep::Finalize
        } else {
            CaptureStep::Read
        },
        CaptureEvent::Read(frames) => CaptureStep::Write(frames),
        CaptureEvent::ReadFailed => CaptureStep::Recover,
        CaptureEvent::Written(done) => if done {
            CaptureStep::CheckStop
        } else {
            CaptureStep::Abort
        },
        CaptureEvent::Recovered(running) => if running {
            CaptureStep::CheckStop
        } else {
            CaptureStep::Restart
        },
        CaptureEvent::RecoverFailed => CaptureStep::Finalize,
        CaptureEvent::Restarted(started) => if started {
            CaptureStep::CheckStop
        } else {
            CaptureStep::Finalize
        },
        CaptureEvent::Finalized(done) => if done {
            CaptureStep::Drain
        } else {
            CaptureStep::Abort
        },
        CaptureEvent::Drained => CaptureStep::Done,
    }
}

/// Whether `event` can come of `step`.
pub open spec fn can_come_of(event: CaptureEvent, step: CaptureStep) -> bool {
    match step {
        CaptureStep::OpenDevice => event is DeviceOpened,
        CaptureStep::Configure => event is Configured,
        CaptureStep::StartDevice => event is DeviceStarted,
        CaptureStep::CreateFile => event is FileCreated,
        CaptureStep::OpenStream => event is StreamOpened,
        CaptureStep::CheckStop => event is Checked,
        CaptureStep::Read => event is Read || event is ReadFailed,
        CaptureStep::Write(_) => event is Written,
        CaptureStep::Recover => event is Recovered || event is RecoverFailed,
        CaptureStep::Restart => event is Restarted,
        CaptureStep::Finalize => event is Finalized,
        CaptureStep::Drain => event is Drained,
        CaptureStep::Done => false,
        CaptureStep::Abort => false,
    }
}

/// The step that is due after these events.
pub open spec fn due_after(events: Seq<CaptureEvent>) -> CaptureStep {
    if events.len() == 0 {
        first_capture_step()
    } else {
        capture_after(events.last())
    }
}

/// Whether the event with this number has come of the step that was due then.
pub open spec fn comes_when_due(events: Seq<CaptureEvent>, i: int) -> bool {
    can_come_of(events[i], due_after(events.take(i)))
}

/// Whether these events, in this order, can be those of a recorder.
pub open spec fn is_session(events: Seq<CaptureEvent>) -> bool {
    forall|i: int| 0 <= i < events.len() ==> #[trigger] comes_when_due(events, i)
}

/// What is said, before its cause, where a step of a recorder of `device` into the file at
/// `wav_path` fails; nothing where the cause speaks for itself.
pub open spec fn complaint(
    step: CaptureStep,
    device: Seq<char>,
    wav_path: Seq<char>,
) -> Option<Seq<char>> {
    match step {
        CaptureStep::OpenDevice => Some("Failed to open ALSA device '"@ + device + "'"@),
        CaptureStep::CreateFile => Some("Failed to create WAV file: "@ + wav_path),
        _ => None,
    }
}

/// What is said, before its cause, where a step of a recorder of `device` into the file at
/// `wav_path` fails; nothing where the cause speaks for itself.
pub fn failure(step: CaptureStep, device: &str, wav_path: &str) -> (message: Option<String>)
    ensures
        opt_view(message) == complaint(step, device@, wav_path@),
{
    match step {
        CaptureStep::OpenDevice => {
            let opening = join("Failed to open ALSA device '", device);
            Some(join(opening.as_str(), "'"))
        },
        CaptureStep::CreateFile => Some(join("Failed to create WAV file: ", wav_path)),
        _ => None,
    }
}

/// Whether the device is open, set up and running after these events, and nothing else has been
/// done.
pub open spec fn device_is_running(events: Seq<CaptureEvent>) -> bool {
    events == seq![
        CaptureEvent::DeviceOpened(true),
        CaptureEvent::Configured(true),
        CaptureEvent::DeviceStarted(true),
    ]
}

/// Whether an event is one of opening the recording.
pub open spec fn is_opening(event: CaptureEvent) -> bool {
    event is DeviceOpened || event is Configured || event is DeviceStarted || event is FileCreated
        || event is StreamOpened
}

/// The file is due to be created when the device is open, set up and running, and only then.
pub proof fn law_file_needs_a_running_device(events: Seq<CaptureEvent>)
    requires
        is_session(events),
    ensures
        due_after(events) is CreateFile <==> device_is_running(events),
{
    let n = events.len() as int;
    if due_after(events) is CreateFile {
        assert(events[n - 1] == CaptureEvent::DeviceStarted(true));
        assert(comes_when_due(events, n - 1));
        assert(n >= 2);
        assert(events.take(n - 1).last() == events[n - 2]);
        assert(comes_when_due(events, n - 2));
        assert(n >= 3);
        assert(events.take(n - 2).last() == events[n - 3]);
        assert(comes_when_due(events, n - 3));
        if n > 3 {
            assert(events.take(n - 3).last() == events[n - 4]);
        }
        assert(n == 3);
        assert(events =~= seq![events[0], events[1], events[2]]);
    }
}

/// Once the device could not be opened, set up or started, the recording has failed: nothing
/// more is done, and no file is created or has been.
pub proof fn law_no_file_after_a_failed_device(events: Seq<CaptureEvent>, i: int)
    requires
        is_session(events),
        0 <= i < events.len(),
        events[i] == CaptureEvent::DeviceOpened(false) || events[i] == CaptureEvent::Configured(
            false,
        ) || events[i] == CaptureEvent::DeviceStarted(false),
    ensures
        i == events.len() - 1,
        due_after(events) is Abort,
        forall|j: int| 0 <= j < events.len() ==> !(#[trigger] events[j] is FileCreated),
        forall|j: int|
            0 <= j <= events.len() ==> !(due_after(#[trigger] events.take(j)) is CreateFile),
{
    law_abort_is_the_end(events, i);
    assert forall|j: int| 0 <= j <= events.len() implies !(due_after(
        #[trigger] events.take(j),
    ) is CreateFile) by {
        if due_after(events.take(j)) is CreateFile {
            let before = events.take(j);
            lemma_session_so_far(events, j);
            law_file_needs_a_running_device(before);
            assert(before.len() == 3);
            assert(before[0] == events[0] && before[1] == events[1] && before[2] == events[2]);
            assert(comes_when_due(events, i));
            assert(i >= 3);
            if i == 3 {
                assert(events.take(i) == before);
            } else {
                law_opening_comes_first(events, i);
            }
        }
    }
    assert forall|j: int| 0 <= j < events.len() implies !(#[trigger] events[j] is FileCreated) by {
        assert(comes_when_due(events, j));
        assert(!(due_after(events.take(j)) is CreateFile));
    }
}

/// A step that ends a failed recording is the last: nothing comes after it.
pub proof fn law_abort_is_the_end(events: Seq<CaptureEvent>, i: int)
    requires
        is_session(events),
        0 <= i < events.len(),
        capture_after(events[i]) is Abort,
    ensures
        i == events.len() - 1,
        due_after(events) is Abort,
{
    if i + 1 < events.len() {
        assert(events.take(i + 1).last() == events[i]);
        assert(comes_when_due(events, i + 1));
    }
}

/// A recorder opens its device, sets it up, starts it, creates its file and makes ready to read,
/// in this order; and nothing else is done before all of this has been done with success, nor any
/// of it again.
pub proof fn law_opening_comes_first(events: Seq<CaptureEvent>, i: int)
    requires
        is_session(events),
        0 <= i < events.len(),
    ensures
        is_opening(events[i]) <==> i < 5,
        i > 0 ==> events[0] == CaptureEvent::DeviceOpened(true),
        i > 1 ==> events[1] == CaptureEvent::Configured(true),
        i > 2 ==> events[2] == CaptureEvent::DeviceStarted(true),
        i > 3 ==> events[3] == CaptureEvent::FileCreated(true),
        i > 4 ==> events[4] == CaptureEvent::StreamOpened(true),
        i == 0 ==> events[i] is DeviceOpened,
        i == 1 ==> events[i] is Configured,
        i == 2 ==> events[i] is DeviceStarted,
        i == 3 ==> events[i] is FileCreated,
        i == 4 ==> events[i] is StreamOpened,
    decreases i,
{
    assert(comes_when_due(events, i));
    if i > 0 {
        law_opening_comes_first(events, i - 1);
        assert(events.take(i).last() == events[i - 1]);
    }
}

proof fn lemma_session_so_far(events: Seq<CaptureEvent>, n: int)
    requires
        is_session(events),
        0 <= n <= events.len(),
    ensures
        is_session(events.take(n)),
{
    let before = events.take(n);
    assert forall|i: int| 0 <= i < before.len() implies #[trigger] comes_when_due(before, i) by {
        assert(comes_when_due(events, i));
        assert(before[i] == events[i]);
        assert(before.take(i) == events.take(i));
    }
}

/// What a step writes to the file, given the buffer that was read last.
pub open spec fn written_by(step: CaptureStep, buffer: Seq<i16>) -> Seq<i16> {
    match step {
        CaptureStep::Write(frames) => captured_part(buffer, frames as int),
        _ => Seq::empty(),
    }
}

/// The samples that the file holds after these events, without those of a write that failed.
/// `buffers[i]` is what the buffer held when `events[i]` came.
pub open spec fn file_after(events: Seq<CaptureEvent>, buffers: Seq<Seq<i16>>) -> Seq<i16>
    decreases events.len(),
{
    if events.len() == 0 {
        Seq::empty()
    } else {
        file_after(events.drop_last(), buffers) + if events.last() == CaptureEvent::Written(true) {
            written_by(due_after(events.drop_last()), buffers[events.len() - 1])
        } else {
            Seq::empty()
        }
    }
}

/// The samples that the device has handed over with these events, in order.
pub open spec fn heard(events: Seq<CaptureEvent>, buffers: Seq<Seq<i16>>) -> Seq<i16>
    decreases events.len(),
{
    if events.len() == 0 {
        Seq::empty()
    } else {
        heard(events.drop_last(), buffers) + match events.last() {
            CaptureEvent::Read(frames) => captured_part(buffers[events.len() - 1], frames as int),
            _ => Seq::empty(),
        }
    }
}

/// The frames that the device has handed over with these events.
pub open spec fn frames_heard(events: Seq<CaptureEvent>) -> int
    decreases events.len(),
{
    if events.len() == 0 {
        0
    } else {
        frames_heard(events.drop_last()) + match events.last() {
            CaptureEvent::Read(frames) => frames as int,
            _ => 0,
        }
    }
}

/// Whether the buffers can be those of a recorder with these events: a read fills no more than
/// there is room for, and a write leaves the buffer alone.
pub open spec fn are_buffers_of(events: Seq<CaptureEvent>, buffers: Seq<Seq<i16>>) -> bool {
    &&& buffers.len() == events.len()
    &&& forall|i: int|
        0 <= i < events.len() ==> match #[trigger] events[i] {
            CaptureEvent::Read(frames) => frames * CHANNELS <= buffers[i].len(),
            CaptureEvent::Written(_) => i > 0 ==> buffers[i] == buffers[i - 1],
            _ => true,
        }
}

/// What was read last, where it is not in the file: it has yet to be written, or the write has
/// failed.
pub open spec fn unwritten(events: Seq<CaptureEvent>, buffers: Seq<Seq<i16>>) -> Seq<i16> {
    if events.len() == 0 {
        Seq::empty()
    } else {
        match events.last() {
            CaptureEvent::Read(frames) => captured_part(buffers[events.len() - 1], frames as int),
            CaptureEvent::Written(false) => written_by(
                due_after(events.drop_last()),
                buffers[events.len() - 1],
            ),
            _ => Seq::empty(),
        }
    }
}

/// What comes of reading so many frames is that just so many frames are written; and nothing is
/// written but what has just been read.
pub proof fn law_every_read_is_written(events: Seq<CaptureEvent>, i: int)
    requires
        is_session(events),
        0 <= i < events.len(),
    ensures
        events[i] matches CaptureEvent::Read(frames) ==> {
            &&& due_after(events.take(i + 1)) == CaptureStep::Write(frames)
            &&& i + 1 < events.len() ==> events[i + 1] is Written
        },
        due_after(events.take(i + 1)) matches CaptureStep::Write(frames) ==> events[i]
            == CaptureEvent::Read(frames),
        events[i] is Written ==> i > 0 && events[i - 1] is Read,
{
    assert(events.take(i + 1).last() == events[i]);
    assert(comes_when_due(events, i));
    if i + 1 < events.len() {
        assert(comes_when_due(events, i + 1));
    }
    if i > 0 {
        assert(events.take(i).last() == events[i - 1]);
    }
}

proof fn lemma_session_of_fewer(events: Seq<CaptureEvent>, buffers: Seq<Seq<i16>>)
    requires
        is_session(events),
        are_buffers_of(events, buffers),
        events.len() > 0,
    ensures
        is_session(events.drop_last()),
        are_buffers_of(events.drop_last(), buffers.drop_last()),
        file_after(events.drop_last(), buffers.drop_last()) == file_after(
            events.drop_last(),
            buffers,
        ),
        heard(events.drop_last(), buffers.drop_last()) == heard(events.drop_last(), buffers),
{
    let fewer = events.drop_last();
    assert forall|i: int| 0 <= i < fewer.len() implies #[trigger] comes_when_due(fewer, i) by {
        assert(comes_when_due(events, i));
        assert(fewer[i] == events[i]);
        assert(fewer.take(i) == events.take(i));
    }
    assert forall|i: int| 0 <= i < fewer.len() implies match #[trigger] fewer[i] {
        CaptureEvent::Read(frames) => frames * CHANNELS <= buffers.drop_last()[i].len(),
        CaptureEvent::Written(_) => i > 0 ==> buffers.drop_last()[i] == buffers.drop_last()[i - 1],
        _ => true,
    } by {
        assert(fewer[i] == events[i]);
    }
    lemma_later_buffers_do_not_matter(fewer, buffers.drop_last(), buffers);
}

proof fn lemma_later_buffers_do_not_matter(
    events: Seq<CaptureEvent>,
    xs: Seq<Seq<i16>>,
    ys: Seq<Seq<i16>>,
)
    requires
        events.len() <= xs.len(),
        events.len() <= ys.len(),
        forall|i: int| 0 <= i < events.len() ==> #[trigger] xs[i] == ys[i],
    ensures
        file_after(events, xs) == file_after(events, ys),
        heard(events, xs) == heard(events, ys),
    decreases events.len(),
{
    if events.len() > 0 {
        lemma_later_buffers_do_not_matter(events.drop_last(), xs, ys);
        assert(xs[events.len() - 1] == ys[events.len() - 1]);
    }
}

/// The file holds what the device has handed over, in order and nothing else: all of it, but for
/// what was read last where that has yet to be written or could not be written.
pub proof fn law_file_holds_what_was_heard(events: Seq<CaptureEvent>, buffers: Seq<Seq<i16>>)
    requires
        is_session(events),
        are_buffers_of(events, buffers),
    ensures
        heard(events, buffers) == file_after(events, buffers) + unwritten(events, buffers),
    decreases events.len(),
{
    if events.len() > 0 {
        let n = events.len() as int;
        let fewer = events.drop_last();
        lemma_session_of_fewer(events, buffers);
        law_file_holds_what_was_heard(fewer, buffers.drop_last());
        assert(events.take(n - 1) == fewer);
        assert(comes_when_due(events, n - 1));
        let file = file_after(fewer, buffers);
        let rest = unwritten(fewer, buffers.drop_last());
        match events.last() {
            CaptureEvent::Written(done) => {
                assert(events[n - 2] == fewer.last());
                assert(buffers[n - 1] == buffers[n - 2]);
                assert(rest == written_by(due_after(fewer), buffers[n - 1]));
                assert(heard(events, buffers) == file + rest);
            },
            _ => {
                assert(rest == Seq::<i16>::empty());
                assert(heard(fewer, buffers) == file);
                assert(file_after(events, buffers) == file);
            },
        }
    }
}

/// There is a sample for each channel of each frame that the device handed over; and in the file
/// of a recording that ends well there are those samples and no others.
pub proof fn law_every_frame_is_recorded(events: Seq<CaptureEvent>, buffers: Seq<Seq<i16>>)
    requires
        is_session(events),
        are_buffers_of(events, buffers),
    ensures
        heard(events, buffers).len() == frames_heard(events) * CHANNELS,
        due_after(events) is Done ==> file_after(events, buffers) == heard(events, buffers),
    decreases events.len(),
{
    law_file_holds_what_was_heard(events, buffers);
    if events.len() > 0 {
        lemma_session_of_fewer(events, buffers);
        law_every_frame_is_recorded(events.drop_last(), buffers.drop_last());
        assert(events[events.len() - 1] == events.last());
    }
}

/// The device is read only when the recorder has just seen that it is not told to stop.
pub proof fn law_read_only_while_not_stopped(events: Seq<CaptureEvent>, i: int)
    requires
        is_session(events),
        0 <= i < events.len(),
        events[i] is Read || events[i] is ReadFailed,
    ensures
        i > 0,
        events[i - 1] == CaptureEvent::Checked(false),
{
    assert(comes_when_due(events, i));
    if i > 0 {
        assert(events.take(i).last() == events[i - 1]);
    }
}

/// Once the recorder is told to stop, or the device has failed for good, the file is completed
/// at once, and nothing is read or written any more.
pub proof fn law_recording_closes(events: Seq<CaptureEvent>, i: int, j: int)
    requires
        is_session(events),
        0 <= i < j < events.len(),
        capture_after(events[i]) is Finalize,
    ensures
        events[i + 1] is Finalized,
        events[j] is Finalized || events[j] is Drained,
    decreases j,
{
    assert(events.take(i + 1).last() == events[i]);
    assert(comes_when_due(events, i + 1));
    if j > i + 1 {
        law_recording_closes(events, i, j - 1);
        assert(events.take(j).last() == events[j - 1]);
        assert(comes_when_due(events, j));
    }
}

/// A recording that ends well has a complete file.
pub proof fn law_done_means_complete(events: Seq<CaptureEvent>)
    requires
        is_session(events),
        due_after(events) is Done,
    ensures
        events.len() >= 2,
        events[events.len() - 2] == CaptureEvent::Finalized(true),
{
    let n = events.len() as int;
    assert(comes_when_due(events, n - 1));
    if n >= 2 {
        assert(events.take(n - 1).last() == events[n - 2]);
    }
}

/// A device that stumbles and recovers goes on being recorded.
pub proof fn law_recovery_goes_on(events: Seq<CaptureEvent>)
    requires
        is_session(events),
        events.len() > 0,
        events.last() == CaptureEvent::Recovered(true) || events.last() == CaptureEvent::Restarted(
            true,
        ),
    ensures
        due_after(events) is CheckStop,
        capture_after(CaptureEvent::Checked(false)) is Read,
{
}

/// Of a buffer the samples are taken that the frames read have, one for each channel, from its
/// start and unchanged.
pub proof fn law_captured_part_is_what_was_read(buffer: Seq<i16>, frames: int)
    requires
        0 <= frames,
        frames * CHANNELS <= buffer.len(),
    ensures
        captured_part(buffer, frames).len() == frames * CHANNELS,
        forall|i: int|
            0 <= i < frames * CHANNELS ==> #[trigger] captured_part(buffer, frames)[i]
                == buffer[i],
{
}

/// Where the device or the file does not open, it is named in full.
pub proof fn law_what_does_not_open_is_named(
    step: CaptureStep,
    device: Seq<char>,
    wav_path: Seq<char>,
)
    ensures
        step is OpenDevice ==> complaint(step, device, wav_path) == Some(
            "Failed to open ALSA device '"@ + device + "'"@,
        ),
        step is CreateFile ==> complaint(step, device, wav_path) == Some(
            "Failed to create WAV file: "@ + wav_path,
        ),
        !(step is OpenDevice) && !(step is CreateFile) ==> complaint(
            step,
            device,
            wav_path,
        ) is None,
{
}

/// What is recorded of a row of reads is what was read first, then what was read next: an event
/// adds what it brings behind all that was there, and takes nothing away.
pub proof fn law_recording_grows_at_its_end(
    events: Seq<CaptureEvent>,
    event: CaptureEvent,
    buffers: Seq<Seq<i16>>,
)
    ensures
        heard(events.push(event), buffers) == heard(events, buffers) + match event {
            CaptureEvent::Read(frames) => buffers[events.len() as int].take(frames * CHANNELS),
            _ => Seq::empty(),
        },
        file_after(events, buffers).is_prefix_of(file_after(events.push(event), buffers)),
{
    assert(events.push(event).drop_last() == events);
    assert(events.push(event).last() == event);
}

} // verus!
