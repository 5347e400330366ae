use voice_clip::capture::{
    capture_settings, captured, failure, next_capture_step, start_capture, Access, CaptureEvent,
    CaptureStep, FileEncoding, Rounding, SampleFormat,
};

#[test]
fn sound_is_captured_at_sixteen_kilohertz() {
    let settings = capture_settings();
    assert_eq!(settings.channels, 1);
    assert_eq!(settings.rate, 16000);
    assert_eq!(settings.buffer_frames, 8000);
    assert_eq!(settings.period_frames, 1600);
    assert_eq!(settings.file_channels, 1);
    assert_eq!(settings.bits_per_sample, 16);
    assert_eq!(settings.read_samples, 1600);
    assert_eq!(settings.format, SampleFormat::S16);
    assert_eq!(settings.access, Access::Interleaved);
    assert_eq!(settings.rounding, Rounding::Nearest);
    assert_eq!(settings.encoding, FileEncoding::Int);
}

#[test]
fn only_what_was_read_is_recorded() {
    let buffer: Vec<i16> = vec![1, -2, 3, 4];
    assert_eq!(captured(&buffer, 0).to_vec(), Vec::<i16>::new());
    assert_eq!(captured(&buffer, 3).to_vec(), vec![1, -2, 3]);
    assert_eq!(captured(&buffer, 4).to_vec(), buffer);
}

#[test]
fn a_recorder_reads_until_it_is_told_to_stop() {
    assert_eq!(next_capture_step(CaptureEvent::StreamOpened(true)), CaptureStep::CheckStop);
    assert_eq!(next_capture_step(CaptureEvent::Checked(false)), CaptureStep::Read);
    assert_eq!(next_capture_step(CaptureEvent::Read(7)), CaptureStep::Write(7));
    assert_eq!(next_capture_step(CaptureEvent::Written(true)), CaptureStep::CheckStop);
    assert_eq!(next_capture_step(CaptureEvent::Checked(true)), CaptureStep::Finalize);
    assert_eq!(next_capture_step(CaptureEvent::Finalized(true)), CaptureStep::Drain);
    assert_eq!(next_capture_step(CaptureEvent::Drained), CaptureStep::Done);
}

#[test]
fn a_recorder_recovers_where_it_can() {
    assert_eq!(next_capture_step(CaptureEvent::ReadFailed), CaptureStep::Recover);
    assert_eq!(next_capture_step(CaptureEvent::Recovered(true)), CaptureStep::CheckStop);
    assert_eq!(next_capture_step(CaptureEvent::Recovered(false)), CaptureStep::Restart);
    assert_eq!(next_capture_step(CaptureEvent::Restarted(true)), CaptureStep::CheckStop);
    assert_eq!(next_capture_step(CaptureEvent::Restarted(false)), CaptureStep::Finalize);
    assert_eq!(next_capture_step(CaptureEvent::RecoverFailed), CaptureStep::Finalize);
}

#[test]
fn a_file_that_fails_ends_the_recording() {
    assert_eq!(next_capture_step(CaptureEvent::Written(false)), CaptureStep::Abort);
    assert_eq!(next_capture_step(CaptureEvent::Finalized(false)), CaptureStep::Abort);
}

#[test]
fn the_file_holds_what_was_read_in_order() {
    let reads: Vec<(Vec<i16>, usize)> =
        vec![(vec![1, 2, 3], 2), (vec![4, 5, 6], 3), (vec![7, 8, 9], 0), (vec![10, 11, 12], 1)];
    let mut pending = reads.iter();
    let mut buffer: Vec<i16> = Vec::new();
    let mut file: Vec<i16> = Vec::new();
    let mut step = start_capture();
    loop {
        let event = match step {
            CaptureStep::OpenDevice => CaptureEvent::DeviceOpened(true),
            CaptureStep::Configure => CaptureEvent::Configured(true),
            CaptureStep::StartDevice => CaptureEvent::DeviceStarted(true),
            CaptureStep::CreateFile => CaptureEvent::FileCreated(true),
            CaptureStep::OpenStream => CaptureEvent::StreamOpened(true),
            CaptureStep::CheckStop => CaptureEvent::Checked(pending.len() == 0),
            CaptureStep::Read => {
                let (samples, frames) = pending.next().unwrap();
                buffer = samples.clone();
                CaptureEvent::Read(*frames)
            }
            CaptureStep::Write(frames) => {
                file.extend(captured(&buffer, frames));
                CaptureEvent::Written(true)
            }
            CaptureStep::Finalize => CaptureEvent::Finalized(true),
            CaptureStep::Drain => CaptureEvent::Drained,
            CaptureStep::Done => break,
            _ => panic!("nothing went wrong"),
        };
        step = next_capture_step(event);
    }
    assert_eq!(file, vec![1, 2, 4, 5, 6, 10]);
}

#[test]
fn the_device_runs_before_the_file_is_created() {
    assert_eq!(start_capture(), CaptureStep::OpenDevice);
    assert_eq!(next_capture_step(CaptureEvent::DeviceOpened(true)), CaptureStep::Configure);
    assert_eq!(next_capture_step(CaptureEvent::Configured(true)), CaptureStep::StartDevice);
    assert_eq!(next_capture_step(CaptureEvent::DeviceStarted(true)), CaptureStep::CreateFile);
    assert_eq!(next_capture_step(CaptureEvent::FileCreated(true)), CaptureStep::OpenStream);
}

#[test]
fn a_device_that_fails_leaves_no_file() {
    assert_eq!(next_capture_step(CaptureEvent::DeviceOpened(false)), CaptureStep::Abort);
    assert_eq!(next_capture_step(CaptureEvent::Configured(false)), CaptureStep::Abort);
    assert_eq!(next_capture_step(CaptureEvent::DeviceStarted(false)), CaptureStep::Abort);
}

#[test]
fn a_recording_that_does_not_open_fails() {
    assert_eq!(next_capture_step(CaptureEvent::FileCreated(false)), CaptureStep::Abort);
    assert_eq!(next_capture_step(CaptureEvent::StreamOpened(false)), CaptureStep::Abort);
}

#[test]
fn what_does_not_open_is_named() {
    let said = |step| failure(step, "plughw:0,0", "/clips/a.wav");
    assert_eq!(
        said(CaptureStep::OpenDevice),
        Some("Failed to open ALSA device 'plughw:0,0'".to_string())
    );
    assert_eq!(
        said(CaptureStep::CreateFile),
        Some("Failed to create WAV file: /clips/a.wav".to_string())
    );
    assert_eq!(said(CaptureStep::Configure), None);
    assert_eq!(said(CaptureStep::StartDevice), None);
    assert_eq!(said(CaptureStep::OpenStream), None);
}
