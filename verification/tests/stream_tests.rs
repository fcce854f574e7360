use podcast_capture::errors::CaptureError;
use podcast_capture::session::RecordingSession;
use podcast_capture::stream::{start_stream, StreamHandle, StreamStatus};

fn samples(len: usize, seed: f32) -> Vec<u32> {
    let mut block: Vec<u32> = Vec::new();
    let mut i: usize = 0;
    while i < len {
        block.push((seed + i as f32).to_bits());
        i += 1;
    }
    block
}

#[test]
fn new_handle_is_created() {
    let handle = StreamHandle::new();
    assert_eq!(handle.status(), StreamStatus::Created);
    assert!(!handle.is_live());
}

#[test]
fn begin_playing_moves_created_to_playing() {
    let mut handle = StreamHandle::new();
    assert_eq!(handle.begin_playing(), Ok(()));
    assert_eq!(handle.status(), StreamStatus::Playing);
    assert!(handle.is_live());
}

#[test]
fn begin_playing_twice_is_refused() {
    let mut handle = StreamHandle::new();
    assert_eq!(handle.begin_playing(), Ok(()));
    assert_eq!(handle.begin_playing(), Err(CaptureError::InvalidStateError));
    assert_eq!(handle.status(), StreamStatus::Playing);
}

#[test]
fn stopped_handle_cannot_restart() {
    let mut handle = StreamHandle::new();
    assert_eq!(handle.begin_playing(), Ok(()));
    handle.stop();
    assert_eq!(handle.status(), StreamStatus::Stopped);
    assert_eq!(handle.begin_playing(), Err(CaptureError::InvalidStateError));
    assert_eq!(handle.status(), StreamStatus::Stopped);
}

#[test]
fn stop_is_idempotent() {
    let mut handle = StreamHandle::new();
    assert_eq!(handle.begin_playing(), Ok(()));
    handle.stop();
    handle.stop();
    assert_eq!(handle.status(), StreamStatus::Stopped);
}

#[test]
fn stop_does_not_hide_a_failure() {
    let mut handle = StreamHandle::new();
    assert_eq!(handle.begin_playing(), Ok(()));
    handle.report_failure();
    handle.stop();
    assert_eq!(handle.status(), StreamStatus::Failed);
}

#[test]
fn failure_after_stop_is_ignored() {
    let mut handle = StreamHandle::new();
    assert_eq!(handle.begin_playing(), Ok(()));
    handle.stop();
    handle.report_failure();
    assert_eq!(handle.status(), StreamStatus::Stopped);
}

#[test]
fn deliver_while_playing_and_armed_appends() {
    let mut session = RecordingSession::new();
    session.arm();
    let mut handle = StreamHandle::new();
    assert_eq!(handle.begin_playing(), Ok(()));
    handle.deliver(&mut session, &vec![1u32, 2, 3]);
    assert_eq!(session.snapshot(), vec![1u32, 2, 3]);
}

#[test]
fn deliver_while_playing_but_disarmed_discards() {
    let mut session = RecordingSession::new();
    let mut handle = StreamHandle::new();
    assert_eq!(handle.begin_playing(), Ok(()));
    handle.deliver(&mut session, &vec![1u32, 2, 3]);
    assert_eq!(session.snapshot(), Vec::<u32>::new());
}

#[test]
fn no_appends_after_stop() {
    let mut session = RecordingSession::new();
    session.arm();
    let mut handle = StreamHandle::new();
    assert_eq!(handle.begin_playing(), Ok(()));
    handle.deliver(&mut session, &samples(10, 0.0));
    handle.stop();
    let before = session.snapshot();
    let mut i: usize = 0;
    while i < 8 {
        handle.deliver(&mut session, &samples(10, 50.0 + i as f32));
        i += 1;
    }
    assert_eq!(session.snapshot(), before);
    assert_eq!(session.snapshot().len(), 10);
    assert!(session.is_armed());
}

#[test]
fn disconnect_mid_stream_fails_and_blocks_appends() {
    let mut session = RecordingSession::new();
    session.arm();
    let mut handle = StreamHandle::new();
    assert_eq!(handle.begin_playing(), Ok(()));
    handle.deliver(&mut session, &samples(10, 0.0));
    assert_eq!(session.snapshot().len(), 10);

    handle.report_failure();
    assert_eq!(handle.status(), StreamStatus::Failed);

    let mut i: usize = 0;
    while i < 5 {
        handle.deliver(&mut session, &samples(10, 90.0 + i as f32));
        i += 1;
    }
    assert!(session.is_armed());
    assert_eq!(session.snapshot().len(), 10);
    assert_eq!(session.snapshot(), samples(10, 0.0));
}

#[test]
fn deliver_before_playing_discards() {
    let mut session = RecordingSession::new();
    session.arm();
    let handle = StreamHandle::new();
    handle.deliver(&mut session, &vec![9u32]);
    assert_eq!(session.snapshot(), Vec::<u32>::new());
}

#[test]
fn start_stream_success_gives_playing_handle() {
    let r = start_stream(true);
    assert!(r.is_ok());
    let handle = r.unwrap();
    assert_eq!(handle.status(), StreamStatus::Playing);
}

#[test]
fn start_stream_failure_reports_creation_error() {
    let r = start_stream(false);
    assert!(matches!(r, Err(CaptureError::StreamCreationError)));
}
