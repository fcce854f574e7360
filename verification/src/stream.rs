//! The input-stream state machine. A stream handle moves through
//! `Created -> Playing -> {Stopped, Failed}`; callbacks reach the session
//! only while the handle is playing, so tearing a stream down (or a device
//! failure) provably ends all appends, whatever the armed flag says.

use vstd::prelude::*;

use crate::errors::CaptureError;
use crate::session::{RecordingSession, Sample, SessionEvent, SessionView, session_step};

verus! {

/// Where a stream stands in its life. `Playing` is the only state in which
/// delivered blocks can reach the session; `Stopped` and `Failed` are
/// terminal, and a new capture needs a new handle.
#[derive(Clone, Copy, Debug, PartialEq, Eq, Structural)]
pub enum StreamStatus {
    Created,
    Playing,
    Stopped,
    Failed,
}

/// The consumer's view of one input stream: its place in the
/// `Created -> Playing -> {Stopped, Failed}` machine. The platform's own
/// stream object lives outside the core; every decision about whether a
/// delivered block may touch the session is taken here.
pub struct StreamHandle {
    status: StreamStatus,
}

impl View for StreamHandle {
    type V = StreamStatus;

    closed spec fn view(&self) -> StreamStatus {
        self.status
    }
}

/// What one delivered block does to the session, given the stream's status:
/// only a playing stream forwards it; from any other status the session is
/// untouched.
pub open spec fn deliver_step(status: StreamStatus, s: SessionView, block: Seq<Sample>)
    -> SessionView {
    if status is Playing {
        session_step(s, SessionEvent::Append(block))
    } else {
        s
    }
}

/// The session after a whole sequence of delivered blocks, in order, under
/// one fixed stream status.
pub open spec fn deliver_run(status: StreamStatus, s: SessionView, blocks: Seq<Seq<Sample>>)
    -> SessionView
    decreases blocks.len(),
{
    if blocks.len() == 0 {
        s
    } else {
        deliver_run(status, deliver_step(status, s, blocks[0]), blocks.drop_first())
    }
}

impl StreamHandle {
    /// A handle for a stream that has been set up but not yet started.
    pub fn new() -> (h: Self)
        ensures
            h@ is Created,
    {
        StreamHandle { status: StreamStatus::Created }
    }

    /// The current place of the stream in its life cycle.
    pub fn status(&self) -> (r: StreamStatus)
        ensures
            r == self@,
    {
        self.status
    }

    /// Whether callbacks may currently reach the session.
    pub fn is_live(&self) -> (r: bool)
        ensures
            r == (self@ is Playing),
    {
        self.status == StreamStatus::Playing
    }

    /// Moves a freshly created stream into `Playing`. From any other state
    /// the transition is refused: `Stopped` and `Failed` are terminal, and a
    /// stream cannot be started twice — a new capture needs a new handle.
    pub fn begin_playing(&mut self) -> (r: Result<(), CaptureError>)
        ensures
            old(self)@ is Created ==> r == Ok::<(), CaptureError>(()) && final(self)@ is Playing,
            !(old(self)@ is Created) ==> r == Err::<(), CaptureError>(
                CaptureError::InvalidStateError,
            ) && final(self)@ == old(self)@,
    {
        if self.status == StreamStatus::Created {
            self.status = StreamStatus::Playing;
            Ok(())
        } else {
            Err(CaptureError::InvalidStateError)
        }
    }

    /// Tears the stream down. After it returns the handle is never again
    /// `Playing`, so no further callback can alter the session. Idempotent:
    /// stopping twice leaves it stopped. A stream that already failed keeps
    /// reporting `Failed`; a stop must not hide the failure.
    pub fn stop(&mut self)
        ensures
            old(self)@ is Failed ==> final(self)@ is Failed,
            !(old(self)@ is Failed) ==> final(self)@ is Stopped,
            !(final(self)@ is Playing),
    {
        if self.status != StreamStatus::Failed {
            self.status = StreamStatus::Stopped;
        }
    }

    /// Records a device or driver failure reported from the capture side.
    /// The stream is dead from here on: the handle shows `Failed`, visible
    /// to the consumer, and no further block can reach the session. A
    /// failure reported after an orderly stop is ignored, since the stream
    /// was already torn down.
    pub fn report_failure(&mut self)
        ensures
            old(self)@ is Stopped ==> final(self)@ is Stopped,
            !(old(self)@ is Stopped) ==> final(self)@ is Failed,
            !(final(self)@ is Playing),
    {
        if self.status != StreamStatus::Stopped {
            self.status = StreamStatus::Failed;
        }
    }

    /// The capture callback's whole effect on shared state: the delivered
    /// block is handed to the session only while the stream is playing (and
    /// is then kept only if the session is armed); from a created, stopped
    /// or failed stream the session is left exactly as it was.
    pub fn deliver(&self, session: &mut RecordingSession, block: &Vec<Sample>)
        ensures
            final(session)@ == deliver_step(self@, old(session)@, block@),
            final(session)@.armed == old(session)@.armed,
            self@ is Playing && old(session)@.armed ==> final(session)@.samples
                == old(session)@.samples + block@,
            !(self@ is Playing) || !old(session)@.armed ==> final(session)@.samples
                == old(session)@.samples,
    {
        if self.is_live() {
            session.append_block(block);
        }
    }
}

/// The outcome of an attempt to open an input stream on the selected
/// device. The platform handshake itself runs outside the core and reports
/// only whether it produced a working stream: from that report, either a
/// playing handle is handed out, or the attempt fails with
/// `StreamCreationError` and no handle exists at all. A failed attempt is
/// retryable with another device or at a later time.
pub fn start_stream(opened: bool) -> (r: Result<StreamHandle, CaptureError>)
    ensures
        opened ==> r is Ok && r->Ok_0@ is Playing,
        !opened ==> r == Err::<StreamHandle, CaptureError>(CaptureError::StreamCreationError),
{
    if opened {
        let mut handle = StreamHandle::new();
        let _ = handle.begin_playing();
        Ok(handle)
    } else {
        Err(CaptureError::StreamCreationError)
    }
}

/// Law: once a stream is no longer playing — created but never started,
/// stopped in an orderly way, or dead after a device failure — any number of
/// delivered blocks leaves the session exactly as it was, armed or not.
pub proof fn lemma_inactive_stream_preserves_session(
    status: StreamStatus,
    s: SessionView,
    blocks: Seq<Seq<Sample>>,
)
    requires
        !(status is Playing),
    ensures
        deliver_run(status, s, blocks) == s,
    decreases blocks.len(),
{
    if blocks.len() > 0 {
        lemma_inactive_stream_preserves_session(status, s, blocks.drop_first());
    }
}

} // verus!
