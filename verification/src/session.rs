//! The shared recording-session state: an armed flag and an append-only
//! buffer of captured samples. The capture side appends blocks only while the
//! session is armed; a consumer arms, disarms, snapshots and resets it. The
//! transition system `session_step` / `session_run` is the mathematical model
//! that the executable operations are proved against.

use vstd::prelude::*;

use crate::errors::CaptureError;

verus! {

/// One interleaved audio sample, carried as the raw bit pattern of a 32-bit
/// float. The core never does arithmetic on samples, so it stores and moves
/// the bits; the layer that talks to the audio platform converts at the edge.
pub type Sample = u32;

/// The mathematical state of a recording session: whether incoming audio is
/// being kept, and everything captured so far, in delivery order.
pub struct SessionView {
    pub armed: bool,
    pub samples: Seq<Sample>,
}

/// One observable change of a session: the consumer toggling the armed flag
/// or clearing the buffer, or the capture side handing in one block.
pub enum SessionEvent {
    Arm,
    Disarm,
    Append(Seq<Sample>),
    Reset,
}

/// How a session state reacts to one event. A block is kept only while
/// armed; a reset is refused (the state is left unchanged) while armed.
pub open spec fn session_step(s: SessionView, e: SessionEvent) -> SessionView {
    match e {
        SessionEvent::Arm => SessionView { armed: true, ..s },
        SessionEvent::Disarm => SessionView { armed: false, ..s },
        SessionEvent::Append(block) => if s.armed {
            SessionView { samples: s.samples + block, ..s }
        } else {
            s
        },
        SessionEvent::Reset => if s.armed {
            s
        } else {
            SessionView { samples: Seq::empty(), ..s }
        },
    }
}

/// The state after a whole sequence of events, applied in order.
pub open spec fn session_run(s: SessionView, events: Seq<SessionEvent>) -> SessionView
    decreases events.len(),
{
    if events.len() == 0 {
        s
    } else {
        session_run(session_step(s, events[0]), events.drop_first())
    }
}

/// The shared, mutable core state, the single source of truth for "are we
/// recording" and "what has been captured so far".
pub struct RecordingSession {
    armed: bool,
    buffer: Vec<Sample>,
}

impl View for RecordingSession {
    type V = SessionView;

    closed spec fn view(&self) -> SessionView {
        SessionView { armed: self.armed, samples: self.buffer@ }
    }
}

impl RecordingSession {
    /// A fresh session: disarmed, with nothing captured.
    pub fn new() -> (s: Self)
        ensures
            !s@.armed,
            s@.samples == Seq::<Sample>::empty(),
    {
        RecordingSession { armed: false, buffer: Vec::new() }
    }

    /// Whether incoming blocks are currently being kept.
    pub fn is_armed(&self) -> (r: bool)
        ensures
            r == self@.armed,
    {
        self.armed
    }

    /// Starts keeping incoming audio. Idempotent; the buffer is untouched.
    pub fn arm(&mut self)
        ensures
            final(self)@ == session_step(old(self)@, SessionEvent::Arm),
            final(self)@.armed,
            final(self)@.samples == old(self)@.samples,
    {
        self.armed = true;
    }

    /// Stops keeping incoming audio. Idempotent; the buffer is untouched.
    pub fn disarm(&mut self)
        ensures
            final(self)@ == session_step(old(self)@, SessionEvent::Disarm),
            !final(self)@.armed,
            final(self)@.samples == old(self)@.samples,
    {
        self.armed = false;
    }

    /// The capture side's hand-off: appends the delivered block to the
    /// buffer if the session is armed, and discards it otherwise. The armed
    /// flag itself is never changed from this side.
    pub fn append_block(&mut self, block: &Vec<Sample>)
        ensures
            final(self)@ == session_step(old(self)@, SessionEvent::Append(block@)),
            final(self)@.armed == old(self)@.armed,
            old(self)@.armed ==> final(self)@.samples == old(self)@.samples + block@,
            !old(self)@.armed ==> final(self)@.samples == old(self)@.samples,
    {
        if self.armed {
            let ghost start = self.buffer@;
            let mut i: usize = 0;
            while i < block.len()
                invariant
                    i <= block.len(),
                    self.armed,
                    self.buffer@ == start + block@.subrange(0, i as int),
                decreases block.len() - i,
            {
                self.buffer.push(block[i]);
                i = i + 1;
            }
            assert(block@.subrange(0, block@.len() as int) == block@);
        }
    }

    /// A copy of everything captured so far, in delivery order. Never
    /// mutates the session and is safe to call at any time.
    pub fn snapshot(&self) -> (out: Vec<Sample>)
        ensures
            out@ == self@.samples,
    {
        let mut out: Vec<Sample> = Vec::new();
        let mut i: usize = 0;
        while i < self.buffer.len()
            invariant
                i <= self.buffer.len(),
                out@ == self.buffer@.subrange(0, i as int),
            decreases self.buffer.len() - i,
        {
            out.push(self.buffer[i]);
            i = i + 1;
        }
        assert(self.buffer@.subrange(0, self.buffer@.len() as int) == self.buffer@);
        out
    }

    /// Clears the buffer, but only while disarmed: a reset during capture
    /// would lose in-flight data non-deterministically, so it is refused
    /// with `InvalidStateError` and the session is left exactly as it was.
    pub fn reset(&mut self) -> (r: Result<(), CaptureError>)
        ensures
            final(self)@ == session_step(old(self)@, SessionEvent::Reset),
            old(self)@.armed ==> r == Err::<(), CaptureError>(CaptureError::InvalidStateError)
                && final(self)@ == old(self)@,
            !old(self)@.armed ==> r == Ok::<(), CaptureError>(())
                && final(self)@.samples == Seq::<Sample>::empty()
                && !final(self)@.armed,
    {
        if self.armed {
            Err(CaptureError::InvalidStateError)
        } else {
            self.buffer = Vec::new();
            Ok(())
        }
    }
}

/// A display label for the recording, cosmetic state beside the session. It
/// may only be edited while the session is disarmed, so that what is shown
/// cannot drift while capture is running.
pub struct EpisodeMetadata {
    label: String,
}

impl View for EpisodeMetadata {
    type V = Seq<char>;

    closed spec fn view(&self) -> Seq<char> {
        self.label@
    }
}

impl EpisodeMetadata {
    /// Fresh metadata carrying the given initial label.
    pub fn new(label: String) -> (m: Self)
        ensures
            m@ == label@,
    {
        EpisodeMetadata { label }
    }

    /// A copy of the current label.
    pub fn label(&self) -> (r: String)
        ensures
            r@ == self@,
    {
        self.label.clone()
    }

    /// Replaces the label, but only while the session is disarmed; while it
    /// is armed the edit is refused and the label is left as it was.
    pub fn set_label(&mut self, session: &RecordingSession, label: String) -> (r: Result<
        (),
        CaptureError,
    >)
        ensures
            session@.armed ==> r == Err::<(), CaptureError>(CaptureError::InvalidStateError)
                && final(self)@ == old(self)@,
            !session@.armed ==> r == Ok::<(), CaptureError>(()) && final(self)@ == label@,
    {
        if session.is_armed() {
            Err(CaptureError::InvalidStateError)
        } else {
            self.label = label;
            Ok(())
        }
    }
}

/// Law: the consumer-side toggles alone never touch the buffer. Whatever
/// sequence of arm and disarm events runs, the captured samples — and with
/// them the length a snapshot reports — stay exactly as they were.
pub proof fn lemma_toggles_preserve_samples(s: SessionView, events: Seq<SessionEvent>)
    requires
        forall|i: int|
            0 <= i < events.len() ==> (#[trigger] events[i] is Arm || events[i] is Disarm),
    ensures
        session_run(s, events).samples == s.samples,
    decreases events.len(),
{
    if events.len() > 0 {
        let rest = events.drop_first();
        assert forall|i: int| 0 <= i < rest.len() implies (#[trigger] rest[i] is Arm
            || rest[i] is Disarm) by {
            assert(rest[i] == events[i + 1]);
        }
        lemma_toggles_preserve_samples(session_step(s, events[0]), rest);
    }
}

/// Law: the buffer is append-only for the capture side. Over any sequence of
/// events that contains no reset, every sample already captured stays at its
/// place, so the length a snapshot reports never decreases.
pub proof fn lemma_buffer_len_non_decreasing(s: SessionView, events: Seq<SessionEvent>)
    requires
        forall|i: int| 0 <= i < events.len() ==> !(#[trigger] events[i] is Reset),
    ensures
        session_run(s, events).samples.len() >= s.samples.len(),
        forall|j: int|
            0 <= j < s.samples.len() ==> #[trigger] session_run(s, events).samples[j]
                == s.samples[j],
    decreases events.len(),
{
    if events.len() > 0 {
        let rest = events.drop_first();
        assert forall|i: int| 0 <= i < rest.len() implies !(#[trigger] rest[i] is Reset) by {
            assert(rest[i] == events[i + 1]);
        }
        lemma_buffer_len_non_decreasing(session_step(s, events[0]), rest);
    }
}

/// Law: a session that is disarmed and empty stays empty as long as no arm
/// event occurs, whatever blocks the capture side delivers and however often
/// it is reset. In particular, right after a successful reset a snapshot is
/// empty until the session is armed again.
pub proof fn lemma_disarmed_stays_empty(s: SessionView, events: Seq<SessionEvent>)
    requires
        !s.armed,
        s.samples.len() == 0,
        forall|i: int| 0 <= i < events.len() ==> !(#[trigger] events[i] is Arm),
    ensures
        !session_run(s, events).armed,
        session_run(s, events).samples.len() == 0,
    decreases events.len(),
{
    if events.len() > 0 {
        let rest = events.drop_first();
        assert forall|i: int| 0 <= i < rest.len() implies !(#[trigger] rest[i] is Arm) by {
            assert(rest[i] == events[i + 1]);
        }
        lemma_disarmed_stays_empty(session_step(s, events[0]), rest);
    }
}

} // verus!
