use vstd::prelude::*;
use crate::ring::{SampleRing, keep_last, silence};
use crate::snapshot::{Rendering, downsampled, poll};

verus! {

/// Where the capture session stands.
#[derive(Clone, Copy, PartialEq, Eq, Structural, Debug)]
pub enum SessionState {
    Idle,
    Starting,
    Running,
    Stopping,
    Stopped,
}

/// Why a capture operation failed.
#[derive(Clone, Copy, PartialEq, Eq, Structural, Debug)]
pub enum CaptureError {
    /// No source of the requested name is present.
    DeviceNotFound,
    /// The source's configuration is unobtainable or unsupported.
    FormatNegotiationError,
    /// The platform stream failed to begin.
    StreamStartError,
    /// A stop request, or a newer start, overtook this start attempt.
    Cancelled,
}

/// What a stop request amounts to.
#[derive(Clone, Copy, PartialEq, Eq, Structural, Debug)]
pub enum StopAck {
    /// The session with this id must be sent its stop signal.
    Signalled(u64),
    /// No session was starting or running: nothing to do.
    AlreadyStopped,
}

/// What the caller must do to carry out a start request.
#[derive(Clone, Copy, PartialEq, Eq, Structural, Debug)]
pub struct StartPlan {
    /// Id of the new session; its stream's chunks are tagged with it.
    pub session: u64,
    /// A session that was starting or running and must be stopped first.
    pub stop_previous: Option<u64>,
}

/// Samples kept by default: five seconds at 44.1 kHz.
pub const DEFAULT_CAPACITY: usize = 44100 * 5;

/// Whether a session in `state` is starting or running.
pub open spec fn is_live(state: SessionState) -> bool {
    state == SessionState::Starting || state == SessionState::Running
}

/// Whether a chunk tagged `tag` is written, when `current` is the newest
/// session and it stands in `state`. A chunk that was in flight while its
/// session was being stopped is still written.
pub open spec fn accepts(state: SessionState, current: u64, tag: u64) -> bool {
    tag == current && (is_live(state) || state == SessionState::Stopping)
}

/// The session a start request must stop first, if any.
pub open spec fn to_stop(state: SessionState, current: u64) -> Option<u64> {
    if is_live(state) {
        Some(current)
    } else {
        None
    }
}

/// State and newest session id after a start request.
pub open spec fn after_start(state: SessionState, current: u64) -> (SessionState, u64) {
    (SessionState::Starting, (current + 1) as u64)
}

/// State after the platform answered the start of session `tag`.
pub open spec fn after_confirm(
    state: SessionState,
    current: u64,
    tag: u64,
    outcome: Result<(), CaptureError>,
) -> SessionState {
    if tag != current {
        state
    } else if state == SessionState::Starting {
        match outcome {
            Ok(()) => SessionState::Running,
            Err(_) => SessionState::Stopped,
        }
    } else if state == SessionState::Stopping {
        SessionState::Stopped
    } else {
        state
    }
}

/// What confirming the start of session `tag` reports.
pub open spec fn confirm_result(
    state: SessionState,
    current: u64,
    tag: u64,
    outcome: Result<(), CaptureError>,
) -> Result<(), CaptureError> {
    if tag == current && state == SessionState::Starting {
        outcome
    } else {
        Err(CaptureError::Cancelled)
    }
}

/// State and answer after a stop request.
pub open spec fn after_stop(state: SessionState, current: u64) -> (SessionState, StopAck) {
    if is_live(state) {
        (SessionState::Stopping, StopAck::Signalled(current))
    } else {
        (state, StopAck::AlreadyStopped)
    }
}

/// State after the stream of session `tag` has exited, on a stop signal or
/// on a runtime fault.
pub open spec fn after_exit(state: SessionState, current: u64, tag: u64) -> SessionState {
    if tag == current && (state == SessionState::Running || state == SessionState::Stopping) {
        SessionState::Stopped
    } else {
        state
    }
}

/// Owns the shared sample ring and the state of the one capture session
/// that may be live; the platform stream is driven by the caller, which
/// reports what happened to it.
pub struct ScreenCaptureKitManager {
    state: SessionState,
    session: u64,
    buffer: SampleRing,
}

impl ScreenCaptureKitManager {
    pub closed spec fn spec_state(&self) -> SessionState {
        self.state
    }

    /// Id of the newest session; 0 before the first start.
    pub closed spec fn spec_session(&self) -> u64 {
        self.session
    }

    /// The buffered samples, oldest first.
    pub closed spec fn samples(&self) -> Seq<u32> {
        self.buffer@
    }

    pub closed spec fn spec_capacity(&self) -> nat {
        self.buffer.spec_capacity()
    }

    pub closed spec fn wf(&self) -> bool {
        self.buffer.wf()
    }

    /// An idle manager with an empty ring of `DEFAULT_CAPACITY` samples.
    pub fn new() -> (r: Self)
        ensures
            r.wf(),
            r.spec_state() == SessionState::Idle,
            r.spec_session() == 0,
            r.samples() == Seq::<u32>::empty(),
            r.spec_capacity() == DEFAULT_CAPACITY,
    {
        Self::with_capacity(DEFAULT_CAPACITY)
    }

    /// An idle manager with an empty ring of `capacity` samples.
    pub fn with_capacity(capacity: usize) -> (r: Self)
        ensures
            r.wf(),
            r.spec_state() == SessionState::Idle,
            r.spec_session() == 0,
            r.samples() == Seq::<u32>::empty(),
            r.spec_capacity() == capacity,
    {
        ScreenCaptureKitManager {
            state: SessionState::Idle,
            session: 0,
            buffer: SampleRing::new(capacity),
        }
    }

    pub fn state(&self) -> (r: SessionState)
        ensures
            r == self.spec_state(),
    {
        self.state
    }

    pub fn session(&self) -> (r: u64)
        ensures
            r == self.spec_session(),
    {
        self.session
    }

    /// Whether a session is running.
    pub fn is_capturing(&self) -> (r: bool)
        ensures
            r == (self.spec_state() == SessionState::Running),
    {
        self.state == SessionState::Running
    }

    /// Begins a new session: a session that is starting or running is
    /// handed back to be stopped first, and the ring is reset to silence
    /// before the new session's first write.
    pub fn start_system_audio_capture(&mut self) -> (plan: StartPlan)
        requires
            old(self).wf(),
            old(self).spec_session() < u64::MAX,
        ensures
            final(self).wf(),
            (final(self).spec_state(), final(self).spec_session()) == after_start(
                old(self).spec_state(),
                old(self).spec_session(),
            ),
            plan.session == final(self).spec_session(),
            plan.stop_previous == to_stop(old(self).spec_state(), old(self).spec_session()),
            final(self).samples() == silence(old(self).samples().len()),
            final(self).spec_capacity() == old(self).spec_capacity(),
    {
        let stop_previous = if self.state == SessionState::Starting || self.state
            == SessionState::Running {
            Some(self.session)
        } else {
            None
        };
        self.buffer.clear();
        self.session = self.session + 1;
        self.state = SessionState::Starting;
        StartPlan { session: self.session, stop_previous }
    }

    /// Records how the platform answered the start of session `session`.
    /// A start that a stop request or a newer start overtook is reported
    /// as `Cancelled`, and its stream, if any, must be stopped by the caller.
    /// A failed start leaves no live session and a silent ring.
    pub fn confirm_start(&mut self, session: u64, outcome: Result<(), CaptureError>) -> (r: Result<
        (),
        CaptureError,
    >)
        requires
            old(self).wf(),
        ensures
            final(self).wf(),
            final(self).spec_state() == after_confirm(
                old(self).spec_state(),
                old(self).spec_session(),
                session,
                outcome,
            ),
            r == confirm_result(old(self).spec_state(), old(self).spec_session(), session, outcome),
            final(self).spec_session() == old(self).spec_session(),
            final(self).samples() == (if session == old(self).spec_session()
                && old(self).spec_state() == SessionState::Starting && outcome is Err {
                silence(old(self).samples().len())
            } else {
                old(self).samples()
            }),
            final(self).spec_capacity() == old(self).spec_capacity(),
    {
        if session != self.session {
            return Err(CaptureError::Cancelled);
        }
        match self.state {
            SessionState::Starting => {
                if outcome.is_ok() {
                    self.state = SessionState::Running;
                } else {
                    self.state = SessionState::Stopped;
                    self.buffer.clear();
                }
                outcome
            },
            SessionState::Stopping => {
                self.state = SessionState::Stopped;
                Err(CaptureError::Cancelled)
            },
            _ => Err(CaptureError::Cancelled),
        }
    }

    /// Requests that the live session stop; never an error, and a request
    /// with no live session changes nothing.
    pub fn stop_system_audio_capture(&mut self) -> (r: StopAck)
        requires
            old(self).wf(),
        ensures
            final(self).wf(),
            (final(self).spec_state(), r) == after_stop(
                old(self).spec_state(),
                old(self).spec_session(),
            ),
            final(self).spec_session() == old(self).spec_session(),
            final(self).samples() == old(self).samples(),
            final(self).spec_capacity() == old(self).spec_capacity(),
    {
        if self.state == SessionState::Starting || self.state == SessionState::Running {
            self.state = SessionState::Stopping;
            StopAck::Signalled(self.session)
        } else {
            StopAck::AlreadyStopped
        }
    }

    /// Records that the stream of session `session` has exited.
    pub fn stream_ended(&mut self, session: u64)
        requires
            old(self).wf(),
        ensures
            final(self).wf(),
            final(self).spec_state() == after_exit(
                old(self).spec_state(),
                old(self).spec_session(),
                session,
            ),
            final(self).spec_session() == old(self).spec_session(),
            final(self).samples() == old(self).samples(),
            final(self).spec_capacity() == old(self).spec_capacity(),
    {
        if session == self.session && (self.state == SessionState::Running || self.state
            == SessionState::Stopping) {
            self.state = SessionState::Stopped;
        }
    }

    /// Whether a chunk from the stream of session `session` would be written.
    pub fn accepts(&self, session: u64) -> (r: bool)
        ensures
            r == accepts(self.spec_state(), self.spec_session(), session),
    {
        session == self.session && (self.state == SessionState::Starting || self.state
            == SessionState::Running || self.state == SessionState::Stopping)
    }

    /// Writes a chunk delivered by the stream of session `session`; chunks
    /// of any other session are dropped. Returns whether it was written.
    pub fn ingest(&mut self, session: u64, chunk: &[u32]) -> (r: bool)
        requires
            old(self).wf(),
        ensures
            final(self).wf(),
            r == accepts(old(self).spec_state(), old(self).spec_session(), session),
            final(self).samples() == (if r {
                keep_last(old(self).samples() + chunk@, old(self).spec_capacity())
            } else {
                old(self).samples()
            }),
            final(self).spec_state() == old(self).spec_state(),
            final(self).spec_session() == old(self).spec_session(),
            final(self).spec_capacity() == old(self).spec_capacity(),
    {
        if self.accepts(session) {
            self.buffer.write(chunk);
            true
        } else {
            false
        }
    }

    /// A copy of the buffered samples, oldest first.
    pub fn get_audio_data(&self) -> (r: Vec<u32>)
        requires
            self.wf(),
        ensures
            r@ == self.samples(),
    {
        self.buffer.read_snapshot()
    }

    /// Exactly `out_len` values for display (see `downsampled`).
    pub fn poll(&self, out_len: usize, rendering: Rendering) -> (r: Vec<u32>)
        requires
            self.wf(),
        ensures
            r@ == downsampled(self.samples(), out_len as nat, rendering),
            r@.len() == out_len,
    {
        poll(&self.buffer, out_len, rendering)
    }

    /// Resets every buffered sample to silence.
    pub fn clear_audio_buffer(&mut self)
        requires
            old(self).wf(),
        ensures
            final(self).wf(),
            final(self).samples() == silence(old(self).samples().len()),
            final(self).spec_state() == old(self).spec_state(),
            final(self).spec_session() == old(self).spec_session(),
            final(self).spec_capacity() == old(self).spec_capacity(),
    {
        self.buffer.clear();
    }
}

/// Starting session A and then session B leaves exactly one running
/// session, B: the second start names A to be stopped, a late answer to A's
/// start changes nothing, and only B's chunks are written afterwards.
pub proof fn lemma_restart_leaves_one_session(state: SessionState, current: u64, late: Result<
    (),
    CaptureError,
>)
    requires
        current + 2 <= u64::MAX,
    ensures
        ({
            let (s1, a) = after_start(state, current);
            let s2 = after_confirm(s1, a, a, Ok(()));
            let (s3, b) = after_start(s2, a);
            let s4 = after_confirm(s3, b, a, late);
            let s5 = after_confirm(s4, b, b, Ok(()));
            &&& a != b
            &&& to_stop(s2, a) == Some(a)
            &&& confirm_result(s3, b, a, late) == Err::<(), CaptureError>(CaptureError::Cancelled)
            &&& s5 == SessionState::Running
            &&& accepts(s5, b, b)
            &&& !accepts(s5, b, a)
            &&& forall|t: u64| accepts(s5, b, t) ==> t == b
        }),
{
}

/// A stop request never fails, and a second one in a row finds nothing
/// live, answers that it was already stopped, and changes nothing.
pub proof fn lemma_stop_twice(state: SessionState, current: u64)
    ensures
        ({
            let (s1, a1) = after_stop(state, current);
            let (s2, a2) = after_stop(s1, current);
            &&& !is_live(s1)
            &&& a2 == StopAck::AlreadyStopped
            &&& s2 == s1
        }),
{
}

/// A stop request that arrives while a session is starting aborts that
/// start: confirming it reports `Cancelled` and leaves no live session.
pub proof fn lemma_stop_aborts_start(current: u64, outcome: Result<(), CaptureError>)
    ensures
        ({
            let (s1, ack) = after_stop(SessionState::Starting, current);
            &&& ack == StopAck::Signalled(current)
            &&& confirm_result(s1, current, current, outcome) == Err::<(), CaptureError>(
                CaptureError::Cancelled,
            )
            &&& after_confirm(s1, current, current, outcome) == SessionState::Stopped
        }),
{
}

} // verus!
