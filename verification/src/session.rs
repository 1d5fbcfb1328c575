//! The recording session: one process-wide lifecycle state machine.
//!
//! The session is created `Idle` with an empty transcript, becomes
//! `Recording` after a successful start, passes through `Stopping` while a
//! stop is in flight, and is forced back to `Idle` when the stop completes,
//! whether or not the capture subsystem reported success. The host layer
//! performs the native capture calls and hands their boolean outcomes to
//! the transition functions here, which decide every state change.

use vstd::prelude::*;
use vstd::string::StringExecFns;

verus! {

/// The lifecycle phase of the recording session.
#[derive(Clone, Copy, PartialEq, Eq, Structural, Debug)]
pub enum Status {
    Idle,
    Recording,
    Stopping,
}

/// An error surfaced to the caller of a session lifecycle operation.
#[derive(Clone, Copy, PartialEq, Eq, Structural, Debug)]
pub enum SessionError {
    /// `start` was called while the session was not `Idle`.
    AlreadyRecording,
    /// `stop` was called while the session was `Idle`.
    NotRecording,
    /// The capture subsystem refused to start; the session stayed `Idle`.
    CaptureStartFailed,
    /// The capture subsystem refused to stop; the session was still forced
    /// back to `Idle`.
    CaptureStopFailed,
}

/// The mathematical value of a [`RecordingState`]: its phase and the
/// transcript accumulated so far.
#[verifier::ext_equal]
pub struct SessionView {
    pub status: Status,
    pub transcript: Seq<char>,
}

/// The single mutable shared state of the system: recording phase plus the
/// growing transcript. Exactly one instance exists for the process
/// lifetime; the host layer guards it with its lock and every mutation goes
/// through the transition methods below.
pub struct RecordingState {
    pub status: Status,
    pub transcription: String,
}

/// The session state as handed to the host layer's command dispatcher,
/// which wraps it in its own synchronization.
pub struct AppState(pub RecordingState);

impl View for RecordingState {
    type V = SessionView;

    open spec fn view(&self) -> SessionView {
        SessionView { status: self.status, transcript: self.transcription@ }
    }
}

/// The session counts as recording in every phase but `Idle`: from the
/// moment a start succeeds until the moment a stop completes.
pub open spec fn spec_is_recording(status: Status) -> bool {
    status != Status::Idle
}

/// State after a start attempt: only an `Idle` session with a willing
/// capture subsystem moves to `Recording`; everything else is unchanged.
pub open spec fn spec_start_state(s: SessionView, bridge_ok: bool) -> SessionView {
    if s.status == Status::Idle && bridge_ok {
        SessionView { status: Status::Recording, transcript: s.transcript }
    } else {
        s
    }
}

/// Result of a start attempt.
pub open spec fn spec_start_result(status: Status, bridge_ok: bool) -> Result<bool, SessionError> {
    if status != Status::Idle {
        Err(SessionError::AlreadyRecording)
    } else if bridge_ok {
        Ok(true)
    } else {
        Err(SessionError::CaptureStartFailed)
    }
}

/// The transcript once a stop has completed: under the batch capture
/// contract the final payload's text and a trailing separator are appended;
/// under the incremental contract there is no final payload and the
/// transcript is left as the consumer last wrote it.
pub open spec fn spec_stop_transcript(t: Seq<char>, final_text: Option<Seq<char>>) -> Seq<char> {
    match final_text {
        Some(ft) => t + ft + seq![' '],
        None => t,
    }
}

/// State after a stop attempt: an `Idle` session is untouched; any other
/// session ends `Idle` with the final payload (if any) appended.
pub open spec fn spec_stop_state(s: SessionView, final_text: Option<Seq<char>>) -> SessionView {
    if s.status == Status::Idle {
        s
    } else {
        SessionView {
            status: Status::Idle,
            transcript: spec_stop_transcript(s.transcript, final_text),
        }
    }
}

/// Result of a stop attempt: the completed transcript on success.
pub open spec fn spec_stop_result(
    s: SessionView,
    bridge_ok: bool,
    final_text: Option<Seq<char>>,
) -> Result<Seq<char>, SessionError> {
    if s.status == Status::Idle {
        Err(SessionError::NotRecording)
    } else if bridge_ok {
        Ok(spec_stop_transcript(s.transcript, final_text))
    } else {
        Err(SessionError::CaptureStopFailed)
    }
}

/// The view of an optional owned string.
pub open spec fn opt_text_view(o: Option<String>) -> Option<Seq<char>> {
    match o {
        Some(t) => Some(t@),
        None => None,
    }
}

impl RecordingState {
    /// A fresh session: `Idle`, with an empty transcript.
    pub fn new() -> (s: Self)
        ensures
            s@.status == Status::Idle,
            s@.transcript == Seq::<char>::empty(),
    {
        RecordingState { status: Status::Idle, transcription: String::new() }
    }

    /// Whether the session is live: true strictly between a successful
    /// start and the completion of the matching stop.
    pub fn is_recording(&self) -> (r: bool)
        ensures
            r == spec_is_recording(self@.status),
    {
        match self.status {
            Status::Idle => false,
            _ => true,
        }
    }

    /// Whether a start attempt may proceed to the capture subsystem. The
    /// host layer consults this before touching the native bridge, so a
    /// session that is already live rejects the start without any capture
    /// call being made.
    pub fn can_start(&self) -> (r: bool)
        ensures
            r == (self@.status == Status::Idle),
    {
        match self.status {
            Status::Idle => true,
            _ => false,
        }
    }

    /// The transcript accumulated so far; a pure read.
    pub fn get_transcription(&self) -> (r: String)
        ensures
            r@ == self@.transcript,
    {
        self.transcription.clone()
    }

    /// Appends one transcribed segment and its trailing separator.
    pub fn append_segment(&mut self, text: &str)
        ensures
            final(self)@.status == old(self)@.status,
            final(self)@.transcript == old(self)@.transcript + text@ + seq![' '],
    {
        proof {
            reveal_strlit(" ");
            assert(" "@ =~= seq![' ']);
        }
        self.transcription.append(text);
        self.transcription.append(" ");
        proof {
            assert(self@.transcript =~= old(self)@.transcript + text@ + seq![' ']);
        }
    }

    /// Commits a start attempt. `bridge_ok` is the capture subsystem's
    /// answer; the host layer obtains it only after [`Self::can_start`]
    /// has agreed, and a session that is not `Idle` rejects the start here
    /// regardless of what the bridge said.
    pub fn start_recording(&mut self, bridge_ok: bool) -> (r: Result<bool, SessionError>)
        ensures
            final(self)@ == spec_start_state(old(self)@, bridge_ok),
            r == spec_start_result(old(self)@.status, bridge_ok),
    {
        match self.status {
            Status::Idle => {
                if bridge_ok {
                    self.status = Status::Recording;
                    Ok(true)
                } else {
                    Err(SessionError::CaptureStartFailed)
                }
            },
            _ => Err(SessionError::AlreadyRecording),
        }
    }

    /// Marks the session as stopping, before the host layer drops the
    /// channel's sending side and calls the capture subsystem's stop
    /// primitive. An `Idle` session rejects the stop with no state change.
    pub fn begin_stop(&mut self) -> (r: Result<(), SessionError>)
        ensures
            old(self)@.status == Status::Idle ==> {
                &&& r == Err::<(), SessionError>(SessionError::NotRecording)
                &&& final(self)@ == old(self)@
            },
            old(self)@.status != Status::Idle ==> {
                &&& r == Ok::<(), SessionError>(())
                &&& final(self)@.status == Status::Stopping
                &&& final(self)@.transcript == old(self)@.transcript
            },
    {
        match self.status {
            Status::Idle => Err(SessionError::NotRecording),
            _ => {
                self.status = Status::Stopping;
                Ok(())
            },
        }
    }

    /// Completes a stop attempt. `bridge_ok` is the capture subsystem's
    /// answer and `final_text` the transcription of the final payload under
    /// the batch stop contract (`None` under the incremental contract or
    /// when the bridge failed). Whatever the bridge said, a session that
    /// was live ends `Idle`: a failed stop must not leave it wedged.
    pub fn stop_recording(&mut self, bridge_ok: bool, final_text: Option<String>) -> (r: Result<
        String,
        SessionError,
    >)
        ensures
            final(self)@ == spec_stop_state(old(self)@, opt_text_view(final_text)),
            old(self)@.status == Status::Idle ==> r == Err::<String, SessionError>(
                SessionError::NotRecording,
            ),
            old(self)@.status != Status::Idle && !bridge_ok ==> r == Err::<String, SessionError>(
                SessionError::CaptureStopFailed,
            ),
            old(self)@.status != Status::Idle && bridge_ok ==> (r matches Ok(t)
                && t@ == final(self)@.transcript),
    {
        match self.status {
            Status::Idle => Err(SessionError::NotRecording),
            _ => {
                match final_text {
                    Some(t) => self.append_segment(t.as_str()),
                    None => (),
                }
                self.status = Status::Idle;
                if bridge_ok {
                    Ok(self.transcription.clone())
                } else {
                    Err(SessionError::CaptureStopFailed)
                }
            },
        }
    }
}

/// The recording window: a session is not recording while `Idle`, is
/// recording from the moment a start succeeds, and is no longer recording
/// once the matching stop has completed, whatever the stop reported.
pub proof fn lemma_recording_window(s: SessionView, final_text: Option<Seq<char>>)
    requires
        s.status == Status::Idle,
    ensures
        !spec_is_recording(s.status),
        spec_is_recording(spec_start_state(s, true).status),
        !spec_is_recording(spec_stop_state(spec_start_state(s, true), final_text).status),
{
}

/// Starting while the session is live always fails with `AlreadyRecording`
/// and changes neither the status nor the transcript.
pub proof fn lemma_start_while_recording(s: SessionView, bridge_ok: bool)
    requires
        spec_is_recording(s.status),
    ensures
        spec_start_state(s, bridge_ok) == s,
        spec_start_result(s.status, bridge_ok) == Err::<bool, SessionError>(
            SessionError::AlreadyRecording,
        ),
{
}

/// Stopping while the session is idle always fails with `NotRecording` and
/// changes nothing.
pub proof fn lemma_stop_while_idle(s: SessionView, bridge_ok: bool, final_text: Option<Seq<char>>)
    requires
        s.status == Status::Idle,
    ensures
        spec_stop_state(s, final_text) == s,
        spec_stop_result(s, bridge_ok, final_text) == Err::<Seq<char>, SessionError>(
            SessionError::NotRecording,
        ),
{
}

/// Under the batch stop contract, the transcript a successful stop returns
/// ends with the final payload's text and its separator.
pub proof fn lemma_stop_includes_final_segment(s: SessionView, ft: Seq<char>)
    requires
        spec_is_recording(s.status),
    ensures
        spec_stop_state(s, Some(ft)).transcript == s.transcript + ft + seq![' '],
        spec_stop_result(s, true, Some(ft)) == Ok::<Seq<char>, SessionError>(
            s.transcript + ft + seq![' '],
        ),
{
}

} // verus!
