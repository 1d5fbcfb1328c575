use voicescribe::session::{RecordingState, SessionError};

#[test]
fn new_state_is_idle_and_empty() {
    let state = RecordingState::new();
    assert!(!state.is_recording());
    assert_eq!(state.get_transcription(), String::new());
}

#[test]
fn recording_window_between_start_and_stop() {
    let mut state = RecordingState::new();
    assert!(!state.is_recording());

    assert_eq!(state.start_recording(true), Ok(true));
    assert!(state.is_recording());

    let transcript = state.stop_recording(true, None);
    assert_eq!(transcript, Ok(String::new()));
    assert!(!state.is_recording());
}

#[test]
fn begin_stop_keeps_session_live_until_completion() {
    let mut state = RecordingState::new();
    assert_eq!(state.start_recording(true), Ok(true));

    assert_eq!(state.begin_stop(), Ok(()));
    assert!(state.is_recording());

    assert_eq!(state.stop_recording(true, None), Ok(String::new()));
    assert!(!state.is_recording());
}

#[test]
fn start_while_recording_fails_and_leaves_transcript() {
    let mut state = RecordingState::new();
    assert_eq!(state.start_recording(true), Ok(true));
    state.append_segment("kept");
    let before = state.get_transcription();

    assert_eq!(state.start_recording(true), Err(SessionError::AlreadyRecording));
    assert_eq!(state.start_recording(false), Err(SessionError::AlreadyRecording));
    assert!(state.is_recording());
    assert_eq!(state.get_transcription(), before);
}

#[test]
fn start_rolls_back_when_capture_refuses() {
    let mut state = RecordingState::new();
    assert_eq!(state.start_recording(false), Err(SessionError::CaptureStartFailed));
    assert!(!state.is_recording());
    assert_eq!(state.get_transcription(), String::new());
}

#[test]
fn stop_while_idle_fails() {
    let mut state = RecordingState::new();
    assert_eq!(state.stop_recording(true, None), Err(SessionError::NotRecording));
    assert_eq!(state.begin_stop(), Err(SessionError::NotRecording));
    assert!(!state.is_recording());
    assert_eq!(state.get_transcription(), String::new());
}

#[test]
fn failed_stop_still_forces_idle() {
    let mut state = RecordingState::new();
    assert_eq!(state.start_recording(true), Ok(true));
    assert_eq!(state.stop_recording(false, None), Err(SessionError::CaptureStopFailed));
    assert!(!state.is_recording());

    assert_eq!(state.start_recording(true), Ok(true));
    assert!(state.is_recording());
}

#[test]
fn batch_stop_appends_final_payload_text() {
    let mut state = RecordingState::new();
    assert_eq!(state.start_recording(true), Ok(true));
    state.append_segment("first");

    let transcript = state.stop_recording(true, Some(String::from("last")));
    assert_eq!(transcript, Ok(String::from("first last ")));
    assert_eq!(state.get_transcription(), String::from("first last "));
    assert!(!state.is_recording());
}

#[test]
fn append_segment_adds_trailing_separator() {
    let mut state = RecordingState::new();
    state.append_segment("hello");
    state.append_segment("world");
    assert_eq!(state.get_transcription(), String::from("hello world "));
}
