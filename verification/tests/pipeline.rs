use voicescribe::client::TranscribeError;
use voicescribe::pipeline::{
    apply_transcription, consume_closed, process_outcomes, AudioChunk, ChunkQueue,
};
use voicescribe::session::RecordingState;

fn buffer_chunk(byte: u8) -> AudioChunk {
    AudioChunk::Buffer { data: vec![byte], channels: 1, sample_rate: 44100, bits_per_sample: 32 }
}

#[test]
fn ordered_chunks_yield_ordered_transcript() {
    let mut state = RecordingState::new();
    let outcomes: Vec<Result<String, TranscribeError>> =
        vec![Ok(String::from("a")), Ok(String::from("b")), Ok(String::from("c"))];
    process_outcomes(&mut state, &outcomes);
    assert_eq!(state.get_transcription(), String::from("a b c "));
}

#[test]
fn failed_chunk_is_skipped() {
    let mut state = RecordingState::new();
    let outcomes: Vec<Result<String, TranscribeError>> =
        vec![Err(TranscribeError::TransportError), Ok(String::from("b"))];
    process_outcomes(&mut state, &outcomes);
    assert_eq!(state.get_transcription(), String::from("b "));
}

#[test]
fn apply_transcription_appends_on_success_only() {
    let mut state = RecordingState::new();
    apply_transcription(&mut state, &Ok(String::from("x")));
    assert_eq!(state.get_transcription(), String::from("x "));

    apply_transcription(&mut state, &Err(TranscribeError::DecodeError));
    assert_eq!(state.get_transcription(), String::from("x "));
    assert!(!state.is_recording());
}

#[test]
fn queue_hands_chunks_out_in_arrival_order() {
    let mut queue = ChunkQueue::new();
    assert!(queue.send(buffer_chunk(1)));
    assert!(queue.send(AudioChunk::FilePath(String::from("/tmp/chunk.wav"))));

    assert_eq!(queue.recv(), Some(buffer_chunk(1)));
    assert_eq!(queue.recv(), Some(AudioChunk::FilePath(String::from("/tmp/chunk.wav"))));
}

#[test]
fn send_after_close_is_refused_without_effect() {
    let mut queue = ChunkQueue::new();
    assert!(queue.send(buffer_chunk(1)));
    queue.close();
    assert!(!queue.send(buffer_chunk(2)));

    assert_eq!(queue.drain(), vec![buffer_chunk(1)]);
}

#[test]
fn close_leaves_every_pending_chunk_for_the_consumer() {
    let mut queue = ChunkQueue::new();
    assert!(queue.send(buffer_chunk(1)));
    assert!(queue.send(buffer_chunk(2)));
    assert!(queue.send(buffer_chunk(3)));
    queue.close();

    let drained = queue.drain();
    assert_eq!(drained, vec![buffer_chunk(1), buffer_chunk(2), buffer_chunk(3)]);
    assert_eq!(queue.recv(), None);
}

#[test]
fn draining_then_processing_transcribes_every_chunk() {
    let mut queue = ChunkQueue::new();
    assert!(queue.send(buffer_chunk(1)));
    assert!(queue.send(buffer_chunk(2)));
    queue.close();

    let drained = queue.drain();
    assert_eq!(drained.len(), 2);

    let mut state = RecordingState::new();
    let outcomes: Vec<Result<String, TranscribeError>> =
        vec![Ok(String::from("one")), Ok(String::from("two"))];
    assert_eq!(outcomes.len(), drained.len());
    process_outcomes(&mut state, &outcomes);
    assert_eq!(state.get_transcription(), String::from("one two "));
}

#[test]
fn consumer_processes_every_chunk_before_exiting() {
    let mut queue = ChunkQueue::new();
    assert!(queue.send(buffer_chunk(1)));
    assert!(queue.send(buffer_chunk(2)));
    assert!(queue.send(buffer_chunk(3)));
    queue.close();

    let mut state = RecordingState::new();
    let outcomes: Vec<Result<String, TranscribeError>> = vec![
        Ok(String::from("a")),
        Err(TranscribeError::TransportError),
        Ok(String::from("c")),
    ];
    let processed = consume_closed(&mut queue, &mut state, &outcomes);

    assert_eq!(processed, 3);
    assert_eq!(queue.recv(), None);
    assert_eq!(state.get_transcription(), String::from("a c "));
}
