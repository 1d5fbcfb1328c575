//! The chunk channel and the consumer step.
//!
//! Captured audio travels from the native callback to a single consumer
//! through an ordered queue. The queue here is the verified model of that
//! channel: sends are rejected without effect once the sending side is
//! dropped, receives hand chunks out strictly in arrival order, and a
//! drained queue gives up every chunk that was enqueued before the drop —
//! none is discarded by closure. The consumer step takes the outcome of
//! one transcription call and applies the session's append-or-skip rule.

use vstd::prelude::*;

use crate::client::TranscribeError;
use crate::session::RecordingState;

verus! {

/// One unit of captured audio, as emitted by the capture subsystem.
#[derive(PartialEq, Eq, Debug)]
pub enum AudioChunk {
    /// An in-memory buffer of encoded samples, tagged with its capture
    /// format.
    Buffer { data: Vec<u8>, channels: u16, sample_rate: u32, bits_per_sample: u16 },
    /// The path of a completed temporary file written by the capture
    /// subsystem; the consumer deletes it after transcription.
    FilePath(String),
}

/// The ordered single-producer/single-consumer queue carrying chunks from
/// the capture callback into the consumer. `sender_dropped` records that
/// the session controller has torn the sending side down: chunks already
/// enqueued stay, new sends are refused.
pub struct ChunkQueue {
    pub chunks: Vec<AudioChunk>,
    pub sender_dropped: bool,
}

impl ChunkQueue {
    /// A fresh, open, empty channel.
    pub fn new() -> (q: Self)
        ensures
            q.chunks@ == Seq::<AudioChunk>::empty(),
            !q.sender_dropped,
    {
        ChunkQueue { chunks: Vec::new(), sender_dropped: false }
    }

    /// A send from the capture callback. Once the sending side has been
    /// dropped this is a no-op failure, never a panic: a late chunk is
    /// refused and the queue is unchanged.
    pub fn send(&mut self, chunk: AudioChunk) -> (accepted: bool)
        ensures
            final(self).sender_dropped == old(self).sender_dropped,
            old(self).sender_dropped ==> !accepted && final(self).chunks@ == old(self).chunks@,
            !old(self).sender_dropped ==> accepted && final(self).chunks@ == old(
                self,
            ).chunks@.push(chunk),
    {
        if self.sender_dropped {
            false
        } else {
            self.chunks.push(chunk);
            true
        }
    }

    /// Drops the sending side, as `stop` does. Chunks already enqueued are
    /// kept for the consumer to drain.
    pub fn close(&mut self)
        ensures
            final(self).sender_dropped,
            final(self).chunks@ == old(self).chunks@,
    {
        self.sender_dropped = true;
    }

    /// Receives the next chunk, strictly in arrival order. The live
    /// channel suspends its consumer while empty, so an empty queue may
    /// only be received from once the sending side is gone, where `None`
    /// means end of stream.
    pub fn recv(&mut self) -> (r: Option<AudioChunk>)
        requires
            old(self).chunks@.len() > 0 || old(self).sender_dropped,
        ensures
            final(self).sender_dropped == old(self).sender_dropped,
            old(self).chunks@.len() > 0 ==> (r matches Some(c) && c == old(self).chunks@[0])
                && final(self).chunks@ == old(self).chunks@.skip(1),
            old(self).chunks@.len() == 0 ==> r is None && final(self).chunks@ == old(self).chunks@,
    {
        if self.chunks.len() > 0 {
            Some(self.chunks.remove(0))
        } else {
            None
        }
    }

    /// Drains every chunk still enqueued when the sending side was
    /// dropped, in arrival order. Nothing is discarded by closure: the
    /// consumer processes all of these before it exits.
    pub fn drain(&mut self) -> (r: Vec<AudioChunk>)
        requires
            old(self).sender_dropped,
        ensures
            r@ == old(self).chunks@,
            final(self).chunks@ == Seq::<AudioChunk>::empty(),
            final(self).sender_dropped,
    {
        let mut out: Vec<AudioChunk> = Vec::new();
        while self.chunks.len() > 0
            invariant
                self.sender_dropped,
                out@ + self.chunks@ == old(self).chunks@,
            decreases self.chunks@.len(),
        {
            let c = self.chunks.remove(0);
            out.push(c);
            proof {
                assert(out@ + self.chunks@ =~= old(self).chunks@);
            }
        }
        proof {
            assert(out@ =~= old(self).chunks@);
        }
        out
    }
}

/// The text one transcription outcome contributes to the transcript: the
/// segment and its separator on success, nothing on failure.
pub open spec fn segment_of(outcome: Result<String, TranscribeError>) -> Seq<char> {
    match outcome {
        Ok(t) => t@ + seq![' '],
        Err(_) => Seq::<char>::empty(),
    }
}

/// The text a sequence of transcription outcomes contributes, in order.
pub open spec fn segments_of(outcomes: Seq<Result<String, TranscribeError>>) -> Seq<char>
    decreases outcomes.len(),
{
    if outcomes.len() == 0 {
        Seq::<char>::empty()
    } else {
        segments_of(outcomes.drop_last()) + segment_of(outcomes.last())
    }
}

/// The consumer step for one chunk: a successful transcription appends its
/// segment and separator; a failed one is skipped and the transcript is
/// untouched. A failure never alters the session's status, so it never
/// aborts the loop or the session.
pub fn apply_transcription(state: &mut RecordingState, outcome: &Result<String, TranscribeError>)
    ensures
        final(state)@.status == old(state)@.status,
        final(state)@.transcript == old(state)@.transcript + segment_of(*outcome),
{
    match outcome {
        Ok(text) => {
            state.append_segment(text.as_str());
        },
        Err(_) => {
            proof {
                assert(old(state)@.transcript + segment_of(*outcome) =~= old(state)@.transcript);
            }
        },
    }
}

/// The consumer's pass over a run of chunk outcomes, one at a time and in
/// arrival order: the transcript grows by exactly the successful segments,
/// in that order, however the underlying remote calls interleaved.
pub fn process_outcomes(state: &mut RecordingState, outcomes: &Vec<Result<String, TranscribeError>>)
    ensures
        final(state)@.status == old(state)@.status,
        final(state)@.transcript == old(state)@.transcript + segments_of(outcomes@),
{
    let mut i: usize = 0;
    proof {
        assert(state@.transcript + segments_of(outcomes@.take(0)) =~= state@.transcript);
    }
    while i < outcomes.len()
        invariant
            i <= outcomes@.len(),
            state@.status == old(state)@.status,
            state@.transcript == old(state)@.transcript + segments_of(outcomes@.take(i as int)),
        decreases outcomes@.len() - i,
    {
        apply_transcription(state, &outcomes[i]);
        proof {
            assert(outcomes@.take(i + 1).drop_last() =~= outcomes@.take(i as int));
            assert(outcomes@.take(i + 1).last() == outcomes@[i as int]);
            assert(state@.transcript =~= old(state)@.transcript + segments_of(
                outcomes@.take(i + 1),
            ));
        }
        i += 1;
    }
    proof {
        assert(outcomes@.take(outcomes@.len() as int) =~= outcomes@);
    }
}

/// The consumer loop's terminal run, as observed once `stop` has dropped
/// the sending side: chunks are received until the channel reports end of
/// stream, with one transcription outcome applied per chunk, in arrival
/// order. Termination is observed, not signaled — the loop exits only
/// after every chunk enqueued before the drop has been processed, so none
/// is discarded by channel closure, and the transcript grows by exactly
/// the successful segments, in order.
pub fn consume_closed(
    queue: &mut ChunkQueue,
    state: &mut RecordingState,
    outcomes: &Vec<Result<String, TranscribeError>>,
) -> (processed: usize)
    requires
        old(queue).sender_dropped,
        outcomes@.len() == old(queue).chunks@.len(),
    ensures
        processed == old(queue).chunks@.len(),
        final(queue).chunks@ == Seq::<AudioChunk>::empty(),
        final(queue).sender_dropped,
        final(state)@.status == old(state)@.status,
        final(state)@.transcript == old(state)@.transcript + segments_of(outcomes@),
{
    let total: usize = outcomes.len();
    let mut processed: usize = 0;
    proof {
        assert(state@.transcript + segments_of(outcomes@.take(0)) =~= state@.transcript);
    }
    loop
        invariant
            queue.sender_dropped,
            total == outcomes@.len(),
            processed <= total,
            queue.chunks@.len() == outcomes@.len() - processed,
            state@.status == old(state)@.status,
            state@.transcript == old(state)@.transcript + segments_of(
                outcomes@.take(processed as int),
            ),
        ensures
            queue.sender_dropped,
            processed == outcomes@.len(),
            queue.chunks@.len() == 0,
            state@.status == old(state)@.status,
            state@.transcript == old(state)@.transcript + segments_of(
                outcomes@.take(processed as int),
            ),
        decreases queue.chunks@.len(),
    {
        match queue.recv() {
            Some(_chunk) => {
                apply_transcription(state, &outcomes[processed]);
                proof {
                    assert(outcomes@.take(processed + 1).drop_last() =~= outcomes@.take(
                        processed as int,
                    ));
                    assert(outcomes@.take(processed + 1).last() == outcomes@[processed as int]);
                    assert(state@.transcript =~= old(state)@.transcript + segments_of(
                        outcomes@.take(processed + 1),
                    ));
                }
                processed += 1;
            },
            None => {
                break;
            },
        }
    }
    proof {
        assert(outcomes@.take(outcomes@.len() as int) =~= outcomes@);
        assert(queue.chunks@ =~= Seq::<AudioChunk>::empty());
    }
    processed
}

} // verus!
