//! QPACK errors and the decisions of the shared QPACK decoder: when to
//! retry a lock, when to tell the peer's encoder that a header block was
//! acknowledged or abandoned.
use vstd::prelude::*;

verus! {

/// An error of the QPACK encoder or decoder.
#[derive(Debug)]
pub enum Error<E, D> {
    Encoder(E),
    Decoder(D),
}

/// The words that open the message of `e`.
pub open spec fn error_prefix<E, D>(e: Error<E, D>) -> Seq<char> {
    match e {
        Error::Encoder(_) => "Encoder "@,
        Error::Decoder(_) => "Decoder "@,
    }
}

impl<E, D> Error<E, D> {
    /// The message of this error, `Encoder <inner>` or `Decoder <inner>`,
    /// where `inner` is the message of the error it wraps.
    pub fn message(&self, inner: &str) -> (m: String)
        ensures
            m@ == error_prefix(*self) + inner@,
    {
        let mut m = match self {
            Error::Encoder(_) => String::from_str("Encoder "),
            Error::Decoder(_) => String::from_str("Decoder "),
        };
        m.append(inner);
        m
    }
}

/// The outcome of one attempt to take the decoder's lock.
#[derive(Debug, Clone, Copy, PartialEq, Eq, Structural)]
pub enum LockAttempt {
    /// The lock was taken.
    Acquired,
    /// The other side holds the lock.
    WouldBlock,
    /// A holder of the lock panicked.
    Poisoned,
}

/// What to do after an attempt to take the decoder's lock.
#[derive(Debug, Clone, Copy, PartialEq, Eq, Structural)]
pub enum LockStep {
    /// Do the work under the lock, then wake the other side.
    Proceed,
    /// Register the task's waker, then try once more.
    RegisterAndRetry,
    /// Wait for the registered waker.
    Pending,
    /// Give up with `DecoderError::UnexpectedEnd`.
    Fail,
}

/// The step that follows `attempt`; `retried` tells whether it was the
/// attempt made after registering the waker.
pub open spec fn spec_lock_step(retried: bool, attempt: LockAttempt) -> LockStep {
    match attempt {
        LockAttempt::Acquired => LockStep::Proceed,
        LockAttempt::WouldBlock => if retried {
            LockStep::Pending
        } else {
            LockStep::RegisterAndRetry
        },
        LockAttempt::Poisoned => LockStep::Fail,
    }
}

/// The step that follows an attempt to take the decoder's lock. A blocked
/// first attempt registers the waker before it tries again, so that a
/// release between the two attempts cannot be missed; a blocked second
/// attempt waits for that waker.
pub fn lock_step(retried: bool, attempt: LockAttempt) -> (s: LockStep)
    ensures
        s == spec_lock_step(retried, attempt),
{
    match attempt {
        LockAttempt::Acquired => LockStep::Proceed,
        LockAttempt::WouldBlock => if retried {
            LockStep::Pending
        } else {
            LockStep::RegisterAndRetry
        },
        LockAttempt::Poisoned => LockStep::Fail,
    }
}

/// The outcome of decoding one header block.
#[derive(Debug, Clone, Copy, PartialEq, Eq, Structural)]
pub enum DecodeOutcome {
    /// The block was decoded; `dyn_ref` tells whether it referred to the
    /// dynamic table.
    Decoded { dyn_ref: bool },
    /// The block needs dynamic table entries up to `required_ref` that have
    /// not arrived (`DecoderError::MissingRefs`).
    MissingRefs { required_ref: usize },
    /// Any other decoding error.
    Failed,
}

/// What to do with the outcome of decoding a header block.
#[derive(Debug, Clone, Copy, PartialEq, Eq, Structural)]
pub enum DecodeAction {
    /// Return the decoded block.
    Return,
    /// Send a Section Acknowledgment for the stream to the peer's encoder,
    /// wake the connection, then return the decoded block; if it cannot be
    /// sent, fail with `DecoderError::UnexpectedEnd`.
    AcknowledgeThenReturn { stream_id: u64 },
    /// Return the decoding error.
    ReturnError,
}

/// A request stream that a decoder handle tracks.
#[derive(Debug, Clone, Copy, PartialEq, Eq, Structural)]
pub struct StreamTracking {
    /// The request stream.
    pub stream_id: u64,
    /// Whether dropping the handle abandons the header block, so that the
    /// peer's encoder must be told (Stream Cancellation).
    pub cancel_on_drop: bool,
}

/// The per-stream state of a QPACK decoder handle.
#[derive(Debug, Clone, Copy, PartialEq, Eq, Structural)]
pub struct DecoderStreamState {
    /// The stream this handle tracks, if it tracks one.
    pub tracking: Option<StreamTracking>,
}

/// The state after `outcome`, and what to do.
pub open spec fn spec_after_decode(st: DecoderStreamState, outcome: DecodeOutcome) -> (
    DecoderStreamState,
    DecodeAction,
) {
    match outcome {
        DecodeOutcome::Decoded { dyn_ref } => match st.tracking {
            Some(t) => (
                DecoderStreamState {
                    tracking: Some(StreamTracking { stream_id: t.stream_id, cancel_on_drop: false }),
                },
                if dyn_ref {
                    DecodeAction::AcknowledgeThenReturn { stream_id: t.stream_id }
                } else {
                    DecodeAction::Return
                },
            ),
            None => (st, DecodeAction::Return),
        },
        DecodeOutcome::MissingRefs { required_ref } => match st.tracking {
            Some(t) => if required_ref > 0 {
                (
                    DecoderStreamState {
                        tracking: Some(
                            StreamTracking { stream_id: t.stream_id, cancel_on_drop: true },
                        ),
                    },
                    DecodeAction::ReturnError,
                )
            } else {
                (st, DecodeAction::ReturnError)
            },
            None => (st, DecodeAction::ReturnError),
        },
        DecodeOutcome::Failed => (st, DecodeAction::ReturnError),
    }
}

/// The stream to cancel when a handle in state `st` is dropped.
pub open spec fn spec_drop_notice(st: DecoderStreamState) -> Option<u64> {
    match st.tracking {
        Some(t) => if t.cancel_on_drop {
            Some(t.stream_id)
        } else {
            None
        },
        None => None,
    }
}

/// The state after each of `outcomes` in turn.
pub open spec fn run_decodes(st: DecoderStreamState, outcomes: Seq<DecodeOutcome>) -> DecoderStreamState
    decreases outcomes.len(),
{
    if outcomes.len() == 0 {
        st
    } else {
        run_decodes(spec_after_decode(st, outcomes[0]).0, outcomes.drop_first())
    }
}

impl DecoderStreamState {
    /// The state of a handle that tracks no stream.
    pub fn new() -> (st: Self)
        ensures
            st.tracking is None,
    {
        DecoderStreamState { tracking: None }
    }

    /// The state of a copy of a handle: copies share the decoder but track
    /// no stream.
    pub fn clone_handle(&self) -> (st: Self)
        ensures
            st.tracking is None,
    {
        DecoderStreamState { tracking: None }
    }

    /// A stream-scoped handle state. Until the header block is successfully
    /// decoded, dropping the tracked stream abandons it and must notify the
    /// peer encoder.
    pub fn track_stream(self, stream_id: u64) -> (st: Self)
        ensures
            st.tracking == Some(StreamTracking { stream_id, cancel_on_drop: true }),
    {
        DecoderStreamState { tracking: Some(StreamTracking { stream_id, cancel_on_drop: true }) }
    }

    /// Takes in the outcome of decoding a header block with the dynamic
    /// table: on success the tracked stream no longer needs cancelling and,
    /// where the block referred to the dynamic table, is acknowledged; a
    /// block still missing references (`required_ref > 0`) leaves the
    /// stream to be cancelled on drop.
    pub fn after_decode(&mut self, outcome: DecodeOutcome) -> (a: DecodeAction)
        ensures
            (*final(self), a) == spec_after_decode(*old(self), outcome),
    {
        match outcome {
            DecodeOutcome::Decoded { dyn_ref } => match self.tracking {
                Some(t) => {
                    self.tracking = Some(StreamTracking { stream_id: t.stream_id, cancel_on_drop: false });
                    if dyn_ref {
                        DecodeAction::AcknowledgeThenReturn { stream_id: t.stream_id }
                    } else {
                        DecodeAction::Return
                    }
                },
                None => DecodeAction::Return,
            },
            DecodeOutcome::MissingRefs { required_ref } => {
                match self.tracking {
                    Some(t) => {
                        if required_ref > 0 {
                            self.tracking = Some(
                                StreamTracking { stream_id: t.stream_id, cancel_on_drop: true },
                            );
                        }
                    },
                    None => {},
                }
                DecodeAction::ReturnError
            },
            DecodeOutcome::Failed => DecodeAction::ReturnError,
        }
    }

    /// The stream whose header block is abandoned when this handle is
    /// dropped, and must be cancelled with the peer's encoder.
    pub fn drop_notice(&self) -> (r: Option<u64>)
        ensures
            r == spec_drop_notice(*self),
    {
        match self.tracking {
            Some(t) => if t.cancel_on_drop {
                Some(t.stream_id)
            } else {
                None
            },
            None => None,
        }
    }
}

/// Until a header block of a tracked stream is decoded, dropping the handle
/// cancels that stream with the peer's encoder, whatever errors came before.
pub proof fn law_abandoned_stream_is_cancelled(stream_id: u64, outcomes: Seq<DecodeOutcome>)
    requires
        forall|i: int| 0 <= i < outcomes.len() ==> !(#[trigger] outcomes[i] is Decoded),
    ensures
        spec_drop_notice(
            run_decodes(
                DecoderStreamState {
                    tracking: Some(StreamTracking { stream_id, cancel_on_drop: true }),
                },
                outcomes,
            ),
        ) == Some(stream_id),
    decreases outcomes.len(),
{
    if outcomes.len() > 0 {
        let rest = outcomes.drop_first();
        assert forall|i: int| 0 <= i < rest.len() implies !(#[trigger] rest[i] is Decoded) by {
            assert(rest[i] == outcomes[i + 1]);
        }
        law_abandoned_stream_is_cancelled(stream_id, rest);
    }
}

/// Once a header block of the tracked stream is decoded, dropping the
/// handle cancels nothing; only the acknowledgment of a block that
/// referred to the dynamic table is sent.
pub proof fn law_decoded_stream_is_not_cancelled(st: DecoderStreamState, dyn_ref: bool)
    ensures
        spec_drop_notice(spec_after_decode(st, DecodeOutcome::Decoded { dyn_ref }).0) is None,
        spec_after_decode(st, DecodeOutcome::Decoded { dyn_ref }).1 is AcknowledgeThenReturn
            <==> (dyn_ref && st.tracking is Some),
{
}

/// A decoder handle keeps the stream it tracks: no outcome changes it.
pub proof fn law_tracked_stream_is_kept(st: DecoderStreamState, outcomes: Seq<DecodeOutcome>)
    ensures
        run_decodes(st, outcomes).tracking is Some <==> st.tracking is Some,
        st.tracking is Some ==> run_decodes(st, outcomes).tracking->0.stream_id
            == st.tracking->0.stream_id,
    decreases outcomes.len(),
{
    if outcomes.len() > 0 {
        law_tracked_stream_is_kept(spec_after_decode(st, outcomes[0]).0, outcomes.drop_first());
    }
}

/// A lock attempt that finds the other side holding the lock is retried
/// once, after registering the waker, before the decoder waits; a taken
/// lock always proceeds.
pub proof fn law_blocked_lock_is_retried_once(attempt: LockAttempt)
    ensures
        spec_lock_step(false, LockAttempt::WouldBlock) == LockStep::RegisterAndRetry,
        spec_lock_step(true, LockAttempt::WouldBlock) == LockStep::Pending,
        spec_lock_step(false, attempt) != LockStep::Pending,
        spec_lock_step(true, attempt) != LockStep::RegisterAndRetry,
{
}

/// A Section Acknowledgment is sent only for a decoded block that used the
/// dynamic table, and it names exactly the stream the handle tracks.
pub proof fn law_acknowledgment_names_the_tracked_stream(st: DecoderStreamState, outcome: DecodeOutcome)
    ensures
        spec_after_decode(st, outcome).1 matches DecodeAction::AcknowledgeThenReturn { stream_id }
            ==> st.tracking is Some && stream_id == st.tracking->0.stream_id && outcome
            == (DecodeOutcome::Decoded { dyn_ref: true }),
        st.tracking is Some ==> spec_after_decode(st, DecodeOutcome::Decoded { dyn_ref: true }).1
            == (DecodeAction::AcknowledgeThenReturn { stream_id: st.tracking->0.stream_id }),
{
}

/// Only a block still missing dynamic table references (`required_ref > 0`)
/// makes a handle cancel its stream on drop; any other failure leaves the
/// handle as it was, and a success clears the cancellation.
pub proof fn law_only_missing_references_rearm_cancellation(st: DecoderStreamState, outcome: DecodeOutcome)
    ensures
        spec_after_decode(st, DecodeOutcome::Failed).0 == st,
        spec_after_decode(st, DecodeOutcome::MissingRefs { required_ref: 0 }).0 == st,
        spec_drop_notice(spec_after_decode(st, outcome).0) is Some ==> (spec_drop_notice(st) is Some
            && !(outcome is Decoded)) || (st.tracking is Some && (outcome matches DecodeOutcome::MissingRefs { required_ref }
            && required_ref > 0)),
{
}

/// Once a tracked stream's block is decoded, later failures that are not
/// missing references never make dropping the handle cancel the stream.
pub proof fn law_decoded_stream_stays_uncancelled(
    st: DecoderStreamState,
    dyn_ref: bool,
    later: Seq<DecodeOutcome>,
)
    requires
        forall|i: int|
            0 <= i < later.len() ==> match #[trigger] later[i] {
                DecodeOutcome::MissingRefs { required_ref } => required_ref == 0,
                _ => true,
            },
    ensures
        spec_drop_notice(
            run_decodes(spec_after_decode(st, DecodeOutcome::Decoded { dyn_ref }).0, later),
        ) is None,
    decreases later.len(),
{
    lemma_uncancelled_stays(spec_after_decode(st, DecodeOutcome::Decoded { dyn_ref }).0, later);
}

proof fn lemma_uncancelled_stays(st: DecoderStreamState, later: Seq<DecodeOutcome>)
    requires
        spec_drop_notice(st) is None,
        forall|i: int|
            0 <= i < later.len() ==> match #[trigger] later[i] {
                DecodeOutcome::MissingRefs { required_ref } => required_ref == 0,
                _ => true,
            },
    ensures
        spec_drop_notice(run_decodes(st, later)) is None,
    decreases later.len(),
{
    if later.len() > 0 {
        let rest = later.drop_first();
        assert(match later[0] {
            DecodeOutcome::MissingRefs { required_ref } => required_ref == 0,
            _ => true,
        });
        assert forall|i: int| 0 <= i < rest.len() implies match #[trigger] rest[i] {
            DecodeOutcome::MissingRefs { required_ref } => required_ref == 0,
            _ => true,
        } by {
            assert(rest[i] == later[i + 1]);
        }
        lemma_uncancelled_stays(spec_after_decode(st, later[0]).0, rest);
    }
}

} // verus!
