//! Stream-level laws of the engine, stated over its specification model
//! and proved once and for all.
//!
//! The contracts in [`crate::buf`] pin each operation down one call at a
//! time; the proof functions here combine them into the guarantees a user
//! of a whole stream cares about: data flows through in order whatever
//! the chunking, the first EOF kind recorded can never change, and an
//! unchanged tripwire value really means nothing happened.

use vstd::prelude::*;

use crate::buf::abort_transition;
use crate::buf::close_transition;
use crate::buf::consume_eof_transition;
use crate::buf::consume_push_transition;
use crate::buf::push_transition;
use crate::buf::set_push_transition;
use crate::buf::state_is_eof;
use crate::buf::trip_modulus;
use crate::buf::PBufState;
use crate::buf::PipeBuf;

verus! {

/// One step of buffer traffic, as seen through the unread region: a
/// producer appends a chunk — any size, including empty — or a consumer
/// takes some prefix of what is waiting.  [`PipeBuf::append`] ensures
/// exactly the `Append` effect on [`PipeBuf::unread`] (as does a
/// reserve-and-commit pair), and [`PipeBuf::consume`] exactly the
/// `Consume` effect, so a run of this model is a run of the engine.
pub enum StreamOp<T> {
    /// A producer appends this chunk.
    Append(Seq<T>),
    /// A consumer reads and consumes this many elements from the front.
    Consume(int),
}

/// The stream position after one operation: `taken` is everything
/// consumed so far in order, `unread` what is still waiting.
pub open spec fn stream_step<T>(taken: Seq<T>, unread: Seq<T>, op: StreamOp<T>) -> (Seq<T>, Seq<
    T,
>) {
    match op {
        StreamOp::Append(chunk) => (taken, unread + chunk),
        StreamOp::Consume(n) => (taken + unread.subrange(0, n), unread.skip(n)),
    }
}

/// The stream position after a whole run of operations, applied left to
/// right.
pub open spec fn stream_run<T>(taken: Seq<T>, unread: Seq<T>, ops: Seq<StreamOp<T>>) -> (
    Seq<T>,
    Seq<T>,
)
    decreases ops.len(),
{
    if ops.len() == 0 {
        (taken, unread)
    } else {
        let next = stream_step(taken, unread, ops[0]);
        stream_run(next.0, next.1, ops.skip(1))
    }
}

/// A run is valid when no consume asks for more than is waiting at its
/// turn.
pub open spec fn stream_run_ok<T>(unread: Seq<T>, ops: Seq<StreamOp<T>>) -> bool
    decreases ops.len(),
{
    if ops.len() == 0 {
        true
    } else {
        match ops[0] {
            StreamOp::Append(chunk) => stream_run_ok(unread + chunk, ops.skip(1)),
            StreamOp::Consume(n) => 0 <= n <= unread.len() && stream_run_ok(
                unread.skip(n),
                ops.skip(1),
            ),
        }
    }
}

/// Everything the producers of a run appended, in order.
pub open spec fn stream_written<T>(ops: Seq<StreamOp<T>>) -> Seq<T>
    decreases ops.len(),
{
    if ops.len() == 0 {
        Seq::empty()
    } else {
        match ops[0] {
            StreamOp::Append(chunk) => chunk + stream_written(ops.skip(1)),
            StreamOp::Consume(_) => stream_written(ops.skip(1)),
        }
    }
}

/// Law: the buffer is a faithful byte stream.  Over any valid run of
/// appends and consumes — whatever the chunk sizes, however reads and
/// writes interleave, and whether or not the storage was compacted or
/// grown along the way — what has been consumed followed by what is
/// still unread is exactly what was written, in one unbroken order.
/// Consuming everything at the end therefore reproduces the written
/// bytes exactly.
pub proof fn lemma_stream_round_trip<T>(taken: Seq<T>, unread: Seq<T>, ops: Seq<StreamOp<T>>)
    requires
        stream_run_ok(unread, ops),
    ensures
        stream_run(taken, unread, ops).0 + stream_run(taken, unread, ops).1 == taken + unread
            + stream_written(ops),
    decreases ops.len(),
{
    if ops.len() == 0 {
        assert(stream_written(ops) =~= Seq::<T>::empty());
        assert(taken + unread + Seq::<T>::empty() =~= taken + unread);
    } else {
        let rest = ops.skip(1);
        match ops[0] {
            StreamOp::Append(chunk) => {
                lemma_stream_round_trip(taken, unread + chunk, rest);
                assert(taken + (unread + chunk) + stream_written(rest) =~= taken + unread + (chunk
                    + stream_written(rest)));
            },
            StreamOp::Consume(n) => {
                lemma_stream_round_trip(taken + unread.subrange(0, n), unread.skip(n), rest);
                assert((taken + unread.subrange(0, n)) + unread.skip(n) + stream_written(rest)
                    =~= taken + unread + stream_written(rest));
            },
        }
    }
}

/// Law: the first EOF kind recorded is sticky.  Once the producer has
/// signalled end-of-file, a later close or abort is a no-op — a close
/// recorded first can never be turned into an abort and vice versa — and
/// no operation of either role can take the stream back before its EOF.
pub proof fn lemma_first_eof_kind_sticky(s: PBufState, push: bool)
    requires
        state_is_eof(s),
    ensures
        close_transition(s) == s,
        abort_transition(s) == s,
        push_transition(s) == s,
        set_push_transition(s, push) == s,
        consume_push_transition(s) == s,
        state_is_eof(consume_eof_transition(s)),
        (s == PBufState::Closing || s == PBufState::Closed) ==> (consume_eof_transition(s)
            == PBufState::Closing || consume_eof_transition(s) == PBufState::Closed),
        (s == PBufState::Aborting || s == PBufState::Aborted) ==> (consume_eof_transition(s)
            == PBufState::Aborting || consume_eof_transition(s) == PBufState::Aborted),
{
}

/// Law: the tripwire detects one-directional change.  Each operation's
/// contract moves [`PipeBuf::trip_math`] strictly upwards (producer
/// operations) or strictly downwards (consumer operations), so over a
/// span of operations of one role the value never returns to where it
/// started; this lemma adds that the wrapped value actually handed out
/// then differs too, as long as the span moved the value by less than
/// the full `usize` range.  A span mixing both roles can cancel out and
/// is outside the tripwire's contract.
pub proof fn lemma_tripwire_detects_change<T>(a: PipeBuf<T>, b: PipeBuf<T>)
    requires
        a.wf(),
        b.wf(),
        a.trip_math() != b.trip_math(),
        a.trip_math() - b.trip_math() < trip_modulus(),
        b.trip_math() - a.trip_math() < trip_modulus(),
    ensures
        a.spec_tripwire() != b.spec_tripwire(),
{
    a.lemma_trip_math_bounded();
    b.lemma_trip_math_bounded();
}

} // verus!
