//! Byte-pipe buffer shared between a producer and a consumer.
//!
//! A [`PipeBuf`] owns contiguous storage together with a read cursor, a
//! write cursor and an end-of-stream state.  The producer side obtains a
//! [`PBufWr`] capability with [`PipeBuf::wr`] and the consumer side a
//! [`PBufRd`] capability with [`PipeBuf::rd`]; each capability exposes only
//! the operations of its own role.  [`PipeBufPair`] composes two buffers
//! into a bidirectional channel.

mod buf;
pub use buf::abort_transition;
pub use buf::all_one_value;
pub use buf::close_transition;
pub use buf::consume_eof_transition;
pub use buf::consume_push_transition;
pub use buf::push_transition;
pub use buf::set_push_transition;
pub use buf::state_is_eof;
pub use buf::state_is_eof_of;
pub use buf::state_ordinal;
pub use buf::state_ordinal_of;
pub use buf::trip_modulus;
pub use buf::PBufState;
pub use buf::PBufTrip;
pub use buf::PipeBuf;

mod rd;
pub use rd::PBufRd;

mod wr;
pub use wr::PBufWr;

mod pair;
pub use pair::PBufRdWr;
pub use pair::PipeBufPair;

mod run;
pub use run::RunStatus;

mod io;
pub use io::is_connection_aborted;
pub use io::is_would_block;

mod laws;
pub use laws::lemma_first_eof_kind_sticky;
pub use laws::lemma_stream_round_trip;
pub use laws::lemma_tripwire_detects_change;
pub use laws::stream_run;
pub use laws::stream_run_ok;
pub use laws::stream_step;
pub use laws::stream_written;
pub use laws::StreamOp;
