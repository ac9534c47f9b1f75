//! The consumer capability: a view of a [`PipeBuf`] restricted to the
//! operations a consumer may perform.

use vstd::prelude::*;

use crate::buf::abort_transition;
use crate::buf::close_transition;
use crate::buf::consume_eof_transition;
use crate::buf::consume_push_transition;
use crate::buf::push_transition;
use crate::buf::state_is_eof;
use crate::buf::state_is_eof_of;
use crate::buf::PBufState;
use crate::buf::PBufTrip;
use crate::buf::PipeBuf;
use crate::wr::PBufWr;

verus! {

/// Consumer reference to a [`PipeBuf`].
///
/// Obtain one with [`PipeBuf::rd`].  It wraps an exclusive borrow of the
/// buffer, so while it lives no other code — in particular no producer
/// capability — can touch the same buffer.  Operations that change the
/// buffer take the handle by value; use [`PBufRd::reborrow`] to keep the
/// handle across such a call, at the cost of a pointer copy.
pub struct PBufRd<'a, T = u8> {
    /// The exclusive borrow of the buffer that this capability wraps.
    pub pb: &'a mut PipeBuf<T>,
}

impl<'a, T: Copy + Default> PBufRd<'a, T> {
    /// The buffer as currently seen through this handle.
    pub open spec fn buf(&self) -> PipeBuf<T> {
        *self.pb
    }

    /// Create a new handle from this one, reborrowing it: the original is
    /// inaccessible until the returned handle is dropped.
    pub fn reborrow<'r>(&'r mut self) -> (r: PBufRd<'r, T>)
        ensures
            r.buf() == old(self).buf(),
            final(self).buf() == (*final(r.pb)),
            *final(final(self).pb) == *final(old(self).pb),
    {
        PBufRd { pb: &mut *self.pb }
    }

    /// Obtain a tripwire value to detect buffer changes; see
    /// [`PBufTrip`].
    pub fn tripwire(&self) -> (r: PBufTrip)
        requires
            self.buf().wf(),
        ensures
            r == self.buf().spec_tripwire(),
    {
        self.pb.tripwire()
    }

    /// Test whether the buffer has changed since the tripwire value was
    /// captured; see [`PBufTrip`].
    pub fn is_tripped(&self, trip: PBufTrip) -> (r: bool)
        requires
            self.buf().wf(),
        ensures
            r == (self.buf().spec_tripwire() != trip),
    {
        self.pb.is_tripped(trip)
    }

    /// The unread data as a slice, oldest element first.  After
    /// processing some prefix of it, report that with [`PBufRd::consume`].
    pub fn data(&self) -> (r: &[T])
        requires
            self.buf().wf(),
        ensures
            r@ == self.buf().unread(),
    {
        self.pb.data()
    }

    /// Mark `len` elements as consumed from the front of the unread data.
    pub fn consume(self, len: usize)
        requires
            self.buf().wf(),
            len <= self.buf().unread().len(),
        ensures
            (*final(self.pb)).wf(),
            (*final(self.pb)).unread() == self.buf().unread().skip(len as int),
            (*final(self.pb)).spec_state() == self.buf().spec_state(),
            (*final(self.pb)).spec_capacity() == self.buf().spec_capacity(),
            (*final(self.pb)).trip_math() == self.buf().trip_math() - len,
    {
        self.pb.consume(len);
    }

    /// Number of unread elements held in the buffer.
    pub fn len(&self) -> (r: usize)
        requires
            self.buf().wf(),
        ensures
            r == self.buf().unread().len(),
    {
        self.pb.len()
    }

    /// Test whether the unread region is empty.
    pub fn is_empty(&self) -> (r: bool)
        requires
            self.buf().wf(),
        ensures
            r == (self.buf().unread().len() == 0),
    {
        self.pb.is_empty()
    }

    /// The unread data as a mutable slice, for consumers that rework
    /// data in place before consuming it.  Overwriting the window
    /// rewrites the unread data one for one; nothing else about the
    /// buffer changes.
    pub fn data_mut(self) -> (w: &'a mut [T])
        requires
            self.buf().wf(),
        ensures
            w@ == self.buf().unread(),
            final(w)@.len() == w@.len() ==> {
                &&& (*final(self.pb)).wf()
                &&& (*final(self.pb)).unread() == final(w)@
                &&& (*final(self.pb)).spec_state() == self.buf().spec_state()
                &&& (*final(self.pb)).spec_capacity() == self.buf().spec_capacity()
            },
    {
        self.pb.data_mut()
    }

    /// Consume a pending "push" indication.  Returns `true` if one was
    /// pending and was cleared; otherwise the buffer is left unchanged.
    pub fn consume_push(self) -> (r: bool)
        requires
            self.buf().wf(),
        ensures
            (*final(self.pb)).wf(),
            PipeBuf::storage_unchanged(&self.buf(), final(self.pb)),
            r == (self.buf().spec_state() == PBufState::Push),
            (*final(self.pb)).spec_state() == consume_push_transition(self.buf().spec_state()),
            !r ==> *final(self.pb) == self.buf(),
    {
        self.pb.consume_push()
    }

    /// Consume a pending end-of-file indication, moving `Closing` to
    /// `Closed` or `Aborting` to `Aborted`.  Returns `true` if an EOF
    /// was pending; otherwise — no EOF yet, or one already consumed —
    /// the buffer is left unchanged.  The kind of EOF consumed can be
    /// checked afterwards with [`PBufRd::is_aborted`].
    pub fn consume_eof(self) -> (r: bool)
        requires
            self.buf().wf(),
        ensures
            (*final(self.pb)).wf(),
            PipeBuf::storage_unchanged(&self.buf(), final(self.pb)),
            r == (self.buf().spec_state() == PBufState::Closing || self.buf().spec_state()
                == PBufState::Aborting),
            (*final(self.pb)).spec_state() == consume_eof_transition(self.buf().spec_state()),
            !r ==> *final(self.pb) == self.buf(),
    {
        self.pb.consume_eof()
    }

    /// Test whether an end-of-file indication is waiting to be consumed:
    /// state `Closing` or `Aborting`.
    pub fn has_pending_eof(&self) -> (r: bool)
        ensures
            r == (self.buf().spec_state() == PBufState::Closing || self.buf().spec_state()
                == PBufState::Aborting),
    {
        let s = self.pb.state();
        s == PBufState::Closing || s == PBufState::Aborting
    }

    /// Test whether the producer has signalled end-of-file, whether or
    /// not it has been consumed yet.  If so, the unread data still in
    /// the buffer is the final data of the stream.
    pub fn is_eof(&self) -> (r: bool)
        ensures
            r == state_is_eof(self.buf().spec_state()),
    {
        let s = self.pb.state();
        !(s == PBufState::Open || s == PBufState::Push)
    }

    /// Test whether the producer ended the stream with an abort: state
    /// `Aborting` or `Aborted`.
    pub fn is_aborted(&self) -> (r: bool)
        ensures
            r == (self.buf().spec_state() == PBufState::Aborting || self.buf().spec_state()
                == PBufState::Aborted),
    {
        let s = self.pb.state();
        s == PBufState::Aborting || s == PBufState::Aborted
    }

    /// Test whether processing of this buffer is complete: an abort EOF
    /// was consumed, or a normal EOF was consumed and the unread data
    /// has been drained.
    pub fn is_done(&self) -> (r: bool)
        requires
            self.buf().wf(),
        ensures
            r == self.buf().spec_is_done(),
    {
        self.pb.is_done()
    }

    /// The current EOF/push state of the buffer.
    pub fn state(&self) -> (r: PBufState)
        ensures
            r == self.buf().spec_state(),
    {
        self.pb.state()
    }

    /// Move all the unread data in this buffer, together with any
    /// pending push or EOF indication, into the destination buffer in
    /// one call.  This buffer ends empty with its push and EOF consumed;
    /// the destination takes over the data and the indications.  When
    /// the destination has itself already signalled EOF the call does
    /// nothing at all.  The destination must have room for the data.
    pub fn forward(self, dest: PBufWr<'_, T>)
        requires
            self.buf().wf(),
            dest.buf().wf(),
            !state_is_eof(dest.buf().spec_state()) ==> self.buf().unread().len()
                <= dest.buf().free_len(),
        ensures
            (*final(self.pb)).wf(),
            (*final(dest.pb)).wf(),
            state_is_eof(dest.buf().spec_state()) ==> {
                &&& *final(self.pb) == self.buf()
                &&& *final(dest.pb) == dest.buf()
            },
            !state_is_eof(dest.buf().spec_state()) ==> {
                &&& (*final(self.pb)).unread().len() == 0
                &&& (*final(self.pb)).spec_state() == consume_eof_transition(
                    consume_push_transition(self.buf().spec_state()),
                )
                &&& (*final(self.pb)).spec_capacity() == self.buf().spec_capacity()
                &&& (*final(dest.pb)).unread() == dest.buf().unread() + self.buf().unread()
                &&& (*final(dest.pb)).spec_state() == match self.buf().spec_state() {
                    PBufState::Push => push_transition(dest.buf().spec_state()),
                    PBufState::Closing => close_transition(dest.buf().spec_state()),
                    PBufState::Aborting => abort_transition(dest.buf().spec_state()),
                    _ => dest.buf().spec_state(),
                }
                &&& (*final(dest.pb)).spec_capacity() == dest.buf().spec_capacity()
            },
    {
        let dst = dest.pb;
        if state_is_eof_of(dst.state()) {
            return ;
        }
        let copied = dst.append(self.pb.data());
        assert(copied);
        let n = self.pb.len();
        self.pb.consume(n);
        if self.pb.consume_push() {
            dst.push();
        }
        if self.pb.consume_eof() {
            if self.pb.state() == PBufState::Aborted {
                dst.abort();
            } else {
                dst.close();
            }
        }
    }
}

impl<T: Copy + Default> PipeBuf<T> {
    /// Get a consumer handle to the buffer.
    pub fn rd(&mut self) -> (r: PBufRd<'_, T>)
        ensures
            r.buf() == *old(self),
            *final(self) == (*final(r.pb)),
    {
        PBufRd { pb: self }
    }
}

} // verus!
