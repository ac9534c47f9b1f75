//! The producer capability: a view of a [`PipeBuf`] restricted to the
//! operations a producer may perform.

use vstd::prelude::*;

use crate::buf::abort_transition;
use crate::buf::close_transition;
use crate::buf::push_transition;
use crate::buf::state_is_eof;
use crate::buf::PBufState;
use crate::buf::PBufTrip;
use crate::buf::PipeBuf;

verus! {

/// Producer reference to a [`PipeBuf`].
///
/// Obtain one with [`PipeBuf::wr`].  It wraps an exclusive borrow of the
/// buffer, so while it lives no other code — in particular no consumer
/// capability — can touch the same buffer.  Operations that change the
/// buffer take the handle by value; use [`PBufWr::reborrow`] to keep the
/// handle across such a call, at the cost of a pointer copy.
pub struct PBufWr<'a, T = u8> {
    /// The exclusive borrow of the buffer that this capability wraps.
    pub pb: &'a mut PipeBuf<T>,
}

impl<'a, T: Copy + Default> PBufWr<'a, T> {
    /// The buffer as currently seen through this handle.
    pub open spec fn buf(&self) -> PipeBuf<T> {
        *self.pb
    }

    /// Create a new handle from this one, reborrowing it: the original is
    /// inaccessible until the returned handle is dropped.
    pub fn reborrow<'r>(&'r mut self) -> (r: PBufWr<'r, T>)
        ensures
            r.buf() == old(self).buf(),
            final(self).buf() == (*final(r.pb)),
            *final(final(self).pb) == *final(old(self).pb),
    {
        PBufWr { pb: &mut *self.pb }
    }

    /// Obtain a tripwire value to detect buffer changes; see
    /// [`PBufTrip`].
    pub fn tripwire(&self) -> (r: PBufTrip)
        requires
            self.buf().wf(),
        ensures
            r == self.buf().spec_tripwire(),
    {
        self.pb.tripwire()
    }

    /// Test whether the buffer has changed since the tripwire value was
    /// captured; see [`PBufTrip`].
    pub fn is_tripped(&self, trip: PBufTrip) -> (r: bool)
        requires
            self.buf().wf(),
        ensures
            r == (self.buf().spec_tripwire() != trip),
    {
        self.pb.is_tripped(trip)
    }

    /// Reserve exactly `reserve` elements of free space for the caller to
    /// fill with data, which must then be committed with
    /// [`PBufWr::commit`] before any other operation that might compact
    /// the buffer.  The window holds stale elements, not data.  The
    /// caller must have checked that the request fits in the free space;
    /// see [`PBufWr::try_space`] for the variant that reports a failure
    /// instead.
    pub fn space(self, reserve: usize) -> (w: &'a mut [T])
        requires
            self.buf().wf(),
            reserve <= self.buf().free_len(),
        ensures
            w@.len() == reserve,
            final(w)@.len() == reserve ==> PipeBuf::reserved(
                &self.buf(),
                final(self.pb),
                final(w)@,
            ),
    {
        self.pb.space(reserve)
    }

    /// Like [`PBufWr::space`], but returns `None` instead of demanding
    /// that the request fits: `Some` exactly when `reserve` elements are
    /// still free within the declared maximum capacity.
    pub fn try_space(self, reserve: usize) -> (w: Option<&'a mut [T]>)
        requires
            self.buf().wf(),
        ensures
            w is Some <==> reserve <= self.buf().free_len(),
            match w {
                Some(ws) => ws@.len() == reserve && (final(ws)@.len() == reserve
                    ==> PipeBuf::reserved(&self.buf(), final(self.pb), final(ws)@)),
                None => {
                    &&& (*final(self.pb)).wf()
                    &&& (*final(self.pb)).unread() == self.buf().unread()
                    &&& (*final(self.pb)).spec_state() == self.buf().spec_state()
                    &&& (*final(self.pb)).spec_capacity() == self.buf().spec_capacity()
                },
            },
    {
        self.pb.try_space(reserve)
    }

    /// Reserve up to `limit` elements: as many as are free, shorter than
    /// asked — possibly empty — when the buffer is too full.
    pub fn space_upto(self, limit: usize) -> (w: &'a mut [T])
        requires
            self.buf().wf(),
        ensures
            w@.len() == if limit <= self.buf().free_len() {
                limit as int
            } else {
                self.buf().free_len()
            },
            final(w)@.len() == w@.len() ==> PipeBuf::reserved(
                &self.buf(),
                final(self.pb),
                final(w)@,
            ),
    {
        self.pb.space_upto(limit)
    }

    /// Reserve all the remaining free space, forcing a growable buffer to
    /// its full declared capacity.  Empty when the buffer is full.
    pub fn space_all(self) -> (w: &'a mut [T])
        requires
            self.buf().wf(),
        ensures
            w@.len() == self.buf().free_len(),
            final(w)@.len() == w@.len() ==> PipeBuf::reserved(
                &self.buf(),
                final(self.pb),
                final(w)@,
            ),
    {
        self.pb.space_all()
    }

    /// Commit `len` elements just written at the front of the reserved
    /// tail; they become the newest unread data.  The caller must not
    /// have signalled EOF and must not commit more than was reserved.
    pub fn commit(self, len: usize)
        requires
            self.buf().wf(),
            !state_is_eof(self.buf().spec_state()),
            len <= self.buf().room(),
        ensures
            (*final(self.pb)).wf(),
            (*final(self.pb)).unread() == self.buf().unread() + self.buf().staged(len as int),
            (*final(self.pb)).spec_state() == self.buf().spec_state(),
            (*final(self.pb)).spec_capacity() == self.buf().spec_capacity(),
            (*final(self.pb)).trip_math() == self.buf().trip_math() + len,
    {
        self.pb.commit(len)
    }

    /// Number of elements still free before the buffer's declared
    /// maximum capacity is reached.
    pub fn free(&self) -> (r: usize)
        requires
            self.buf().wf(),
        ensures
            r == self.buf().free_len(),
    {
        self.pb.free()
    }

    /// Remaining free space as a bounded quantity: `None` for a buffer
    /// whose declared maximum is unbounded.
    pub fn free_space(&self) -> (r: Option<usize>)
        requires
            self.buf().wf(),
        ensures
            r == if self.buf().spec_capacity() == usize::MAX as int {
                Option::<usize>::None
            } else {
                Option::Some((self.buf().free_len()) as usize)
            },
    {
        self.pb.free_space()
    }

    /// Test whether the buffer is full: unread data occupies the whole
    /// declared capacity.
    pub fn is_full(&self) -> (r: bool)
        requires
            self.buf().wf(),
        ensures
            r == (self.buf().free_len() == 0),
    {
        self.pb.is_full()
    }

    /// Producer-side throttle check: test whether more than `limit`
    /// elements are already buffered, without looking at any
    /// consumer-only state.
    pub fn exceeds_limit(&self, limit: usize) -> (r: bool)
        requires
            self.buf().wf(),
        ensures
            r == (self.buf().unread().len() > limit),
    {
        self.pb.exceeds_limit(limit)
    }

    /// Set the "push" state, hinting that the data buffered so far
    /// should be flushed promptly by the consumer.
    pub fn push(self)
        requires
            self.buf().wf(),
        ensures
            (*final(self.pb)).wf(),
            PipeBuf::storage_unchanged(&self.buf(), final(self.pb)),
            (*final(self.pb)).spec_state() == push_transition(self.buf().spec_state()),
    {
        self.pb.push()
    }

    /// Append a whole slice in one call: reserve, copy and commit.
    /// Returns `true` when the slice fitted; when it does not fit,
    /// nothing changes and `false` is returned.  The caller must not
    /// have signalled EOF.
    #[must_use]
    pub fn append(self, data: &[T]) -> (r: bool)
        requires
            self.buf().wf(),
            !state_is_eof(self.buf().spec_state()),
        ensures
            (*final(self.pb)).wf(),
            (*final(self.pb)).spec_state() == self.buf().spec_state(),
            (*final(self.pb)).spec_capacity() == self.buf().spec_capacity(),
            r == (data@.len() <= self.buf().free_len()),
            r ==> (*final(self.pb)).unread() == self.buf().unread() + data@,
            r ==> (*final(self.pb)).trip_math() == self.buf().trip_math() + data@.len(),
            !r ==> (*final(self.pb)).unread() == self.buf().unread(),
    {
        self.pb.append(data)
    }

    /// Test whether end-of-file has already been signalled through this
    /// buffer, by either a close or an abort.  No data may be committed
    /// after that.
    pub fn is_eof(&self) -> (r: bool)
        ensures
            r == state_is_eof(self.buf().spec_state()),
    {
        let s = self.pb.state();
        !(s == PBufState::Open || s == PBufState::Push)
    }

    /// Signal a successful end-of-file: data already buffered is the
    /// final data of the stream.  Returns `true` on the transition to
    /// `Closing`, `false` when an EOF of either kind was already
    /// signalled — the first EOF kind recorded is permanent.
    pub fn close(self) -> (r: bool)
        requires
            self.buf().wf(),
        ensures
            (*final(self.pb)).wf(),
            PipeBuf::storage_unchanged(&self.buf(), final(self.pb)),
            r == !state_is_eof(self.buf().spec_state()),
            (*final(self.pb)).spec_state() == close_transition(self.buf().spec_state()),
    {
        self.pb.close()
    }

    /// Signal a failure end-of-file: the stream ends and its data may be
    /// incomplete.  Returns `true` on the transition to `Aborting`,
    /// `false` when an EOF of either kind was already signalled — a
    /// recorded close is not downgraded.
    pub fn abort(self) -> (r: bool)
        requires
            self.buf().wf(),
        ensures
            (*final(self.pb)).wf(),
            PipeBuf::storage_unchanged(&self.buf(), final(self.pb)),
            r == !state_is_eof(self.buf().spec_state()),
            (*final(self.pb)).spec_state() == abort_transition(self.buf().spec_state()),
    {
        self.pb.abort()
    }

    /// Write data through a caller-supplied function.  The function is
    /// handed a reservation window of at most `limit` elements — fewer,
    /// possibly none, when the buffer is too full — and reports how many
    /// elements it wrote as `Ok(len)`, which are then committed; its
    /// error is returned unchanged with nothing committed.  Because the
    /// reservation and the commit happen inside one call, nothing can
    /// compact the buffer in between and invalidate the window.  The
    /// function must never report more written than the window it was
    /// given holds.
    pub fn write_with<E>(self, limit: usize, cb: impl FnOnce(&mut [T]) -> Result<usize, E>) -> (r:
        Result<usize, E>)
        requires
            self.buf().wf(),
            !state_is_eof(self.buf().spec_state()),
            forall|w: &mut [T], out: Result<usize, E>|
                #[trigger] call_ensures(cb, (w,), out) ==> final(w)@.len() == w@.len() && (out
                    matches Ok(n) ==> n <= w@.len()),
            forall|w: &mut [T]| call_requires(cb, (w,)),
        ensures
            (*final(self.pb)).wf(),
            (*final(self.pb)).spec_state() == self.buf().spec_state(),
            (*final(self.pb)).spec_capacity() == self.buf().spec_capacity(),
            match r {
                Ok(n) => {
                    &&& n <= limit
                    &&& n <= self.buf().free_len()
                    &&& (*final(self.pb)).unread().len() == self.buf().unread().len() + n
                    &&& (*final(self.pb)).unread().subrange(0, self.buf().unread().len() as int)
                        == self.buf().unread()
                    &&& (*final(self.pb)).trip_math() == self.buf().trip_math() + n
                    &&& exists|w: &mut [T]|
                        {
                            &&& #[trigger] call_ensures(cb, (w,), Ok::<usize, E>(n))
                            &&& w@.len() == (if limit <= self.buf().free_len() {
                                limit as int
                            } else {
                                self.buf().free_len()
                            })
                            &&& (*final(self.pb)).unread() == self.buf().unread()
                                + final(w)@.subrange(0, n as int)
                        }
                },
                Err(_) => (*final(self.pb)).unread() == self.buf().unread(),
            },
    {
        let buf = self.pb;
        let free = buf.free();
        let wlen = if limit < free {
            limit
        } else {
            free
        };
        let w = buf.space(wlen);
        let res = cb(w);
        match res {
            Ok(n) => {
                buf.commit(n);
                Ok(n)
            },
            Err(e) => Err(e),
        }
    }

    /// Like [`PBufWr::write_with`] for functions that cannot fail: the
    /// caller-supplied function is handed a reservation window of at
    /// most `limit` elements and returns how many it wrote, which are
    /// committed and returned.
    pub fn write_with_noerr(self, limit: usize, cb: impl FnOnce(&mut [T]) -> usize) -> (r: usize)
        requires
            self.buf().wf(),
            !state_is_eof(self.buf().spec_state()),
            forall|w: &mut [T], out: usize|
                #[trigger] call_ensures(cb, (w,), out) ==> final(w)@.len() == w@.len() && out
                    <= w@.len(),
            forall|w: &mut [T]| call_requires(cb, (w,)),
        ensures
            (*final(self.pb)).wf(),
            (*final(self.pb)).spec_state() == self.buf().spec_state(),
            (*final(self.pb)).spec_capacity() == self.buf().spec_capacity(),
            r <= limit,
            r <= self.buf().free_len(),
            (*final(self.pb)).unread().len() == self.buf().unread().len() + r,
            (*final(self.pb)).unread().subrange(0, self.buf().unread().len() as int) == self.buf().unread(),
            (*final(self.pb)).trip_math() == self.buf().trip_math() + r,
            exists|w: &mut [T]|
                {
                    &&& #[trigger] call_ensures(cb, (w,), r)
                    &&& w@.len() == (if limit <= self.buf().free_len() {
                        limit as int
                    } else {
                        self.buf().free_len()
                    })
                    &&& (*final(self.pb)).unread() == self.buf().unread() + final(w)@.subrange(
                        0,
                        r as int,
                    )
                },
    {
        let buf = self.pb;
        let free = buf.free();
        let wlen = if limit < free {
            limit
        } else {
            free
        };
        let w = buf.space(wlen);
        let n = cb(w);
        buf.commit(n);
        n
    }

    /// Logical maximum capacity of the buffer.
    pub fn capacity(&self) -> (r: usize)
        ensures
            r == self.buf().spec_capacity(),
    {
        self.pb.capacity()
    }
}

impl<T: Copy + Default> PipeBuf<T> {
    /// Get a producer handle to the buffer.
    pub fn wr(&mut self) -> (r: PBufWr<'_, T>)
        ensures
            r.buf() == *old(self),
            *final(self) == (*final(r.pb)),
    {
        PBufWr { pb: self }
    }
}

} // verus!
