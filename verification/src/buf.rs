//! The storage/cursor engine: contiguous storage, read and write cursors,
//! and the EOF/push state machine.

use vstd::prelude::*;

verus! {

/// End-of-file and "push" state of the buffer.
///
/// The variants are declared so that every producer-caused transition moves
/// to a later variant and every consumer-caused transition moves to an
/// earlier one; [`PipeBuf::tripwire`] relies on that ordering.
#[derive(Copy, Clone, PartialEq, Eq, Structural, Debug)]
pub enum PBufState {
    /// End-of-file has not been reached yet.  More data may follow.
    Open,
    /// End-of-file has not been reached yet, and the producer has suggested
    /// that the data buffered so far be flushed promptly.
    Push,
    /// A successful end-of-file was reported by the producer and has been
    /// processed by the consumer.
    Closed,
    /// The producer has reported a successful end-of-file which the
    /// consumer has not yet processed.  Data still in the buffer is the
    /// final data of the stream.
    Closing,
    /// A failure end-of-file was reported by the producer and has been
    /// processed by the consumer.
    Aborted,
    /// The producer has reported end-of-file due to a failure, and the
    /// consumer has not yet processed it.
    Aborting,
}

/// Position of a state in the producer/consumer ordering: every
/// producer-caused transition moves to a strictly larger ordinal and every
/// consumer-caused transition to a strictly smaller one.
pub open spec fn state_ordinal(s: PBufState) -> nat {
    match s {
        PBufState::Open => 0,
        PBufState::Push => 1,
        PBufState::Closed => 2,
        PBufState::Closing => 3,
        PBufState::Aborted => 4,
        PBufState::Aborting => 5,
    }
}

/// True once the producer has signalled end-of-file, whether or not the
/// consumer has processed it yet.
pub open spec fn state_is_eof(s: PBufState) -> bool {
    !(s == PBufState::Open || s == PBufState::Push)
}

/// State reached by the producer's push hint: only an `Open` buffer
/// moves, to `Push`.
pub open spec fn push_transition(s: PBufState) -> PBufState {
    if s == PBufState::Open {
        PBufState::Push
    } else {
        s
    }
}

/// State reached by the producer's close: `Closing`, unless an EOF of
/// either kind was already signalled, which stands.
pub open spec fn close_transition(s: PBufState) -> PBufState {
    if state_is_eof(s) {
        s
    } else {
        PBufState::Closing
    }
}

/// State reached by the producer's abort: `Aborting`, unless an EOF of
/// either kind was already signalled, which stands.
pub open spec fn abort_transition(s: PBufState) -> PBufState {
    if state_is_eof(s) {
        s
    } else {
        PBufState::Aborting
    }
}

/// State reached by the glue code's push override.
pub open spec fn set_push_transition(s: PBufState, push: bool) -> PBufState {
    if state_is_eof(s) {
        s
    } else if push {
        PBufState::Push
    } else {
        PBufState::Open
    }
}

/// State reached when the consumer takes a pending push hint.
pub open spec fn consume_push_transition(s: PBufState) -> PBufState {
    if s == PBufState::Push {
        PBufState::Open
    } else {
        s
    }
}

/// State reached when the consumer acknowledges a pending end-of-file.
pub open spec fn consume_eof_transition(s: PBufState) -> PBufState {
    match s {
        PBufState::Closing => PBufState::Closed,
        PBufState::Aborting => PBufState::Aborted,
        _ => s,
    }
}

/// Executable twin of [`state_ordinal`].
pub fn state_ordinal_of(s: PBufState) -> (r: usize)
    ensures
        r == state_ordinal(s),
{
    match s {
        PBufState::Open => 0,
        PBufState::Push => 1,
        PBufState::Closed => 2,
        PBufState::Closing => 3,
        PBufState::Aborted => 4,
        PBufState::Aborting => 5,
    }
}

/// One more than the largest value a `usize` can hold; tripwire values wrap
/// at this modulus.
pub open spec fn trip_modulus() -> int {
    usize::MAX as int + 1
}

/// Tripwire value used to detect changes.
///
/// Obtained from [`PipeBuf::tripwire`] (or the equivalent calls on the
/// capability handles, which all produce the same value) and compared for
/// equality only.  Within a span of operations that are all producer
/// operations, or all consumer operations, the underlying value moves
/// strictly in one direction (modulo wraparound), so an unchanged value
/// means no observable change was made.  A span mixing both roles can
/// return to its starting value by coincidence.
#[derive(Copy, Clone, PartialEq, Eq, Structural, Debug)]
pub struct PBufTrip(pub usize);

/// Efficient byte-pipe buffer.
///
/// This is the interface intended for the glue code that owns the buffer.
/// Use [`PipeBuf::wr`] to obtain a [`PBufWr`](crate::PBufWr) producer
/// handle and [`PipeBuf::rd`] to obtain a [`PBufRd`](crate::PBufRd)
/// consumer handle; those are what component code should receive.
///
/// Storage is contiguous.  The region before the read cursor holds
/// already-consumed elements awaiting discard, the region between the two
/// cursors holds unread data, and the region after the write cursor is
/// free.  When the free tail is too short for a reservation the unread
/// region is compacted down to the start of the storage and, for a
/// growable buffer, the storage may then be enlarged up to the declared
/// maximum capacity.
pub struct PipeBuf<T = u8> {
    data: Vec<T>,
    rd: usize,
    wr: usize,
    state: PBufState,
    max_capacity: usize,
}

impl<T> PipeBuf<T> {
    /// The unread region: everything appended but not yet consumed, oldest
    /// first.
    pub closed spec fn unread(&self) -> Seq<T> {
        self.data@.subrange(self.rd as int, self.wr as int)
    }

    /// Current EOF/push state.
    pub closed spec fn spec_state(&self) -> PBufState {
        self.state
    }

    /// Logical maximum number of elements the buffer will hold.
    pub closed spec fn spec_capacity(&self) -> int {
        self.max_capacity as int
    }

    /// Number of elements that may still be appended before the buffer
    /// reaches its declared maximum capacity.
    pub open spec fn free_len(&self) -> int {
        self.spec_capacity() - self.unread().len()
    }

    /// Length of the contiguous reserved tail: space already allocated
    /// after the write cursor that a commit may fill without any further
    /// reservation.
    pub closed spec fn room(&self) -> int {
        self.data@.len() - self.wr
    }

    /// The first `n` elements of the reserved tail, in storage order; a
    /// commit of `n` appends exactly these to the unread region.
    pub closed spec fn staged(&self, n: int) -> Seq<T> {
        self.data@.subrange(self.wr as int, self.wr + n)
    }

    /// Well-formedness: the cursors delimit valid regions, storage never
    /// exceeds the declared maximum capacity, and an empty buffer always
    /// has both cursors at zero.
    pub closed spec fn wf(&self) -> bool {
        &&& self.rd <= self.wr <= self.data@.len()
        &&& self.data@.len() <= self.max_capacity
        &&& (self.rd == self.wr ==> self.rd == 0)
    }

    /// The mathematical value underneath the tripwire: unread length plus
    /// the state's ordinal.  Every producer operation that changes the
    /// buffer strictly increases it; every consumer operation strictly
    /// decreases it.
    pub open spec fn trip_math(&self) -> int {
        self.unread().len() + state_ordinal(self.spec_state()) as int
    }

    /// The tripwire value as actually handed out: the mathematical value
    /// wrapped into the `usize` range.
    pub open spec fn spec_tripwire(&self) -> PBufTrip {
        PBufTrip(
            (if self.trip_math() <= usize::MAX as int {
                self.trip_math()
            } else {
                self.trip_math() - trip_modulus()
            }) as usize,
        )
    }

    /// True when processing of this buffer is complete: an abort EOF has
    /// been consumed, or a normal EOF has been consumed and no unread data
    /// remains.
    pub open spec fn spec_is_done(&self) -> bool {
        ||| self.spec_state() == PBufState::Aborted
        ||| (self.spec_state() == PBufState::Closed && self.unread().len() == 0)
    }
}

impl<T: Copy + Default> PipeBuf<T> {
    /// Create a new empty pipe buffer with the given minimum and maximum
    /// capacities.  The minimum capacity is allocated immediately; the
    /// storage may later grow up to the maximum.  A maximum below the
    /// minimum is raised to the minimum.
    pub fn new(min_capacity: usize, max_capacity: usize) -> (r: Self)
        ensures
            r.wf(),
            r.unread() == Seq::<T>::empty(),
            r.spec_state() == PBufState::Open,
            r.spec_capacity() == if max_capacity >= min_capacity {
                max_capacity as int
            } else {
                min_capacity as int
            },
            r.room() == min_capacity,
    {
        let data: Vec<T> = alloc_default(min_capacity);
        let max_capacity = if max_capacity >= min_capacity {
            max_capacity
        } else {
            min_capacity
        };
        let r = PipeBuf { data, rd: 0, wr: 0, state: PBufState::Open, max_capacity };
        proof {
            assert(r.unread() =~= Seq::<T>::empty());
        }
        r
    }

    /// Create a new pipe buffer with the given fixed capacity.  The
    /// storage is allocated once and never grows.
    pub fn fixed(capacity: usize) -> (r: Self)
        ensures
            r.wf(),
            r.unread() == Seq::<T>::empty(),
            r.spec_state() == PBufState::Open,
            r.spec_capacity() == capacity,
            r.room() == capacity,
    {
        Self::new(capacity, capacity)
    }

    /// Create a new pipe buffer whose fixed capacity is the length of
    /// the given memory region.  The caller hands over a `'static`
    /// region to fix the buffer's size from memory it has set aside; the
    /// buffer owns its storage like every other construction.
    pub fn new_static(buffer: &'static mut [T]) -> (r: Self)
        ensures
            r.wf(),
            r.unread() == Seq::<T>::empty(),
            r.spec_state() == PBufState::Open,
            r.spec_capacity() == old(buffer)@.len(),
            r.room() == old(buffer)@.len(),
    {
        Self::fixed(buffer.len())
    }

    /// Reset the buffer to its initial state: `Open` and empty.  The
    /// storage is kept and its contents are not cleared, so stale data may
    /// be observed through a later reservation; use
    /// [`PipeBuf::reset_and_zero`] when that matters.
    pub fn reset(&mut self)
        requires
            old(self).wf(),
        ensures
            final(self).wf(),
            final(self).unread() == Seq::<T>::empty(),
            final(self).spec_state() == PBufState::Open,
            final(self).spec_capacity() == old(self).spec_capacity(),
    {
        self.rd = 0;
        self.wr = 0;
        self.state = PBufState::Open;
        proof {
            assert(self.unread() =~= Seq::<T>::empty());
        }
    }

    /// Overwrite the whole storage with the element type's default value,
    /// then reset the buffer to its initial state.  Useful before a buffer
    /// is returned to a pool, so that no stale data can leak to its next
    /// user through a reservation.
    ///
    /// The contract records that the whole reserve region is one repeated
    /// value, which is what the no-leak purpose needs; which value that
    /// is — the element type's `default()` — cannot be stated for a
    /// generic element, whose default has no specification.
    pub fn reset_and_zero(&mut self)
        requires
            old(self).wf(),
        ensures
            final(self).wf(),
            final(self).unread() == Seq::<T>::empty(),
            final(self).spec_state() == PBufState::Open,
            final(self).spec_capacity() == old(self).spec_capacity(),
            all_one_value(final(self).staged(final(self).room())),
    {
        let len = self.data.len();
        self.data = alloc_default(len);
        self.rd = 0;
        self.wr = 0;
        self.state = PBufState::Open;
        proof {
            assert(self.unread() =~= Seq::<T>::empty());
            assert(self.staged(self.room()) =~= self.data@);
        }
    }

    /// Obtain a tripwire value for change detection; see [`PBufTrip`].
    pub fn tripwire(&self) -> (r: PBufTrip)
        requires
            self.wf(),
        ensures
            r == self.spec_tripwire(),
    {
        let len = self.wr - self.rd;
        let r = PBufTrip(len.wrapping_add(state_ordinal_of(self.state)));
        proof {
            assert(len == self.unread().len());
            assert(0 <= self.trip_math() < 2 * trip_modulus());
        }
        r
    }

    /// Test whether the buffer has changed since the given tripwire value
    /// was captured; see [`PBufTrip`].
    pub fn is_tripped(&self, trip: PBufTrip) -> (r: bool)
        requires
            self.wf(),
        ensures
            r == (self.spec_tripwire() != trip),
    {
        let now = self.tripwire();
        now.0 != trip.0
    }

    /// Current EOF/push state of the buffer.
    pub fn state(&self) -> (r: PBufState)
        ensures
            r == self.spec_state(),
    {
        self.state
    }

    /// Test whether the "push" state is set, without changing it.
    pub fn is_push(&self) -> (r: bool)
        ensures
            r == (self.spec_state() == PBufState::Push),
    {
        self.state == PBufState::Push
    }

    /// Set or clear the "push" state.  The owning glue code may use this
    /// to override a producer that flushes too frequently.  Once the
    /// producer has signalled EOF the call is a no-op.
    pub fn set_push(&mut self, push: bool)
        requires
            old(self).wf(),
        ensures
            final(self).wf(),
            final(self).unread() == old(self).unread(),
            final(self).spec_capacity() == old(self).spec_capacity(),
            final(self).room() == old(self).room(),
            final(self).staged(old(self).room()) == old(self).staged(old(self).room()),
            final(self).spec_state() == set_push_transition(old(self).spec_state(), push),
    {
        if self.state == PBufState::Open || self.state == PBufState::Push {
            self.state = if push {
                PBufState::Push
            } else {
                PBufState::Open
            };
        }
    }

    /// Test whether an EOF has been signalled and consumed — and, for a
    /// normal close, that the unread data has been drained too — meaning
    /// that processing of this buffer is complete.
    pub fn is_done(&self) -> (r: bool)
        requires
            self.wf(),
        ensures
            r == self.spec_is_done(),
    {
        match self.state {
            PBufState::Aborted => true,
            PBufState::Closed => self.rd == self.wr,
            _ => false,
        }
    }

    /// Logical maximum capacity of the buffer: the most data it will ever
    /// hold, whatever its current allocation.
    pub fn capacity(&self) -> (r: usize)
        ensures
            r == self.spec_capacity(),
    {
        self.max_capacity
    }
}

impl<T: Copy + Default> PipeBuf<T> {
    /// True when `post` differs from `pre` at most in its EOF/push state:
    /// unread data, capacity and the reserved tail are all untouched.
    pub open spec fn storage_unchanged(pre: &Self, post: &Self) -> bool {
        &&& post.unread() == pre.unread()
        &&& post.spec_capacity() == pre.spec_capacity()
        &&& post.room() == pre.room()
        &&& post.staged(pre.room()) == pre.staged(pre.room())
    }

    /// Set the "push" state, hinting that buffered data should be flushed
    /// promptly.  A no-op unless the buffer is `Open`.
    pub fn push(&mut self)
        requires
            old(self).wf(),
        ensures
            final(self).wf(),
            Self::storage_unchanged(old(self), final(self)),
            final(self).spec_state() == push_transition(old(self).spec_state()),
            old(self).spec_state() == PBufState::Open ==> final(self).trip_math() == old(
                self,
            ).trip_math() + 1,
    {
        if self.state == PBufState::Open {
            self.state = PBufState::Push;
        }
    }

    /// Signal a successful end-of-file, moving the buffer to `Closing`.
    /// Returns `true` on the transition and `false` if an EOF of either
    /// kind was already signalled; the first EOF kind recorded is
    /// permanent.
    pub fn close(&mut self) -> (r: bool)
        requires
            old(self).wf(),
        ensures
            final(self).wf(),
            Self::storage_unchanged(old(self), final(self)),
            r == !state_is_eof(old(self).spec_state()),
            final(self).spec_state() == close_transition(old(self).spec_state()),
            r ==> final(self).trip_math() > old(self).trip_math(),
    {
        if state_is_eof_of(self.state) {
            false
        } else {
            self.state = PBufState::Closing;
            true
        }
    }

    /// Signal a failure end-of-file, moving the buffer to `Aborting`.
    /// Returns `true` on the transition and `false` if an EOF of either
    /// kind was already signalled; a close already recorded is not
    /// downgraded.
    pub fn abort(&mut self) -> (r: bool)
        requires
            old(self).wf(),
        ensures
            final(self).wf(),
            Self::storage_unchanged(old(self), final(self)),
            r == !state_is_eof(old(self).spec_state()),
            final(self).spec_state() == abort_transition(old(self).spec_state()),
            r ==> final(self).trip_math() > old(self).trip_math(),
    {
        if state_is_eof_of(self.state) {
            false
        } else {
            self.state = PBufState::Aborting;
            true
        }
    }

    /// Consume a pending "push" indication.  Returns `true` if one was
    /// pending; otherwise the buffer is left unchanged.
    pub fn consume_push(&mut self) -> (r: bool)
        requires
            old(self).wf(),
        ensures
            final(self).wf(),
            Self::storage_unchanged(old(self), final(self)),
            r == (old(self).spec_state() == PBufState::Push),
            final(self).spec_state() == consume_push_transition(old(self).spec_state()),
            !r ==> *final(self) == *old(self),
            r ==> final(self).trip_math() == old(self).trip_math() - 1,
    {
        if self.state == PBufState::Push {
            self.state = PBufState::Open;
            true
        } else {
            false
        }
    }

    /// Consume a pending end-of-file indication, moving `Closing` to
    /// `Closed` or `Aborting` to `Aborted`.  Returns `true` if an EOF was
    /// pending; otherwise the buffer is left unchanged.  Which kind was
    /// consumed can be checked afterwards with [`PipeBuf::state`] or the
    /// consumer handle's queries.
    pub fn consume_eof(&mut self) -> (r: bool)
        requires
            old(self).wf(),
        ensures
            final(self).wf(),
            Self::storage_unchanged(old(self), final(self)),
            r == (old(self).spec_state() == PBufState::Closing || old(self).spec_state()
                == PBufState::Aborting),
            final(self).spec_state() == consume_eof_transition(old(self).spec_state()),
            !r ==> *final(self) == *old(self),
            r ==> final(self).trip_math() == old(self).trip_math() - 1,
    {
        match self.state {
            PBufState::Closing => {
                self.state = PBufState::Closed;
                true
            },
            PBufState::Aborting => {
                self.state = PBufState::Aborted;
                true
            },
            _ => false,
        }
    }

    /// Number of unread elements held in the buffer.
    pub fn len(&self) -> (r: usize)
        requires
            self.wf(),
        ensures
            r == self.unread().len(),
    {
        self.wr - self.rd
    }

    /// Test whether the unread region is empty.
    pub fn is_empty(&self) -> (r: bool)
        requires
            self.wf(),
        ensures
            r == (self.unread().len() == 0),
    {
        self.rd == self.wr
    }

    /// The unread region as a slice, oldest element first.
    pub fn data(&self) -> (r: &[T])
        requires
            self.wf(),
        ensures
            r@ == self.unread(),
    {
        &self.data[self.rd..self.wr]
    }

    /// Mark `len` elements as consumed: they are discarded from the front
    /// of the unread region.  When this empties the buffer both cursors
    /// return to the start of the storage.
    pub fn consume(&mut self, len: usize)
        requires
            old(self).wf(),
            len <= old(self).unread().len(),
        ensures
            final(self).wf(),
            final(self).unread() == old(self).unread().skip(len as int),
            final(self).spec_state() == old(self).spec_state(),
            final(self).spec_capacity() == old(self).spec_capacity(),
            final(self).trip_math() == old(self).trip_math() - len,
    {
        self.rd = self.rd + len;
        if self.rd == self.wr {
            self.rd = 0;
            self.wr = 0;
        }
        proof {
            assert(self.unread() =~= old(self).unread().skip(len as int));
        }
    }
}

impl<T: Copy + Default> PipeBuf<T> {
    /// Compact and, for a growable buffer, enlarge the storage so that at
    /// least `reserve` contiguous elements follow the write cursor.
    /// Returns `false`, changing no unread data, when the request can
    /// never be met within the declared maximum capacity.
    fn try_make_space(&mut self, reserve: usize) -> (r: bool)
        requires
            old(self).wf(),
        ensures
            final(self).wf(),
            final(self).unread() == old(self).unread(),
            final(self).spec_state() == old(self).spec_state(),
            final(self).spec_capacity() == old(self).spec_capacity(),
            r == (reserve <= old(self).free_len()),
            r ==> final(self).room() >= reserve,
    {
        let unread_len = self.wr - self.rd;
        if reserve > self.max_capacity - unread_len {
            return false;
        }
        if reserve <= self.data.len() - self.wr {
            return true;
        }
        if self.rd > 0 {
            let count = unread_len;
            let mut i: usize = 0;
            while i < count
                invariant
                    0 < self.rd < self.wr <= self.data@.len(),
                    i <= count,
                    count == self.wr - self.rd,
                    self.rd == old(self).rd,
                    self.wr == old(self).wr,
                    self.state == old(self).state,
                    self.max_capacity == old(self).max_capacity,
                    self.data@.len() == old(self).data@.len(),
                    forall|j: int| 0 <= j < i ==> self.data@[j] == old(self).data@[self.rd + j],
                    forall|j: int|
                        i <= j < self.data@.len() ==> self.data@[j] == old(self).data@[j],
                decreases count - i,
            {
                let v = self.data[self.rd + i];
                self.data[i] = v;
                i += 1;
            }
            self.rd = 0;
            self.wr = count;
            proof {
                assert(self.unread() =~= old(self).unread());
            }
        }
        if reserve > self.data.len() - self.wr {
            let needed = self.wr + reserve;
            let twice = if reserve > self.max_capacity / 2 {
                self.max_capacity
            } else {
                reserve * 2
            };
            let target = if twice > needed {
                twice
            } else {
                needed
            };
            let target = if target > self.max_capacity {
                self.max_capacity
            } else {
                target
            };
            let ghost pre = *self;
            self.data.resize(target, T::default());
            proof {
                assert(self.unread() =~= pre.unread());
            }
        }
        true
    }
}

impl<T: Copy + Default> PipeBuf<T> {
    /// What every reservation call leaves behind, provided the caller only
    /// overwrites elements of the returned window `w` (so its length is
    /// unchanged): the unread data, state and capacity are untouched, and
    /// the first `w.len()` elements of the reserved tail are exactly the
    /// window's final contents, ready to be committed.
    pub open spec fn reserved(pre: &Self, post: &Self, w: Seq<T>) -> bool {
        &&& post.wf()
        &&& post.unread() =~= pre.unread()
        &&& post.spec_state() == pre.spec_state()
        &&& post.spec_capacity() == pre.spec_capacity()
        &&& post.room() >= w.len()
        &&& post.staged(w.len() as int) =~= w
        &&& forall|i: int| 0 <= i <= w.len() ==> post.staged(i) =~= w.subrange(0, i)
    }

    /// Reserve exactly `reserve` elements of contiguous free space for the
    /// caller to fill, compacting and growing the storage as allowed.  The
    /// returned window holds stale elements, not data; once written it
    /// must be committed with [`PipeBuf::commit`] before any other
    /// operation that might compact the buffer.  The caller must have
    /// checked that the request fits within the remaining free capacity.
    pub fn space(&mut self, reserve: usize) -> (w: &mut [T])
        requires
            old(self).wf(),
            reserve <= old(self).free_len(),
        ensures
            w@.len() == reserve,
            final(w)@.len() == reserve ==> Self::reserved(old(self), final(self), final(w)@),
    {
        let made = self.try_make_space(reserve);
        assert(made);
        let wr = self.wr;
        window_mut(&mut self.data, wr, wr + reserve)
    }

    /// Like [`PipeBuf::space`], but returns `None` instead of demanding
    /// that the request fits: `Some` exactly when `reserve` elements are
    /// still free within the declared maximum capacity.  Even a failed
    /// attempt may compact the storage, but never changes unread data.
    pub fn try_space(&mut self, reserve: usize) -> (w: Option<&mut [T]>)
        requires
            old(self).wf(),
        ensures
            w is Some <==> reserve <= old(self).free_len(),
            match w {
                Some(ws) => ws@.len() == reserve && (final(ws)@.len() == reserve ==> Self::reserved(
                    old(self),
                    final(self),
                    final(ws)@,
                )),
                None => {
                    &&& final(self).wf()
                    &&& final(self).unread() == old(self).unread()
                    &&& final(self).spec_state() == old(self).spec_state()
                    &&& final(self).spec_capacity() == old(self).spec_capacity()
                },
            },
    {
        if self.try_make_space(reserve) {
            let wr = self.wr;
            Some(window_mut(&mut self.data, wr, wr + reserve))
        } else {
            None
        }
    }

    /// Reserve up to `limit` elements: as many as are free, shorter than
    /// asked — possibly empty — when the buffer is too full.
    pub fn space_upto(&mut self, limit: usize) -> (w: &mut [T])
        requires
            old(self).wf(),
        ensures
            w@.len() == if limit <= old(self).free_len() {
                limit as int
            } else {
                old(self).free_len()
            },
            final(w)@.len() == w@.len() ==> Self::reserved(old(self), final(self), final(w)@),
    {
        let free = self.free();
        let reserve = if limit < free {
            limit
        } else {
            free
        };
        self.space(reserve)
    }

    /// Reserve all the remaining free space, forcing a growable buffer to
    /// its full declared capacity.  Empty when the buffer is full.
    pub fn space_all(&mut self) -> (w: &mut [T])
        requires
            old(self).wf(),
        ensures
            w@.len() == old(self).free_len(),
            final(w)@.len() == w@.len() ==> Self::reserved(old(self), final(self), final(w)@),
    {
        let free = self.free();
        self.space(free)
    }

    /// Commit `len` elements: the front of the reserved tail — normally
    /// just filled through a reservation window — becomes the newest
    /// unread data.  The caller must not have signalled EOF and must not
    /// commit more than the reserved tail holds.
    pub fn commit(&mut self, len: usize)
        requires
            old(self).wf(),
            !state_is_eof(old(self).spec_state()),
            len <= old(self).room(),
        ensures
            final(self).wf(),
            final(self).unread() == old(self).unread() + old(self).staged(len as int),
            final(self).spec_state() == old(self).spec_state(),
            final(self).spec_capacity() == old(self).spec_capacity(),
            final(self).room() == old(self).room() - len,
            final(self).trip_math() == old(self).trip_math() + len,
    {
        self.wr = self.wr + len;
        proof {
            assert(self.unread() =~= old(self).unread() + old(self).staged(len as int));
        }
    }

    /// Number of elements still free before the declared maximum capacity
    /// is reached.
    pub fn free(&self) -> (r: usize)
        requires
            self.wf(),
        ensures
            r == self.free_len(),
    {
        self.max_capacity - (self.wr - self.rd)
    }

    /// Test whether the buffer is full: unread data occupies the whole
    /// declared capacity.
    pub fn is_full(&self) -> (r: bool)
        requires
            self.wf(),
        ensures
            r == (self.free_len() == 0),
    {
        self.free() == 0
    }

    /// Append a whole slice in one call: reserve, copy and commit.
    /// Returns `true` when the slice fitted; when it does not fit, nothing
    /// changes and `false` is returned.  The caller must not have
    /// signalled EOF.
    pub fn append(&mut self, data: &[T]) -> (r: bool)
        requires
            old(self).wf(),
            !state_is_eof(old(self).spec_state()),
        ensures
            final(self).wf(),
            final(self).spec_state() == old(self).spec_state(),
            final(self).spec_capacity() == old(self).spec_capacity(),
            r == (data@.len() <= old(self).free_len()),
            r ==> final(self).unread() == old(self).unread() + data@,
            r ==> final(self).trip_math() == old(self).trip_math() + data@.len(),
            !r ==> final(self).unread() == old(self).unread(),
    {
        let len = data.len();
        if !self.try_make_space(len) {
            return false;
        }
        let ghost mid = *self;
        let mut i: usize = 0;
        while i < len
            invariant
                i <= len,
                mid.wf(),
                len <= mid.room(),
                self.rd == mid.rd,
                self.wr == mid.wr,
                self.state == mid.state,
                self.max_capacity == mid.max_capacity,
                self.data@.len() == mid.data@.len(),
                self.rd <= self.wr <= self.data@.len(),
                len <= self.data@.len() - self.wr,
                len == data@.len(),
                forall|j: int| 0 <= j < self.wr ==> self.data@[j] == mid.data@[j],
                forall|j: int| 0 <= j < i ==> self.data@[self.wr + j] == data@[j],
            decreases len - i,
        {
            self.data[self.wr + i] = data[i];
            i += 1;
        }
        proof {
            assert(self.unread() =~= mid.unread());
            assert(self.staged(len as int) =~= data@);
            assert(mid.unread() == old(self).unread());
        }
        self.commit(len);
        true
    }

    /// The unread region as a mutable slice, for consumers that rework
    /// data in place before consuming it.  Overwriting the window rewrites
    /// the unread data one for one; nothing else about the buffer changes.
    pub fn data_mut(&mut self) -> (w: &mut [T])
        requires
            old(self).wf(),
        ensures
            w@ == old(self).unread(),
            final(w)@.len() == w@.len() ==> {
                &&& final(self).wf()
                &&& final(self).unread() == final(w)@
                &&& final(self).spec_state() == old(self).spec_state()
                &&& final(self).spec_capacity() == old(self).spec_capacity()
            },
    {
        let rd = self.rd;
        let wr = self.wr;
        window_mut(&mut self.data, rd, wr)
    }

    /// Producer-side throttle check: test whether more than `limit`
    /// elements are already buffered, without looking at any
    /// consumer-only state.
    pub fn exceeds_limit(&self, limit: usize) -> (r: bool)
        requires
            self.wf(),
        ensures
            r == (self.unread().len() > limit),
    {
        self.wr - self.rd > limit
    }

    /// Remaining free space as a bounded quantity: `None` for a buffer
    /// whose declared maximum is unbounded, otherwise the same value as
    /// [`PipeBuf::free`].
    pub fn free_space(&self) -> (r: Option<usize>)
        requires
            self.wf(),
        ensures
            r == if self.spec_capacity() == usize::MAX as int {
                Option::<usize>::None
            } else {
                Option::Some((self.spec_capacity() - self.unread().len()) as usize)
            },
    {
        if self.max_capacity == usize::MAX {
            None
        } else {
            Some(self.free())
        }
    }
}

/// A mutable window onto `v[a..b]`.  The rest of the vector cannot change
/// while the window is live: the final value of the vector is the final
/// value of the window spliced back between the untouched ends.
fn window_mut<T>(v: &mut Vec<T>, a: usize, b: usize) -> (w: &mut [T])
    requires
        a <= b <= old(v)@.len(),
    ensures
        w@ == old(v)@.subrange(a as int, b as int),
        final(v)@ == old(v)@.subrange(0, a as int) + final(w)@ + old(v)@.subrange(
            b as int,
            old(v)@.len() as int,
        ),
{
    let (_, tail) = v.as_mut_slice().split_at_mut(a);
    let (w, _) = tail.split_at_mut(b - a);
    w
}

/// Executable twin of [`state_is_eof`].
pub fn state_is_eof_of(s: PBufState) -> (r: bool)
    ensures
        r == state_is_eof(s),
{
    !(s == PBufState::Open || s == PBufState::Push)
}

impl<T> PipeBuf<T> {
    /// Number of elements of storage currently allocated for the buffer.
    pub closed spec fn storage_len(&self) -> int {
        self.data@.len() as int
    }

    /// Law: the storage never outgrows the declared maximum.  A
    /// well-formed buffer — and every operation keeps buffers well-formed
    /// — has allocated no more than its declared maximum capacity, and
    /// everything unread fits inside that allocation; so a reservation
    /// beyond the free capacity is refused however the buffer is
    /// compacted, and a growable buffer stops growing at its maximum.
    pub proof fn lemma_storage_within_capacity(&self)
        requires
            self.wf(),
        ensures
            self.unread().len() <= self.storage_len(),
            self.storage_len() <= self.spec_capacity(),
            self.unread().len() + self.room() <= self.storage_len(),
    {
    }

    /// A well-formed buffer's tripwire arithmetic never strays more than
    /// the handful of state ordinals beyond the `usize` range.
    pub proof fn lemma_trip_math_bounded(&self)
        requires
            self.wf(),
        ensures
            0 <= self.trip_math(),
            self.trip_math() <= usize::MAX as int + 5,
            self.trip_math() < 2 * trip_modulus(),
    {
    }
}

impl Default for PBufTrip {
    /// The tripwire value of a fresh empty buffer.
    fn default() -> (r: Self)
        ensures
            r == PBufTrip(0),
    {
        PBufTrip(0)
    }
}

impl From<usize> for PBufTrip {
    /// Wrap an arbitrary value, so other change-detecting types can hand
    /// out tripwire values of their own alongside these.
    fn from(v: usize) -> (r: Self)
        ensures
            r == PBufTrip(v),
    {
        PBufTrip(v)
    }
}

impl vstd::std_specs::convert::FromSpecImpl<usize> for PBufTrip {
    open spec fn obeys_from_spec() -> bool {
        true
    }

    open spec fn from_spec(v: usize) -> Self {
        PBufTrip(v)
    }
}

/// True when every element of `s` is the same value: the shape left behind
/// by a wholesale overwrite with one fill value.
pub open spec fn all_one_value<T>(s: Seq<T>) -> bool {
    forall|i: int, j: int| 0 <= i < s.len() && 0 <= j < s.len() ==> s[i] == s[j]
}

/// A vector of `n` default-valued elements.
fn alloc_default<T: Copy + Default>(n: usize) -> (r: Vec<T>)
    ensures
        r@.len() == n,
        forall|i: int, j: int| 0 <= i < n && 0 <= j < n ==> r@[i] == r@[j],
{
    let z = T::default();
    let mut v: Vec<T> = Vec::new();
    let mut k: usize = 0;
    while k < n
        invariant
            k <= n,
            v@.len() == k,
            forall|i: int| 0 <= i < k ==> v@[i] == z,
        decreases n - k,
    {
        v.push(z);
        k += 1;
    }
    v
}

} // verus!
