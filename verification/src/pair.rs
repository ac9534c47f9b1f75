//! A bidirectional pipe: two independent buffers, one per direction,
//! with paired capability accessors for either end.

use vstd::prelude::*;

use crate::buf::PBufState;
use crate::buf::PBufTrip;
use crate::buf::PipeBuf;
use crate::rd::PBufRd;
use crate::wr::PBufWr;

verus! {

/// A bidirectional pipe made up of two pipe buffers.
///
/// Like the two halves of a TCP stream, the directions are fully
/// independent and are closed independently.  The two ends are named
/// "upper" and "lower" — or, equivalently, "left" and "right" — and each
/// end's accessor yields a consumer handle for its incoming buffer
/// together with a producer handle for its outgoing one.
pub struct PipeBufPair<T = u8> {
    /// Downwards-flowing pipe: written by the upper end, read by the
    /// lower end.
    pub down: PipeBuf<T>,
    /// Upwards-flowing pipe: written by the lower end, read by the upper
    /// end.
    pub up: PipeBuf<T>,
}

/// Pair of consumer and producer handles for one end of a
/// [`PipeBufPair`]; created by [`PipeBufPair::upper`],
/// [`PipeBufPair::lower`] or their left/right synonyms.
pub struct PBufRdWr<'a, T = u8> {
    /// Consumer handle for the incoming pipe.
    pub rd: PBufRd<'a, T>,
    /// Producer handle for the outgoing pipe.
    pub wr: PBufWr<'a, T>,
}

impl<T: Copy + Default> PipeBufPair<T> {
    /// Both buffers well-formed.
    pub open spec fn wf(&self) -> bool {
        self.down.wf() && self.up.wf()
    }

    /// Create a new bidirectional pipe with the given minimum and
    /// maximum capacities in each direction.
    pub fn new(
        down_cap_min: usize,
        down_cap_max: usize,
        up_cap_min: usize,
        up_cap_max: usize,
    ) -> (r: Self)
        ensures
            r.wf(),
            r.down.unread() == Seq::<T>::empty(),
            r.up.unread() == Seq::<T>::empty(),
            r.down.spec_state() == PBufState::Open,
            r.up.spec_state() == PBufState::Open,
            r.down.spec_capacity() == if down_cap_max >= down_cap_min {
                down_cap_max as int
            } else {
                down_cap_min as int
            },
            r.up.spec_capacity() == if up_cap_max >= up_cap_min {
                up_cap_max as int
            } else {
                up_cap_min as int
            },
    {
        PipeBufPair {
            down: PipeBuf::new(down_cap_min, down_cap_max),
            up: PipeBuf::new(up_cap_min, up_cap_max),
        }
    }

    /// Create a new bidirectional pipe with the given fixed capacities
    /// in the two directions.
    pub fn fixed(down_cap: usize, up_cap: usize) -> (r: Self)
        ensures
            r.wf(),
            r.down.unread() == Seq::<T>::empty(),
            r.up.unread() == Seq::<T>::empty(),
            r.down.spec_state() == PBufState::Open,
            r.up.spec_state() == PBufState::Open,
            r.down.spec_capacity() == down_cap,
            r.up.spec_capacity() == up_cap,
    {
        PipeBufPair { down: PipeBuf::fixed(down_cap), up: PipeBuf::fixed(up_cap) }
    }

    /// Create a new bidirectional pipe whose fixed capacities are the
    /// lengths of the two given memory regions; see
    /// [`PipeBuf::new_static`].
    pub fn new_static(down_buf: &'static mut [T], up_buf: &'static mut [T]) -> (r: Self)
        ensures
            r.wf(),
            r.down.unread() == Seq::<T>::empty(),
            r.up.unread() == Seq::<T>::empty(),
            r.down.spec_state() == PBufState::Open,
            r.up.spec_state() == PBufState::Open,
            r.down.spec_capacity() == old(down_buf)@.len(),
            r.up.spec_capacity() == old(up_buf)@.len(),
    {
        PipeBufPair { down: PipeBuf::new_static(down_buf), up: PipeBuf::new_static(up_buf) }
    }

    /// The handles for working the stream from the "upper" end: read
    /// what flows up, write what flows down.
    pub fn upper(&mut self) -> (r: PBufRdWr<'_, T>)
        ensures
            r.rd.buf() == old(self).up,
            r.wr.buf() == old(self).down,
            final(self).up == (*final(r.rd.pb)),
            final(self).down == (*final(r.wr.pb)),
    {
        PBufRdWr { rd: PBufRd { pb: &mut self.up }, wr: PBufWr { pb: &mut self.down } }
    }

    /// The handles for working the stream from the "lower" end: read
    /// what flows down, write what flows up.
    pub fn lower(&mut self) -> (r: PBufRdWr<'_, T>)
        ensures
            r.rd.buf() == old(self).down,
            r.wr.buf() == old(self).up,
            final(self).down == (*final(r.rd.pb)),
            final(self).up == (*final(r.wr.pb)),
    {
        PBufRdWr { rd: PBufRd { pb: &mut self.down }, wr: PBufWr { pb: &mut self.up } }
    }

    /// Synonym for [`PipeBufPair::upper`], for code that reads better
    /// with left/right naming.
    pub fn left(&mut self) -> (r: PBufRdWr<'_, T>)
        ensures
            r.rd.buf() == old(self).up,
            r.wr.buf() == old(self).down,
            final(self).up == (*final(r.rd.pb)),
            final(self).down == (*final(r.wr.pb)),
    {
        self.upper()
    }

    /// Synonym for [`PipeBufPair::lower`], for code that reads better
    /// with left/right naming.
    pub fn right(&mut self) -> (r: PBufRdWr<'_, T>)
        ensures
            r.rd.buf() == old(self).down,
            r.wr.buf() == old(self).up,
            final(self).down == (*final(r.rd.pb)),
            final(self).up == (*final(r.wr.pb)),
    {
        self.lower()
    }

    /// Reset both buffers to their initial state: `Open` and empty,
    /// storage contents kept.
    pub fn reset(&mut self)
        requires
            old(self).wf(),
        ensures
            final(self).wf(),
            final(self).down.unread() == Seq::<T>::empty(),
            final(self).up.unread() == Seq::<T>::empty(),
            final(self).down.spec_state() == PBufState::Open,
            final(self).up.spec_state() == PBufState::Open,
            final(self).down.spec_capacity() == old(self).down.spec_capacity(),
            final(self).up.spec_capacity() == old(self).up.spec_capacity(),
    {
        self.down.reset();
        self.up.reset();
    }

    /// Overwrite both storages with the element type's default value and
    /// reset both buffers, so no stale data can leak to the pipe's next
    /// user.
    pub fn reset_and_zero(&mut self)
        requires
            old(self).wf(),
        ensures
            final(self).wf(),
            final(self).down.unread() == Seq::<T>::empty(),
            final(self).up.unread() == Seq::<T>::empty(),
            final(self).down.spec_state() == PBufState::Open,
            final(self).up.spec_state() == PBufState::Open,
            final(self).down.spec_capacity() == old(self).down.spec_capacity(),
            final(self).up.spec_capacity() == old(self).up.spec_capacity(),
    {
        self.down.reset_and_zero();
        self.up.reset_and_zero();
    }

    /// Tripwire values for the two buffers, `down` first; see
    /// [`PBufTrip`].
    pub fn tripwire(&self) -> (r: (PBufTrip, PBufTrip))
        requires
            self.wf(),
        ensures
            r.0 == self.down.spec_tripwire(),
            r.1 == self.up.spec_tripwire(),
    {
        (self.down.tripwire(), self.up.tripwire())
    }
}

impl<'a, T: Copy + Default> PBufRdWr<'a, T> {
    /// Create new handles from these, reborrowing them: the originals
    /// are inaccessible until the returned handles are dropped.
    pub fn reborrow<'r>(&'r mut self) -> (r: PBufRdWr<'r, T>)
        ensures
            r.rd.buf() == old(self).rd.buf(),
            r.wr.buf() == old(self).wr.buf(),
            final(self).rd.buf() == (*final(r.rd.pb)),
            final(self).wr.buf() == (*final(r.wr.pb)),
            *final(final(self).rd.pb) == *final(old(self).rd.pb),
            *final(final(self).wr.pb) == *final(old(self).wr.pb),
    {
        PBufRdWr { rd: self.rd.reborrow(), wr: self.wr.reborrow() }
    }

    /// Tripwire values for the incoming and outgoing buffers, `rd`
    /// first; see [`PBufTrip`].
    pub fn tripwire(&self) -> (r: (PBufTrip, PBufTrip))
        requires
            self.rd.buf().wf(),
            self.wr.buf().wf(),
        ensures
            r.0 == self.rd.buf().spec_tripwire(),
            r.1 == self.wr.buf().spec_tripwire(),
    {
        (self.rd.tripwire(), self.wr.tripwire())
    }
}

impl<T: Copy + Default> Default for PipeBufPair<T> {
    /// An unbounded growable pipe in each direction, starting with no
    /// storage allocated.
    fn default() -> (r: Self)
        ensures
            r.wf(),
            r.down.unread() == Seq::<T>::empty(),
            r.up.unread() == Seq::<T>::empty(),
            r.down.spec_state() == PBufState::Open,
            r.up.spec_state() == PBufState::Open,
            r.down.spec_capacity() == usize::MAX as int,
            r.up.spec_capacity() == usize::MAX as int,
    {
        PipeBufPair { down: PipeBuf::new(0, usize::MAX), up: PipeBuf::new(0, usize::MAX) }
    }
}

} // verus!
