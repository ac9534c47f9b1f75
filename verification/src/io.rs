//! Byte-stream adapters: moving data between a [`PipeBuf`] and the
//! standard library's reader and writer traits.
//!
//! The calls into `std::io` stand behind trusted wrappers; everything
//! around them — what is copied, consumed, committed and how the EOF
//! state moves — is verified.

use vstd::prelude::*;

use crate::buf::consume_push_transition;
use crate::buf::PipeBuf;
use crate::buf::push_transition;
use crate::buf::state_is_eof;
use crate::buf::state_is_eof_of;
use crate::buf::PBufState;
use crate::rd::PBufRd;
use crate::wr::PBufWr;

verus! {

#[verifier::external_type_specification]
#[verifier::external_body]
pub struct ExIoError(std::io::Error);

/// Relies on `std::io::Write::write`, retried while it reports
/// `ErrorKind::Interrupted` as the stream adapters require: `Ok(n)` means
/// the sink accepted the first `n` bytes of `data`, and its documentation
/// requires `n <= data.len()` of every implementation.  A sink that broke
/// that documented bound would be a defect outside the library's
/// guarantees, like any caller that breaks a contract.
#[verifier::external_body]
fn write_uninterrupted<W: std::io::Write>(sink: &mut W, data: &[u8]) -> (r: Result<
    usize,
    std::io::Error,
>)
    ensures
        r matches Ok(n) ==> n <= data@.len(),
{
    loop {
        match sink.write(data) {
            Err(ref e) if e.kind() == std::io::ErrorKind::Interrupted => (),
            r => return r,
        }
    }
}

/// Relies on `std::io::Write::flush`, retried while it reports
/// `ErrorKind::Interrupted` as the stream adapters require.
#[verifier::external_body]
fn flush_uninterrupted<W: std::io::Write>(sink: &mut W) -> (r: Result<(), std::io::Error>) {
    loop {
        match sink.flush() {
            Err(ref e) if e.kind() == std::io::ErrorKind::Interrupted => (),
            r => return r,
        }
    }
}

/// Relies on `std::io::Read::read`, retried while it reports
/// `ErrorKind::Interrupted` as the stream adapters require: `Ok(n)` means
/// the first `n` bytes of `buf` were filled, and its documentation
/// requires `n <= buf.len()` of every implementation — a source that
/// broke that documented bound would be a defect outside the library's
/// guarantees.  A slice never changes length.
#[verifier::external_body]
fn read_uninterrupted<R: std::io::Read>(source: &mut R, buf: &mut [u8]) -> (r: Result<
    usize,
    std::io::Error,
>)
    ensures
        r matches Ok(n) ==> n <= old(buf)@.len(),
        final(buf)@.len() == old(buf)@.len(),
{
    loop {
        match source.read(buf) {
            Err(ref e) if e.kind() == std::io::ErrorKind::Interrupted => (),
            r => return r,
        }
    }
}

/// Whether an error carries `std::io::ErrorKind::WouldBlock` — the
/// "no data or space right now, try again later" signal.  An error
/// value's kind is fixed when it is made, so this is a function of the
/// value; it is named so that contracts can tell the library's own
/// error returns apart.
pub uninterp spec fn is_would_block(e: std::io::Error) -> bool;

/// Whether an error carries `std::io::ErrorKind::ConnectionAborted` —
/// how a consumed abort EOF is reported to a reader.
pub uninterp spec fn is_connection_aborted(e: std::io::Error) -> bool;

/// Relies on `std::io::ErrorKind::WouldBlock` converting into an error
/// of that kind, and of no other: the signal that no data or space is
/// available right now.
#[verifier::external_body]
fn would_block_error() -> (e: std::io::Error)
    ensures
        is_would_block(e),
        !is_connection_aborted(e),
{
    std::io::ErrorKind::WouldBlock.into()
}

/// Relies on `std::io::ErrorKind::ConnectionAborted` converting into an
/// error of that kind, and of no other: how an abort EOF is reported to
/// a reader.
#[verifier::external_body]
fn connection_aborted_error() -> (e: std::io::Error)
    ensures
        is_connection_aborted(e),
        !is_would_block(e),
{
    std::io::ErrorKind::ConnectionAborted.into()
}

impl<'a> PBufRd<'a, u8> {
    /// Read from the pipe buffer in the manner of `std::io::Read`: as
    /// much unread data as fits in `data` is copied out and consumed and
    /// its length returned.  On an empty buffer a pending EOF is
    /// consumed instead: a normal close reads as `Ok(0)` and an abort as
    /// an error of kind `ConnectionAborted`; with no pending EOF — even
    /// on a stream whose EOF was already consumed — the error kind is
    /// `WouldBlock`.
    pub fn read(self, data: &mut [u8]) -> (r: Result<usize, std::io::Error>)
        requires
            self.buf().wf(),
        ensures
            (*final(self.pb)).wf(),
            (*final(self.pb)).spec_capacity() == self.buf().spec_capacity(),
            final(data)@.len() == old(data)@.len(),
            self.buf().unread().len() > 0 ==> {
                let n = if self.buf().unread().len() <= old(data)@.len() {
                    self.buf().unread().len() as int
                } else {
                    old(data)@.len() as int
                };
                &&& r matches Ok(m) && m == n
                &&& final(data)@ =~= self.buf().unread().subrange(0, n) + old(data)@.subrange(
                    n,
                    old(data)@.len() as int,
                )
                &&& (*final(self.pb)).unread() == self.buf().unread().skip(n)
                &&& (*final(self.pb)).spec_state() == self.buf().spec_state()
            },
            self.buf().unread().len() == 0 ==> {
                &&& final(data)@ == old(data)@
                &&& (*final(self.pb)).unread().len() == 0
                &&& match self.buf().spec_state() {
                    PBufState::Closing => (r matches Ok(m) && m == 0) && (*final(self.pb)).spec_state()
                        == PBufState::Closed,
                    PBufState::Aborting => (r matches Err(e) && is_connection_aborted(e))
                        && (*final(self.pb)).spec_state() == PBufState::Aborted,
                    s => (r matches Err(e) && is_would_block(e)) && (*final(self.pb))
                        == self.buf(),
                }
            },
    {
        let buf = self.pb;
        if !buf.is_empty() {
            let n = {
                let src = buf.data();
                let n = if src.len() < data.len() {
                    src.len()
                } else {
                    data.len()
                };
                let mut i: usize = 0;
                while i < n
                    invariant
                        i <= n,
                        n <= src@.len(),
                        n <= data@.len(),
                        data@.len() == old(data)@.len(),
                        forall|j: int| 0 <= j < i ==> data@[j] == src@[j],
                        forall|j: int| i <= j < data@.len() ==> data@[j] == old(data)@[j],
                    decreases n - i,
                {
                    data[i] = src[i];
                    i += 1;
                }
                n
            };
            buf.consume(n);
            Ok(n)
        } else if buf.consume_eof() {
            if buf.state() == PBufState::Aborted {
                Err(connection_aborted_error())
            } else {
                Ok(0)
            }
        } else {
            Err(would_block_error())
        }
    }

    /// Drain the pipe buffer into the given sink, in the manner of the
    /// stream adapters: unread data is written out and consumed until
    /// the buffer is empty, the sink stops taking data, or it fails.  A
    /// pending push — or `force_flush` — then becomes a `flush` call on
    /// the sink.  `Interrupted` errors are retried; any other sink error
    /// is returned unchanged, with whatever data was written so far
    /// already consumed.  EOF indications are not handled here.
    #[verifier::loop_isolation(false)]
    pub fn output_to<W: std::io::Write>(self, sink: &mut W, force_flush: bool) -> (r: Result<
        (),
        std::io::Error,
    >)
        requires
            self.buf().wf(),
        ensures
            (*final(self.pb)).wf(),
            (*final(self.pb)).spec_capacity() == self.buf().spec_capacity(),
            exists|k: int|
                0 <= k <= self.buf().unread().len() && (*final(self.pb)).unread() == self.buf().unread().skip(
                    k,
                ),
            (*final(self.pb)).spec_state() == self.buf().spec_state() || (*final(self.pb)).spec_state()
                == consume_push_transition(self.buf().spec_state()),
            r matches Ok(_) ==> (*final(self.pb)).spec_state() == consume_push_transition(
                self.buf().spec_state(),
            ),
            (self.buf().unread().len() == 0 && self.buf().spec_state() != PBufState::Push
                && !force_flush) ==> (r matches Ok(_)) && (*final(self.pb)) == self.buf(),
    {
        let buf = self.pb;
        let ghost pre = *buf;
        proof {
            assert(pre.unread().skip(0) =~= pre.unread());
        }
        loop
            invariant
                buf.wf(),
                buf.spec_state() == pre.spec_state(),
                buf.spec_capacity() == pre.spec_capacity(),
                exists|k: int|
                    0 <= k <= pre.unread().len() && buf.unread() == pre.unread().skip(k),
                pre.unread().len() == 0 ==> *buf == pre,
            decreases buf.unread().len(),
        {
            if buf.is_empty() {
                break ;
            }
            match write_uninterrupted(sink, buf.data()) {
                Err(e) => {
                    return Err(e);
                },
                Ok(len) => {
                    if len == 0 {
                        break ;
                    }
                    let ghost before = *buf;
                    buf.consume(len);
                    proof {
                        let k0 = choose|k: int|
                            0 <= k <= pre.unread().len() && before.unread() == pre.unread().skip(
                                k,
                            );
                        assert(pre.unread().skip(k0).skip(len as int) =~= pre.unread().skip(
                            k0 + len,
                        ));
                        assert(buf.unread() == pre.unread().skip(k0 + len));
                    }
                },
            }
        }
        if buf.consume_push() || force_flush {
            return flush_uninterrupted(sink);
        }
        Ok(())
    }
}

impl<'a> PBufWr<'a, u8> {
    /// Write to the pipe buffer in the manner of `std::io::Write`: as
    /// much of `data` as there is free space for is appended and its
    /// length returned — zero only when `data` is empty.  When nothing
    /// can be written the error kind is `WouldBlock`.  The caller must
    /// not have signalled EOF.
    pub fn write(self, data: &[u8]) -> (r: Result<usize, std::io::Error>)
        requires
            self.buf().wf(),
            !state_is_eof(self.buf().spec_state()),
        ensures
            (*final(self.pb)).wf(),
            (*final(self.pb)).spec_state() == self.buf().spec_state(),
            (*final(self.pb)).spec_capacity() == self.buf().spec_capacity(),
            ({
                let n = if data@.len() <= self.buf().free_len() {
                    data@.len() as int
                } else {
                    self.buf().free_len()
                };
                if n > 0 {
                    (r matches Ok(m) && m == n) && (*final(self.pb)).unread() == self.buf().unread()
                        + data@.subrange(0, n)
                } else {
                    (r matches Err(e) && is_would_block(e)) && (*final(self.pb)).unread()
                        == self.buf().unread()
                }
            }),
    {
        let buf = self.pb;
        let free = buf.free();
        let n = if data.len() < free {
            data.len()
        } else {
            free
        };
        if n > 0 {
            let copied = buf.append(&data[0..n]);
            assert(copied);
            Ok(n)
        } else {
            Err(would_block_error())
        }
    }

    /// Flush in the manner of `std::io::Write`: sets the "push" state on
    /// the buffer and always succeeds.
    pub fn flush(self) -> (r: Result<(), std::io::Error>)
        requires
            self.buf().wf(),
        ensures
            r matches Ok(_),
            (*final(self.pb)).wf(),
            PipeBuf::storage_unchanged(&self.buf(), final(self.pb)),
            (*final(self.pb)).spec_state() == push_transition(self.buf().spec_state()),
    {
        self.pb.push();
        Ok(())
    }

    /// Fill the pipe buffer from the given source, in the manner of the
    /// stream adapters: data is read directly into reserved space and
    /// committed, until `limit` bytes have arrived, the buffer is full,
    /// the source has no more data, or it fails.  A source reporting
    /// end-of-stream (a read of zero) closes the buffer normally, and
    /// nothing more will be read by later calls.  `Interrupted` errors
    /// are retried; any other source error is returned unchanged, with
    /// whatever data arrived so far already committed.
    #[verifier::loop_isolation(false)]
    pub fn input_from_upto<R: std::io::Read>(self, source: &mut R, limit: usize) -> (r: Result<
        (),
        std::io::Error,
    >)
        requires
            self.buf().wf(),
        ensures
            (*final(self.pb)).wf(),
            (*final(self.pb)).spec_capacity() == self.buf().spec_capacity(),
            state_is_eof(self.buf().spec_state()) ==> (r matches Ok(_)) && (*final(self.pb))
                == self.buf(),
            !state_is_eof(self.buf().spec_state()) ==> {
                &&& (*final(self.pb)).unread().len() >= self.buf().unread().len()
                &&& (*final(self.pb)).unread().len() <= self.buf().unread().len() + limit
                &&& (*final(self.pb)).unread().subrange(0, self.buf().unread().len() as int)
                    == self.buf().unread()
                &&& ((*final(self.pb)).spec_state() == self.buf().spec_state()
                    || (*final(self.pb)).spec_state() == PBufState::Closing)
                &&& ((*final(self.pb)).spec_state() == PBufState::Closing ==> r matches Ok(_))
                &&& (((r matches Ok(_)) && (*final(self.pb)).spec_state() == self.buf().spec_state())
                    ==> ((*final(self.pb)).unread().len() == self.buf().unread().len() + limit
                    || (*final(self.pb)).unread().len() == self.buf().spec_capacity()))
                &&& ((limit == 0 || self.buf().unread().len() == self.buf().spec_capacity())
                    ==> (r matches Ok(_)) && (*final(self.pb)) == self.buf())
            },
    {
        let buf = self.pb;
        if state_is_eof_of(buf.state()) {
            return Ok(());
        }
        let ghost pre = *buf;
        let mut total: usize = 0;
        proof {
            assert(buf.unread().subrange(0, pre.unread().len() as int) =~= pre.unread());
        }
        loop
            invariant
                buf.wf(),
                buf.spec_state() == pre.spec_state(),
                buf.spec_capacity() == pre.spec_capacity(),
                total <= limit,
                buf.unread().len() == pre.unread().len() + total,
                buf.unread().subrange(0, pre.unread().len() as int) == pre.unread(),
                (limit == 0 || pre.unread().len() == pre.spec_capacity()) ==> *buf == pre,
            decreases limit - total,
        {
            if total >= limit || buf.is_full() {
                break ;
            }
            let want = limit - total;
            let free = buf.free();
            let k = if want < free {
                want
            } else {
                free
            };
            let w = buf.space(k);
            match read_uninterrupted(source, w) {
                Err(e) => {
                    proof {
                        assert(buf.unread().subrange(0, pre.unread().len() as int)
                            =~= pre.unread());
                    }
                    return Err(e);
                },
                Ok(n) => {
                    if n == 0 {
                        buf.close();
                        proof {
                            assert(buf.unread().subrange(0, pre.unread().len() as int)
                                =~= pre.unread());
                        }
                        return Ok(());
                    }
                    buf.commit(n);
                    total = total + n;
                    proof {
                        assert(buf.unread().subrange(0, pre.unread().len() as int)
                            =~= pre.unread());
                    }
                },
            }
        }
        Ok(())
    }

    /// Fill the pipe buffer from the given source with no byte limit
    /// beyond the buffer's own capacity; see
    /// [`PBufWr::input_from_upto`].
    pub fn input_from<R: std::io::Read>(self, source: &mut R) -> (r: Result<(), std::io::Error>)
        requires
            self.buf().wf(),
        ensures
            (*final(self.pb)).wf(),
            (*final(self.pb)).spec_capacity() == self.buf().spec_capacity(),
            state_is_eof(self.buf().spec_state()) ==> (r matches Ok(_)) && (*final(self.pb))
                == self.buf(),
            !state_is_eof(self.buf().spec_state()) ==> {
                &&& (*final(self.pb)).unread().len() >= self.buf().unread().len()
                &&& (*final(self.pb)).unread().subrange(0, self.buf().unread().len() as int)
                    == self.buf().unread()
                &&& ((*final(self.pb)).spec_state() == self.buf().spec_state()
                    || (*final(self.pb)).spec_state() == PBufState::Closing)
                &&& (((r matches Ok(_)) && (*final(self.pb)).spec_state() == self.buf().spec_state())
                    ==> ((*final(self.pb)).unread().len() == self.buf().unread().len() + usize::MAX
                    || (*final(self.pb)).unread().len() == self.buf().spec_capacity()))
                &&& (self.buf().unread().len() == self.buf().spec_capacity() ==> (r matches Ok(_))
                    && (*final(self.pb)) == self.buf())
            },
    {
        self.input_from_upto(source, usize::MAX)
    }
}

} // verus!
