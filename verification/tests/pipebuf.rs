//! Behavioural tests for the pipe buffer: states, space management,
//! compaction, tripwires, forwarding and the byte-stream adapters.
//!
//! NOTE: This is not what typical crate-user code would look like, as
//! usually producer code, consumer code and glue code would be separate.

use pipebuf::PBufRd;
use pipebuf::PBufState;
use pipebuf::PBufWr;
use pipebuf::PipeBuf;
use pipebuf::PipeBufPair;

use std::io::ErrorKind;

/// For tripwires to work correctly all producer actions that cause a
/// change must increase the tripwire value, and all consumer actions that
/// cause a change must decrease the tripwire value.
#[test]
fn pbufstate() {
    // Producer actions
    assert!((PBufState::Open as u32) < (PBufState::Push as u32)); // push
    assert!((PBufState::Open as u32) < (PBufState::Closing as u32)); // close
    assert!((PBufState::Push as u32) < (PBufState::Closing as u32)); // close
    assert!((PBufState::Open as u32) < (PBufState::Aborting as u32)); // abort
    assert!((PBufState::Push as u32) < (PBufState::Aborting as u32)); // abort

    // Consumer actions
    assert!((PBufState::Push as u32) > (PBufState::Open as u32)); // consume_push
    assert!((PBufState::Closing as u32) > (PBufState::Closed as u32)); // consume_eof
    assert!((PBufState::Aborting as u32) > (PBufState::Aborted as u32)); // consume_eof
}

/// Direct check of inc/dec of tripwire values over both EOF kinds.
#[test]
fn tripwire() {
    let mut p;
    let mut t;
    let mut n;

    p = PipeBuf::<u8>::new(0, 1024);
    t = p.tripwire();
    assert!(p.wr().append(b"X"));
    n = p.tripwire();
    assert!(t.0 < n.0, "Expecting increase: {} -> {}", t.0, n.0);
    t = n;
    p.rd().consume(1);
    n = p.tripwire();
    assert!(t.0 > n.0, "Expecting decrease: {} -> {}", t.0, n.0);
    t = n;
    p.wr().push();
    n = p.tripwire();
    assert!(t.0 < n.0, "Expecting increase: {} -> {}", t.0, n.0);
    t = n;
    assert!(p.rd().consume_push());
    n = p.tripwire();
    assert!(t.0 > n.0, "Expecting decrease: {} -> {}", t.0, n.0);
    t = n;
    p.wr().close();
    n = p.tripwire();
    assert!(t.0 < n.0, "Expecting increase: {} -> {}", t.0, n.0);
    t = n;
    assert!(p.rd().consume_eof());
    n = p.tripwire();
    assert!(t.0 > n.0, "Expecting decrease: {} -> {}", t.0, n.0);
    let _ = n;

    p = PipeBuf::<u8>::new(0, 1024);
    t = p.tripwire();
    assert!(p.wr().append(b"X"));
    n = p.tripwire();
    assert!(t.0 < n.0, "Expecting increase: {} -> {}", t.0, n.0);
    t = n;
    p.wr().push();
    n = p.tripwire();
    assert!(t.0 < n.0, "Expecting increase: {} -> {}", t.0, n.0);
    t = n;
    assert!(p.rd().consume_push());
    n = p.tripwire();
    assert!(t.0 > n.0, "Expecting decrease: {} -> {}", t.0, n.0);
    t = n;
    p.rd().consume(1);
    n = p.tripwire();
    assert!(t.0 > n.0, "Expecting decrease: {} -> {}", t.0, n.0);
    t = n;
    p.wr().abort();
    n = p.tripwire();
    assert!(t.0 < n.0, "Expecting increase: {} -> {}", t.0, n.0);
    t = n;
    assert!(p.rd().consume_eof());
    n = p.tripwire();
    assert!(t.0 > n.0, "Expecting decrease: {} -> {}", t.0, n.0);
    let _ = t;
}

/// Test handling of states
#[test]
fn states() {
    let mut p = PipeBuf::<u8>::fixed(10);

    // Initial state
    assert_eq!(true, p.rd().is_empty());
    assert_eq!(0, p.rd().len());
    assert_eq!(false, p.rd().consume_push());
    assert_eq!(false, p.rd().consume_eof());
    assert_eq!(false, p.rd().has_pending_eof());
    assert_eq!(false, p.rd().is_eof());
    assert_eq!(false, p.wr().is_eof());
    assert_eq!(false, p.rd().is_aborted());
    assert_eq!(false, p.rd().is_done());
    assert_eq!(PBufState::Open, p.rd().state());

    // Set and clear "push" through set_push()
    p.set_push(true);
    assert_eq!(PBufState::Push, p.state());
    p.set_push(false);
    assert_eq!(PBufState::Open, p.state());

    // Add data
    let _ = p.wr().append(b"0");
    assert_eq!(false, p.rd().is_empty());
    assert_eq!(1, p.rd().len());
    assert_eq!(b'0', p.rd().data()[0]);
    assert_eq!(false, p.rd().consume_push());
    assert_eq!(false, p.rd().consume_eof());
    assert_eq!(false, p.rd().has_pending_eof());
    assert_eq!(false, p.rd().is_eof());
    assert_eq!(false, p.wr().is_eof());
    assert_eq!(false, p.rd().is_aborted());
    assert_eq!(false, p.rd().is_done());
    assert_eq!(PBufState::Open, p.rd().state());

    // Add "push" through push(), and consume it
    p.wr().push();
    assert_eq!(PBufState::Push, p.rd().state());
    assert_eq!(true, p.is_push());
    assert_eq!(true, p.rd().consume_push());
    assert_eq!(false, p.is_push());
    assert_eq!(PBufState::Open, p.rd().state());
    assert_eq!(false, p.rd().consume_push());

    // Add "push" through set_push(), and consume it
    p.set_push(true);
    assert_eq!(PBufState::Push, p.rd().state());
    assert_eq!(true, p.is_push());
    assert_eq!(true, p.rd().consume_push());
    assert_eq!(false, p.is_push());
    assert_eq!(PBufState::Open, p.rd().state());
    assert_eq!(false, p.rd().consume_push());

    // Consume data
    p.rd().consume(1);
    assert_eq!(true, p.rd().is_empty());
    assert_eq!(0, p.rd().len());
    assert_eq!(false, p.rd().consume_push());
    assert_eq!(false, p.rd().consume_eof());
    assert_eq!(false, p.rd().has_pending_eof());
    assert_eq!(false, p.rd().is_eof());
    assert_eq!(false, p.wr().is_eof());
    assert_eq!(false, p.rd().is_aborted());
    assert_eq!(false, p.rd().is_done());
    assert_eq!(PBufState::Open, p.rd().state());

    // Add data
    let _ = p.wr().append(b"12");
    assert_eq!(false, p.rd().is_empty());
    assert_eq!(2, p.rd().len());
    assert_eq!(b"12", p.rd().data());
    assert_eq!(false, p.rd().consume_push());
    assert_eq!(false, p.rd().consume_eof());
    assert_eq!(false, p.rd().has_pending_eof());
    assert_eq!(false, p.rd().is_eof());
    assert_eq!(false, p.wr().is_eof());
    assert_eq!(false, p.rd().is_aborted());
    assert_eq!(false, p.rd().is_done());
    assert_eq!(PBufState::Open, p.rd().state());

    // Add normal EOF
    p.wr().close();
    assert_eq!(false, p.rd().is_empty());
    assert_eq!(2, p.rd().len());
    assert_eq!(b"12", p.rd().data());
    assert_eq!(false, p.rd().consume_push());
    assert_eq!(true, p.rd().has_pending_eof());
    assert_eq!(true, p.rd().is_eof());
    assert_eq!(true, p.wr().is_eof());
    assert_eq!(false, p.rd().is_aborted());
    assert_eq!(false, p.rd().is_done());
    assert_eq!(PBufState::Closing, p.rd().state());

    // Consume EOF
    assert_eq!(true, p.rd().consume_eof());
    assert_eq!(false, p.rd().is_empty());
    assert_eq!(2, p.rd().len());
    assert_eq!(b"12", p.rd().data());
    assert_eq!(false, p.rd().consume_push());
    assert_eq!(false, p.rd().has_pending_eof());
    assert_eq!(true, p.rd().is_eof());
    assert_eq!(true, p.wr().is_eof());
    assert_eq!(false, p.rd().is_aborted());
    assert_eq!(false, p.rd().is_done());
    assert_eq!(PBufState::Closed, p.rd().state());
    assert_eq!(false, p.rd().consume_eof());

    // Consume data
    p.rd().consume(2);
    assert_eq!(true, p.rd().is_empty());
    assert_eq!(0, p.rd().len());
    assert_eq!(false, p.rd().consume_push());
    assert_eq!(false, p.rd().consume_eof());
    assert_eq!(false, p.rd().has_pending_eof());
    assert_eq!(true, p.rd().is_eof());
    assert_eq!(true, p.wr().is_eof());
    assert_eq!(false, p.rd().is_aborted());
    assert_eq!(true, p.rd().is_done());
    assert_eq!(PBufState::Closed, p.rd().state());

    // Try again, initial state, add data
    p.reset();
    let _ = p.wr().append(b"345");
    assert_eq!(false, p.rd().is_empty());
    assert_eq!(3, p.rd().len());
    assert_eq!(b"345", p.rd().data());
    assert_eq!(false, p.rd().consume_push());
    assert_eq!(false, p.rd().consume_eof());
    assert_eq!(false, p.rd().has_pending_eof());
    assert_eq!(false, p.rd().is_eof());
    assert_eq!(false, p.wr().is_eof());
    assert_eq!(false, p.rd().is_aborted());
    assert_eq!(false, p.rd().is_done());
    assert_eq!(PBufState::Open, p.rd().state());

    // Add failure EOF
    p.wr().abort();
    assert_eq!(false, p.rd().is_empty());
    assert_eq!(3, p.rd().len());
    assert_eq!(b"345", p.rd().data());
    assert_eq!(false, p.rd().consume_push());
    assert_eq!(true, p.rd().has_pending_eof());
    assert_eq!(true, p.rd().is_eof());
    assert_eq!(true, p.wr().is_eof());
    assert_eq!(true, p.rd().is_aborted());
    assert_eq!(false, p.rd().is_done());
    assert_eq!(PBufState::Aborting, p.rd().state());

    // This time consume data first
    p.rd().consume(3);
    assert_eq!(true, p.rd().is_empty());
    assert_eq!(0, p.rd().len());
    assert_eq!(false, p.rd().consume_push());
    assert_eq!(true, p.rd().has_pending_eof());
    assert_eq!(true, p.rd().is_eof());
    assert_eq!(true, p.wr().is_eof());
    assert_eq!(true, p.rd().is_aborted());
    assert_eq!(false, p.rd().is_done());
    assert_eq!(PBufState::Aborting, p.rd().state());

    // Consume EOF
    assert_eq!(true, p.rd().consume_eof());
    assert_eq!(true, p.rd().is_empty());
    assert_eq!(0, p.rd().len());
    assert_eq!(false, p.rd().consume_push());
    assert_eq!(false, p.rd().consume_eof());
    assert_eq!(false, p.rd().has_pending_eof());
    assert_eq!(true, p.rd().is_eof());
    assert_eq!(true, p.wr().is_eof());
    assert_eq!(true, p.rd().is_aborted());
    assert_eq!(true, p.rd().is_done());
    assert_eq!(PBufState::Aborted, p.rd().state());
}

#[test]
fn no_space_try() {
    let mut p = PipeBuf::<u8>::fixed(10);
    assert!(p.wr().free_space().unwrap() >= 10);
    assert!(p.wr().try_space(100).is_none());
}

#[test]
fn reset_and_zero() {
    let mut p = PipeBuf::<u8>::fixed(10);
    let _ = p.wr().append(b"0123456789");
    assert_eq!(b"0123456789", p.rd().data());
    p.reset_and_zero();
    assert_eq!([0; 10], p.wr().space(10));
    assert_eq!([0; 10], p.wr().try_space(10).unwrap());
    assert_eq!(0, p.rd().len());
}

#[test]
fn with_capacity() {
    let mut p = PipeBuf::<u8>::new(10, usize::MAX);
    assert!(p.wr().free_space().is_none());
    let _ = p.wr().append(b"0123456789");
    let _ = p.wr().append(b"ABCDEFGHIJ");
    assert_eq!(b"0123456789ABCDEFGHIJ", p.rd().data());
}

#[test]
fn create_with_new() {
    let mut p = PipeBuf::<u8>::new(0, usize::MAX);
    assert!(p.wr().free_space().is_none());
    p.wr().try_space(23).unwrap()[..10].copy_from_slice(b"0123456789");
    p.wr().commit(10);
    p.wr().space(17)[..10].copy_from_slice(b"ABCDEFGHIJ");
    p.wr().commit(10);
    assert_eq!(b"0123456789ABCDEFGHIJ", p.rd().data());
}

#[test]
fn create_with_new_u16() {
    let mut p = PipeBuf::<u16>::new(0, usize::MAX);
    p.wr().try_space(13).unwrap()[..5].copy_from_slice(&[0, 1, 2, 3, 4]);
    p.wr().commit(5);
    p.wr().space(9)[..7].copy_from_slice(&[5, 6, 7, 8, 9, 10, 11]);
    p.wr().commit(7);
    assert_eq!([0, 1, 2, 3, 4, 5, 6, 7, 8, 9, 10, 11], p.rd().data());
    p.rd().consume(6);
    assert_eq!([6, 7, 8, 9, 10, 11], p.rd().data());
}

#[test]
fn create_with_new_char() {
    let mut p = PipeBuf::<char>::new(0, usize::MAX);
    p.wr().try_space(13).unwrap()[..5].copy_from_slice(&['0', '1', '2', '3', '4']);
    p.wr().commit(5);
    p.wr().space(9)[..7].copy_from_slice(&['a', 'b', 'c', 'd', 'e', 'f', 'g']);
    p.wr().commit(7);
    assert_eq!(
        ['0', '1', '2', '3', '4', 'a', 'b', 'c', 'd', 'e', 'f', 'g'],
        p.rd().data()
    );
    p.rd().consume(6);
    assert_eq!(['b', 'c', 'd', 'e', 'f', 'g'], p.rd().data());
}

/// Test that buffer shifts down properly when there is both unread data
/// and not enough space.
#[test]
fn compact_buffer() {
    let mut p = PipeBuf::<u8>::fixed(13);
    let _ = p.wr().append(b"0123456789");
    assert_eq!(b"0123456789", p.rd().data());
    p.rd().consume(5);
    let _ = p.wr().append(b"ABCDE");
    assert_eq!(b"56789ABCDE", p.rd().data());
    p.rd().consume(5);
    let _ = p.wr().append(b"FGHIJ");
    assert_eq!(b"ABCDEFGHIJ", p.rd().data());
    p.rd().consume(5);
    let _ = p.wr().append(b"KLMNO");
    assert_eq!(b"FGHIJKLMNO", p.rd().data());
    p.rd().consume(5);
    let _ = p.wr().append(b"PQRST");
    assert_eq!(b"KLMNOPQRST", p.rd().data());
    p.rd().consume(5);
    let _ = p.wr().append(b"UVWXYZ");
    assert_eq!(b"PQRSTUVWXYZ", p.rd().data());
}

#[test]
fn wr_tripwire() {
    let mut p = PipeBuf::<u8>::fixed(10);

    p.reset();
    let t0 = p.tripwire();
    assert_eq!(false, p.is_tripped(t0));
    let mut wr = p.wr();
    assert!(t0 == wr.tripwire());
    assert_eq!(false, wr.is_tripped(t0));
    let _ = wr.reborrow().append(b"0");
    assert_eq!(true, wr.is_tripped(t0));
    assert_eq!(true, p.is_tripped(t0));

    p.reset();
    let t0 = p.tripwire();
    assert_eq!(false, p.is_tripped(t0));
    let mut wr = p.wr();
    assert!(t0 == wr.tripwire());
    assert_eq!(false, wr.is_tripped(t0));
    wr.reborrow().push();
    assert_eq!(true, wr.is_tripped(t0));
    assert_eq!(true, p.is_tripped(t0));

    p.reset();
    let t0 = p.tripwire();
    assert_eq!(false, p.is_tripped(t0));
    let mut wr = p.wr();
    assert!(t0 == wr.tripwire());
    assert_eq!(false, wr.is_tripped(t0));
    wr.reborrow().close();
    assert_eq!(true, wr.is_tripped(t0));
    assert_eq!(true, p.is_tripped(t0));

    p.reset();
    let t0 = p.tripwire();
    assert_eq!(false, p.is_tripped(t0));
    let mut wr = p.wr();
    assert!(t0 == wr.tripwire());
    assert_eq!(false, wr.is_tripped(t0));
    wr.reborrow().abort();
    assert_eq!(true, wr.is_tripped(t0));
    assert_eq!(true, p.is_tripped(t0));
}

#[test]
fn rd_tripwire() {
    let mut p = PipeBuf::<u8>::fixed(10);

    p.reset();
    let _ = p.wr().append(b"0123456789");
    p.wr().push();
    let t0 = p.tripwire();
    assert_eq!(false, p.is_tripped(t0));
    let mut rd = p.rd();
    assert!(t0 == rd.tripwire());
    assert_eq!(false, rd.is_tripped(t0));
    rd.reborrow().consume(1);
    assert_eq!(true, rd.is_tripped(t0));
    assert_eq!(true, p.is_tripped(t0));

    p.reset();
    let _ = p.wr().append(b"0123456789");
    p.wr().close();
    let t0 = p.tripwire();
    assert_eq!(false, p.is_tripped(t0));
    let mut rd = p.rd();
    assert!(t0 == rd.tripwire());
    assert_eq!(false, rd.is_tripped(t0));
    rd.reborrow().consume(1);
    assert_eq!(true, rd.is_tripped(t0));
    assert_eq!(true, p.is_tripped(t0));

    p.reset();
    let _ = p.wr().append(b"0123456789");
    p.wr().push();
    let t0 = p.tripwire();
    assert_eq!(false, p.is_tripped(t0));
    let mut rd = p.rd();
    assert!(t0 == rd.tripwire());
    assert_eq!(false, rd.is_tripped(t0));
    assert!(rd.reborrow().consume_push());
    assert_eq!(true, rd.is_tripped(t0));
    assert_eq!(true, p.is_tripped(t0));

    p.reset();
    let _ = p.wr().append(b"0123456789");
    p.wr().close();
    let t0 = p.tripwire();
    assert_eq!(false, p.is_tripped(t0));
    let mut rd = p.rd();
    assert!(t0 == rd.tripwire());
    assert_eq!(false, rd.is_tripped(t0));
    assert!(rd.reborrow().consume_eof());
    assert_eq!(true, rd.is_tripped(t0));
    assert_eq!(true, p.is_tripped(t0));
}

#[test]
fn forward() {
    let mut p = PipeBuf::<u8>::fixed(10);
    let mut q = PipeBuf::<u8>::fixed(10);

    let _ = p.wr().append(b"01234");
    assert!(!p.rd().is_empty());
    p.rd().forward(q.wr());
    assert!(p.rd().is_empty());
    assert_eq!(b"01234", q.rd().data());
    q.rd().consume(5);
    assert!(!q.rd().consume_push());
    assert!(!q.rd().consume_eof());

    let _ = p.wr().append(b"ABC");
    p.wr().push();
    p.rd().forward(q.wr());
    assert_eq!(b"ABC", q.rd().data());
    q.rd().consume(3);
    assert!(q.rd().consume_push());
    assert!(!q.rd().consume_eof());

    p.wr().close();
    p.rd().forward(q.wr());
    assert!(q.rd().data().is_empty());
    assert!(!q.rd().consume_push());
    assert!(q.rd().consume_eof());
    assert!(!q.rd().is_aborted());

    p.reset();
    q.reset();

    p.wr().abort();
    p.rd().forward(q.wr());
    assert!(q.rd().data().is_empty());
    assert!(!q.rd().consume_push());
    assert!(q.rd().consume_eof());
    assert!(q.rd().is_aborted());
}

#[test]
fn read_trait() {
    let mut p = PipeBuf::<u8>::fixed(10);

    // Read with bytes available
    let mut buf = [0u8; 10];
    let _ = p.wr().append(b"01234");
    assert!(matches!(p.rd().read(buf.as_mut_slice()), Ok(5)));
    assert_eq!(*b"01234", buf[..5]);

    // Read with no bytes available
    match p.rd().read(buf.as_mut_slice()) {
        Err(e) if e.kind() == ErrorKind::WouldBlock => (),
        _ => panic!("Empty read didn't give WouldBlock"),
    }

    // Read at aborted EOF
    p.wr().abort();
    match p.rd().read(buf.as_mut_slice()) {
        Err(e) if e.kind() == ErrorKind::ConnectionAborted => (),
        _ => panic!("Aborted read didn't give ConnectionAborted"),
    }

    // Read at normal EOF with data
    p.reset();
    let _ = p.wr().append(b"ABCD");
    p.wr().close();
    assert!(matches!(p.rd().read(buf.as_mut_slice()), Ok(4)));
    assert_eq!(*b"ABCD", buf[..4]);
    assert!(matches!(p.rd().read(buf.as_mut_slice()), Ok(0)));
}

#[derive(Default)]
struct Dest {
    buf: Vec<u8>,
    flushed: bool,
    write_err_wouldblock: bool,
    write_err_interrupted: bool,
    flush_err_wouldblock: bool,
    flush_err_interrupted: bool,
}

impl std::io::Write for Dest {
    fn write(&mut self, data: &[u8]) -> std::io::Result<usize> {
        if self.write_err_wouldblock {
            self.write_err_wouldblock = false;
            Err(ErrorKind::WouldBlock.into())
        } else if self.write_err_interrupted {
            self.write_err_interrupted = false;
            Err(ErrorKind::Interrupted.into())
        } else {
            self.buf.extend_from_slice(data);
            Ok(data.len())
        }
    }
    fn flush(&mut self) -> std::io::Result<()> {
        if self.flush_err_wouldblock {
            self.flush_err_wouldblock = false;
            Err(ErrorKind::WouldBlock.into())
        } else if self.flush_err_interrupted {
            self.flush_err_interrupted = false;
            Err(ErrorKind::Interrupted.into())
        } else {
            self.flushed = true;
            Ok(())
        }
    }
}

#[test]
fn output_to() {
    let mut dest = Dest::default();

    // Test data output (and ignoring Interrupted on write)
    let mut p = PipeBuf::<u8>::fixed(10);
    dest.write_err_interrupted = true;
    let _ = p.wr().append(b"0123456");
    assert!(p.rd().output_to(&mut dest, false).is_ok());
    assert_eq!(b"0123456", dest.buf.as_slice());
    assert_eq!(false, dest.flushed);

    // Test "push" -> "flush"
    let _ = p.wr().append(b"789");
    p.wr().push();
    assert!(p.rd().output_to(&mut dest, false).is_ok());
    assert_eq!(b"0123456789", dest.buf.as_slice());
    assert_eq!(true, dest.flushed);

    // Test force_flush == true (and ignoring Interrupted on flush)
    dest.flushed = false;
    dest.flush_err_interrupted = true;
    let _ = p.wr().append(b"ABCD");
    assert!(p.rd().output_to(&mut dest, true).is_ok());
    assert_eq!(b"0123456789ABCD", dest.buf.as_slice());
    assert_eq!(true, dest.flushed);

    // Test write error passthrough
    dest.write_err_wouldblock = true;
    let _ = p.wr().append(b"EFG");
    match p.rd().output_to(&mut dest, false) {
        Err(e) if e.kind() == ErrorKind::WouldBlock => (),
        _ => panic!("Expecting WouldBlock"),
    }

    // Test flush error passthrough
    dest.flush_err_wouldblock = true;
    p.wr().push();
    match p.rd().output_to(&mut dest, false) {
        Err(e) if e.kind() == ErrorKind::WouldBlock => (),
        _ => panic!("Expecting WouldBlock"),
    }
    assert_eq!(b"0123456789ABCDEFG", dest.buf.as_slice());
}

#[test]
fn write_with() {
    let mut p = PipeBuf::<u8>::fixed(10);

    assert!(matches!(
        p.wr().write_with(10, |space| {
            if space.len() < 6 {
                // Never happens, but keeps the type-checker happy
                Err(())
            } else {
                space[..6].copy_from_slice(b"ABCDEF");
                Ok(6)
            }
        }),
        Ok(6)
    ));
    assert_eq!(b"ABCDEF", p.rd().data());
    p.rd().consume(6);

    assert!(matches!(
        p.wr().write_with(10, |_| { Err(999_u16) }),
        Err(999_u16)
    ));

    assert_eq!(
        3,
        p.wr().write_with_noerr(10, |space| {
            space[..3].copy_from_slice(b"987");
            3
        })
    );
    assert_eq!(b"987", p.rd().data());
    p.rd().consume(3);
}

#[test]
fn exceeds_limit() {
    let mut p = PipeBuf::<u8>::fixed(10);
    assert!(!p.wr().exceeds_limit(5));
    let _ = p.wr().append(b"01234");
    assert!(!p.wr().exceeds_limit(5));
    let _ = p.wr().append(b"5");
    assert!(p.wr().exceeds_limit(5));
}

#[derive(Default)]
struct Source {
    data: Vec<u8>,
    eof: bool,
    err_interrupted: bool,
}

impl std::io::Read for Source {
    fn read(&mut self, buf: &mut [u8]) -> std::io::Result<usize> {
        if self.err_interrupted {
            self.err_interrupted = false;
            Err(ErrorKind::Interrupted.into())
        } else if self.data.is_empty() {
            if self.eof {
                Ok(0)
            } else {
                Err(ErrorKind::WouldBlock.into())
            }
        } else {
            let len = buf.len().min(self.data.len());
            buf[..len].copy_from_slice(&self.data[..len]);
            self.data.drain(..len);
            Ok(len)
        }
    }
}

#[test]
fn input_from() {
    let mut p = PipeBuf::<u8>::fixed(20);
    let mut input = Source::default();
    input.data.extend_from_slice(b"01234567");
    input.err_interrupted = true;
    assert!(p.wr().input_from_upto(&mut input, 5).is_ok());
    assert_eq!(5, p.rd().len());
    match p.wr().input_from_upto(&mut input, 5) {
        Err(e) if e.kind() == ErrorKind::WouldBlock => (),
        _ => panic!("Expecting WouldBlock"),
    }
    assert_eq!(8, p.rd().len());
    input.data.extend_from_slice(b"8");
    input.eof = true;
    assert!(p.wr().input_from_upto(&mut input, 5).is_ok());
    assert_eq!(9, p.rd().len());
    assert_eq!(true, p.wr().is_eof());
    assert_eq!(b"012345678", p.rd().data());

    // Reading after EOF, does nothing
    input.data.extend_from_slice(b"9");
    assert!(p.wr().input_from_upto(&mut input, 5).is_ok());
    assert_eq!(9, p.rd().len());
}

#[test]
fn write_trait() {
    let mut p = PipeBuf::<u8>::fixed(10);
    assert!(p.wr().write(b"012345").is_ok());
    assert_eq!(b"012345", p.rd().data());
    assert_eq!(false, p.rd().consume_push());

    assert!(p.wr().flush().is_ok());
    assert_eq!(true, p.rd().consume_push());
}

#[test]
fn pipebufpair_fixed() {
    let mut p = PipeBufPair::<u8>::fixed(10, 10);

    let _ = p.upper().wr.append(b"01234");
    p.upper().wr.close();
    assert_eq!(b"01234", p.lower().rd.data());
    assert_eq!(b"01234", p.right().rd.data());
    p.lower().rd.consume(5);
    assert_eq!(true, p.lower().rd.consume_eof());
    p.reset();
    assert_eq!(false, p.lower().rd.consume_eof());

    let _ = p.lower().wr.append(b"56789");
    p.lower().wr.abort();
    assert_eq!(b"56789", p.upper().rd.data());
    assert_eq!(b"56789", p.left().rd.data());
    assert_eq!(true, p.upper().rd.consume_eof());
    p.upper().rd.consume(5);
    p.reset_and_zero();
    assert_eq!(false, p.upper().rd.consume_eof());
}

#[test]
fn pipebufpair_var() {
    let mut p = PipeBufPair::<u8>::default();
    let ut = p.upper().tripwire();
    let lt = p.lower().tripwire();
    let _ = p.upper().wr.append(b"01234");
    assert!(ut != p.upper().tripwire());
    assert!(lt != p.lower().tripwire());

    let mut p = PipeBufPair::<u8>::new(10, usize::MAX, 10, usize::MAX);
    let ut = p.upper().tripwire();
    let lt = p.lower().tripwire();
    let _ = p.lower().wr.append(b"01234");
    assert!(ut != p.upper().tripwire());
    assert!(lt != p.lower().tripwire());
}

/// A reborrowed handle works the buffer while the original stays usable
/// afterwards.
#[test]
fn handle_types_reborrow() {
    let mut p = PipeBuf::<u8>::fixed(4);
    let mut wr: PBufWr<u8> = p.wr();
    let _ = wr.reborrow().append(b"ab");
    let mut rd: PBufRd<u8> = p.rd();
    assert_eq!(2, rd.reborrow().len());
    rd.consume(2);
    assert!(p.rd().is_empty());
}
