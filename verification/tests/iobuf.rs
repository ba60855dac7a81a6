use std::io;

use tk_bufstream::flushed::Flushed;
use tk_bufstream::outcome::{flush_step, settle_read};
use tk_bufstream::{
    flushed, Async, ErrorKind, FlushAction, FlushEvent, IoBuf, IoError, Mock, MockData,
    OutputRange,
};

fn err(kind: ErrorKind) -> IoError {
    let k = match kind {
        ErrorKind::WouldBlock => io::ErrorKind::WouldBlock,
        ErrorKind::BrokenPipe => io::ErrorKind::BrokenPipe,
        ErrorKind::ConnectionReset => io::ErrorKind::ConnectionReset,
        ErrorKind::Other => io::ErrorKind::TimedOut,
    };
    IoError { kind, error: io::Error::new(k, "test error") }
}

fn is_finished_ok(a: &FlushAction) -> bool {
    matches!(a, FlushAction::Finished(Ok(())))
}

#[test]
fn new_is_empty_and_open() {
    let buf = IoBuf::new(Mock);
    assert_eq!(&buf.in_buf[..], b"");
    assert_eq!(&buf.out_buf[..], b"");
    assert!(!buf.done());
}

#[test]
fn read_bytes_are_answered() {
    let mut buf = IoBuf::new(Mock);
    assert_eq!(buf.read(Ok(5)).unwrap(), 5);
    assert!(!buf.done());
}

#[test]
fn read_of_nothing_closes() {
    let mut buf = IoBuf::new(Mock);
    assert_eq!(buf.read(Ok(0)).unwrap(), 0);
    assert!(buf.done());
}

#[test]
fn read_would_block_answers_zero_and_stays_open() {
    let mut buf = IoBuf::new(Mock);
    assert_eq!(buf.read(Err(err(ErrorKind::WouldBlock))).unwrap(), 0);
    assert!(!buf.done());
}

#[test]
fn read_broken_pipe_and_reset_close() {
    let mut buf = IoBuf::new(Mock);
    assert_eq!(buf.read(Err(err(ErrorKind::BrokenPipe))).unwrap(), 0);
    assert!(buf.done());
    let mut buf = IoBuf::new(Mock);
    assert_eq!(buf.read(Err(err(ErrorKind::ConnectionReset))).unwrap(), 0);
    assert!(buf.done());
}

#[test]
fn read_other_error_is_passed_on() {
    let mut buf = IoBuf::new(Mock);
    let e = buf.read(Err(err(ErrorKind::Other))).unwrap_err();
    assert_eq!(e.kind(), io::ErrorKind::TimedOut);
    assert_eq!(e.to_string(), "test error");
    assert!(!buf.done());
}

#[test]
fn closed_stays_closed() {
    let mut buf = IoBuf::new(Mock);
    buf.read(Ok(0)).unwrap();
    buf.read(Ok(3)).unwrap();
    buf.read(Err(err(ErrorKind::WouldBlock))).unwrap();
    let _ = buf.flush(FlushEvent::SocketFlushed(Ok(())));
    assert!(buf.done());
}

#[test]
fn flush_of_empty_buffer_flushes_socket() {
    let mut buf = IoBuf::new(Mock);
    assert!(matches!(buf.flush(FlushEvent::Start), FlushAction::FlushSocket));
}

#[test]
fn flush_with_pending_bytes_writes() {
    let mut buf = IoBuf::new(Mock);
    buf.out_buf.extend(b"abc");
    assert!(matches!(buf.flush(FlushEvent::Start), FlushAction::WriteOut));
    // some bytes taken, some left: go on writing
    assert!(matches!(buf.flush(FlushEvent::Wrote(Ok(1))), FlushAction::WriteOut));
    // socket took nothing: stop writing
    assert!(matches!(buf.flush(FlushEvent::Wrote(Ok(0))), FlushAction::FlushSocket));
    assert!(matches!(buf.flush(FlushEvent::Wrote(Err(err(ErrorKind::WouldBlock)))), FlushAction::FlushSocket));
    assert!(!buf.done());
    assert!(matches!(buf.flush(FlushEvent::Wrote(Err(err(ErrorKind::BrokenPipe)))), FlushAction::FlushSocket));
    assert!(buf.done());
}

#[test]
fn flush_write_other_error_fails() {
    let mut buf = IoBuf::new(Mock);
    buf.out_buf.extend(b"abc");
    match buf.flush(FlushEvent::Wrote(Err(err(ErrorKind::Other)))) {
        FlushAction::Finished(Err(e)) => assert_eq!(e.kind(), io::ErrorKind::TimedOut),
        _ => panic!("expected failure"),
    }
}

#[test]
fn flush_socket_outcomes() {
    let mut buf = IoBuf::new(Mock);
    assert!(is_finished_ok(&buf.flush(FlushEvent::SocketFlushed(Ok(())))));
    assert!(is_finished_ok(&buf.flush(FlushEvent::SocketFlushed(Err(err(ErrorKind::WouldBlock))))));
    assert!(!buf.done());
    assert!(is_finished_ok(&buf.flush(FlushEvent::SocketFlushed(Err(err(ErrorKind::ConnectionReset))))));
    assert!(buf.done());
    match buf.flush(FlushEvent::SocketFlushed(Err(err(ErrorKind::Other)))) {
        FlushAction::Finished(Err(e)) => assert_eq!(e.kind(), io::ErrorKind::TimedOut),
        _ => panic!("expected failure"),
    }
}

#[test]
fn write_buffers_and_starts_flush() {
    let mut buf = IoBuf::new(MockData::new());
    assert!(matches!(buf.write(b"hi"), FlushAction::WriteOut));
    assert_eq!(&buf.out_buf[..], b"hi");
    assert!(matches!(buf.write(b""), FlushAction::WriteOut));
    assert_eq!(&buf.out_buf[..], b"hi");
    let mut empty = IoBuf::new(Mock);
    assert!(matches!(empty.write(b""), FlushAction::FlushSocket));
    assert_eq!(&empty.out_buf[..], b"");
}

#[test]
fn whole_flush_writes_everything() {
    let mut buf = IoBuf::new(MockData::new());
    buf.write(b"hello ");
    buf.out_buf.extend(b"world");
    let mut ev = FlushEvent::Start;
    let res = loop {
        match buf.flush(ev) {
            FlushAction::WriteOut => {
                let r = buf.out_buf.write_to(&mut buf.socket);
                ev = FlushEvent::Wrote(r.map_err(|e| IoError { kind: ErrorKind::Other, error: e }));
            }
            FlushAction::FlushSocket => {
                let r = std::io::Write::flush(&mut buf.socket);
                ev = FlushEvent::SocketFlushed(r.map_err(|e| IoError { kind: ErrorKind::Other, error: e }));
            }
            FlushAction::Finished(r) => break r,
        }
    };
    assert!(res.is_ok());
    assert_eq!(&buf.out_buf[..], b"");
    assert_eq!(buf.socket.output(OutputRange::RangeFrom(0)), b"hello world".to_vec());
}

#[test]
fn flushed_waits_for_empty_buffer() {
    let mut buf = IoBuf::new(Mock);
    buf.out_buf.extend(b"x");
    let mut f = buf.flushed();
    assert!(matches!(f.poll(), Async::NotReady));
    assert!(f.0.is_some());
    f.0.as_mut().unwrap().out_buf.consume(1);
    match f.poll() {
        Async::Ready(conn) => assert_eq!(&conn.out_buf[..], b""),
        Async::NotReady => panic!("expected ready"),
    }
    assert!(f.0.is_none());
}

#[test]
fn flushed_resolves_when_closed() {
    let mut buf = IoBuf::new(Mock);
    buf.out_buf.extend(b"x");
    buf.read(Ok(0)).unwrap();
    let mut f: Flushed<Mock> = flushed(buf);
    match f.poll() {
        Async::Ready(conn) => {
            assert!(conn.done());
            assert_eq!(&conn.out_buf[..], b"x");
        }
        Async::NotReady => panic!("expected ready"),
    }
}

#[test]
fn settle_and_step_functions() {
    let (done, r) = settle_read(false, Ok(0));
    assert!(done);
    assert_eq!(r.unwrap(), 0);
    let (done, r) = settle_read(true, Ok(4));
    assert!(done);
    assert_eq!(r.unwrap(), 4);
    let (done, a) = flush_step(3, false, FlushEvent::Wrote(Ok(2)));
    assert!(!done);
    assert!(matches!(a, FlushAction::WriteOut));
    let (done, a) = flush_step(0, false, FlushEvent::Wrote(Ok(2)));
    assert!(!done);
    assert!(matches!(a, FlushAction::FlushSocket));
}

#[test]
fn write_answer_after_flush() {
    let buf = IoBuf::new(Mock);
    assert_eq!(buf.write_done(b"abc", Ok(())).unwrap(), 3);
    let e = io::Error::new(io::ErrorKind::Other, "gone");
    assert_eq!(buf.write_done(b"abc", Err(e)).unwrap_err().to_string(), "gone");
}
