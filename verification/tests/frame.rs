use std::io::{self, Read, Write};

use tk_bufstream::frame::{after_decode, finish_decoding, StreamAction, StreamEvent};
use tk_bufstream::outcome::AsyncSink;
use tk_bufstream::Async;
use tk_bufstream::{
    Buf, Decode, Encode, ErrorKind, FlushAction, FlushEvent, IoBuf, IoError, MockData, Outcome,
    OutputRange,
};

struct Lines;

impl Decode for Lines {
    type Item = String;
    fn decode(&mut self, buf: &mut Buf) -> Result<Option<String>, io::Error> {
        if let Some(end) = buf[..].iter().position(|&x| x == b'\n') {
            let s = std::str::from_utf8(&buf[..end])
                .map(String::from)
                .map_err(|_| io::Error::new(io::ErrorKind::Other, "can't decode utf-8"))?;
            buf.consume(end + 1);
            Ok(Some(s))
        } else {
            Ok(None)
        }
    }
}

impl Encode for Lines {
    type Item = String;
    fn encode(&mut self, data: String, buf: &mut Buf) {
        buf.extend(data.as_bytes());
        buf.extend(b"\n");
    }
}

fn outcome<T>(r: io::Result<T>) -> Outcome<T> {
    r.map_err(|e| {
        let kind = match e.kind() {
            io::ErrorKind::WouldBlock => ErrorKind::WouldBlock,
            io::ErrorKind::BrokenPipe => ErrorKind::BrokenPipe,
            io::ErrorKind::ConnectionReset => ErrorKind::ConnectionReset,
            _ => ErrorKind::Other,
        };
        IoError { kind, error: e }
    })
}

/// Drive one poll of the stream of frames to its answer.
fn poll_frame<S: Read>(f: &mut tk_bufstream::Framed<S, Lines>) -> io::Result<Option<Option<String>>> {
    let mut ev = StreamEvent::Poll;
    loop {
        match f.poll(ev) {
            StreamAction::Ready(x) => return Ok(Some(x)),
            StreamAction::NotReady => return Ok(None),
            StreamAction::Fail(e) => return Err(e),
            StreamAction::ReadIn => {
                let io = f.get_mut();
                let r = io.in_buf.read_from(&mut io.socket);
                ev = StreamEvent::Read(outcome(r));
            }
        }
    }
}

#[test]
fn framed_decodes_lines_in_order() {
    let mut data = MockData::new();
    data.add_input(b"hello\nworld\npart");
    let mut f = IoBuf::new(data).framed(Lines);
    assert_eq!(poll_frame(&mut f).unwrap(), Some(Some("hello".to_string())));
    assert_eq!(poll_frame(&mut f).unwrap(), Some(Some("world".to_string())));
    // only a partial line is left and the mock would block: not ready
    assert_eq!(poll_frame(&mut f).unwrap(), None);
    assert!(!f.get_ref().done());
    f.get_mut().socket.add_input(b"ial\n");
    assert_eq!(poll_frame(&mut f).unwrap(), Some(Some("partial".to_string())));
    assert_eq!(&f.get_ref().in_buf[..], b"");
}

#[test]
fn framed_ends_when_closed() {
    let mut f = IoBuf::new(MockData::new()).framed(Lines);
    // a read of nothing at end of stream
    match f.poll(StreamEvent::Read(Ok(0))) {
        StreamAction::Ready(None) => {}
        _ => panic!("expected end of stream"),
    }
    assert!(f.get_ref().done());
}

#[test]
fn framed_not_ready_when_blocking() {
    let mut f = IoBuf::new(MockData::new()).framed(Lines);
    let e = IoError { kind: ErrorKind::WouldBlock, error: io::Error::from(io::ErrorKind::WouldBlock) };
    assert!(matches!(f.poll(StreamEvent::Read(Err(e))), StreamAction::NotReady));
    assert!(!f.get_ref().done());
}

#[test]
fn framed_read_error_fails() {
    let mut f = IoBuf::new(MockData::new()).framed(Lines);
    let e = IoError { kind: ErrorKind::Other, error: io::Error::new(io::ErrorKind::Other, "boom") };
    match f.poll(StreamEvent::Read(Err(e))) {
        StreamAction::Fail(e) => assert_eq!(e.to_string(), "boom"),
        _ => panic!("expected failure"),
    }
}

#[test]
fn framed_decode_error_fails() {
    let mut data = MockData::new();
    data.add_input(b"\xff\n");
    let mut f = IoBuf::new(data).framed(Lines);
    assert_eq!(poll_frame(&mut f).unwrap_err().to_string(), "can't decode utf-8");
}

#[test]
fn framed_read_then_decode() {
    let mut f = IoBuf::new(MockData::new()).framed(Lines);
    f.get_mut().in_buf.extend(b"x\n");
    match f.poll(StreamEvent::Read(Ok(2))) {
        StreamAction::Ready(Some(s)) => assert_eq!(s, "x"),
        _ => panic!("expected a frame"),
    }
}

#[test]
fn framed_sink_encodes_then_flushes() {
    let mut f = IoBuf::new(MockData::new()).framed(Lines);
    assert!(matches!(f.start_send("one".to_string()), Ok(AsyncSink::Ready)));
    assert!(matches!(f.start_send("two".to_string()), Ok(AsyncSink::Ready)));
    assert_eq!(&f.get_ref().out_buf[..], b"one\ntwo\n");
    assert_eq!(&f.get_ref().in_buf[..], b"");
    let io = f.get_mut();
    let mut ev = FlushEvent::Start;
    loop {
        match io.flush(ev) {
            FlushAction::WriteOut => ev = FlushEvent::Wrote(outcome(io.out_buf.write_to(&mut io.socket))),
            FlushAction::FlushSocket => ev = FlushEvent::SocketFlushed(outcome(io.socket.flush())),
            FlushAction::Finished(r) => {
                r.unwrap();
                break;
            }
        }
    }
    assert!(matches!(f.poll_complete(Ok(())), Ok(Async::Ready(()))));
    let e = io::Error::new(io::ErrorKind::Other, "flush failed");
    assert_eq!(f.poll_complete(Err(e)).unwrap_err().to_string(), "flush failed");
    let io = f.into_inner();
    assert_eq!(io.socket.output(OutputRange::RangeFrom(0)), b"one\ntwo\n".to_vec());
}

#[test]
fn decode_done_defaults() {
    let mut buf = Buf::new();
    buf.extend(b"last\nrest");
    assert_eq!(Lines.done(&mut buf).unwrap(), "last");
    let e = Lines.done(&mut buf).unwrap_err();
    assert_eq!(e.kind(), io::ErrorKind::Other);
    assert_eq!(e.to_string(), "bytes remaining on stream");
}

#[test]
fn finish_decoding_cases() {
    assert_eq!(finish_decoding(Ok(Some(3u8))).unwrap(), 3);
    assert_eq!(finish_decoding::<u8>(Ok(None)).unwrap_err().kind(), io::ErrorKind::Other);
    let e = io::Error::new(io::ErrorKind::InvalidData, "bad");
    assert_eq!(finish_decoding::<u8>(Err(e)).unwrap_err().kind(), io::ErrorKind::InvalidData);
}

#[test]
fn after_decode_cases() {
    assert!(matches!(after_decode(Ok(Some(1u8))), StreamAction::Ready(Some(1))));
    assert!(matches!(after_decode::<u8>(Ok(None)), StreamAction::ReadIn));
    assert!(matches!(after_decode::<u8>(Err(io::Error::from(io::ErrorKind::Other))), StreamAction::Fail(_)));
}

#[test]
fn framed_round_trip_accessors() {
    let io = IoBuf::new(MockData::new());
    let f = tk_bufstream::frame::framed(io, Lines);
    assert!(!f.get_ref().done());
    let io = f.into_inner();
    assert_eq!(&io.in_buf[..], b"");
    let _ = Write::flush(&mut MockData::new());
}
