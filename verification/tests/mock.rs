use std::io::{self, Read, Write};

use tk_bufstream::{
    ErrorKind, FlushAction, FlushEvent, IoBuf, IoError, Mock, MockData, Outcome, OutputRange,
};

fn outcome<T>(r: io::Result<T>) -> Outcome<T> {
    r.map_err(|e| {
        let kind = match e.kind() {
            io::ErrorKind::WouldBlock => ErrorKind::WouldBlock,
            io::ErrorKind::BrokenPipe => ErrorKind::BrokenPipe,
            io::ErrorKind::ConnectionReset => ErrorKind::ConnectionReset,
            _ => ErrorKind::Other,
        };
        IoError { kind, error: e }
    })
}

fn read<S: Read>(buf: &mut IoBuf<S>) -> io::Result<usize> {
    let r = buf.in_buf.read_from(&mut buf.socket);
    buf.read(outcome(r))
}

fn flush<S: Write>(buf: &mut IoBuf<S>) -> io::Result<()> {
    let mut event = FlushEvent::Start;
    loop {
        match buf.flush(event) {
            FlushAction::WriteOut => {
                event = FlushEvent::Wrote(outcome(buf.out_buf.write_to(&mut buf.socket)))
            }
            FlushAction::FlushSocket => {
                event = FlushEvent::SocketFlushed(outcome(buf.socket.flush()))
            }
            FlushAction::Finished(r) => return r,
        }
    }
}

#[test]
fn mock() {
    let mut buf = IoBuf::new(Mock);
    read(&mut buf).ok();
    assert_eq!(&buf.in_buf[..], b"");
    buf.out_buf.extend(b"hello");
    assert_eq!(&buf.out_buf[..], b"hello");
    flush(&mut buf).ok(); // never ready
    assert_eq!(&buf.out_buf[..], b"hello");
}

#[test]
fn mock_data() {
    let mut buf = IoBuf::new(MockData::new());
    read(&mut buf).ok();
    assert_eq!(&buf.in_buf[..], b"");
    buf.socket.add_input(b"test me");
    read(&mut buf).ok();
    assert_eq!(&buf.in_buf[..], b"test me");

    buf.out_buf.extend(b"hello");
    assert_eq!(&buf.out_buf[..], b"hello");
    flush(&mut buf).ok();
    assert_eq!(&buf.out_buf[..], b"");
    assert_eq!(&buf.socket.output(OutputRange::RangeFrom(0))[..], b"hello");
}

#[test]
fn mock_never_ready() {
    let mut m = Mock;
    let mut b = [7u8; 4];
    let r = m.try_read(&mut b);
    assert!(matches!(r, Err(IoError { kind: ErrorKind::WouldBlock, .. })));
    assert_eq!(b, [7u8; 4]);
    assert_eq!(m.read(&mut b).unwrap_err().kind(), io::ErrorKind::WouldBlock);
    assert_eq!(m.write(b"x").unwrap_err().kind(), io::ErrorKind::WouldBlock);
    assert_eq!(Write::flush(&mut m).unwrap_err().kind(), io::ErrorKind::WouldBlock);
    assert_eq!(m.read(&mut b).unwrap_err().to_string(), "No read");
}

#[test]
fn mock_data_reads_in_order() {
    let mut m = MockData::new();
    let mut b = [0u8; 3];
    assert_eq!(m.read(&mut b).unwrap_err().kind(), io::ErrorKind::WouldBlock);
    m.add_input(b"abcd");
    m.add_input(b"ef");
    assert_eq!(m.read(&mut b).unwrap(), 3);
    assert_eq!(&b, b"abc");
    let mut big = [9u8; 5];
    assert_eq!(m.read(&mut big).unwrap(), 3);
    assert_eq!(&big, b"def\x09\x09");
    assert_eq!(m.read(&mut big).unwrap_err().kind(), io::ErrorKind::WouldBlock);
    let mut empty: [u8; 0] = [];
    m.add_input(b"z");
    assert_eq!(m.read(&mut empty).unwrap_err().kind(), io::ErrorKind::WouldBlock);
}

#[test]
fn mock_data_output_ranges() {
    let mut m = MockData::new();
    assert_eq!(m.write(b"hello ").unwrap(), 6);
    m.write(b"world").unwrap();
    assert_eq!(m.output(OutputRange::RangeTo(5)), b"hello".to_vec());
    assert_eq!(m.output(OutputRange::RangeFrom(6)), b"world".to_vec());
    assert_eq!(m.output(OutputRange::Range(2, 4)), b"ll".to_vec());
    assert_eq!(m.get_output(6), b"hello ".to_vec());
    assert_eq!(m.output(OutputRange::RangeFrom(0)), b"world".to_vec());
    assert_eq!(m.get_output(0), Vec::<u8>::new());
    assert_eq!(m.get_output(5), b"world".to_vec());
    assert_eq!(m.output(OutputRange::RangeFrom(0)), Vec::<u8>::new());
}

#[test]
fn mock_data_io_traits() {
    let mut m = MockData::new();
    assert!(Write::flush(&mut m).is_ok());
    assert_eq!(m.try_write(b"ab").ok(), Some(2));
    m.add_input(b"q");
    let mut b = [0u8; 2];
    assert_eq!(m.try_read(&mut b).ok(), Some(1));
    assert_eq!(b, [b'q', 0]);
}
