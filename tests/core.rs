use std::io;
use std::io::Read;
use std::task::Poll;

use async_native_tls::io_model::would_block;
use async_native_tls::std_adapter::poll_to_io;
use async_native_tls::tls_stream::cvt;
use async_native_tls::{Host, StdAdapter};

#[test]
fn cvt_passes_a_value_through() {
    assert!(matches!(cvt(Ok::<usize, io::Error>(7)), Poll::Ready(Ok(7))));
}

#[test]
fn cvt_turns_would_block_into_pending() {
    let r: io::Result<usize> = Err(io::Error::from(io::ErrorKind::WouldBlock));
    assert!(cvt(r).is_pending());
}

#[test]
fn cvt_keeps_other_errors() {
    let r: io::Result<()> = Err(io::Error::from(io::ErrorKind::BrokenPipe));
    match cvt(r) {
        Poll::Ready(Err(e)) => assert_eq!(e.kind(), io::ErrorKind::BrokenPipe),
        _ => panic!("a broken pipe must stay an error"),
    }
}

#[test]
fn would_block_tells_kinds_apart() {
    assert!(would_block(&io::Error::from(io::ErrorKind::WouldBlock)));
    assert!(!would_block(&io::Error::from(io::ErrorKind::Interrupted)));
    assert!(!would_block(&io::Error::other("x")));
}

#[test]
fn pending_becomes_would_block() {
    let r = poll_to_io::<usize>(Poll::Pending);
    assert_eq!(r.unwrap_err().kind(), io::ErrorKind::WouldBlock);
}

#[test]
fn ready_passes_through_the_adapter() {
    assert_eq!(poll_to_io(Poll::Ready(Ok::<usize, io::Error>(3))).unwrap(), 3);
    let e = poll_to_io::<usize>(Poll::Ready(Err(io::Error::from(io::ErrorKind::UnexpectedEof))));
    assert_eq!(e.unwrap_err().kind(), io::ErrorKind::UnexpectedEof);
}

#[test]
fn adapter_starts_and_ends_without_a_waker() {
    let mut a = StdAdapter::new(5u8);
    assert!(!a.has_context());
    a.install(std::task::Waker::noop().clone());
    assert!(a.has_context());
    a.clear();
    assert!(!a.has_context());
    assert_eq!(*a.get_ref(), 5);
    *a.get_mut() = 6;
    assert_eq!(*a.get_ref(), 6);
}

#[test]
fn adapter_without_a_waker_refuses_to_read() {
    let mut a = StdAdapter::new(futures_util::io::Cursor::new(vec![1u8, 2, 3]));
    let mut buf = [0u8; 3];
    let e = a.read(&mut buf).unwrap_err();
    assert_eq!(e.kind(), io::ErrorKind::Other);
}

#[test]
fn adapter_reads_through_a_lent_waker() {
    let mut a = StdAdapter::new(futures_util::io::Cursor::new(vec![1u8, 2, 3]));
    a.install(std::task::Waker::noop().clone());
    let mut buf = [0u8; 8];
    assert_eq!(a.read(&mut buf).unwrap(), 3);
    assert_eq!(&buf[..3], &[1, 2, 3]);
}

#[test]
fn host_keeps_its_text() {
    assert_eq!(Host::from("example.com").as_string(), "example.com");
    assert_eq!(Host::from(String::from("a.b")).as_string(), "a.b");
    assert_eq!(Host::new("").as_string(), "");
}

#[test]
fn host_of_a_url() {
    let u = url::Url::parse("https://example.org:8443/path?q=1").unwrap();
    assert_eq!(Host::from_url(&u).unwrap().as_string(), "example.org");
    let none = url::Url::parse("data:text/plain,hi").unwrap();
    assert!(Host::from_url(&none).is_none());
}
