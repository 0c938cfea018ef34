use std::collections::VecDeque;
use std::future::Future;
use std::io;
use std::pin::Pin;
use std::sync::atomic::{AtomicUsize, Ordering};
use std::sync::{Arc, Mutex};
use std::task::{Context, Poll, Waker};

use async_native_tls::{AcceptError, Host, HostError, TlsAcceptor, TlsConnector, TlsStream};
use futures_util::io::{AsyncRead, AsyncReadExt, AsyncWrite, AsyncWriteExt};

use openssl::asn1::Asn1Time;
use openssl::bn::BigNum;
use openssl::hash::MessageDigest;
use openssl::pkcs12::Pkcs12;
use openssl::pkey::PKey;
use openssl::rsa::Rsa;
use openssl::x509::{X509Builder, X509NameBuilder};

/// One direction of an in-memory connection.
#[derive(Debug, Default)]
struct Lane {
    bytes: VecDeque<u8>,
    closed: bool,
    reader: Option<Waker>,
}

/// One end of an in-memory connection, with a count of read attempts that
/// are to report "not ready" before the next real one.
#[derive(Debug)]
struct End {
    rx: Arc<Mutex<Lane>>,
    tx: Arc<Mutex<Lane>>,
    stalls: Arc<AtomicUsize>,
    read_attempts: Arc<AtomicUsize>,
}

fn duplex() -> (End, End) {
    let a = Arc::new(Mutex::new(Lane::default()));
    let b = Arc::new(Mutex::new(Lane::default()));
    let left = End {
        rx: a.clone(),
        tx: b.clone(),
        stalls: Arc::new(AtomicUsize::new(0)),
        read_attempts: Arc::new(AtomicUsize::new(0)),
    };
    let right = End {
        rx: b,
        tx: a,
        stalls: Arc::new(AtomicUsize::new(0)),
        read_attempts: Arc::new(AtomicUsize::new(0)),
    };
    (left, right)
}

impl AsyncRead for End {
    fn poll_read(self: Pin<&mut Self>, cx: &mut Context<'_>, buf: &mut [u8]) -> Poll<io::Result<usize>> {
        self.read_attempts.fetch_add(1, Ordering::SeqCst);
        if self.stalls.load(Ordering::SeqCst) > 0 {
            self.stalls.fetch_sub(1, Ordering::SeqCst);
            cx.waker().wake_by_ref();
            return Poll::Pending;
        }
        let mut lane = self.rx.lock().unwrap();
        if lane.bytes.is_empty() {
            if lane.closed {
                return Poll::Ready(Ok(0));
            }
            lane.reader = Some(cx.waker().clone());
            return Poll::Pending;
        }
        let n = buf.len().min(lane.bytes.len());
        for slot in buf.iter_mut().take(n) {
            *slot = lane.bytes.pop_front().unwrap();
        }
        Poll::Ready(Ok(n))
    }
}

impl AsyncWrite for End {
    fn poll_write(self: Pin<&mut Self>, _cx: &mut Context<'_>, buf: &[u8]) -> Poll<io::Result<usize>> {
        let mut lane = self.tx.lock().unwrap();
        lane.bytes.extend(buf.iter().copied());
        if let Some(w) = lane.reader.take() {
            w.wake();
        }
        Poll::Ready(Ok(buf.len()))
    }

    fn poll_flush(self: Pin<&mut Self>, _cx: &mut Context<'_>) -> Poll<io::Result<()>> {
        Poll::Ready(Ok(()))
    }

    fn poll_close(self: Pin<&mut Self>, _cx: &mut Context<'_>) -> Poll<io::Result<()>> {
        let mut lane = self.tx.lock().unwrap();
        lane.closed = true;
        if let Some(w) = lane.reader.take() {
            w.wake();
        }
        Poll::Ready(Ok(()))
    }
}

/// A transport whose reads fail with a reset connection.
struct Broken;

impl AsyncRead for Broken {
    fn poll_read(self: Pin<&mut Self>, _cx: &mut Context<'_>, _buf: &mut [u8]) -> Poll<io::Result<usize>> {
        Poll::Ready(Err(io::Error::from(io::ErrorKind::ConnectionReset)))
    }
}

impl AsyncWrite for Broken {
    fn poll_write(self: Pin<&mut Self>, _cx: &mut Context<'_>, _buf: &[u8]) -> Poll<io::Result<usize>> {
        Poll::Ready(Err(io::Error::from(io::ErrorKind::ConnectionReset)))
    }

    fn poll_flush(self: Pin<&mut Self>, _cx: &mut Context<'_>) -> Poll<io::Result<()>> {
        Poll::Ready(Ok(()))
    }

    fn poll_close(self: Pin<&mut Self>, _cx: &mut Context<'_>) -> Poll<io::Result<()>> {
        Poll::Ready(Ok(()))
    }
}

/// A self-signed identity for `localhost`, as a PKCS #12 archive under `password`.
fn self_signed_identity(password: &str) -> Vec<u8> {
    self_signed(password).0
}

/// A self-signed identity for `localhost` under `password`, and its certificate in DER.
fn self_signed(password: &str) -> (Vec<u8>, Vec<u8>) {
    let key = PKey::from_rsa(Rsa::generate(2048).unwrap()).unwrap();
    let mut name = X509NameBuilder::new().unwrap();
    name.append_entry_by_text("CN", "localhost").unwrap();
    let name = name.build();
    let mut cert = X509Builder::new().unwrap();
    cert.set_version(2).unwrap();
    let serial = BigNum::from_u32(1).unwrap().to_asn1_integer().unwrap();
    cert.set_serial_number(&serial).unwrap();
    cert.set_subject_name(&name).unwrap();
    cert.set_issuer_name(&name).unwrap();
    cert.set_pubkey(&key).unwrap();
    cert.set_not_before(&Asn1Time::days_from_now(0).unwrap()).unwrap();
    cert.set_not_after(&Asn1Time::days_from_now(30).unwrap()).unwrap();
    cert.sign(&key, MessageDigest::sha256()).unwrap();
    let cert = cert.build();
    let archive = Pkcs12::builder().name("test").pkey(&key).cert(&cert).build2(password).unwrap();
    (archive.to_der().unwrap(), cert.to_der().unwrap())
}

/// A client and a server session over an in-memory connection, the client
/// trusting any certificate.
fn established() -> (TlsStream<End>, TlsStream<End>) {
    let acceptor = TlsAcceptor::new(&self_signed_identity("hello"), "hello").unwrap();
    let (client_end, server_end) = duplex();
    let connector = TlsConnector::new().danger_accept_invalid_certs(true);
    let (client, server) = async_std::task::block_on(futures_util::future::join(
        connector.connect("localhost", client_end).unwrap().drive(),
        acceptor.accept(server_end).drive(),
    ));
    (client.unwrap(), server.unwrap())
}

#[test]
fn test_acceptor() {
    let acceptor = TlsAcceptor::new(&self_signed_identity("hello"), "hello").unwrap();
    let (client_end, server_end) = duplex();
    let server = async {
        let acceptor = acceptor.clone();
        let mut stream = acceptor.accept(server_end).drive().await.unwrap();
        stream.write_all(b"hello").await.unwrap();
        stream.close().await.unwrap();
    };
    let client = async {
        let connector = TlsConnector::new().danger_accept_invalid_certs(true);
        let mut stream = connector.connect("127.0.0.1", client_end).unwrap().drive().await.unwrap();
        let mut res = Vec::new();
        stream.read_to_end(&mut res).await.unwrap();
        res
    };
    let (_, res) = async_std::task::block_on(futures_util::future::join(server, client));
    assert_eq!(res, b"hello");
}

#[test]
fn self_signed_certificate_is_refused_by_default() {
    let acceptor = TlsAcceptor::new(&self_signed_identity("hello"), "hello").unwrap();
    let (client_end, server_end) = duplex();
    let connector = TlsConnector::new().danger_accept_invalid_certs(false);
    let (client, _server) = async_std::task::block_on(futures_util::future::join(
        connector.connect("localhost", client_end).unwrap().drive(),
        acceptor.accept(server_end).drive(),
    ));
    assert!(client.is_err());
}

#[test]
fn accepting_invalid_certificates_lets_hello_through() {
    let (mut client, mut server) = established();
    async_std::task::block_on(async {
        client.write_all(b"hello").await.unwrap();
        client.flush().await.unwrap();
        let mut buf = [0u8; 5];
        server.read_exact(&mut buf).await.unwrap();
        assert_eq!(&buf, b"hello");
    });
}

#[test]
fn bytes_arrive_whole_and_in_order() {
    let (mut client, mut server) = established();
    let sent: Vec<u8> = (0..100_000u32).map(|i| (i * 7 % 251) as u8).collect();
    let received = async_std::task::block_on(async {
        client.write_all(&sent).await.unwrap();
        client.close().await.unwrap();
        let mut received = Vec::new();
        server.read_to_end(&mut received).await.unwrap();
        received
    });
    assert_eq!(received, sent);
}

#[test]
fn two_stalled_reads_give_two_suspensions() {
    let (mut client, mut server) = established();
    async_std::task::block_on(async {
        client.write_all(b"payload").await.unwrap();
        client.flush().await.unwrap();
    });
    server.get_ref().stalls.store(2, Ordering::SeqCst);
    let mut cx = Context::from_waker(Waker::noop());
    let mut buf = [0u8; 64];
    let mut suspensions = 0;
    let n = loop {
        match server.read_poll(&mut cx, &mut buf) {
            Poll::Pending => suspensions += 1,
            Poll::Ready(r) => break r.unwrap(),
        }
    };
    assert_eq!(suspensions, 2);
    assert_eq!(&buf[..n], b"payload");
    assert!(!server.has_context());
}

#[test]
fn close_completes_again_after_completion() {
    let (mut client, _server) = established();
    let mut cx = Context::from_waker(Waker::noop());
    assert!(matches!(client.close_poll(&mut cx), Poll::Ready(Ok(()))));
    assert!(matches!(client.close_poll(&mut cx), Poll::Ready(Ok(()))));
    assert!(matches!(Pin::new(&mut client).poll_close(&mut cx), Poll::Ready(Ok(()))));
}

#[test]
fn waker_is_lent_only_during_a_call() {
    let (mut client, mut server) = established();
    assert!(!client.has_context());
    assert!(!server.has_context());
    let mut cx = Context::from_waker(Waker::noop());
    let mut buf = [0u8; 16];
    assert!(server.read_poll(&mut cx, &mut buf).is_pending());
    assert!(!server.has_context());
    assert!(matches!(client.write_poll(&mut cx, b"x"), Poll::Ready(Ok(1))));
    assert!(!client.has_context());
    assert!(matches!(client.flush_poll(&mut cx), Poll::Ready(Ok(()))));
    assert!(!client.has_context());
}

#[test]
fn transport_failure_is_reported_and_waker_taken_back() {
    let acceptor = TlsAcceptor::new(&self_signed_identity("hello"), "hello").unwrap();
    let result = async_std::task::block_on(acceptor.accept(Broken).drive());
    let err = result.err().unwrap();
    assert!(!format!("{}", err).is_empty());
}

#[test]
fn handshake_suspends_once_per_missing_flight() {
    let acceptor = TlsAcceptor::new(&self_signed_identity("hello"), "hello").unwrap();
    let (client_end, server_end) = duplex();
    let connector = TlsConnector::new().danger_accept_invalid_certs(true);
    let mut client = connector.connect("localhost", client_end).unwrap().drive();
    let mut server = acceptor.accept(server_end).drive();
    let mut cx = Context::from_waker(Waker::noop());
    // The client sends its hello and then waits for the server's answer.
    assert!(Pin::new(&mut client).poll(&mut cx).is_pending());
    // Polled again with nothing new on the wire, it is still suspended.
    assert!(Pin::new(&mut client).poll(&mut cx).is_pending());
    let mut client_done = None;
    let mut server_done = None;
    let mut rounds = 0;
    while client_done.is_none() || server_done.is_none() {
        rounds += 1;
        assert!(rounds <= 4, "the handshake does not advance with the flights");
        if server_done.is_none() {
            if let Poll::Ready(r) = Pin::new(&mut server).poll(&mut cx) {
                server_done = Some(r.unwrap());
            }
        }
        if client_done.is_none() {
            if let Poll::Ready(r) = Pin::new(&mut client).poll(&mut cx) {
                client_done = Some(r.unwrap());
            }
        }
    }
    assert!(!client_done.unwrap().has_context());
    assert!(!server_done.unwrap().has_context());
    // Once established, further polls make no new attempt and stay quiet.
    assert!(Pin::new(&mut client).poll(&mut cx).is_pending());
}

#[test]
fn identity_that_does_not_parse_is_an_engine_error() {
    let r = TlsAcceptor::new(b"not an archive", "hello");
    assert!(matches!(r, Err(AcceptError::NativeTls(_))));
}

#[test]
fn wrong_password_is_an_engine_error() {
    let r = TlsAcceptor::new(&self_signed_identity("hello"), "other");
    assert!(matches!(r, Err(AcceptError::NativeTls(_))));
}

#[test]
fn connect_with_a_host_value() {
    let acceptor = TlsAcceptor::new(&self_signed_identity("hello"), "hello").unwrap();
    let (client_end, server_end) = duplex();
    let connector = TlsConnector::new()
        .danger_accept_invalid_certs(true)
        .use_sni(false)
        .danger_accept_invalid_hostnames(true)
        .min_protocol_version(None)
        .max_protocol_version(None);
    let (client, server) = async_std::task::block_on(futures_util::future::join(
        connector.connect(Host::from(String::from("localhost")), client_end).unwrap().drive(),
        acceptor.accept(server_end).drive(),
    ));
    assert!(client.is_ok());
    assert!(server.is_ok());
}

#[test]
fn peer_certificate_is_the_servers() {
    let (client, server) = established();
    assert!(client.peer_certificate().unwrap().is_some());
    assert!(server.peer_certificate().unwrap().is_none());
    assert_eq!(client.buffered_read_size().unwrap(), 0);
    assert!(client.tls_server_end_point().unwrap().is_some());
}

#[test]
fn added_root_certificate_is_trusted() {
    let (identity, cert) = self_signed("hello");
    let acceptor = TlsAcceptor::new(&identity, "hello").unwrap();
    let (client_end, server_end) = duplex();
    let root = async_native_tls::Certificate::from_der(&cert).unwrap();
    let connector = TlsConnector::default().add_root_certificate(root);
    let (client, server) = async_std::task::block_on(futures_util::future::join(
        connector.connect("localhost", client_end).unwrap().drive(),
        acceptor.accept(server_end).drive(),
    ));
    assert!(client.is_ok());
    assert!(server.is_ok());
}

#[test]
fn one_shot_connect_refuses_an_untrusted_server() {
    let acceptor = TlsAcceptor::new(&self_signed_identity("hello"), "hello").unwrap();
    let (client_end, server_end) = duplex();
    let (client, _server) = async_std::task::block_on(futures_util::future::join(
        async_native_tls::connect("localhost", client_end).unwrap().drive(),
        acceptor.accept(server_end).drive(),
    ));
    assert!(client.is_err());
}

#[test]
fn session_is_debug_printable() {
    let (client, _server) = established();
    assert!(!format!("{:?}", client).is_empty());
}

#[test]
fn host_with_nul_is_refused_before_the_engine() {
    let (client_end, _server_end) = duplex();
    let r = TlsConnector::new().connect("local\0host", client_end);
    assert!(matches!(r, Err(HostError::Nul)));
    let (client_end, _server_end) = duplex();
    assert!(matches!(async_native_tls::connect(String::from("a\0"), client_end), Err(HostError::Nul)));
}

#[test]
fn password_with_nul_is_refused_before_the_engine() {
    let r = TlsAcceptor::new(&self_signed_identity("hello"), "hel\0lo");
    assert!(matches!(r, Err(AcceptError::InvalidPassword)));
}

#[test]
fn handshake_steps_one_attempt_per_poll() {
    let acceptor = TlsAcceptor::new(&self_signed_identity("hello"), "hello").unwrap();
    let (client_end, server_end) = duplex();
    let connector = TlsConnector::new().danger_accept_invalid_certs(true);
    let mut client = connector.connect("localhost", client_end).unwrap();
    let mut server = acceptor.accept(server_end);
    let mut cx = Context::from_waker(Waker::noop());
    assert!(client.step(&mut cx).is_pending());
    let mut done = (None, None);
    for _ in 0..4 {
        if done.1.is_none() {
            if let Poll::Ready(r) = server.step(&mut cx) {
                done.1 = Some(r.unwrap());
            }
        }
        if done.0.is_none() {
            if let Poll::Ready(r) = client.step(&mut cx) {
                done.0 = Some(r.unwrap());
            }
        }
    }
    assert!(done.0.is_some() && done.1.is_some());
    assert!(client.step(&mut cx).is_pending());
    assert!(server.step(&mut cx).is_pending());
}
