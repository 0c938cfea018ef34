//! A blocking `Read` / `Write` facade in front of a poll-based transport.
use vstd::prelude::*;

use futures_util::io::{AsyncRead, AsyncWrite};

use crate::io_model::{error_kind, error_of_kind};

verus! {

/// Owns a poll-based transport and, while an engine call is in progress, the
/// waker of the task that made it.
#[derive(Debug)]
pub struct StdAdapter<S> {
    pub(crate) inner: S,
    pub(crate) context: Option<std::task::Waker>,
}

impl<S> StdAdapter<S> {
    /// Whether a waker is lent to the adapter.
    pub closed spec fn installed(&self) -> bool {
        self.context is Some
    }

    /// The transport that the adapter owns.
    pub closed spec fn transport(&self) -> S {
        self.inner
    }

    /// The transport, with no waker lent.
    pub fn new(inner: S) -> (r: StdAdapter<S>)
        ensures
            r.transport() == inner,
            !r.installed(),
    {
        StdAdapter { inner, context: None }
    }

    /// Reports whether a waker is lent to the adapter.
    pub fn has_context(&self) -> (r: bool)
        ensures
            r == self.installed(),
    {
        self.context.is_some()
    }

    /// Lends a waker for the length of one engine call.
    pub fn install(&mut self, waker: std::task::Waker)
        ensures
            final(self).installed(),
            final(self).transport() == old(self).transport(),
    {
        self.context = Some(waker);
    }

    /// Takes the lent waker back.
    pub fn clear(&mut self)
        ensures
            !final(self).installed(),
            final(self).transport() == old(self).transport(),
        opens_invariants none
        no_unwind
    {
        self.context = None;
    }

    /// The transport.
    pub fn get_ref(&self) -> (r: &S)
        ensures
            *r == self.transport(),
    {
        &self.inner
    }

    /// The transport, mutably.
    pub fn get_mut(&mut self) -> (r: &mut S)
        ensures
            *r == old(self).transport(),
            final(self).transport() == *final(r),
            final(self).installed() == old(self).installed(),
    {
        &mut self.inner
    }
}

/// Turns the outcome of a transport poll into that of a blocking call: a
/// transport that is not ready yields the would-block error, anything else
/// passes through as it came.
pub fn poll_to_io<T>(p: std::task::Poll<std::io::Result<T>>) -> (r: std::io::Result<T>)
    ensures
        match p {
            std::task::Poll::Ready(x) => r == x,
            std::task::Poll::Pending => r matches Err(e) && error_kind(e)
                == std::io::ErrorKind::WouldBlock,
        },
{
    match p {
        std::task::Poll::Ready(x) => x,
        std::task::Poll::Pending => Err(error_of_kind(std::io::ErrorKind::WouldBlock)),
    }
}

/// Relies on `AsyncRead::poll_read` of the transport.
#[verifier::external_body]
fn transport_poll_read<S: AsyncRead + Unpin>(
    s: &mut S,
    cx: &mut std::task::Context<'_>,
    buf: &mut [u8],
) -> std::task::Poll<std::io::Result<usize>> {
    std::pin::Pin::new(s).poll_read(cx, buf)
}

/// Relies on `AsyncWrite::poll_write` of the transport.
#[verifier::external_body]
fn transport_poll_write<S: AsyncWrite + Unpin>(
    s: &mut S,
    cx: &mut std::task::Context<'_>,
    buf: &[u8],
) -> std::task::Poll<std::io::Result<usize>> {
    std::pin::Pin::new(s).poll_write(cx, buf)
}

/// Relies on `AsyncWrite::poll_flush` of the transport.
#[verifier::external_body]
fn transport_poll_flush<S: AsyncWrite + Unpin>(
    s: &mut S,
    cx: &mut std::task::Context<'_>,
) -> std::task::Poll<std::io::Result<()>> {
    std::pin::Pin::new(s).poll_flush(cx)
}

/// Reading and writing poll the transport with the lent waker. Called with no
/// waker lent, which the session never does, they fail rather than block.
impl<S: AsyncRead + Unpin> std::io::Read for StdAdapter<S> {
    fn read(&mut self, buf: &mut [u8]) -> std::io::Result<usize> {
        match &self.context {
            Some(waker) => {
                let mut cx = std::task::Context::from_waker(waker);
                poll_to_io(transport_poll_read(&mut self.inner, &mut cx, buf))
            },
            None => Err(error_of_kind(std::io::ErrorKind::Other)),
        }
    }
}

impl<S: AsyncWrite + Unpin> std::io::Write for StdAdapter<S> {
    fn write(&mut self, buf: &[u8]) -> std::io::Result<usize> {
        match &self.context {
            Some(waker) => {
                let mut cx = std::task::Context::from_waker(waker);
                poll_to_io(transport_poll_write(&mut self.inner, &mut cx, buf))
            },
            None => Err(error_of_kind(std::io::ErrorKind::Other)),
        }
    }

    fn flush(&mut self) -> std::io::Result<()> {
        match &self.context {
            Some(waker) => {
                let mut cx = std::task::Context::from_waker(waker);
                poll_to_io(transport_poll_flush(&mut self.inner, &mut cx))
            },
            None => Err(error_of_kind(std::io::ErrorKind::Other)),
        }
    }
}

} // verus!
