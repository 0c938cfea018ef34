//! The session: a TLS engine over a [`StdAdapter`], driven by polls.
use vstd::prelude::*;

use futures_util::io::{AsyncRead, AsyncWrite};

use native_tls::Certificate as EngineCertificate;
use native_tls::Error as TlsError;
use native_tls::TlsStream as EngineStream;

use crate::engine::{
    engine_buffered_read_size, engine_flush, engine_peer_certificate, engine_read, engine_shutdown,
    engine_tls_server_end_point, engine_write, transport_of,
};
use crate::io_model::{clone_waker, is_would_block};
use crate::std_adapter::StdAdapter;

verus! {

/// What a poll reports for a blocking call's outcome: would-block becomes a
/// suspension, anything else is the poll's result.
pub open spec fn classified<T>(r: std::io::Result<T>, p: std::task::Poll<std::io::Result<T>>) -> bool {
    match r {
        Ok(v) => p == std::task::Poll::Ready(Ok::<T, std::io::Error>(v)),
        Err(e) => if is_would_block(e) {
            p is Pending
        } else {
            p == std::task::Poll::Ready(Err::<T, std::io::Error>(e))
        },
    }
}

/// A poll result in which the would-block condition does not appear.
pub open spec fn settled<T>(p: std::task::Poll<std::io::Result<T>>) -> bool {
    p matches std::task::Poll::Ready(Err(e)) ==> !is_would_block(e)
}

/// A poll result that reports success.
pub open spec fn completed<T>(p: std::task::Poll<std::io::Result<T>>) -> bool {
    p matches std::task::Poll::Ready(Ok(_))
}

/// A poll result that, when it reports a byte count, reports at most `len`.
pub open spec fn within(p: std::task::Poll<std::io::Result<usize>>, len: usize) -> bool {
    p matches std::task::Poll::Ready(Ok(n)) ==> n <= len
}

/// Classifies the outcome of a blocking engine call for a poll.
pub fn cvt<T>(r: std::io::Result<T>) -> (p: std::task::Poll<std::io::Result<T>>)
    ensures
        classified(r, p),
        settled(p),
{
    match r {
        Ok(v) => std::task::Poll::Ready(Ok(v)),
        Err(e) => {
            if crate::io_model::would_block(&e) {
                std::task::Poll::Pending
            } else {
                std::task::Poll::Ready(Err(e))
            }
        },
    }
}

/// A stream managing a TLS session over the transport `S`.
///
/// It represents a completed handshake: bytes read from it were decrypted
/// from `S`, bytes written to it are encrypted on their way to `S`.
#[derive(Debug)]
#[verifier::reject_recursive_types(S)]
pub struct TlsStream<S> {
    engine: EngineStream<StdAdapter<S>>,
    closed: bool,
}

/// Holds a session while the polling task's waker is lent to its adapter, and
/// takes the waker back when it goes, however the engine call ended.
#[verifier::reject_recursive_types(S)]
struct Guard<'a, S> {
    engine: &'a mut EngineStream<StdAdapter<S>>,
}

impl<'a, S> Drop for Guard<'a, S> {
    fn drop(&mut self)
        opens_invariants none
        no_unwind
    {
        transport_of(self.engine).clear();
    }
}

impl<S> TlsStream<S> {
    /// Whether a close of the session has already completed.
    pub closed spec fn is_closed(&self) -> bool {
        self.closed
    }

    pub(crate) fn new(engine: EngineStream<StdAdapter<S>>) -> (r: TlsStream<S>)
        ensures
            !r.is_closed(),
    {
        TlsStream { engine, closed: false }
    }

}

/// Runs one engine call, `f(engine, arg)`, with the task's waker lent to the
/// adapter; the guard takes it back on every way out of the call.
fn with_context<S, A, F, R>(
    engine: &mut EngineStream<StdAdapter<S>>,
    cx: &mut std::task::Context<'_>,
    arg: A,
    f: F,
) -> (r: R)
    where
        F: FnOnce(&mut EngineStream<StdAdapter<S>>, A) -> R,
    requires
        forall|e: &mut EngineStream<StdAdapter<S>>| call_requires(f, (e, arg)),
    ensures
        exists|e: &mut EngineStream<StdAdapter<S>>| call_ensures(f, (e, arg), r),
{
    let waker = clone_waker(cx.waker());
    transport_of(engine).install(waker);
    let g = Guard { engine };
    f(g.engine, arg)
}

impl<S: AsyncRead + AsyncWrite + Unpin> TlsStream<S> {
    /// Reads decrypted bytes into `buf`: `Ready(Ok(n))` with the count placed
    /// at its start, `Pending` while the transport is not ready, or the
    /// engine's error.
    pub fn read_poll(&mut self, cx: &mut std::task::Context<'_>, buf: &mut [u8]) -> (r:
        std::task::Poll<std::io::Result<usize>>)
        ensures
            settled(r),
            within(r, old(buf)@.len() as usize),
            final(self).is_closed() == old(self).is_closed(),
    {
        let len = buf.len();
        let call = |s: &mut EngineStream<StdAdapter<S>>, b: &mut [u8]| -> (p: std::task::Poll<std::io::Result<usize>>)
            requires
                old(b)@.len() == len,
            ensures
                settled(p),
                within(p, len),
        { cvt(engine_read(s, b)) };
        with_context(&mut self.engine, cx, buf, call)
    }

    /// Writes bytes of `buf` into the session: `Ready(Ok(n))` with the count
    /// of leading bytes taken, `Pending` while the transport is not ready, or
    /// the engine's error.
    pub fn write_poll(&mut self, cx: &mut std::task::Context<'_>, buf: &[u8]) -> (r:
        std::task::Poll<std::io::Result<usize>>)
        ensures
            settled(r),
            within(r, buf@.len() as usize),
            final(self).is_closed() == old(self).is_closed(),
    {
        let len = buf.len();
        let call = |s: &mut EngineStream<StdAdapter<S>>, b: &[u8]| -> (p: std::task::Poll<std::io::Result<usize>>)
            requires
                b@.len() == len,
            ensures
                settled(p),
                within(p, len),
        { cvt(engine_write(s, b)) };
        with_context(&mut self.engine, cx, buf, call)
    }

    /// Flushes what the engine has buffered to the transport.
    pub fn flush_poll(&mut self, cx: &mut std::task::Context<'_>) -> (r: std::task::Poll<
        std::io::Result<()>,
    >)
        ensures
            settled(r),
            final(self).is_closed() == old(self).is_closed(),
    {
        let call = |s: &mut EngineStream<StdAdapter<S>>, u: ()| -> (p: std::task::Poll<std::io::Result<()>>)
            ensures
                settled(p),
        { cvt(engine_flush(s)) };
        with_context(&mut self.engine, cx, (), call)
    }

    /// Shuts the session down. Once a close has completed, later ones report
    /// completion again without touching the engine.
    pub fn close_poll(&mut self, cx: &mut std::task::Context<'_>) -> (r: std::task::Poll<
        std::io::Result<()>,
    >)
        ensures
            settled(r),
            old(self).is_closed() ==> completed(r),
            final(self).is_closed() == completed(r),
    {
        if self.closed {
            return std::task::Poll::Ready(Ok(()));
        }
        let call = |s: &mut EngineStream<StdAdapter<S>>, u: ()| -> (p: std::task::Poll<std::io::Result<()>>)
            ensures
                settled(p),
        { cvt(engine_shutdown(s)) };
        let r = with_context(&mut self.engine, cx, (), call);
        if let std::task::Poll::Ready(Ok(())) = &r {
            self.closed = true;
        }
        r
    }

    /// Reports whether the adapter holds a lent waker; between polls it never does.
    pub fn has_context(&self) -> bool {
        self.engine.get_ref().has_context()
    }

    /// Returns a shared reference to the inner stream.
    pub fn get_ref(&self) -> &S {
        self.engine.get_ref().get_ref()
    }

    /// Returns a mutable reference to the inner stream.
    pub fn get_mut(&mut self) -> &mut S {
        transport_of(&mut self.engine).get_mut()
    }

    /// Returns the number of bytes that can be read without resulting in any network calls.
    pub fn buffered_read_size(&self) -> Result<usize, TlsError> {
        engine_buffered_read_size(&self.engine)
    }

    /// Returns the peer's leaf certificate, if available.
    pub fn peer_certificate(&self) -> Result<Option<EngineCertificate>, TlsError> {
        engine_peer_certificate(&self.engine)
    }

    /// Returns the tls-server-end-point channel binding data as defined in RFC 5929.
    pub fn tls_server_end_point(&self) -> Result<Option<Vec<u8>>, TlsError> {
        engine_tls_server_end_point(&self.engine)
    }
}

impl<S> Unpin for TlsStream<S> {

}

impl<S: AsyncRead + AsyncWrite + Unpin> AsyncRead for TlsStream<S> {
    fn poll_read(
        self: std::pin::Pin<&mut Self>,
        cx: &mut std::task::Context<'_>,
        buf: &mut [u8],
    ) -> std::task::Poll<std::io::Result<usize>> {
        std::pin::Pin::get_mut(self).read_poll(cx, buf)
    }
}

impl<S: AsyncRead + AsyncWrite + Unpin> AsyncWrite for TlsStream<S> {
    fn poll_write(
        self: std::pin::Pin<&mut Self>,
        cx: &mut std::task::Context<'_>,
        buf: &[u8],
    ) -> std::task::Poll<std::io::Result<usize>> {
        std::pin::Pin::get_mut(self).write_poll(cx, buf)
    }

    fn poll_flush(self: std::pin::Pin<&mut Self>, cx: &mut std::task::Context<'_>) -> std::task::Poll<
        std::io::Result<()>,
    > {
        std::pin::Pin::get_mut(self).flush_poll(cx)
    }

    fn poll_close(self: std::pin::Pin<&mut Self>, cx: &mut std::task::Context<'_>) -> std::task::Poll<
        std::io::Result<()>,
    > {
        std::pin::Pin::get_mut(self).close_poll(cx)
    }
}

} // verus!
