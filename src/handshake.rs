//! The handshake driver: starts the engine's handshake over an adapter and
//! takes it up again each time the task is woken, until it is established or
//! has failed.
use vstd::prelude::*;

use native_tls::Error as TlsError;
use native_tls::HandshakeError;
use native_tls::MidHandshakeTlsStream;
use native_tls::TlsAcceptor as EngineAcceptor;
use native_tls::TlsConnector as EngineConnector;
use native_tls::TlsStream as EngineStream;

use crate::engine::{engine_accept, engine_connect, engine_resume, transport_of};
use crate::io_model::clone_waker;
use crate::std_adapter::StdAdapter;
use crate::tls_stream::TlsStream;

verus! {

/// What the engine reports for one handshake attempt over an adapter.
pub type Attempt<S> = Result<EngineStream<StdAdapter<S>>, HandshakeError<StdAdapter<S>>>;

/// The client side: a connector, or the error building it gave, and the
/// domain to connect to.
pub struct Client {
    connector: Result<EngineConnector, TlsError>,
    domain: String,
}

impl Client {
    #[verifier::type_invariant]
    spec fn domain_fits(self) -> bool {
        !self.domain@.contains('\0')
    }

    /// The domain handed to the engine, for SNI and hostname verification.
    pub closed spec fn domain(&self) -> Seq<char> {
        self.domain@
    }

    /// The connector, or the error building it gave.
    pub closed spec fn connector(&self) -> Result<EngineConnector, TlsError> {
        self.connector
    }

    /// A client side for `domain`, which must hold no NUL character.
    pub fn new(connector: Result<EngineConnector, TlsError>, domain: String) -> (r: Client)
        requires
            !domain@.contains('\0'),
        ensures
            r.domain() == domain@,
            r.connector() == connector,
    {
        Client { connector, domain }
    }
}

/// The side that starts a handshake: a client, or a server answering with
/// its acceptor.
pub enum Role<'a> {
    Client(Client),
    Server(&'a EngineAcceptor),
}

/// The error a role fails with before the engine is asked, if any: that of
/// a client connector which could not be built.
pub open spec fn refusal(role: Role) -> Option<TlsError> {
    match role {
        Role::Client(c) => match c.connector() {
            Ok(_) => None,
            Err(e) => Some(e),
        },
        Role::Server(_) => None,
    }
}

/// What starting the handshake for `role` may give.
pub open spec fn start_outcome<S>(role: Role, r: Attempt<S>) -> bool {
    refusal(role) matches Some(e) ==> r == Err::<
        EngineStream<StdAdapter<S>>,
        HandshakeError<StdAdapter<S>>,
    >(HandshakeError::Failure(e))
}

/// Starts the handshake for `role` over `adapter`.
pub fn begin<'a, S>(role: Role<'a>, adapter: StdAdapter<S>) -> (r: Attempt<S>) where
    StdAdapter<S>: std::io::Read + std::io::Write,

    ensures
        start_outcome(role, r),
{
    match role {
        Role::Client(c) => {
            proof {
                use_type_invariant(&c);
            }
            match c.connector {
                Ok(e) => engine_connect(&e, c.domain.as_str(), adapter),
                Err(e) => Err(HandshakeError::Failure(e)),
            }
        },
        Role::Server(a) => engine_accept(a, adapter),
    }
}

/// Takes an interrupted handshake up again.
pub fn resume<S>(mid: MidHandshakeTlsStream<StdAdapter<S>>) -> Attempt<S> where
    StdAdapter<S>: std::io::Read + std::io::Write,
 {
    engine_resume(mid)
}

/// Where a handshake stands.
pub enum Phase {
    /// Nothing has been asked of the engine yet.
    Started,
    /// The engine waits for the transport; a wake takes it up again.
    Suspended,
    /// The session is established.
    Established,
    /// The engine reported a fatal error.
    Failed,
}

/// Whether a handshake in this phase is over.
pub open spec fn finished(p: Phase) -> bool {
    p is Established || p is Failed
}

/// The phase that a poll's result shows a handshake to be in.
pub open spec fn reached<S>(r: std::task::Poll<Result<TlsStream<S>, TlsError>>) -> Phase {
    match r {
        std::task::Poll::Pending => Phase::Suspended,
        std::task::Poll::Ready(Ok(_)) => Phase::Established,
        std::task::Poll::Ready(Err(_)) => Phase::Failed,
    }
}

/// What a poll reports for one attempt: an established session, a
/// suspension that keeps the interrupted handshake, or the engine's error.
pub open spec fn settled_as<S>(
    attempt: Attempt<S>,
    r: std::task::Poll<Result<TlsStream<S>, TlsError>>,
    kept: Option<MidHandshakeTlsStream<StdAdapter<S>>>,
) -> bool {
    match attempt {
        Ok(_) => r matches std::task::Poll::Ready(Ok(t)) && !t.is_closed() && kept is None,
        Err(HandshakeError::WouldBlock(_)) => r is Pending && kept is Some,
        Err(HandshakeError::Failure(e)) => r == std::task::Poll::Ready(
            Err::<TlsStream<S>, TlsError>(e),
        ) && kept is None,
    }
}

/// Turns one attempt into what the poll reports, taking the lent waker back
/// from whatever the engine kept.
pub fn settle<S>(attempt: Attempt<S>) -> (r: (
    std::task::Poll<Result<TlsStream<S>, TlsError>>,
    Option<MidHandshakeTlsStream<StdAdapter<S>>>,
))
    ensures
        settled_as(attempt, r.0, r.1),
{
    match attempt {
        Ok(mut engine) => {
            transport_of(&mut engine).clear();
            (std::task::Poll::Ready(Ok(TlsStream::new(engine))), None)
        },
        Err(HandshakeError::WouldBlock(mut mid)) => {
            mid.get_mut().clear();
            (std::task::Poll::Pending, Some(mid))
        },
        Err(HandshakeError::Failure(e)) => (std::task::Poll::Ready(Err(e)), None),
    }
}

#[verifier::reject_recursive_types(S)]
enum Stage<'a, S> {
    Start(Role<'a>, S),
    Mid(MidHandshakeTlsStream<StdAdapter<S>>),
    Established,
    Failed,
}

/// A handshake in progress, as a future of the established session.
///
/// Each poll asks the engine exactly once; it is never retried but by a wake.
#[verifier::reject_recursive_types(S)]
pub struct Handshake<'a, S> {
    stage: Stage<'a, S>,
    attempts: Ghost<nat>,
}

/// A poll of a handshake as `before`, answered with `r`, that leaves it as `after`.
pub open spec fn stepped<'a, S>(
    before: Handshake<'a, S>,
    r: std::task::Poll<Result<TlsStream<S>, TlsError>>,
    after: Handshake<'a, S>,
) -> bool {
    if finished(before.phase()) {
        r is Pending && after.phase() == before.phase() && after.attempts() == before.attempts()
    } else {
        after.phase() == reached(r) && after.attempts() == before.attempts() + 1
    }
}

impl<'a, S> Handshake<'a, S> {
    /// The phase of the handshake.
    pub closed spec fn phase(self) -> Phase {
        match self.stage {
            Stage::Start(_, _) => Phase::Started,
            Stage::Mid(_) => Phase::Suspended,
            Stage::Established => Phase::Established,
            Stage::Failed => Phase::Failed,
        }
    }

    /// How many times the engine has been asked.
    pub closed spec fn attempts(self) -> nat {
        self.attempts@
    }

    /// The side that will start the handshake, until it has.
    pub closed spec fn role(self) -> Option<Role<'a>> {
        match self.stage {
            Stage::Start(role, _) => Some(role),
            _ => None,
        }
    }

    /// The error the handshake fails with at its first poll, before the
    /// engine is asked, if any.
    pub open spec fn refused(self) -> Option<TlsError> {
        match self.role() {
            Some(role) => refusal(role),
            None => None,
        }
    }

    /// The transport that the handshake will run over, until it has started.
    pub closed spec fn stream(self) -> Option<S> {
        match self.stage {
            Stage::Start(_, stream) => Some(stream),
            _ => None,
        }
    }

    /// A handshake that `role` will begin over `stream` at the first poll.
    pub fn new(role: Role<'a>, stream: S) -> (r: Handshake<'a, S>)
        ensures
            r.phase() == Phase::Started,
            r.attempts() == 0,
            r.role() == Some(role),
            r.stream() == Some(stream),
    {
        Handshake {
            stage: Stage::Start(role, stream),
            attempts: Ghost(0),
        }
    }
}

impl<'a, S> Handshake<'a, S> where StdAdapter<S>: std::io::Read + std::io::Write {
    /// Asks the engine once, with the task's waker lent to the adapter for
    /// that call only. A role that refuses fails at its first poll with its
    /// error, before any transport call.
    pub fn step(&mut self, cx: &mut std::task::Context<'_>) -> (r: std::task::Poll<
        Result<TlsStream<S>, TlsError>,
    >)
        ensures
            stepped(*old(self), r, *final(self)),
            old(self).refused() matches Some(e) ==> r == std::task::Poll::Ready(
                Err::<TlsStream<S>, TlsError>(e),
            ),
    {
        let mut stage = Stage::Failed;
        std::mem::swap(&mut self.stage, &mut stage);
        let attempt = match stage {
            Stage::Start(role, stream) => {
                let mut adapter = StdAdapter::new(stream);
                adapter.install(clone_waker(cx.waker()));
                begin(role, adapter)
            },
            Stage::Mid(mut mid) => {
                mid.get_mut().install(clone_waker(cx.waker()));
                resume(mid)
            },
            Stage::Established => {
                self.stage = Stage::Established;
                return std::task::Poll::Pending;
            },
            Stage::Failed => {
                return std::task::Poll::Pending;
            },
        };
        self.attempts = Ghost(self.attempts@ + 1);
        let (r, kept) = settle(attempt);
        match kept {
            Some(mid) => {
                self.stage = Stage::Mid(mid);
            },
            None => {
                if let std::task::Poll::Ready(Ok(_)) = &r {
                    self.stage = Stage::Established;
                }
            },
        }
        r
    }

    /// The handshake driven as a future of the established session.
    pub fn drive(self) -> (r: Driven<
        Handshake<'a, S>,
        Result<TlsStream<S>, TlsError>,
        impl Fn(&mut Handshake<'a, S>, &mut std::task::Context<'_>) -> std::task::Poll<Result<TlsStream<S>, TlsError>>,
    >) {
        Driven::new(self, |h: &mut Handshake<'a, S>, cx: &mut std::task::Context<'_>| h.step(cx))
    }
}

/// A handshake that the engine interrupts once, waiting for the transport,
/// and completes at the next poll goes from `Started` through `Suspended` to
/// `Established`, having asked the engine twice: once per poll, never more.
pub proof fn lemma_interrupted_once<'a, S>(
    h0: Handshake<'a, S>,
    r1: std::task::Poll<Result<TlsStream<S>, TlsError>>,
    h1: Handshake<'a, S>,
    r2: std::task::Poll<Result<TlsStream<S>, TlsError>>,
    h2: Handshake<'a, S>,
)
    requires
        h0.phase() == Phase::Started,
        stepped(h0, r1, h1),
        r1 is Pending,
        stepped(h1, r2, h2),
        r2 matches std::task::Poll::Ready(Ok(_)),
    ensures
        h1.phase() == Phase::Suspended,
        h2.phase() == Phase::Established,
        h2.attempts() == h0.attempts() + 2,
{
}

/// A handshake that has failed stays failed: later polls report nothing and
/// never ask the engine again.
pub proof fn lemma_no_retry_after_failure<'a, S>(
    h0: Handshake<'a, S>,
    r: std::task::Poll<Result<TlsStream<S>, TlsError>>,
    h1: Handshake<'a, S>,
)
    requires
        h0.phase() == Phase::Failed,
        stepped(h0, r, h1),
    ensures
        r is Pending,
        h1.phase() == Phase::Failed,
        h1.attempts() == h0.attempts(),
{
}

/// A poll function that may be called on any value.
#[verifier::reject_recursive_types(H)]
#[verifier::reject_recursive_types(O)]
pub struct PollWith<H, O, F> where
    F: Fn(&mut H, &mut std::task::Context<'_>) -> std::task::Poll<O>,
 {
    f: F,
    output: std::marker::PhantomData<(H, O)>,
}

impl<H, O, F> PollWith<H, O, F> where
    F: Fn(&mut H, &mut std::task::Context<'_>) -> std::task::Poll<O>,
 {
    #[verifier::type_invariant]
    spec fn callable(self) -> bool {
        forall|h: &mut H, cx: &mut std::task::Context<'_>| call_requires(self.f, (h, cx))
    }

    /// Wraps `f`, which must take any value and context.
    pub fn new(f: F) -> PollWith<H, O, F>
        requires
            forall|h: &mut H, cx: &mut std::task::Context<'_>| call_requires(f, (h, cx)),
    {
        PollWith { f, output: std::marker::PhantomData }
    }

    /// Polls `inner`.
    pub fn poll(&self, inner: &mut H, cx: &mut std::task::Context<'_>) -> std::task::Poll<O> {
        proof {
            use_type_invariant(self);
        }
        (self.f)(inner, cx)
    }
}

/// A value polled, as a future, through a poll function.
#[verifier::reject_recursive_types(H)]
#[verifier::reject_recursive_types(O)]
pub struct Driven<H, O, F> where
    F: Fn(&mut H, &mut std::task::Context<'_>) -> std::task::Poll<O>,
 {
    inner: H,
    poll_with: PollWith<H, O, F>,
}

impl<H, O, F> Driven<H, O, F> where
    F: Fn(&mut H, &mut std::task::Context<'_>) -> std::task::Poll<O>,
 {
    /// The value being polled.
    pub closed spec fn inner(self) -> H {
        self.inner
    }

    /// Polls `inner` through `poll_with`.
    pub fn new(inner: H, poll_with: F) -> (r: Driven<H, O, F>)
        requires
            forall|h: &mut H, cx: &mut std::task::Context<'_>| call_requires(poll_with, (h, cx)),
        ensures
            r.inner() == inner,
    {
        Driven { inner, poll_with: PollWith::new(poll_with) }
    }
}

impl<H, O, F> Unpin for Driven<H, O, F> where
    F: Fn(&mut H, &mut std::task::Context<'_>) -> std::task::Poll<O>,
 {

}

impl<H, O, F> std::future::Future for Driven<H, O, F> where
    F: Fn(&mut H, &mut std::task::Context<'_>) -> std::task::Poll<O>,
 {
    type Output = O;

    fn poll(self: std::pin::Pin<&mut Self>, cx: &mut std::task::Context<'_>) -> std::task::Poll<O> {
        let this = std::pin::Pin::get_mut(self);
        this.poll_with.poll(&mut this.inner, cx)
    }
}

} // verus!
