//! The service capability: turning a request into a pending response.

use vstd::prelude::*;

verus! {

use crate::message::HttpRequest;
use crate::message::HttpResponse;

/// The one-shot pending computation a service hands back for a single
/// request. Its owner resolves it exactly once; the outcome is either a
/// response or a connection-fatal error of the service's own choosing.
pub struct ResponseFuture<E> {
    outcome: Result<HttpResponse, E>,
}

impl<E> View for ResponseFuture<E> {
    type V = Result<HttpResponse, E>;

    closed spec fn view(&self) -> Result<HttpResponse, E> {
        self.outcome
    }
}

impl<E> ResponseFuture<E> {
    /// Wrap an already-settled outcome as the pending computation for one
    /// request.
    pub fn ready(outcome: Result<HttpResponse, E>) -> (fut: Self)
        ensures
            fut@ == outcome,
    {
        ResponseFuture { outcome }
    }

    /// Resolve the computation, consuming it and yielding its outcome.
    pub fn resolve(self) -> (outcome: Result<HttpResponse, E>)
        ensures
            outcome == self@,
    {
        self.outcome
    }
}

/// An HTTP service.
///
/// An instance represents the application as a whole: a long-lived object,
/// shared by every concurrent caller, that answers one request at a time with
/// a pending response.
///
/// Returning an error tells the server to drop the connection at once (see
/// [`connection_directive`]). It is usually preferable to instead return an
/// HTTP response with an error status code.
pub trait HttpService<E>: Send + Sync + 'static {
    /// Which requests this service stands ready to answer.
    spec fn accepts(&self, req: HttpRequest) -> bool;

    /// Which outcomes this service may deliver for a request: every resolved
    /// respond computation satisfies it.
    spec fn answers(&self, req: HttpRequest, outcome: Result<HttpResponse, E>) -> bool;

    /// Begin handling a single request.
    fn respond(&self, req: HttpRequest) -> (fut: ResponseFuture<E>)
        requires
            self.accepts(req),
        ensures
            self.answers(req, fut@),
    ;
}

/// The adapter that lets a plain function act as a service: it forwards each
/// request to the wrapped function and adds nothing of its own.
pub struct ServiceFn<F> {
    f: F,
}

impl<F> ServiceFn<F> {
    /// The wrapped function.
    pub closed spec fn func(&self) -> F {
        self.f
    }

    /// Wrap a plain function as a service.
    pub fn new(f: F) -> (s: Self)
        ensures
            s.func() == f,
    {
        ServiceFn { f }
    }
}

impl<E, F> HttpService<E> for ServiceFn<F> where
    F: Send + Sync + 'static + Fn(HttpRequest) -> Result<HttpResponse, E>,
 {
    /// The requests the wrapped function itself accepts: the adapter narrows
    /// nothing.
    open spec fn accepts(&self, req: HttpRequest) -> bool {
        call_requires(self.func(), (req,))
    }

    /// Exactly the input-output pairs of the wrapped function: the adapter
    /// introduces no transformation.
    open spec fn answers(&self, req: HttpRequest, outcome: Result<HttpResponse, E>) -> bool {
        call_ensures(self.func(), (req,), outcome)
    }

    fn respond(&self, req: HttpRequest) -> (fut: ResponseFuture<E>) {
        ResponseFuture::ready((self.f)(req))
    }
}

/// Dispatching through the adapter is the same as calling the function: a
/// request is accepted exactly when the function's own precondition admits
/// it, and an outcome is possible exactly when it is a possible result of the
/// function called directly.
pub proof fn lemma_service_fn_transparent<E, F>(
    s: ServiceFn<F>,
    req: HttpRequest,
    outcome: Result<HttpResponse, E>,
) where F: Send + Sync + 'static + Fn(HttpRequest) -> Result<HttpResponse, E>
    ensures
        s.accepts(req) <==> call_requires(s.func(), (req,)),
        s.answers(req, outcome) <==> call_ensures(s.func(), (req,), outcome),
{
}

/// When the wrapped function's contract pins its result on a request, the
/// adapted service delivers that very result for it: resolving the
/// computation that `respond` returned yields what the function would have
/// produced when called directly.
pub proof fn lemma_service_fn_exact<E, F>(
    s: ServiceFn<F>,
    req: HttpRequest,
    expected: Result<HttpResponse, E>,
    outcome: Result<HttpResponse, E>,
) where F: Send + Sync + 'static + Fn(HttpRequest) -> Result<HttpResponse, E>
    requires
        forall|r: Result<HttpResponse, E>| call_ensures(s.func(), (req,), r) ==> r == expected,
        s.answers(req, outcome),
    ensures
        outcome == expected,
{
}

/// Responses are not cross-delivered: when the wrapped function's contract
/// pins its result for each of two requests, each respond outcome is the
/// result belonging to its own request, however many callers share the
/// service and however their calls interleave. (That the shared instance
/// itself tolerates concurrent callers rests on the `Send + Sync` bound the
/// trait demands of every service.)
pub proof fn lemma_service_fn_no_cross_delivery<E, F>(
    s: ServiceFn<F>,
    req1: HttpRequest,
    expected1: Result<HttpResponse, E>,
    outcome1: Result<HttpResponse, E>,
    req2: HttpRequest,
    expected2: Result<HttpResponse, E>,
    outcome2: Result<HttpResponse, E>,
) where F: Send + Sync + 'static + Fn(HttpRequest) -> Result<HttpResponse, E>
    requires
        forall|r: Result<HttpResponse, E>| call_ensures(s.func(), (req1,), r) ==> r == expected1,
        forall|r: Result<HttpResponse, E>| call_ensures(s.func(), (req2,), r) ==> r == expected2,
        s.answers(req1, outcome1),
        s.answers(req2, outcome2),
    ensures
        outcome1 == expected1,
        outcome2 == expected2,
{
}

/// What a server must do with the outcome of a resolved respond computation.
pub enum ConnectionDirective<E> {
    /// Stream this response back to the client.
    SendResponse(HttpResponse),
    /// Drop the connection at once, attempting no response; the error is
    /// handed back for the server's own reporting.
    DropConnection(E),
}

/// The propagation policy of the service error channel: a response is sent
/// back, an error ends the connection at once, with no attempt to salvage a
/// response out of it. Nothing is altered on either path.
pub fn connection_directive<E>(outcome: Result<HttpResponse, E>) -> (d: ConnectionDirective<E>)
    ensures
        outcome matches Ok(resp) ==> d == ConnectionDirective::<E>::SendResponse(resp),
        outcome matches Err(e) ==> d == ConnectionDirective::<E>::DropConnection(e),
{
    match outcome {
        Ok(resp) => ConnectionDirective::SendResponse(resp),
        Err(e) => ConnectionDirective::DropConnection(e),
    }
}

} // verus!
