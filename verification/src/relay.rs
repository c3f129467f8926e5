//! The relay engine: a state machine that turns one inbound HTTP request
//! into exactly one outbound exchange with the configured upstream and one
//! client-visible response.
//!
//! Phases move `Received → HeadersSanitized → BodyPrepared →
//! UpstreamDispatched → (ResponseStreaming | Failed) → Closed`.  An inbound
//! body over the configured cap goes straight to `Failed` and the upstream
//! is never dispatched.  On a successful upstream reply the status and
//! headers are relayed verbatim and every response chunk passes through
//! unchanged, in order.  A failure after the status has been forwarded can
//! only terminate the stream early; it never rewrites what was sent.
//! There is no retry: each phase is entered at most once per relay.

use vstd::prelude::*;
use crate::body::{BodyStrategy, PreparedBody, prepare, prepare_ok};
use crate::errors::{RelayError, UpstreamFailureKind, spec_status_of, spec_body_of, status_of,
    body_of};
use crate::headers::{Header, header_views, spec_sanitize, sanitize};
use crate::target::UpstreamTarget;

verus! {

/// Where a relay stands in its lifecycle.
#[derive(Clone, Copy, PartialEq, Eq, Structural, Debug)]
pub enum RelayPhase {
    /// Inbound method, path-and-query, headers and body handle captured.
    Received,
    /// The header sanitizer has run.
    HeadersSanitized,
    /// The body is ready under the chosen transfer strategy.
    BodyPrepared,
    /// The outbound request has been handed to the upstream client.
    UpstreamDispatched,
    /// Upstream status and headers were relayed; body chunks are flowing.
    ResponseStreaming,
    /// A classified per-request failure; one error response is owed.
    Failed,
    /// All handles released.  Terminal.
    Closed,
}

/// The one outbound request a relay produces: the inbound method, the
/// upstream URL, the sanitized headers and the prepared body.
pub struct OutboundRequest {
    pub method: Vec<u8>,
    pub url: Vec<u8>,
    pub headers: Vec<Header>,
    pub body: PreparedBody,
}

/// What the caller gets back in place of a body.
pub enum ResponseBody {
    /// The upstream response stream, relayed chunk by chunk as it arrives.
    UpstreamStream,
    /// A short plain-text diagnostic, for relay failures only.
    Text { data: Vec<u8> },
}

/// The client-visible response.
pub struct ClientResponse {
    pub status: u16,
    pub headers: Vec<Header>,
    pub body: ResponseBody,
}

/// How one relay starts: either the outbound request to issue, or — when
/// the body transfer strategy refused the inbound body — the error response
/// to send, the upstream never having been contacted.
pub enum RelayStart {
    /// Issue this request upstream; the relay awaits the outcome.
    Dispatch { relay: Relay, request: OutboundRequest },
    /// Answer the caller directly; the relay has failed.
    Reject { relay: Relay, response: ClientResponse },
}

/// What came back from the upstream exchange.
pub enum UpstreamOutcome {
    /// A response arrived: its status and header set, verbatim; the body
    /// stream follows chunk by chunk.
    Reply { status: u16, headers: Vec<Header> },
    /// The exchange failed before any response, with a classification and
    /// the underlying error's text.
    Failure { kind: UpstreamFailureKind, message: Vec<u8> },
}

/// One relay operation.  Stateless across requests: every inbound request
/// gets a fresh value, and nothing is shared between relays.
pub struct Relay {
    pub phase: RelayPhase,
    /// The inbound method, unchanged throughout.
    pub method: Vec<u8>,
    /// The inbound path and query, unchanged throughout.
    pub path_and_query: Vec<u8>,
    /// The working header set: the inbound headers until sanitization, the
    /// sanitized set after; handed to the outbound request at dispatch.
    pub headers: Vec<Header>,
    /// The prepared body, present exactly between preparation and dispatch.
    pub body: Option<PreparedBody>,
    /// The classified failure, present exactly in the `Failed` phase.
    pub error: Option<RelayError>,
    /// The inbound header set as received, for specification only.
    pub inbound: Ghost<Seq<(Seq<u8>, Seq<u8>)>>,
    /// The response-body bytes forwarded to the caller so far.
    pub forwarded: Ghost<Seq<u8>>,
    /// Whether the response stream was cut short by a mid-stream failure.
    pub truncated: bool,
}

impl Relay {
    /// The header set once the sanitizer has run.
    pub open spec fn sanitized_headers(&self) -> bool {
        header_views(self.headers@) == spec_sanitize(self.inbound@)
    }

    /// Phase-indexed well-formedness, established by `receive` and kept by
    /// every step.
    pub open spec fn wf(&self) -> bool {
        match self.phase {
            RelayPhase::Received => {
                &&& header_views(self.headers@) == self.inbound@
                &&& self.body is None
                &&& self.error is None
                &&& !self.truncated
            },
            RelayPhase::HeadersSanitized => {
                &&& self.sanitized_headers()
                &&& self.body is None
                &&& self.error is None
                &&& !self.truncated
            },
            RelayPhase::BodyPrepared => {
                &&& self.sanitized_headers()
                &&& self.body is Some
                &&& self.error is None
                &&& !self.truncated
            },
            RelayPhase::UpstreamDispatched => {
                &&& self.body is None
                &&& self.error is None
                &&& !self.truncated
            },
            RelayPhase::ResponseStreaming => {
                &&& self.error is None
                &&& !self.truncated
            },
            RelayPhase::Failed => self.error is Some,
            RelayPhase::Closed => true,
        }
    }

    /// Capture one inbound request.  The relay starts in `Received` with
    /// the method, path-and-query and headers exactly as given and nothing
    /// forwarded yet.
    pub fn receive(method: Vec<u8>, path_and_query: Vec<u8>, headers: Vec<Header>) -> (r: Relay)
        ensures
            r.wf(),
            r.phase is Received,
            r.method == method,
            r.path_and_query == path_and_query,
            r.headers == headers,
            r.inbound@ == header_views(headers@),
            r.forwarded@ == Seq::<u8>::empty(),
            !r.truncated,
    {
        Relay {
            phase: RelayPhase::Received,
            inbound: Ghost(header_views(headers@)),
            method,
            path_and_query,
            headers,
            body: None,
            error: None,
            forwarded: Ghost(Seq::empty()),
            truncated: false,
        }
    }

    /// Apply the header sanitizer: drop the denylisted names, keep every
    /// other header unchanged and in order.  Nothing else moves.
    pub fn sanitize_headers(&mut self)
        requires
            old(self).wf(),
            old(self).phase is Received,
        ensures
            final(self).wf(),
            final(self).phase is HeadersSanitized,
            header_views(final(self).headers@) == spec_sanitize(old(self).inbound@),
            final(self).method == old(self).method,
            final(self).path_and_query == old(self).path_and_query,
            final(self).inbound == old(self).inbound,
            final(self).body == old(self).body,
            final(self).error == old(self).error,
            final(self).forwarded == old(self).forwarded,
            final(self).truncated == old(self).truncated,
    {
        let mut taken: Vec<Header> = Vec::new();
        core::mem::swap(&mut taken, &mut self.headers);
        self.headers = sanitize(taken);
        self.phase = RelayPhase::HeadersSanitized;
    }

    /// Prepare the inbound body under the chosen strategy.  A body the
    /// strategy accepts moves the relay to `BodyPrepared` carrying exactly
    /// the inbound bytes; an oversized body under the buffered strategy
    /// moves it to `Failed` instead — the upstream is never contacted.
    pub fn prepare_body(&mut self, strategy: &BodyStrategy, chunks: Vec<Vec<u8>>)
        requires
            old(self).wf(),
            old(self).phase is HeadersSanitized,
        ensures
            final(self).wf(),
            prepare_ok(*strategy, chunks.deep_view().flatten()) ==> {
                &&& final(self).phase is BodyPrepared
                &&& final(self).body matches Some(b) && b.bytes() == chunks.deep_view().flatten()
                &&& (*strategy is Streamed ==> (final(self).body matches Some(
                    PreparedBody::Streamed { chunks: out },
                ) && out.deep_view() == chunks.deep_view()))
            },
            !prepare_ok(*strategy, chunks.deep_view().flatten()) ==> {
                &&& final(self).phase is Failed
                &&& final(self).error == Some(RelayError::InboundBodyTooLarge)
            },
            final(self).method == old(self).method,
            final(self).path_and_query == old(self).path_and_query,
            final(self).headers == old(self).headers,
            final(self).inbound == old(self).inbound,
            final(self).forwarded == old(self).forwarded,
            final(self).truncated == old(self).truncated,
    {
        match prepare(strategy, chunks) {
            Ok(b) => {
                self.body = Some(b);
                self.phase = RelayPhase::BodyPrepared;
            },
            Err(e) => {
                self.error = Some(e);
                self.phase = RelayPhase::Failed;
            },
        }
    }

    /// Issue the one outbound request: the inbound method, the upstream
    /// base joined with the inbound path-and-query (query kept, no double
    /// slash introduced), the sanitized headers, the prepared body's exact
    /// bytes.  Entered at most once per relay — there is no retry.
    pub fn dispatch(&mut self, upstream: &UpstreamTarget) -> (out: OutboundRequest)
        requires
            old(self).wf(),
            old(self).phase is BodyPrepared,
        ensures
            final(self).wf(),
            final(self).phase is UpstreamDispatched,
            out.method@ == old(self).method@,
            out.url@ == upstream.base@ + old(self).path_and_query@,
            out.headers == old(self).headers,
            header_views(out.headers@) == spec_sanitize(old(self).inbound@),
            Some(out.body) == old(self).body,
            final(self).method == old(self).method,
            final(self).path_and_query == old(self).path_and_query,
            final(self).inbound == old(self).inbound,
            final(self).forwarded == old(self).forwarded,
            final(self).truncated == old(self).truncated,
    {
        let url = upstream.join(&self.path_and_query);
        let method = crate::headers::clone_bytes(&self.method);
        proof {
            assert(method@ =~= self.method@);
        }
        let mut headers: Vec<Header> = Vec::new();
        core::mem::swap(&mut headers, &mut self.headers);
        let mut body: Option<PreparedBody> = None;
        core::mem::swap(&mut body, &mut self.body);
        let body = match body {
            Some(b) => b,
            None => PreparedBody::Buffered { data: Vec::new() },
        };
        self.phase = RelayPhase::UpstreamDispatched;
        OutboundRequest { method, url, headers, body }
    }

    /// Run one inbound request up to the upstream boundary: capture it,
    /// sanitize the headers, prepare the body, and either hand back the one
    /// outbound request to issue or reject the oversized body with a `400`
    /// before any upstream connection is attempted.
    pub fn begin(
        method: Vec<u8>,
        path_and_query: Vec<u8>,
        headers: Vec<Header>,
        strategy: &BodyStrategy,
        chunks: Vec<Vec<u8>>,
        upstream: &UpstreamTarget,
    ) -> (r: RelayStart)
        ensures
            prepare_ok(*strategy, chunks.deep_view().flatten()) ==> (r matches
                RelayStart::Dispatch { relay, request } && {
                &&& relay.wf()
                &&& relay.phase is UpstreamDispatched
                &&& request.method@ == method@
                &&& request.url@ == upstream.base@ + path_and_query@
                &&& header_views(request.headers@) == spec_sanitize(header_views(headers@))
                &&& request.body.bytes() == chunks.deep_view().flatten()
            }),
            !prepare_ok(*strategy, chunks.deep_view().flatten()) ==> (r matches
                RelayStart::Reject { relay, response } && {
                &&& relay.wf()
                &&& relay.phase is Failed
                &&& response.status == 400
                &&& (response.body matches ResponseBody::Text { data } && data@ == spec_body_of(
                    RelayError::InboundBodyTooLarge,
                ))
            }),
    {
        let mut relay = Relay::receive(method, path_and_query, headers);
        relay.sanitize_headers();
        relay.prepare_body(strategy, chunks);
        match relay.phase {
            RelayPhase::BodyPrepared => {
                let request = relay.dispatch(upstream);
                RelayStart::Dispatch { relay, request }
            },
            _ => {
                let response = relay.error_response();
                RelayStart::Reject { relay, response }
            },
        }
    }

    /// Answer for one upstream outcome: a reply's status and headers go to
    /// the caller byte-identical and the body starts streaming; a failure
    /// becomes the one `502` response carrying the error's text.
    pub fn finish(&mut self, outcome: UpstreamOutcome) -> (r: ClientResponse)
        requires
            old(self).wf(),
            old(self).phase is UpstreamDispatched,
        ensures
            final(self).wf(),
            outcome matches UpstreamOutcome::Reply { status, headers } ==> {
                &&& final(self).phase is ResponseStreaming
                &&& r.status == status
                &&& r.headers == headers
                &&& r.body is UpstreamStream
            },
            outcome matches UpstreamOutcome::Failure { kind, message } ==> {
                &&& final(self).phase is Failed
                &&& r.status == 502
                &&& (r.body matches ResponseBody::Text { data } && data@ == spec_body_of(
                    RelayError::Upstream { kind, message },
                ))
            },
            final(self).forwarded == old(self).forwarded,
            final(self).truncated == old(self).truncated,
    {
        match outcome {
            UpstreamOutcome::Reply { status, headers } => self.on_upstream_success(
                status,
                headers,
            ),
            UpstreamOutcome::Failure { kind, message } => {
                self.on_upstream_failure(kind, message);
                self.error_response()
            },
        }
    }

    /// The upstream replied: relay its status code and header set to the
    /// caller verbatim and start streaming the body.
    pub fn on_upstream_success(&mut self, status: u16, resp_headers: Vec<Header>) -> (r:
        ClientResponse)
        requires
            old(self).wf(),
            old(self).phase is UpstreamDispatched,
        ensures
            final(self).wf(),
            final(self).phase is ResponseStreaming,
            r.status == status,
            r.headers == resp_headers,
            r.body is UpstreamStream,
            final(self).forwarded == old(self).forwarded,
            final(self).truncated == old(self).truncated,
    {
        self.phase = RelayPhase::ResponseStreaming;
        ClientResponse { status, headers: resp_headers, body: ResponseBody::UpstreamStream }
    }

    /// The upstream exchange failed before any response reached the caller:
    /// classify it and move to `Failed`.  One error response is now owed.
    pub fn on_upstream_failure(&mut self, kind: UpstreamFailureKind, message: Vec<u8>)
        requires
            old(self).wf(),
            old(self).phase is UpstreamDispatched,
        ensures
            final(self).wf(),
            final(self).phase is Failed,
            final(self).error == Some(RelayError::Upstream { kind, message }),
            final(self).forwarded == old(self).forwarded,
            final(self).truncated == old(self).truncated,
    {
        self.error = Some(RelayError::Upstream { kind, message });
        self.phase = RelayPhase::Failed;
    }

    /// The single non-streamed error response a failed relay produces:
    /// `400` with a diagnostic body when the inbound body broke the cap,
    /// `502` carrying the upstream error's text otherwise, and no headers.
    pub fn error_response(&self) -> (r: ClientResponse)
        requires
            self.wf(),
            self.phase is Failed,
        ensures
            self.error matches Some(e) ==> {
                &&& r.status == spec_status_of(e)
                &&& (r.body matches ResponseBody::Text { data } && data@ == spec_body_of(e))
            },
            r.headers@.len() == 0,
    {
        match &self.error {
            Some(e) => ClientResponse {
                status: status_of(e),
                headers: Vec::new(),
                body: ResponseBody::Text { data: body_of(e) },
            },
            None => ClientResponse {
                status: 400,
                headers: Vec::new(),
                body: ResponseBody::Text { data: Vec::new() },
            },
        }
    }

    /// Relay one upstream response chunk to the caller: the very bytes that
    /// arrived, appended to what was already forwarded, in order.
    pub fn forward_chunk(&mut self, chunk: Vec<u8>) -> (r: Vec<u8>)
        requires
            old(self).wf(),
            old(self).phase is ResponseStreaming,
        ensures
            final(self).wf(),
            final(self).phase is ResponseStreaming,
            r == chunk,
            final(self).forwarded@ == old(self).forwarded@ + chunk@,
            final(self).truncated == old(self).truncated,
    {
        self.forwarded = Ghost(self.forwarded@ + chunk@);
        chunk
    }

    /// The upstream stream failed after the status and headers were already
    /// sent: the response cannot change any more, so the stream simply ends
    /// early.  The bytes forwarded so far stand; the caller sees a
    /// truncated body, which HTTP cannot mark.
    pub fn abort_stream(&mut self)
        requires
            old(self).wf(),
            old(self).phase is ResponseStreaming,
        ensures
            final(self).wf(),
            final(self).phase is Closed,
            final(self).truncated,
            final(self).forwarded == old(self).forwarded,
    {
        self.truncated = true;
        self.phase = RelayPhase::Closed;
    }

    /// Release the relay: terminal for both the streaming and the failed
    /// path.  What was forwarded stands.
    pub fn close(&mut self)
        requires
            old(self).wf(),
            old(self).phase is ResponseStreaming || old(self).phase is Failed,
        ensures
            final(self).wf(),
            final(self).phase is Closed,
            final(self).forwarded == old(self).forwarded,
            final(self).truncated == old(self).truncated,
    {
        self.phase = RelayPhase::Closed;
    }
}

} // verus!
