//! Live reload for web pages, as the decisions of a middleware.
//!
//! The middleware sits between a web server and a request handler. It
//! appends a small script to the HTML pages that the handler returns, and it
//! answers one path itself, with a stream of server-sent events. The script
//! listens to that stream and reloads the page when the stream says so.
//!
//! This crate holds what the middleware decides and computes: which
//! responses get the script and what becomes of their headers
//! ([`inject`]), which requests the handler never sees ([`overlay`]), and
//! what the event stream sends ([`sse`]). It performs no input or output
//! and awaits nothing: the caller polls the handler and the bodies, and
//! passes in what the polls came to.
//!
//! # Heuristics
//!
//! A page gets the script where its `Content-Type` starts with `text/html`
//! and no `Content-Encoding` is set. Where compression is applied as well,
//! it has to be applied after this middleware.

pub mod body;
pub mod chunk;
pub mod decimal;
pub mod headers;
pub mod inject;
pub mod interval;
pub mod long_poll;
pub mod message;
pub mod overlay;
pub mod predicate;
pub mod signal;
pub mod sse;

use crate::chunk::from_owner;
use crate::decimal::{decimal, push_decimal};
use crate::headers::{
    empty_map, header_entries, is_text, is_visible, lemma_names_stored,
    lemma_no_entries_has_room, no_entries, store_value, value_of_text, CONTENT_TYPE,
};
use crate::inject::{InjectResponseFuture, InjectService};
use crate::interval::duration_millis;
use crate::message::{RequestParts, Response};
use crate::overlay::{Alternative, OverlayFuture, OverlayService};
use crate::predicate::{Always, ContentTypeStartsWith, Predicate};
use crate::sse::{Phase, ReloadEventsBody, Source, Subscription};
use std::convert::Infallible;
use std::time::Duration;
use vstd::prelude::*;
use vstd::string::StrSliceExecFns;
use vstd::string::StringExecFns;
use vstd::string::StringSliceAdditionalSpecFns;

verus! {

/// The prefix of the paths that the middleware answers itself, unless
/// another one is set.
pub const DEFAULT_PREFIX: &'static str = "/_tower-livereload";

/// What follows the prefix in the path of the event stream.
pub const EVENT_STREAM_SUFFIX: &'static str = "/event-stream";

/// The content type of the event stream.
pub const EVENT_STREAM_TYPE: &'static str = "text/event-stream";

/// The script that runs in the page. It opens the event stream named by its
/// own tag and reloads the page on a `reload` event, and also when the
/// stream comes back after the server was gone.
pub const RELOAD_SCRIPT: &'static str = "\
    (function () {\n\
    \x20 var script = document.currentScript;\n\
    \x20 var path = script.getAttribute(\"data-event-stream\");\n\
    \x20 var retry = parseInt(script.getAttribute(\"data-retry\"), 10);\n\
    \x20 var lost = false;\n\
    \x20 function listen() {\n\
    \x20   var source = new EventSource(path);\n\
    \x20   source.addEventListener(\"init\", function () {\n\
    \x20     if (lost) {\n\
    \x20       location.reload();\n\
    \x20     }\n\
    \x20   });\n\
    \x20   source.addEventListener(\"reload\", function () {\n\
    \x20     source.close();\n\
    \x20     location.reload();\n\
    \x20   });\n\
    \x20   source.addEventListener(\"error\", function () {\n\
    \x20     lost = true;\n\
    \x20     if (source.readyState === EventSource.CLOSED) {\n\
    \x20       setTimeout(listen, retry);\n\
    \x20     }\n\
    \x20   });\n\
    \x20 }\n\
    \x20 listen();\n\
    })();\n\
    ";

/// The tag that is appended to pages: the script, with the path of the event
/// stream and the retry interval in milliseconds as attributes.
pub open spec fn script_tag(event_stream_path: Seq<char>, retry_millis: nat) -> Seq<u8> {
    "<script data-event-stream=\"".spec_bytes() + vstd::utf8::encode_utf8(event_stream_path)
        + "\" data-retry=\"".spec_bytes() + decimal(retry_millis) + "\">".spec_bytes()
        + RELOAD_SCRIPT.spec_bytes() + "</script>".spec_bytes()
}

/// Utility to send reload requests to clients.
#[derive(Debug)]
pub struct Reloader {
    source: Source,
}

impl Reloader {
    /// The source that this handle fires. It lasts as long as one handle on
    /// it does.
    pub closed spec fn signal(&self) -> Source {
        self.source
    }

    /// Create a new [`Reloader`].
    ///
    /// A standalone [`Reloader`] reaches no client. The one that
    /// [`LiveReloadLayer::reloader`] returns reaches the clients of that
    /// layer.
    pub fn new() -> Self {
        Self { source: Source::new() }
    }

    /// Send a reload request to all open clients. This returns at once, and
    /// it is in order with no client at all.
    pub fn reload(&self) {
        self.source.fire();
    }

    /// A subscription for one stream: the stream will wait for this
    /// reloader's source.
    pub fn subscribe(&self) -> (subscription: Subscription)
        ensures
            subscription.source() == self.signal(),
    {
        self.source.subscribe()
    }
}

impl Clone for Reloader {
    /// Another handle on the same source.
    fn clone(&self) -> (handle: Self)
        ensures
            handle.signal() == self.signal(),
    {
        Reloader { source: self.source.clone() }
    }
}

impl Default for Reloader {
    fn default() -> Self {
        Self::new()
    }
}

/// The rule that answers the event-stream path: every request to that path
/// gets a fresh stream that waits for the reloader's signal.
#[derive(Clone, Debug)]
pub struct EventStream {
    path: String,
    reloader: Reloader,
    reload_interval: Duration,
}

impl EventStream {
    /// The path that the rule answers.
    pub closed spec fn path(&self) -> Seq<char> {
        self.path@
    }

    /// The retry interval that the streams announce, in milliseconds.
    pub closed spec fn retry_millis(&self) -> nat {
        duration_millis(self.reload_interval) as nat
    }

    /// The signal that the streams wait for.
    pub closed spec fn signal(&self) -> Source {
        self.reloader.signal()
    }

    /// The rule for `path`.
    pub fn new(path: String, reloader: Reloader, reload_interval: Duration) -> (rule: Self)
        ensures
            rule.path() == path@,
            rule.retry_millis() == duration_millis(reload_interval),
            rule.signal() == reloader.signal(),
    {
        EventStream { path, reloader, reload_interval }
    }

    /// Whether `response` opens an event stream: status 200, the content
    /// type of event streams and no other header, and a fresh stream that
    /// waits for `signal` and announces the retry interval `retry_millis`.
    pub open spec fn opens_stream(
        response: Response<ReloadEventsBody>,
        signal: Source,
        retry_millis: nat,
    ) -> bool {
        &&& response.body.signal() == signal
        &&& response.status == 200
        &&& header_entries(response.headers) == no_entries().insert(
            CONTENT_TYPE@,
            seq![EVENT_STREAM_TYPE.spec_bytes()],
        )
        &&& response.body.phase() == Phase::Init
        &&& response.body.retry_millis() == retry_millis
    }
}

/// The content type of the event stream is text that a header value can
/// hold.
pub proof fn lemma_event_stream_type_is_text()
    ensures
        is_text(EVENT_STREAM_TYPE.spec_bytes()),
{
    reveal_strlit("text/event-stream");
    let text = EVENT_STREAM_TYPE;
    assert(vstd::string::is_ascii(text)) by {
        assert forall|i: int| 0 <= i < text@.len() implies (text@[i] as u32) < 128 by {
        }
    }
    vstd::string::is_ascii_spec_bytes(text);
    let bytes = text.spec_bytes();
    assert forall|i: int| 0 <= i < bytes.len() implies is_visible(#[trigger] bytes[i]) by {
        assert(bytes[i] == text@[i] as u8);
    }
}

impl Alternative<ReloadEventsBody, Infallible> for EventStream {
    open spec fn applies(&self, parts: &RequestParts) -> bool {
        true
    }

    /// The one answer to the rule's own path is a response that opens an
    /// event stream; every other path gets no answer.
    open spec fn may_answer(
        &self,
        parts: &RequestParts,
        answer: Option<Result<Response<ReloadEventsBody>, Infallible>>,
    ) -> bool {
        if parts.path@ == self.path() {
            answer matches Some(Ok(response)) && Self::opens_stream(
                response,
                self.signal(),
                self.retry_millis(),
            )
        } else {
            answer is None
        }
    }

    fn respond(&self, parts: &RequestParts) -> (answer: Option<
        Result<Response<ReloadEventsBody>, Infallible>,
    >) {
        if parts.path == self.path {
            proof {
                lemma_names_stored();
                lemma_event_stream_type_is_text();
                lemma_no_entries_has_room();
            }
            let mut headers = empty_map();
            let stored: bool = store_value(
                &mut headers,
                CONTENT_TYPE,
                value_of_text(EVENT_STREAM_TYPE),
            );
            assert(stored);
            let body = ReloadEventsBody::new(self.reloader.subscribe(), self.reload_interval);
            Some(Ok(Response { status: 200, headers, body }))
        } else {
            None
        }
    }
}

/// Layer to apply [`LiveReload`] middleware.
#[derive(Clone, Debug)]
pub struct LiveReloadLayer<ReqPred = Always, ResPred = ContentTypeStartsWith<&'static str>> {
    custom_prefix: Option<String>,
    reloader: Reloader,
    req_predicate: ReqPred,
    res_predicate: ResPred,
    reload_interval: Duration,
}

impl LiveReloadLayer {
    /// Create a new [`LiveReloadLayer`] with default settings: the default
    /// prefix, every request chosen, every response whose content type
    /// starts with `text/html` accepted, and a retry interval of one second.
    pub fn new() -> (layer: Self)
        ensures
            layer.prefix() == DEFAULT_PREFIX@,
            layer.request_rule() == Always,
            layer.response_rule().pattern()@ == "text/html"@,
            layer.retry_millis() == 1000,
    {
        Self {
            custom_prefix: None,
            reloader: Reloader::new(),
            req_predicate: Always,
            res_predicate: ContentTypeStartsWith::new("text/html"),
            reload_interval: Duration::from_secs(1),
        }
    }
}

impl<ReqPred, ResPred> LiveReloadLayer<ReqPred, ResPred> {
    /// The prefix of the paths that the middleware answers itself.
    pub closed spec fn prefix(&self) -> Seq<char> {
        match self.custom_prefix {
            Some(prefix) => prefix@,
            None => DEFAULT_PREFIX@,
        }
    }

    /// The signal that [`Reloader`]s of this layer fire.
    pub closed spec fn signal(&self) -> Source {
        self.reloader.signal()
    }

    /// The predicate on requests.
    pub closed spec fn request_rule(&self) -> ReqPred {
        self.req_predicate
    }

    /// The predicate on responses.
    pub closed spec fn response_rule(&self) -> ResPred {
        self.res_predicate
    }

    /// The retry interval, in milliseconds.
    pub closed spec fn retry_millis(&self) -> nat {
        duration_millis(self.reload_interval) as nat
    }

    /// Set a custom prefix for internal routes of the given
    /// [`LiveReloadLayer`].
    ///
    /// The prefix is compared as it is given: it has to begin with a slash
    /// to match the paths of requests.
    pub fn custom_prefix(self, prefix: String) -> (layer: Self)
        ensures
            layer.prefix() == prefix@,
            layer.signal() == self.signal(),
            layer.request_rule() == self.request_rule(),
            layer.response_rule() == self.response_rule(),
            layer.retry_millis() == self.retry_millis(),
    {
        Self {
            custom_prefix: Some(prefix),
            reloader: self.reloader,
            req_predicate: self.req_predicate,
            res_predicate: self.res_predicate,
            reload_interval: self.reload_interval,
        }
    }

    /// Set a custom predicate for requests that should have their response
    /// HTML injected with live-reload logic.
    ///
    /// This predicate is applied in addition to the response predicate.
    pub fn request_predicate<Req, P: Predicate<Req>>(self, predicate: P) -> (layer: LiveReloadLayer<
        P,
        ResPred,
    >)
        ensures
            layer.request_rule() == predicate,
            layer.prefix() == self.prefix(),
            layer.signal() == self.signal(),
            layer.response_rule() == self.response_rule(),
            layer.retry_millis() == self.retry_millis(),
    {
        LiveReloadLayer {
            custom_prefix: self.custom_prefix,
            reloader: self.reloader,
            req_predicate: predicate,
            res_predicate: self.res_predicate,
            reload_interval: self.reload_interval,
        }
    }

    /// Set a custom predicate for responses that should be injected with
    /// live-reload logic.
    ///
    /// This predicate is applied in place of the default one. Whatever it
    /// answers, a response that names a content encoding is not injected.
    pub fn response_predicate<Body, P: Predicate<Response<Body>>>(self, predicate: P) -> (layer:
        LiveReloadLayer<ReqPred, P>)
        ensures
            layer.response_rule() == predicate,
            layer.prefix() == self.prefix(),
            layer.signal() == self.signal(),
            layer.request_rule() == self.request_rule(),
            layer.retry_millis() == self.retry_millis(),
    {
        LiveReloadLayer {
            custom_prefix: self.custom_prefix,
            reloader: self.reloader,
            req_predicate: self.req_predicate,
            res_predicate: predicate,
            reload_interval: self.reload_interval,
        }
    }

    /// Set a custom retry interval for the live-reload logic.
    pub fn reload_interval(self, interval: Duration) -> (layer: Self)
        ensures
            layer.retry_millis() == duration_millis(interval),
            layer.prefix() == self.prefix(),
            layer.signal() == self.signal(),
            layer.request_rule() == self.request_rule(),
            layer.response_rule() == self.response_rule(),
    {
        Self {
            custom_prefix: self.custom_prefix,
            reloader: self.reloader,
            req_predicate: self.req_predicate,
            res_predicate: self.res_predicate,
            reload_interval: interval,
        }
    }

    /// Return a manual [`Reloader`] trigger for the given
    /// [`LiveReloadLayer`].
    pub fn reloader(&self) -> (reloader: Reloader)
        ensures
            reloader.signal() == self.signal(),
    {
        self.reloader.clone()
    }

    /// Wraps `inner` in the middleware, with the settings of this layer.
    pub fn layer<S>(&self, inner: S) -> (service: LiveReload<S, ReqPred, ResPred>) where
        ReqPred: Copy,
        ResPred: Copy,

        ensures
            service.inner() == inner,
            service.event_stream_path() == self.prefix() + EVENT_STREAM_SUFFIX@,
            service.payload() == script_tag(
                self.prefix() + EVENT_STREAM_SUFFIX@,
                self.retry_millis(),
            ),
            service.request_rule() == self.request_rule(),
            service.response_rule() == self.response_rule(),
            service.retry_millis() == self.retry_millis(),
            service.signal() == self.signal(),
    {
        let prefix: &str = match &self.custom_prefix {
            Some(prefix) => prefix.as_str(),
            None => DEFAULT_PREFIX,
        };
        LiveReload::new(
            inner,
            self.reloader.clone(),
            self.req_predicate,
            self.res_predicate,
            self.reload_interval,
            prefix,
        )
    }
}

impl Default for LiveReloadLayer {
    /// The layer with default settings, as [`LiveReloadLayer::new`] makes it.
    fn default() -> (layer: Self)
        ensures
            layer.prefix() == DEFAULT_PREFIX@,
            layer.request_rule() == Always,
            layer.response_rule().pattern()@ == "text/html"@,
            layer.retry_millis() == 1000,
    {
        Self::new()
    }
}

/// A request on its way to the wrapped handler, with the injector's state
/// for the response that will come back.
#[derive(Debug)]
pub struct Forward<Req, ResPred> {
    pub request: Req,
    pub response: InjectResponseFuture<ResPred>,
}

/// Middleware to enable LiveReload functionality: the injector around the
/// handler, and the overlay with the event stream around the injector.
#[derive(Clone)]
pub struct LiveReload<S, ReqPred = Always, ResPred = ContentTypeStartsWith<&'static str>> {
    service: OverlayService<
        ReloadEventsBody,
        Infallible,
        InjectService<S, ReqPred, ResPred>,
        EventStream,
    >,
}

impl<S, ReqPred, ResPred> LiveReload<S, ReqPred, ResPred> {
    /// The wrapped handler.
    pub closed spec fn inner(&self) -> S {
        self.service.inner().inner()
    }

    /// The path that is answered with the event stream.
    pub closed spec fn event_stream_path(&self) -> Seq<char> {
        self.service.alternative().path()
    }

    /// The bytes that are appended to eligible responses.
    pub closed spec fn payload(&self) -> Seq<u8> {
        self.service.inner().payload()
    }

    /// The predicate on requests.
    pub closed spec fn request_rule(&self) -> ReqPred {
        self.service.inner().request_rule()
    }

    /// The predicate on responses.
    pub closed spec fn response_rule(&self) -> ResPred {
        self.service.inner().response_rule()
    }

    /// The retry interval that the event streams announce, in milliseconds.
    pub closed spec fn retry_millis(&self) -> nat {
        self.service.alternative().retry_millis()
    }

    /// The signal that the event streams wait for.
    pub closed spec fn signal(&self) -> Source {
        self.service.alternative().signal()
    }

    /// The middleware around `service`. The event stream is at `prefix`
    /// followed by `/event-stream`, and the payload is the script tag that
    /// names that path and the retry interval.
    pub fn new(
        service: S,
        reloader: Reloader,
        req_predicate: ReqPred,
        res_predicate: ResPred,
        reload_interval: Duration,
        prefix: &str,
    ) -> (middleware: Self)
        ensures
            middleware.inner() == service,
            middleware.event_stream_path() == prefix@ + EVENT_STREAM_SUFFIX@,
            middleware.payload() == script_tag(
                prefix@ + EVENT_STREAM_SUFFIX@,
                duration_millis(reload_interval) as nat,
            ),
            middleware.request_rule() == req_predicate,
            middleware.response_rule() == res_predicate,
            middleware.retry_millis() == duration_millis(reload_interval),
            middleware.signal() == reloader.signal(),
    {
        let mut event_stream_path: String = String::from_str(prefix);
        event_stream_path.append(EVENT_STREAM_SUFFIX);
        let mut tag: Vec<u8> = "<script data-event-stream=\"".as_bytes_vec();
        tag.extend_from_slice(event_stream_path.as_str().as_bytes());
        tag.extend_from_slice("\" data-retry=\"".as_bytes());
        push_decimal(&mut tag, reload_interval.as_millis());
        tag.extend_from_slice("\">".as_bytes());
        tag.extend_from_slice(RELOAD_SCRIPT.as_bytes());
        tag.extend_from_slice("</script>".as_bytes());
        let inject = InjectService::new(service, from_owner(tag), req_predicate, res_predicate);
        let overlay = OverlayService::new(
            inject,
            EventStream::new(event_stream_path, reloader, reload_interval),
        );
        LiveReload { service: overlay }
    }

    /// The wrapped handler, to look at.
    pub fn service_ref(&self) -> (service: &S)
        ensures
            *service == self.inner(),
    {
        self.service.service_ref().service_ref()
    }

    /// The overlay around the injector, to look at.
    pub fn overlay_ref(&self) -> (overlay: &OverlayService<
        ReloadEventsBody,
        Infallible,
        InjectService<S, ReqPred, ResPred>,
        EventStream,
    >)
        ensures
            overlay.inner().inner() == self.inner(),
            overlay.inner().payload() == self.payload(),
            overlay.inner().request_rule() == self.request_rule(),
            overlay.inner().response_rule() == self.response_rule(),
            overlay.alternative().path() == self.event_stream_path(),
            overlay.alternative().retry_millis() == self.retry_millis(),
            overlay.alternative().signal() == self.signal(),
    {
        &self.service
    }

    /// The wrapped handler, to ask it whether it is ready and to hand it the
    /// requests that go to it.
    pub fn service_mut(&mut self) -> (service: &mut S)
        ensures
            *service == old(self).inner(),
            final(self).inner() == *final(service),
            final(self).event_stream_path() == old(self).event_stream_path(),
            final(self).payload() == old(self).payload(),
            final(self).request_rule() == old(self).request_rule(),
            final(self).response_rule() == old(self).response_rule(),
            final(self).retry_millis() == old(self).retry_millis(),
            final(self).signal() == old(self).signal(),
    {
        self.service.service_mut().service_mut()
    }

    /// Takes up a request.
    ///
    /// A request to the path of the event stream is answered here, with a
    /// response that opens a fresh stream; the request is dropped, and
    /// neither the request predicate nor the wrapped handler sees it. Every
    /// other request comes back for the wrapped handler, together with the
    /// injector's state for its response, which holds the payload exactly
    /// where the request predicate accepted the request.
    pub fn call<Req>(&mut self, parts: &RequestParts, request: Req) -> (future: OverlayFuture<
        ReloadEventsBody,
        Infallible,
        Forward<Req, ResPred>,
    >) where ReqPred: Predicate<Req>, ResPred: Copy
        requires
            parts.path@ != old(self).event_stream_path() ==> old(self).request_rule().applies(
                &request,
            ),
        ensures
            final(self).inner() == old(self).inner(),
            final(self).event_stream_path() == old(self).event_stream_path(),
            final(self).payload() == old(self).payload(),
            final(self).request_rule() == old(self).request_rule(),
            final(self).response_rule() == old(self).response_rule(),
            final(self).retry_millis() == old(self).retry_millis(),
            final(self).signal() == old(self).signal(),
            parts.path@ == old(self).event_stream_path() ==> (future matches OverlayFuture::Alternative {
                alternative: Some(Ok(response)),
            } && EventStream::opens_stream(response, old(self).signal(), old(self).retry_millis())),
            parts.path@ != old(self).event_stream_path() ==> (future matches OverlayFuture::Inner {
                inner,
            } && inner.request == request && inner.response.predicate() == old(
                self,
            ).response_rule() && match inner.response.armed() {
                Some(payload) => payload == old(self).payload() && old(
                    self,
                ).request_rule().may_answer(&request, true),
                None => old(self).request_rule().may_answer(&request, false),
            }),
    {
        match self.service.call(parts, request) {
            OverlayFuture::Alternative { alternative } => OverlayFuture::Alternative {
                alternative,
            },
            OverlayFuture::Inner { inner } => {
                let response = self.service.service_mut().call(&inner);
                OverlayFuture::Inner { inner: Forward { request: inner, response } }
            },
        }
    }
}

} // verus!
