use bytes::Bytes;
use http::header::{CONTENT_ENCODING, CONTENT_LENGTH, CONTENT_TYPE};
use http::{HeaderMap, HeaderValue};
use http_body::Frame;
use std::convert::Infallible;
use std::task::{Context, Waker};
use std::time::Duration;
use tower_livereload::inject::InjectBody;
use tower_livereload::message::{Progress, RequestParts, Response};
use tower_livereload::overlay::OverlayFuture;
use tower_livereload::predicate::ContentTypeStartsWith;
use tower_livereload::sse::ReloadEventsBody;
use tower_livereload::{LiveReloadLayer, Reloader, DEFAULT_PREFIX, RELOAD_SCRIPT};

fn get(path: &str) -> RequestParts {
    RequestParts { method: String::from("GET"), path: String::from(path) }
}

fn html(body: &'static str) -> Response<&'static str> {
    let mut headers = HeaderMap::new();
    headers.insert(CONTENT_TYPE, HeaderValue::from_static("text/html"));
    headers.insert(CONTENT_LENGTH, HeaderValue::from(body.len()));
    Response { status: 200, headers, body }
}

fn tag(path: &str, retry_millis: u128) -> String {
    format!(
        "<script data-event-stream=\"{}\" data-retry=\"{}\">{}</script>",
        path, retry_millis, RELOAD_SCRIPT
    )
}

fn poll(body: &mut ReloadEventsBody) -> Progress<Option<Result<Frame<Bytes>, Infallible>>> {
    let mut cx = Context::from_waker(Waker::noop());
    body.poll_frame(&mut cx)
}

fn data(polled: Progress<Option<Result<Frame<Bytes>, Infallible>>>) -> Option<Vec<u8>> {
    match polled {
        Progress::Ready(Some(Ok(frame))) => Some(frame.into_data().ok().unwrap().to_vec()),
        _ => None,
    }
}

fn stream_of(future: OverlayFuture<ReloadEventsBody, Infallible, impl Sized>) -> Response<ReloadEventsBody> {
    match future {
        OverlayFuture::Alternative { alternative: Some(Ok(response)) } => response,
        _ => panic!("the event-stream path is answered by the middleware"),
    }
}

fn payload_of<B>(body: InjectBody<B>) -> Option<Vec<u8>> {
    body.into_parts().1.map(|bytes| bytes.to_vec())
}

#[test]
fn default_prefix_is_the_documented_one() {
    assert_eq!(DEFAULT_PREFIX, "/_tower-livereload");
}

#[test]
fn event_stream_path_opens_a_stream() {
    let layer = LiveReloadLayer::new();
    let reloader = layer.reloader();
    let mut handler_calls = 0u32;
    let mut service = layer.layer(());
    let future = service.call(&get("/_tower-livereload/event-stream"), "request");
    if let OverlayFuture::Inner { .. } = &future {
        handler_calls += 1;
    }
    let mut response = stream_of(future);
    assert_eq!(handler_calls, 0);
    assert_eq!(response.status, 200);
    assert_eq!(response.headers.get(CONTENT_TYPE).unwrap(), "text/event-stream");
    assert_eq!(response.headers.len(), 1);
    assert_eq!(data(poll(&mut response.body)), Some(b"event: init\ndata:\nretry: 1000\n\n".to_vec()));
    assert!(matches!(poll(&mut response.body), Progress::Pending));
    reloader.reload();
    assert_eq!(data(poll(&mut response.body)), Some(b"event: reload\ndata:\n\n".to_vec()));
    assert!(matches!(poll(&mut response.body), Progress::Ready(None)));
}

#[test]
fn every_reloader_of_a_layer_reaches_its_streams() {
    let layer = LiveReloadLayer::new();
    let first = layer.reloader();
    let second = first.clone();
    let copy = layer.clone();
    let third = copy.reloader();
    let mut service = layer.layer(());
    for reloader in [first, second, third] {
        let mut response = stream_of(service.call(&get("/_tower-livereload/event-stream"), ()));
        assert!(data(poll(&mut response.body)).is_some());
        assert!(matches!(poll(&mut response.body), Progress::Pending));
        reloader.reload();
        assert_eq!(data(poll(&mut response.body)), Some(b"event: reload\ndata:\n\n".to_vec()));
    }
}

#[test]
fn reloader_of_another_layer_reaches_nothing_here() {
    let layer = LiveReloadLayer::new();
    let mut service = layer.layer(());
    let mut response = stream_of(service.call(&get("/_tower-livereload/event-stream"), ()));
    assert!(data(poll(&mut response.body)).is_some());
    assert!(matches!(poll(&mut response.body), Progress::Pending));
    LiveReloadLayer::new().reloader().reload();
    Reloader::new().reload();
    assert!(matches!(poll(&mut response.body), Progress::Pending));
}

#[test]
fn other_paths_go_to_the_handler_and_pages_get_the_script() {
    let mut service = LiveReloadLayer::new().layer(());
    for path in ["/", "/index.html", "/_tower-livereload", "/_tower-livereload/event-stream/", "/event-stream"] {
        let mut forward = match service.call(&get(path), path) {
            OverlayFuture::Inner { inner } => inner,
            _ => panic!("{} is no path of the middleware", path),
        };
        assert_eq!(forward.request, path);
        let out = match forward.response.poll::<_, ()>(Progress::Ready(Ok(html("<p>hi</p>")))) {
            Progress::Ready(Ok(out)) => out,
            _ => panic!("a response that is ready stays ready"),
        };
        let expected = tag("/_tower-livereload/event-stream", 1000);
        assert_eq!(out.headers.get(CONTENT_LENGTH).unwrap(), &(9 + expected.len()).to_string());
        assert_eq!(payload_of(out.body), Some(expected.into_bytes()));
    }
}

#[test]
fn encoded_pages_are_left_alone() {
    let mut service = LiveReloadLayer::new().layer(());
    let mut forward = match service.call(&get("/"), ()) {
        OverlayFuture::Inner { inner } => inner,
        _ => panic!("the root is no path of the middleware"),
    };
    let mut page = html("<p>hi</p>");
    page.headers.insert(CONTENT_ENCODING, HeaderValue::from_static("gzip"));
    let before = page.headers.clone();
    let out = match forward.response.poll::<_, ()>(Progress::Ready(Ok(page))) {
        Progress::Ready(Ok(out)) => out,
        _ => panic!("a response that is ready stays ready"),
    };
    assert_eq!(out.headers, before);
    assert_eq!(payload_of(out.body), None);
}

#[test]
fn custom_prefix_moves_the_stream_and_shows_in_the_script() {
    let layer = LiveReloadLayer::new().custom_prefix(String::from("/dev"));
    let mut service = layer.layer(());
    assert!(matches!(
        service.call(&get("/_tower-livereload/event-stream"), ()),
        OverlayFuture::Inner { .. }
    ));
    let response = stream_of(service.call(&get("/dev/event-stream"), ()));
    assert_eq!(response.status, 200);
    let mut forward = match service.call(&get("/"), ()) {
        OverlayFuture::Inner { inner } => inner,
        _ => panic!("the root is no path of the middleware"),
    };
    let out = match forward.response.poll::<_, ()>(Progress::Ready(Ok(html("<p>hi</p>")))) {
        Progress::Ready(Ok(out)) => out,
        _ => panic!("a response that is ready stays ready"),
    };
    assert_eq!(payload_of(out.body), Some(tag("/dev/event-stream", 1000).into_bytes()));
}

#[test]
fn reload_interval_shows_in_the_init_event_and_in_the_script() {
    let layer = LiveReloadLayer::new().reload_interval(Duration::from_millis(250));
    let mut service = layer.layer(());
    let mut response = stream_of(service.call(&get("/_tower-livereload/event-stream"), ()));
    assert_eq!(data(poll(&mut response.body)), Some(b"event: init\ndata:\nretry: 250\n\n".to_vec()));
    let mut forward = match service.call(&get("/"), ()) {
        OverlayFuture::Inner { inner } => inner,
        _ => panic!("the root is no path of the middleware"),
    };
    let out = match forward.response.poll::<_, ()>(Progress::Ready(Ok(html("<p>hi</p>")))) {
        Progress::Ready(Ok(out)) => out,
        _ => panic!("a response that is ready stays ready"),
    };
    assert_eq!(
        payload_of(out.body),
        Some(tag("/_tower-livereload/event-stream", 250).into_bytes())
    );
}

#[test]
fn stream_ends_when_the_middleware_and_its_reloaders_are_gone() {
    let layer = LiveReloadLayer::new();
    let reloader = layer.reloader();
    let mut service = layer.layer(());
    let mut response = stream_of(service.call(&get("/_tower-livereload/event-stream"), ()));
    assert!(data(poll(&mut response.body)).is_some());
    assert!(matches!(poll(&mut response.body), Progress::Pending));
    drop(reloader);
    drop(layer);
    assert!(matches!(poll(&mut response.body), Progress::Pending));
    drop(service);
    assert!(matches!(poll(&mut response.body), Progress::Ready(None)));
}

#[test]
fn default_layer_is_the_new_layer() {
    let mut service = LiveReloadLayer::default().layer(());
    let mut response = stream_of(service.call(&get("/_tower-livereload/event-stream"), ()));
    assert_eq!(data(poll(&mut response.body)), Some(b"event: init\ndata:\nretry: 1000\n\n".to_vec()));
    let mut forward = match service.call(&get("/"), ()) {
        OverlayFuture::Inner { inner } => inner,
        _ => panic!("the root is no path of the middleware"),
    };
    let out = match forward.response.poll::<_, ()>(Progress::Ready(Ok(html("<p>hi</p>")))) {
        Progress::Ready(Ok(out)) => out,
        _ => panic!("a response that is ready stays ready"),
    };
    assert_eq!(
        payload_of(out.body),
        Some(tag("/_tower-livereload/event-stream", 1000).into_bytes())
    );
}

#[test]
fn copy_of_a_layer_keeps_its_settings() {
    let layer = LiveReloadLayer::new()
        .custom_prefix(String::from("/live"))
        .reload_interval(Duration::from_millis(1500));
    let copy = layer.clone();
    drop(layer);
    let mut service = copy.layer(());
    let mut response = stream_of(service.call(&get("/live/event-stream"), ()));
    assert_eq!(data(poll(&mut response.body)), Some(b"event: init\ndata:\nretry: 1500\n\n".to_vec()));
}

#[test]
fn request_predicate_chooses_the_requests() {
    let layer = LiveReloadLayer::new().request_predicate(|path: &&str| !path.starts_with("/api"));
    let mut service = layer.layer(());
    for (path, injected) in [("/", true), ("/api/users", false), ("/apiary", false), ("/docs", true)] {
        let mut forward = match service.call(&get(path), path) {
            OverlayFuture::Inner { inner } => inner,
            _ => panic!("{} is no path of the middleware", path),
        };
        let out = match forward.response.poll::<_, ()>(Progress::Ready(Ok(html("<p>hi</p>")))) {
            Progress::Ready(Ok(out)) => out,
            _ => panic!("a response that is ready stays ready"),
        };
        assert_eq!(payload_of(out.body).is_some(), injected, "on {}", path);
    }
}

#[test]
fn request_predicate_is_not_asked_about_the_event_stream() {
    let layer = LiveReloadLayer::new().request_predicate(|_: &u8| -> bool { panic!("not asked") });
    let mut service = layer.layer(());
    let response = stream_of(service.call(&get("/_tower-livereload/event-stream"), 0u8));
    assert_eq!(response.status, 200);
}

#[test]
fn response_predicate_replaces_the_default() {
    let layer = LiveReloadLayer::new().response_predicate::<&str, _>(ContentTypeStartsWith::new("application/xhtml"));
    let mut service = layer.layer(());
    let mut forward = match service.call(&get("/"), ()) {
        OverlayFuture::Inner { inner } => inner,
        _ => panic!("the root is no path of the middleware"),
    };
    let out = match forward.response.poll::<_, ()>(Progress::Ready(Ok(html("<p>hi</p>")))) {
        Progress::Ready(Ok(out)) => out,
        _ => panic!("a response that is ready stays ready"),
    };
    assert_eq!(payload_of(out.body), None);

    let mut forward = match service.call(&get("/"), ()) {
        OverlayFuture::Inner { inner } => inner,
        _ => panic!("the root is no path of the middleware"),
    };
    let mut page = html("<p>hi</p>");
    page.headers.insert(CONTENT_TYPE, HeaderValue::from_static("application/xhtml+xml"));
    let out = match forward.response.poll::<_, ()>(Progress::Ready(Ok(page))) {
        Progress::Ready(Ok(out)) => out,
        _ => panic!("a response that is ready stays ready"),
    };
    assert!(payload_of(out.body).is_some());
}

#[test]
fn middleware_hands_out_the_wrapped_handler() {
    let mut service = LiveReloadLayer::default().layer(Vec::<u8>::new());
    service.service_mut().push(1);
    let mut copy = service.clone();
    copy.service_mut().push(2);
    assert_eq!(service.service_mut().as_slice(), &[1]);
    assert_eq!(copy.service_mut().as_slice(), &[1, 2]);
}

#[test]
fn script_is_one_closed_script_element() {
    let text = tag("/_tower-livereload/event-stream", 1000);
    assert!(text.starts_with("<script data-event-stream=\"/_tower-livereload/event-stream\" data-retry=\"1000\">"));
    assert!(text.ends_with("</script>"));
    assert_eq!(text.matches("</script>").count(), 1);
    assert!(RELOAD_SCRIPT.starts_with("(function () {\n  var script = document.currentScript;\n"));
    assert!(RELOAD_SCRIPT.ends_with("  listen();\n})();\n"));
    assert!(!RELOAD_SCRIPT.contains("</script"));
    assert!(RELOAD_SCRIPT.contains("EventSource"));
    assert!(RELOAD_SCRIPT.contains("data-event-stream"));
    assert!(RELOAD_SCRIPT.contains("data-retry"));
    assert!(RELOAD_SCRIPT.contains("reload"));
}
